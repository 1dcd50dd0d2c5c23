use vstd::prelude::*;

use crate::data::RandomStringCharSet;
use crate::json_rpc::{
    empty_object, insert_bool, insert_number, insert_text, json_entries, JsonModel, RpcCall,
};
use crate::validations::{
    generate_gaussians, generate_integers, generate_strings, generate_uuids, gaussians_violations,
    integers_violations, strings_violations, uuids_violations, RequestError,
};

verus! {

/// The parameters of a request for random integers.
pub open spec fn integers_entries(api_key: Seq<char>, n: u16, min: i32, max: i32, replacement: bool) -> Map<
    Seq<char>,
    JsonModel,
> {
    map![
        "apiKey"@ => JsonModel::Text(api_key),
        "n"@ => JsonModel::Int(n as int),
        "min"@ => JsonModel::Int(min as int),
        "max"@ => JsonModel::Int(max as int),
        "replacement"@ => JsonModel::Bool(replacement),
    ]
}

/// The parameters of a request for random strings.
pub open spec fn strings_entries(
    api_key: Seq<char>,
    n: u16,
    length: u8,
    characters: Seq<char>,
    replacement: bool,
) -> Map<Seq<char>, JsonModel> {
    map![
        "apiKey"@ => JsonModel::Text(api_key),
        "n"@ => JsonModel::Int(n as int),
        "length"@ => JsonModel::Int(length as int),
        "characters"@ => JsonModel::Text(characters),
        "replacement"@ => JsonModel::Bool(replacement),
    ]
}

/// The parameters of a request for gaussians.
pub open spec fn gaussians_entries(api_key: Seq<char>, n: u16, mean: i32, std_dev: i32, sig_digits: u8) -> Map<
    Seq<char>,
    JsonModel,
> {
    map![
        "apiKey"@ => JsonModel::Text(api_key),
        "n"@ => JsonModel::Int(n as int),
        "mean"@ => JsonModel::Int(mean as int),
        "standardDeviation"@ => JsonModel::Int(std_dev as int),
        "significantDigits"@ => JsonModel::Int(sig_digits as int),
    ]
}

/// The parameters of a request for UUIDs.
pub open spec fn uuids_entries(api_key: Seq<char>, n: u16) -> Map<Seq<char>, JsonModel> {
    map!["apiKey"@ => JsonModel::Text(api_key), "n"@ => JsonModel::Int(n as int)]
}

/// The call for random integers, once its parameters are valid.
pub fn integers_call(api_key: &str, n: u16, min: i32, max: i32, replacement: bool) -> (r: Result<
    RpcCall,
    RequestError,
>)
    ensures
        r is Ok <==> (1 <= n <= 1000 && -1_000_000_000 <= min <= 1_000_000_000 && -1_000_000_000
            <= max <= 1_000_000_000),
        r matches Err(e) ==> e is Invalid && e.violations() == integers_violations(n, min, max),
        r matches Ok(c) ==> c.name@ == "generateIntegers"@ && json_entries(c.params)
            == integers_entries(api_key@, n, min, max, replacement),
{
    let (n, min, max) = match generate_integers(n, min, max) {
        Ok(t) => t,
        Err(e) => {
            return Err(e);
        },
    };
    let mut params = empty_object();
    insert_text(&mut params, String::from_str("apiKey"), api_key);
    insert_number(&mut params, String::from_str("n"), n as i64);
    insert_number(&mut params, String::from_str("min"), min as i64);
    insert_number(&mut params, String::from_str("max"), max as i64);
    insert_bool(&mut params, String::from_str("replacement"), replacement);
    assert(json_entries(params) =~= integers_entries(api_key@, n, min, max, replacement));
    Ok(RpcCall::new(String::from_str("generateIntegers"), params))
}

/// The call for random strings over `char_set`, once its parameters are
/// valid.
pub fn strings_call(
    api_key: &str,
    n: u16,
    length: u8,
    char_set: &RandomStringCharSet,
    replacement: bool,
) -> (r: Result<RpcCall, RequestError>)
    ensures
        r is Ok <==> (1 <= n <= 10_000 && 1 <= length <= 32),
        r matches Err(e) ==> e is Invalid && e.violations() == strings_violations(n, length),
        r matches Ok(c) ==> c.name@ == "generateStrings"@ && json_entries(c.params)
            == strings_entries(api_key@, n, length, char_set.chars(), replacement),
{
    let (n, length) = match generate_strings(n, length) {
        Ok(t) => t,
        Err(e) => {
            return Err(e);
        },
    };
    let mut params = empty_object();
    insert_text(&mut params, String::from_str("apiKey"), api_key);
    insert_number(&mut params, String::from_str("n"), n as i64);
    insert_number(&mut params, String::from_str("length"), length as i64);
    insert_text(&mut params, String::from_str("characters"), char_set.to_str());
    insert_bool(&mut params, String::from_str("replacement"), replacement);
    assert(json_entries(params) =~= strings_entries(api_key@, n, length, char_set.chars(), replacement));
    Ok(RpcCall::new(String::from_str("generateStrings"), params))
}

/// The call for gaussians, once its parameters are valid.
pub fn gaussians_call(api_key: &str, n: u16, mean: i32, std_dev: i32, sig_digits: u8) -> (r:
    Result<RpcCall, RequestError>)
    ensures
        r is Ok <==> (1 <= n <= 10_000 && -1_000_000 <= mean <= 1_000_000 && -1_000_000 <= std_dev
            <= 1_000_000 && 2 <= sig_digits <= 14),
        r matches Err(e) ==> e is Invalid && e.violations() == gaussians_violations(
            n,
            mean,
            std_dev,
            sig_digits,
        ),
        r matches Ok(c) ==> c.name@ == "generateGaussians"@ && json_entries(c.params)
            == gaussians_entries(api_key@, n, mean, std_dev, sig_digits),
{
    let (n, mean, std_dev, sig_digits) = match generate_gaussians(n, mean, std_dev, sig_digits) {
        Ok(t) => t,
        Err(e) => {
            return Err(e);
        },
    };
    let mut params = empty_object();
    insert_text(&mut params, String::from_str("apiKey"), api_key);
    insert_number(&mut params, String::from_str("n"), n as i64);
    insert_number(&mut params, String::from_str("mean"), mean as i64);
    insert_number(&mut params, String::from_str("standardDeviation"), std_dev as i64);
    insert_number(&mut params, String::from_str("significantDigits"), sig_digits as i64);
    assert(json_entries(params) =~= gaussians_entries(api_key@, n, mean, std_dev, sig_digits));
    Ok(RpcCall::new(String::from_str("generateGaussians"), params))
}

/// The call for UUIDs, once their number is valid.
pub fn uuids_call(api_key: &str, n: u16) -> (r: Result<RpcCall, RequestError>)
    ensures
        r is Ok <==> 1 <= n <= 1000,
        r matches Err(e) ==> e is Invalid && e.violations() == uuids_violations(n),
        r matches Ok(c) ==> c.name@ == "generateUUIDs"@ && json_entries(c.params)
            == uuids_entries(api_key@, n),
{
    let n = match generate_uuids(n) {
        Ok(t) => t,
        Err(e) => {
            return Err(e);
        },
    };
    let mut params = empty_object();
    insert_text(&mut params, String::from_str("apiKey"), api_key);
    insert_number(&mut params, String::from_str("n"), n as i64);
    assert(json_entries(params) =~= uuids_entries(api_key@, n));
    Ok(RpcCall::new(String::from_str("generateUUIDs"), params))
}

} // verus!
