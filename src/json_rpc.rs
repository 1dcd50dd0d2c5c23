use rand::Rng;
use vstd::prelude::*;

verus! {

#[verifier::external_type_specification]
#[verifier::external_body]
#[verifier::reject_recursive_types(K)]
#[verifier::reject_recursive_types(V)]
pub struct ExJsonMap<K, V>(serde_json::Map<K, V>);

#[verifier::external_type_specification]
#[verifier::external_body]
pub struct ExJsonValue(serde_json::Value);

/// An ordered mapping from parameter names to JSON values.
pub type Params = serde_json::Map<String, serde_json::Value>;

/// Mathematical model of a JSON value, as far as the library reads one.
pub enum JsonModel {
    Bool(bool),
    Int(int),
    Text(Seq<char>),
    Object(Map<Seq<char>, JsonModel>),
    /// A value of another kind (null, a fraction, an array).
    Other,
}

/// The entries that a JSON object holds, by key.
pub uninterp spec fn json_entries(m: Params) -> Map<Seq<char>, JsonModel>;

/// Relies on `serde_json::Map::new`: the object starts empty.
#[verifier::external_body]
pub(crate) fn empty_object() -> (r: Params)
    ensures
        json_entries(r).is_empty(),
{
    serde_json::Map::new()
}

/// Relies on `serde_json::Map::insert`, with `Value::from(&str)`: the key
/// now maps to the JSON string `v`, and the other entries stay.
#[verifier::external_body]
pub(crate) fn insert_text(m: &mut Params, k: String, v: &str)
    ensures
        json_entries(*final(m)) == json_entries(*old(m)).insert(k@, JsonModel::Text(v@)),
{
    m.insert(k, serde_json::Value::from(v));
}

/// Relies on `serde_json::Map::insert`, with `Value::from(i64)`: the key now
/// maps to the JSON integer `v`, and the other entries stay.
#[verifier::external_body]
pub(crate) fn insert_number(m: &mut Params, k: String, v: i64)
    ensures
        json_entries(*final(m)) == json_entries(*old(m)).insert(k@, JsonModel::Int(v as int)),
{
    m.insert(k, serde_json::Value::from(v));
}

/// Relies on `serde_json::Map::insert`, with `Value::from(bool)`: the key now
/// maps to the JSON boolean `v`, and the other entries stay.
#[verifier::external_body]
pub(crate) fn insert_bool(m: &mut Params, k: String, v: bool)
    ensures
        json_entries(*final(m)) == json_entries(*old(m)).insert(k@, JsonModel::Bool(v)),
{
    m.insert(k, serde_json::Value::from(v));
}

/// Relies on `serde_json::Map::insert`, with `Value::Object`: the key now
/// maps to the nested object `v`, and the other entries stay.
#[verifier::external_body]
pub(crate) fn insert_object(m: &mut Params, k: String, v: Params)
    ensures
        json_entries(*final(m)) == json_entries(*old(m)).insert(
            k@,
            JsonModel::Object(json_entries(v)),
        ),
{
    m.insert(k, serde_json::Value::Object(v));
}

/// Relies on `rand::thread_rng().gen()`: a uniformly drawn `u32`, of which
/// nothing is promised.
#[verifier::external_body]
fn draw_id() -> (r: u32) {
    rand::thread_rng().gen()
}

/// A remote procedure call before it is framed: a method name and its
/// parameters.
#[derive(Debug)]
pub struct RpcCall {
    pub name: String,
    pub params: Params,
}

impl RpcCall {
    pub fn new(name: String, params: Params) -> (r: RpcCall)
        ensures
            r.name@ == name@,
            r.params == params,
    {
        RpcCall { name, params }
    }
}

/// The wire request of a call: method, parameters and correlation id.
#[derive(Debug)]
pub struct RpcPayload {
    pub method: String,
    pub params: Params,
    pub id: u32,
}

/// The top-level keys of every framed request.
pub open spec fn payload_keys() -> Set<Seq<char>> {
    set!["jsonrpc"@, "method"@, "params"@, "id"@]
}

/// The entries of the framed request of `method` with `params` under `id`.
pub open spec fn payload_entries(method: Seq<char>, params: Params, id: u32) -> Map<
    Seq<char>,
    JsonModel,
> {
    map![
        "jsonrpc"@ => JsonModel::Text("2.0"@),
        "method"@ => JsonModel::Text(method),
        "params"@ => JsonModel::Object(json_entries(params)),
        "id"@ => JsonModel::Int(id as int),
    ]
}

impl RpcPayload {
    pub fn new(method: String, params: Params, id: u32) -> (r: RpcPayload)
        ensures
            r.method@ == method@,
            r.params == params,
            r.id == id,
    {
        RpcPayload { method, params, id }
    }

    /// Frames `call` under a freshly drawn correlation id.
    pub fn from(call: RpcCall) -> (r: RpcPayload)
        ensures
            r.method@ == call.name@,
            r.params == call.params,
    {
        let id = draw_id();
        RpcPayload::new(call.name, call.params, id)
    }

    /// The JSON object sent on the wire: exactly the keys `jsonrpc`,
    /// `method`, `params` and `id`, with `jsonrpc` the string `"2.0"`.
    pub fn to_object(self) -> (r: Params)
        ensures
            json_entries(r).dom() == payload_keys(),
            json_entries(r) == payload_entries(self.method@, self.params, self.id),
    {
        let ghost (method, params, id) = (self.method@, self.params, self.id);
        let mut obj = empty_object();
        insert_text(&mut obj, String::from_str("jsonrpc"), "2.0");
        insert_text(&mut obj, String::from_str("method"), self.method.as_str());
        insert_object(&mut obj, String::from_str("params"), self.params);
        insert_number(&mut obj, String::from_str("id"), self.id as i64);
        assert(json_entries(obj) =~= payload_entries(method, params, id));
        assert(json_entries(obj).dom() =~= payload_keys());
        obj
    }
}

} // verus!
