use vstd::prelude::*;

use crate::constraint::{
    closed_max_code, closed_min_code, field_violation, Bound, EveryElement, Length,
};
use crate::property::HasSameVariant;
use crate::seq_bound::SeqBound;
use crate::violation::{
    models, opt_seq, push_found, ValidationError, Violation, ViolationModel,
};

verus! {

/// Why a request was refused before it was sent.
#[derive(Debug, Clone)]
pub enum RequestError {
    /// One or more parameters broke their constraints.
    Invalid(ValidationError),
    /// The sequence parameters do not all have the same shape.
    MismatchedVariants,
}

impl RequestError {
    /// The violations that the error carries; none for a shape mismatch.
    pub open spec fn violations(self) -> Seq<ViolationModel> {
        match self {
            RequestError::Invalid(e) => e.model(),
            RequestError::MismatchedVariants => seq![],
        }
    }
}

/// Bound of the number of integers, UUIDs and sequences per request.
pub open spec fn count_bound() -> Bound {
    Bound::ClosedRange(1, 1000)
}

/// Bound of the number of strings and gaussians per request.
pub open spec fn large_count_bound() -> Bound {
    Bound::ClosedRange(1, 10_000)
}

/// Bound of integer and sequence element minima and maxima.
pub open spec fn min_max_bound() -> Bound {
    Bound::ClosedRange(-1_000_000_000i64, 1_000_000_000i64)
}

/// Bound of the length of a random string.
pub open spec fn string_length_bound() -> Bound {
    Bound::ClosedRange(1, 32)
}

/// Bound of the mean and standard deviation of gaussians.
pub open spec fn gaussian_bound() -> Bound {
    Bound::ClosedRange(-1_000_000i64, 1_000_000i64)
}

/// Bound of the significant digits of gaussians.
pub open spec fn sig_digits_bound() -> Bound {
    Bound::ClosedRange(2, 14)
}

/// Bound of the length of a sequence.
pub open spec fn sequence_length_bound() -> Bound {
    Bound::ClosedRange(1, 10_000)
}

pub open spec fn integers_violations(n: u16, min: i32, max: i32) -> Seq<ViolationModel> {
    opt_seq(count_bound().violation("n"@, n as int)) + opt_seq(
        min_max_bound().violation("min"@, min as int),
    ) + opt_seq(min_max_bound().violation("max"@, max as int))
}

pub open spec fn strings_violations(n: u16, length: u8) -> Seq<ViolationModel> {
    opt_seq(large_count_bound().violation("n"@, n as int)) + opt_seq(
        string_length_bound().violation("length"@, length as int),
    )
}

pub open spec fn gaussians_violations(n: u16, mean: i32, std_dev: i32, sig_digits: u8) -> Seq<
    ViolationModel,
> {
    opt_seq(large_count_bound().violation("n"@, n as int)) + opt_seq(
        gaussian_bound().violation("mean"@, mean as int),
    ) + opt_seq(gaussian_bound().violation("std_dev"@, std_dev as int)) + opt_seq(
        sig_digits_bound().violation("sig_digits"@, sig_digits as int),
    )
}

pub open spec fn uuids_violations(n: u16) -> Seq<ViolationModel> {
    opt_seq(count_bound().violation("n"@, n as int))
}

/// A count of UUIDs in `[1, 1000]` passes; a count of 0 or 1001 gives one
/// bound violation, on the field `n`.
pub proof fn lemma_uuid_count(n: u16)
    ensures
        uuids_violations(n).len() == 0 <==> 1 <= n <= 1000,
        n == 0 ==> uuids_violations(n) == seq![
            field_violation(closed_min_code(), "n"@, 0, 1),
        ],
        n == 1001 ==> uuids_violations(n) == seq![
            field_violation(closed_max_code(), "n"@, 1001, 1000),
        ],
{
}

/// With a valid count, any minimum and maximum in `[-1e9, 1e9]` pass; a
/// minimum below that range is reported on the field `min`.
pub proof fn lemma_integer_range(n: u16, min: i32, max: i32)
    ensures
        1 <= n <= 1000 && -1_000_000_000 <= min <= 1_000_000_000 && -1_000_000_000 <= max
            <= 1_000_000_000 ==> integers_violations(n, min, max).len() == 0,
        min < -1_000_000_000 ==> exists|i: int|
            0 <= i < integers_violations(n, min, max).len() && #[trigger] integers_violations(
                n,
                min,
                max,
            )[i] == field_violation(closed_min_code(), "min"@, min as int, -1_000_000_000),
{
    if min < -1_000_000_000 {
        let vs = integers_violations(n, min, max);
        let k = opt_seq(count_bound().violation("n"@, n as int)).len();
        assert(vs[k as int] == field_violation(
            closed_min_code(),
            "min"@,
            min as int,
            -1_000_000_000,
        ));
    }
}

/// The error of a validation that found the violations `vs`.
fn invalid(vs: Vec<Violation>) -> (r: RequestError)
    ensures
        r.violations() == models(vs@),
        r is Invalid,
{
    RequestError::Invalid(ValidationError { violations: vs })
}

/// Validates the parameters of a request for random integers: every bound
/// is checked, and all violations are reported in the order n, min, max.
pub fn generate_integers(n: u16, min: i32, max: i32) -> (r: Result<(u16, i32, i32), RequestError>)
    ensures
        r is Ok <==> (1 <= n <= 1000 && -1_000_000_000 <= min <= 1_000_000_000 && -1_000_000_000
            <= max <= 1_000_000_000),
        r is Ok ==> r == Ok::<(u16, i32, i32), RequestError>((n, min, max)),
        r matches Err(e) ==> e is Invalid && e.violations() == integers_violations(n, min, max)
            && e.violations().len() > 0,
{
    let n_bound = Bound::ClosedRange(1, 1000);
    let min_max = Bound::ClosedRange(-1_000_000_000, 1_000_000_000);
    let mut vs: Vec<Violation> = Vec::new();
    assert(models(vs@) =~= seq![]);
    push_found(&mut vs, n_bound.check(n as i64, "n"));
    push_found(&mut vs, min_max.check(min as i64, "min"));
    push_found(&mut vs, min_max.check(max as i64, "max"));
    assert(models(vs@) =~= integers_violations(n, min, max));
    if vs.len() == 0 {
        Ok((n, min, max))
    } else {
        Err(invalid(vs))
    }
}

/// Validates the parameters of a request for random strings, reporting all
/// violations in the order n, length.
pub fn generate_strings(n: u16, length: u8) -> (r: Result<(u16, u8), RequestError>)
    ensures
        r is Ok <==> (1 <= n <= 10_000 && 1 <= length <= 32),
        r is Ok ==> r == Ok::<(u16, u8), RequestError>((n, length)),
        r matches Err(e) ==> e is Invalid && e.violations() == strings_violations(n, length)
            && e.violations().len() > 0,
{
    let n_bound = Bound::ClosedRange(1, 10_000);
    let length_bound = Bound::ClosedRange(1, 32);
    let mut vs: Vec<Violation> = Vec::new();
    assert(models(vs@) =~= seq![]);
    push_found(&mut vs, n_bound.check(n as i64, "n"));
    push_found(&mut vs, length_bound.check(length as i64, "length"));
    assert(models(vs@) =~= strings_violations(n, length));
    if vs.len() == 0 {
        Ok((n, length))
    } else {
        Err(invalid(vs))
    }
}

/// Validates the parameters of a request for gaussians, reporting all
/// violations in the order n, mean, std_dev, sig_digits.
pub fn generate_gaussians(n: u16, mean: i32, std_dev: i32, sig_digits: u8) -> (r: Result<
    (u16, i32, i32, u8),
    RequestError,
>)
    ensures
        r is Ok <==> (1 <= n <= 10_000 && -1_000_000 <= mean <= 1_000_000 && -1_000_000 <= std_dev
            <= 1_000_000 && 2 <= sig_digits <= 14),
        r is Ok ==> r == Ok::<(u16, i32, i32, u8), RequestError>((n, mean, std_dev, sig_digits)),
        r matches Err(e) ==> e is Invalid && e.violations() == gaussians_violations(
            n,
            mean,
            std_dev,
            sig_digits,
        ) && e.violations().len() > 0,
{
    let n_bound = Bound::ClosedRange(1, 10_000);
    let mean_std_dev = Bound::ClosedRange(-1_000_000, 1_000_000);
    let sig_digits_bound = Bound::ClosedRange(2, 14);
    let mut vs: Vec<Violation> = Vec::new();
    assert(models(vs@) =~= seq![]);
    push_found(&mut vs, n_bound.check(n as i64, "n"));
    push_found(&mut vs, mean_std_dev.check(mean as i64, "mean"));
    push_found(&mut vs, mean_std_dev.check(std_dev as i64, "std_dev"));
    push_found(&mut vs, sig_digits_bound.check(sig_digits as i64, "sig_digits"));
    assert(models(vs@) =~= gaussians_violations(n, mean, std_dev, sig_digits));
    if vs.len() == 0 {
        Ok((n, mean, std_dev, sig_digits))
    } else {
        Err(invalid(vs))
    }
}

/// Validates the number of UUIDs of a request.
pub fn generate_uuids(n: u16) -> (r: Result<u16, RequestError>)
    ensures
        r is Ok <==> 1 <= n <= 1000,
        r is Ok ==> r == Ok::<u16, RequestError>(n),
        r matches Err(e) ==> e is Invalid && e.violations() == uuids_violations(n)
            && e.violations().len() == 1 && e.violations()[0].field_names() == seq!["n"@],
{
    let n_bound = Bound::ClosedRange(1, 1000);
    let mut vs: Vec<Violation> = Vec::new();
    assert(models(vs@) =~= seq![]);
    push_found(&mut vs, n_bound.check(n as i64, "n"));
    assert(models(vs@) =~= uuids_violations(n));
    if vs.len() == 0 {
        Ok(n)
    } else {
        Err(invalid(vs))
    }
}


/// The violation of a per-element list reported as field `name`: its length
/// must be `n`, then each element must lie in `bound`.
pub open spec fn list_violation(name: Seq<char>, xs: Seq<i32>, n: usize, bound: Bound) -> Option<
    ViolationModel,
> {
    let len_v = Length::Exact(n).violation(name, xs.len() as int);
    if len_v is Some {
        len_v
    } else {
        EveryElement(bound).violation(name, xs)
    }
}

/// `a` if it holds a violation, else `b`.
pub open spec fn first_of(a: Option<ViolationModel>, b: Option<ViolationModel>) -> Option<
    ViolationModel,
> {
    if a is Some {
        a
    } else {
        b
    }
}

/// Whether length, min and max all have the same shape.
pub open spec fn shapes_agree(length: SeqBound, min: SeqBound, max: SeqBound) -> bool {
    length.same_variant_spec(&min) && min.same_variant_spec(&max)
}

/// The violations of a request for integer sequences whose parameters all
/// have the same shape. With one value each, every bound is checked and all
/// violations are reported; with one value per element the checks run in
/// the order n, length, min, max and stop at the first violation.
pub open spec fn sequences_violations(n: u16, length: SeqBound, min: SeqBound, max: SeqBound) -> Seq<
    ViolationModel,
> {
    match (length, min, max) {
        (SeqBound::Uniform(l), SeqBound::Uniform(lo), SeqBound::Uniform(hi)) => opt_seq(
            count_bound().violation("n"@, n as int),
        ) + opt_seq(sequence_length_bound().violation("length"@, l as int)) + opt_seq(
            min_max_bound().violation("min"@, lo as int),
        ) + opt_seq(min_max_bound().violation("max"@, hi as int)),
        (SeqBound::Multiform(l), SeqBound::Multiform(lo), SeqBound::Multiform(hi)) => opt_seq(
            first_of(
                count_bound().violation("n"@, n as int),
                first_of(
                    list_violation("length"@, l@, n as usize, sequence_length_bound()),
                    first_of(
                        list_violation("min"@, lo@, n as usize, min_max_bound()),
                        list_violation("max"@, hi@, n as usize, min_max_bound()),
                    ),
                ),
            ),
        ),
        _ => seq![],
    }
}

/// Checks the length of `values` against `n`, then each element against
/// `bound`; the values come back unchanged on success.
fn validate_list(values: Vec<i32>, n: usize, name: &str, bound: Bound) -> (r: Result<
    Vec<i32>,
    ValidationError,
>)
    ensures
        list_violation(name@, values@, n, bound) is None ==> (r matches Ok(v) && v@ == values@),
        list_violation(name@, values@, n, bound) is Some ==> (r matches Err(e) && e.model()
            == opt_seq(list_violation(name@, values@, n, bound))),
{
    let exact = Length::Exact(n);
    match exact.check(&values, name) {
        Some(v) => {
            let ghost m = v@;
            let violations = vec![v];
            assert(models(violations@) =~= seq![m]);
            Err(ValidationError { violations })
        },
        None => EveryElement(bound).validate(values, name),
    }
}

/// Validates the parameters of a request for integer sequences. length, min
/// and max must all be given once (`Uniform`) or all per element
/// (`Multiform`): a mix is refused before any bound is checked. On success
/// each parameter comes back in its own shape.
pub fn generate_integer_sequences(n: u16, length: SeqBound, min: SeqBound, max: SeqBound) -> (r:
    Result<(u16, SeqBound, SeqBound, SeqBound), RequestError>)
    ensures
        !shapes_agree(length, min, max) ==> r matches Err(RequestError::MismatchedVariants),
        shapes_agree(length, min, max) && sequences_violations(n, length, min, max).len() == 0
            ==> (r matches Ok(t) && t.0 == n && t.1@ == length@ && t.2@ == min@ && t.3@ == max@),
        shapes_agree(length, min, max) && sequences_violations(n, length, min, max).len() > 0
            ==> (r matches Err(e) && e is Invalid && e.violations() == sequences_violations(
            n,
            length,
            min,
            max,
        )),
{
    let ghost (length0, min0, max0) = (length, min, max);
    let n_bound = Bound::ClosedRange(1, 1000);
    let len_bound = Bound::ClosedRange(1, 10_000);
    let min_max = Bound::ClosedRange(-1_000_000_000, 1_000_000_000);
    match (length, min, max) {
        (SeqBound::Uniform(l), SeqBound::Uniform(lo), SeqBound::Uniform(hi)) => {
            let mut vs: Vec<Violation> = Vec::new();
            assert(models(vs@) =~= seq![]);
            push_found(&mut vs, n_bound.check(n as i64, "n"));
            push_found(&mut vs, len_bound.check(l as i64, "length"));
            push_found(&mut vs, min_max.check(lo as i64, "min"));
            push_found(&mut vs, min_max.check(hi as i64, "max"));
            assert(models(vs@) =~= sequences_violations(n, length0, min0, max0));
            if vs.len() == 0 {
                Ok((n, SeqBound::Uniform(l), SeqBound::Uniform(lo), SeqBound::Uniform(hi)))
            } else {
                Err(invalid(vs))
            }
        },
        (SeqBound::Multiform(l), SeqBound::Multiform(lo), SeqBound::Multiform(hi)) => {
            let found = n_bound.check(n as i64, "n");
            if let Some(v) = found {
                let ghost m = v@;
                let violations = vec![v];
                assert(models(violations@) =~= seq![m]);
                return Err(invalid(violations));
            }
            let count = n as usize;
            let l = match validate_list(l, count, "length", len_bound) {
                Ok(l) => l,
                Err(e) => {
                    return Err(RequestError::Invalid(e));
                },
            };
            let lo = match validate_list(lo, count, "min", min_max) {
                Ok(lo) => lo,
                Err(e) => {
                    return Err(RequestError::Invalid(e));
                },
            };
            let hi = match validate_list(hi, count, "max", min_max) {
                Ok(hi) => hi,
                Err(e) => {
                    return Err(RequestError::Invalid(e));
                },
            };
            Ok((n, SeqBound::Multiform(l), SeqBound::Multiform(lo), SeqBound::Multiform(hi)))
        },
        _ => Err(RequestError::MismatchedVariants),
    }
}

} // verus!
