use vstd::prelude::*;

use crate::property::HasSameVariant;
use crate::seq_bound::{variant_tag, SeqBound};
use crate::violation::{
    models, opt_model, opt_seq, ReportModel, ReportValue, ValidationError, Violation,
    ViolationModel,
};

verus! {

pub open spec fn closed_min_code() -> Seq<char> {
    "invalid-bound-closed-min"@
}

pub open spec fn closed_max_code() -> Seq<char> {
    "invalid-bound-closed-max"@
}

pub open spec fn length_exact_code() -> Seq<char> {
    "invalid-length-exact"@
}

/// A field violation in the model.
pub open spec fn field_violation(code: Seq<char>, name: Seq<char>, actual: int, expected: int) -> ViolationModel {
    ViolationModel::Field {
        code,
        name,
        actual: ReportModel::Int(actual),
        expected: ReportModel::Int(expected),
    }
}

/// A scalar range constraint.
#[derive(Debug, Clone, Copy)]
pub enum Bound {
    /// The value must lie in `[lo, hi]`, both ends included.
    ClosedRange(i64, i64),
}

impl Bound {
    pub open spec fn lo(self) -> int {
        match self {
            Bound::ClosedRange(lo, _) => lo as int,
        }
    }

    pub open spec fn hi(self) -> int {
        match self {
            Bound::ClosedRange(_, hi) => hi as int,
        }
    }

    /// Whether `v` lies within the bound.
    pub open spec fn holds(self, v: int) -> bool {
        self.lo() <= v <= self.hi()
    }

    /// The violation that checking `v` under `name` reports, if any: the lower
    /// end is tested first.
    pub open spec fn violation(self, name: Seq<char>, v: int) -> Option<ViolationModel> {
        if v < self.lo() {
            Some(field_violation(closed_min_code(), name, v, self.lo()))
        } else if v > self.hi() {
            Some(field_violation(closed_max_code(), name, v, self.hi()))
        } else {
            None
        }
    }

    /// Checks `value`, reported as field `name`, against the bound.
    pub fn check(&self, value: i64, name: &str) -> (r: Option<Violation>)
        ensures
            opt_model(r) == self.violation(name@, value as int),
            r is None <==> self.holds(value as int),
    {
        match *self {
            Bound::ClosedRange(lo, hi) => {
                if value < lo {
                    Some(Violation::Field {
                        code: String::from_str("invalid-bound-closed-min"),
                        name: name.to_owned(),
                        actual: ReportValue::Int(value as i128),
                        expected: ReportValue::Int(lo as i128),
                    })
                } else if value > hi {
                    Some(Violation::Field {
                        code: String::from_str("invalid-bound-closed-max"),
                        name: name.to_owned(),
                        actual: ReportValue::Int(value as i128),
                        expected: ReportValue::Int(hi as i128),
                    })
                } else {
                    None
                }
            },
        }
    }

    /// Validates `value`, reported as field `name`: the value itself on
    /// success, else the single violation found.
    pub fn validate(&self, value: i64, name: &str) -> (r: Result<i64, ValidationError>)
        ensures
            self.holds(value as int) ==> r == Ok::<i64, ValidationError>(value),
            !self.holds(value as int) ==> (r matches Err(e) && e.model() == opt_seq(
                self.violation(name@, value as int),
            )),
    {
        match self.check(value, name) {
            None => Ok(value),
            Some(v) => {
                let ghost m = v@;
                let violations = vec![v];
                assert(models(violations@) =~= seq![m]);
                Err(ValidationError { violations })
            },
        }
    }
}


/// An exact-length constraint on a sequence.
#[derive(Debug, Clone, Copy)]
pub enum Length {
    /// The sequence must hold exactly this many elements.
    Exact(usize),
}

impl Length {
    pub open spec fn expected(self) -> int {
        match self {
            Length::Exact(n) => n as int,
        }
    }

    /// The violation that a sequence of `len` elements, reported as field
    /// `name`, gives, if any.
    pub open spec fn violation(self, name: Seq<char>, len: int) -> Option<ViolationModel> {
        if len != self.expected() {
            Some(field_violation(length_exact_code(), name, len, self.expected()))
        } else {
            None
        }
    }

    /// Checks the length of `values`, reported as field `name`.
    pub fn check(&self, values: &Vec<i32>, name: &str) -> (r: Option<Violation>)
        ensures
            opt_model(r) == self.violation(name@, values@.len() as int),
    {
        let len = values.len();
        match *self {
            Length::Exact(n) => {
                if len != n {
                    Some(Violation::Field {
                        code: String::from_str("invalid-length-exact"),
                        name: name.to_owned(),
                        actual: ReportValue::Int(len as i128),
                        expected: ReportValue::Int(n as i128),
                    })
                } else {
                    None
                }
            },
        }
    }
}

/// The decimal digits of `n`, most significant first.
pub open spec fn decimal(n: nat) -> Seq<char>
    decreases n,
{
    let digit = seq!['0', '1', '2', '3', '4', '5', '6', '7', '8', '9'][(n % 10) as int];
    if n < 10 {
        seq![digit]
    } else {
        decimal(n / 10).push(digit)
    }
}

/// The name under which element `i` of field `name` is reported: `name[i]`.
pub open spec fn element_name(name: Seq<char>, i: nat) -> Seq<char> {
    name + seq!['['] + decimal(i) + seq![']']
}

/// Relies on `ToString` for `usize`: it writes the number in decimal.
#[verifier::external_body]
fn decimal_text(i: usize) -> (r: String)
    ensures
        r@ == decimal(i as nat),
{
    i.to_string()
}

/// Builds the report name of element `i` of field `name`.
pub fn element_field_name(name: &str, i: usize) -> (r: String)
    ensures
        r@ == element_name(name@, i as nat),
{
    let digits = decimal_text(i);
    let mut r = name.to_owned();
    r.append("[");
    r.append(digits.as_str());
    r.append("]");
    proof {
        reveal_strlit("[");
        reveal_strlit("]");
    }
    assert(r@ =~= element_name(name@, i as nat));
    r
}

/// Applies the inner constraint to every element of a sequence, and stops at
/// the first element that fails it.
#[derive(Debug, Clone, Copy)]
pub struct EveryElement<C>(pub C);

/// The first violation that `bound` reports on the elements of `xs` from
/// index `i` on, each named `name[index]`.
pub open spec fn first_violation(bound: Bound, name: Seq<char>, xs: Seq<i32>, i: nat) -> Option<ViolationModel>
    decreases xs.len() - i,
{
    if i >= xs.len() {
        None
    } else {
        let v = bound.violation(element_name(name, i), xs[i as int] as int);
        if v is Some {
            v
        } else {
            first_violation(bound, name, xs, i + 1)
        }
    }
}

proof fn lemma_first_violation_none(bound: Bound, name: Seq<char>, xs: Seq<i32>, i: nat)
    requires
        i <= xs.len(),
    ensures
        first_violation(bound, name, xs, i) is None <==> (forall|j: int|
            i <= j < xs.len() ==> #[trigger] bound.holds(xs[j] as int)),
    decreases xs.len() - i,
{
    if i < xs.len() {
        lemma_first_violation_none(bound, name, xs, i + 1);
        if !bound.holds(xs[i as int] as int) {
        }
    }
}

impl EveryElement<Bound> {
    /// The violation of the whole check: the one of the first failing
    /// element.
    pub open spec fn violation(self, name: Seq<char>, xs: Seq<i32>) -> Option<ViolationModel> {
        first_violation(self.0, name, xs, 0)
    }

    /// Checks every element of `values`, reported as `name[index]`, against
    /// the bound; the values come back unchanged on success.
    pub fn validate(&self, values: Vec<i32>, name: &str) -> (r: Result<Vec<i32>, ValidationError>)
        ensures
            self.violation(name@, values@) is None <==> (forall|j: int|
                0 <= j < values@.len() ==> #[trigger] self.0.holds(values@[j] as int)),
            self.violation(name@, values@) is None ==> (r matches Ok(v) && v@ == values@),
            self.violation(name@, values@) is Some ==> (r matches Err(e) && e.model() == opt_seq(
                self.violation(name@, values@),
            )),
    {
        proof {
            lemma_first_violation_none(self.0, name@, values@, 0);
        }
        match self.find_violation(&values, name) {
            None => Ok(values),
            Some(v) => {
                let ghost m = v@;
                let violations = vec![v];
                assert(models(violations@) =~= seq![m]);
                Err(ValidationError { violations })
            },
        }
    }

    /// The violation of the first element of `values` that fails the bound.
    pub fn find_violation(&self, values: &Vec<i32>, name: &str) -> (r: Option<Violation>)
        ensures
            opt_model(r) == self.violation(name@, values@),
    {
        let mut i: usize = 0;
        while i < values.len()
            invariant
                i <= values@.len(),
                first_violation(self.0, name@, values@, 0) == first_violation(
                    self.0,
                    name@,
                    values@,
                    i as nat,
                ),
            decreases values@.len() - i,
        {
            let elem_name = element_field_name(name, i);
            let found = self.0.check(values[i] as i64, elem_name.as_str());
            if found.is_some() {
                return found;
            }
            i = i + 1;
        }
        None
    }
}


pub open spec fn same_variant_code() -> Seq<char> {
    "invalid-same-variant"@
}

/// Relation constraint on a pair of [`SeqBound`] values: both must have the
/// same shape.
#[derive(Debug, Clone, Copy)]
pub struct SameVariant;

impl SameVariant {
    /// The violation that the pair `(a, b)`, reported as fields `name1` and
    /// `name2`, gives, if any.
    pub open spec fn violation(a: SeqBound, b: SeqBound, name1: Seq<char>, name2: Seq<char>) -> Option<ViolationModel> {
        if a.same_variant_spec(&b) {
            None
        } else {
            Some(
                ViolationModel::Relation {
                    code: same_variant_code(),
                    name1,
                    value1: ReportModel::Text(variant_tag(a)),
                    name2,
                    value2: ReportModel::Text(variant_tag(b)),
                },
            )
        }
    }

    /// Validates that both values of `pair` have the same shape; the pair
    /// comes back unchanged on success.
    pub fn validate(&self, pair: (SeqBound, SeqBound), name1: &str, name2: &str) -> (r: Result<
        (SeqBound, SeqBound),
        ValidationError,
    >)
        ensures
            pair.0.same_variant_spec(&pair.1) ==> (r matches Ok(p) && p.0@ == pair.0@ && p.1@
                == pair.1@),
            !pair.0.same_variant_spec(&pair.1) ==> (r matches Err(e) && e.model() == opt_seq(
                SameVariant::violation(pair.0, pair.1, name1@, name2@),
            )),
    {
        if pair.0.same_variant(&pair.1) {
            Ok(pair)
        } else {
            let v = Violation::Relation {
                code: String::from_str("invalid-same-variant"),
                name1: name1.to_owned(),
                value1: pair.0.describe(),
                name2: name2.to_owned(),
                value2: pair.1.describe(),
            };
            let ghost m = v@;
            let violations = vec![v];
            assert(models(violations@) =~= seq![m]);
            Err(ValidationError { violations })
        }
    }
}

} // verus!
