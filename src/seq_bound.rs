use vstd::prelude::*;

use crate::property::HasSameVariant;
use crate::violation::{ReportModel, ReportValue};

verus! {

/// A sequence-generation parameter: one value for every element, or one
/// value per element.
#[derive(Debug, Clone)]
pub enum SeqBound {
    Uniform(i32),
    Multiform(Vec<i32>),
}

/// Mathematical model of a [`SeqBound`].
pub enum SeqBoundModel {
    Uniform(int),
    Multiform(Seq<i32>),
}

impl View for SeqBound {
    type V = SeqBoundModel;

    open spec fn view(&self) -> SeqBoundModel {
        match self {
            SeqBound::Uniform(v) => SeqBoundModel::Uniform(*v as int),
            SeqBound::Multiform(vs) => SeqBoundModel::Multiform(vs@),
        }
    }
}

/// The name of the shape of `b`, as violation reports quote it.
pub open spec fn variant_tag(b: SeqBound) -> Seq<char> {
    match b {
        SeqBound::Uniform(_) => "Uniform"@,
        SeqBound::Multiform(_) => "Multiform"@,
    }
}

impl HasSameVariant for SeqBound {
    open spec fn same_variant_spec(&self, other: &Self) -> bool {
        (self is Uniform && other is Uniform) || (self is Multiform && other is Multiform)
    }

    fn same_variant(&self, other: &Self) -> (r: bool) {
        match (self, other) {
            (SeqBound::Uniform(_), SeqBound::Uniform(_)) => true,
            (SeqBound::Multiform(_), SeqBound::Multiform(_)) => true,
            (_, _) => false,
        }
    }
}

impl SeqBound {
    /// Describes the shape of the value for a violation report; the payload is
    /// left out.
    pub fn describe(&self) -> (r: ReportValue)
        ensures
            r@ == ReportModel::Text(variant_tag(*self)),
    {
        match self {
            SeqBound::Uniform(_) => ReportValue::Text(String::from_str("Uniform")),
            SeqBound::Multiform(_) => ReportValue::Text(String::from_str("Multiform")),
        }
    }
}

} // verus!
