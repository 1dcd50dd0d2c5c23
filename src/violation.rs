use vstd::prelude::*;

verus! {

/// A value as it is quoted in a violation report.
#[derive(Debug, Clone)]
pub enum ReportValue {
    Int(i128),
    Text(String),
}

/// Mathematical model of a [`ReportValue`].
pub enum ReportModel {
    Int(int),
    Text(Seq<char>),
}

impl View for ReportValue {
    type V = ReportModel;

    open spec fn view(&self) -> ReportModel {
        match self {
            ReportValue::Int(i) => ReportModel::Int(*i as int),
            ReportValue::Text(s) => ReportModel::Text(s@),
        }
    }
}

/// One failed constraint: a rule code, the field(s) it concerns and the
/// values involved.
#[derive(Debug, Clone)]
pub enum Violation {
    /// A constraint on a single field failed.
    Field { code: String, name: String, actual: ReportValue, expected: ReportValue },
    /// A relation between two fields failed.
    Relation {
        code: String,
        name1: String,
        value1: ReportValue,
        name2: String,
        value2: ReportValue,
    },
}

/// Mathematical model of a [`Violation`].
pub enum ViolationModel {
    Field { code: Seq<char>, name: Seq<char>, actual: ReportModel, expected: ReportModel },
    Relation {
        code: Seq<char>,
        name1: Seq<char>,
        value1: ReportModel,
        name2: Seq<char>,
        value2: ReportModel,
    },
}

impl View for Violation {
    type V = ViolationModel;

    open spec fn view(&self) -> ViolationModel {
        match self {
            Violation::Field { code, name, actual, expected } => ViolationModel::Field {
                code: code@,
                name: name@,
                actual: actual@,
                expected: expected@,
            },
            Violation::Relation { code, name1, value1, name2, value2 } => ViolationModel::Relation {
                code: code@,
                name1: name1@,
                value1: value1@,
                name2: name2@,
                value2: value2@,
            },
        }
    }
}

impl ViolationModel {
    /// The names of the fields that the violation concerns, in order.
    pub open spec fn field_names(self) -> Seq<Seq<char>> {
        match self {
            ViolationModel::Field { name, .. } => seq![name],
            ViolationModel::Relation { name1, name2, .. } => seq![name1, name2],
        }
    }
}

/// The models of a list of violations, in order.
pub open spec fn models(vs: Seq<Violation>) -> Seq<ViolationModel> {
    vs.map_values(|v: Violation| v@)
}

/// The list that holds the model of `o`, if there is one.
pub open spec fn opt_seq(o: Option<ViolationModel>) -> Seq<ViolationModel> {
    match o {
        Some(v) => seq![v],
        None => seq![],
    }
}

/// The model of an optional violation.
pub open spec fn opt_model(o: Option<Violation>) -> Option<ViolationModel> {
    match o {
        Some(v) => Some(v@),
        None => None,
    }
}

/// A failed validation: a non-empty list of violations.
#[derive(Debug, Clone)]
pub struct ValidationError {
    pub violations: Vec<Violation>,
}

impl ValidationError {
    /// The models of the violations, in the order they were found.
    pub open spec fn model(&self) -> Seq<ViolationModel> {
        models(self.violations@)
    }
}

/// Appends the violation that `found` holds, if any.
pub(crate) fn push_found(vs: &mut Vec<Violation>, found: Option<Violation>)
    ensures
        models(final(vs)@) == models(old(vs)@) + opt_seq(opt_model(found)),
{
    match found {
        Some(v) => {
            vs.push(v);
            assert(models(vs@) =~= models(old(vs)@) + opt_seq(opt_model(found)));
        },
        None => {
            assert(models(vs@) =~= models(old(vs)@) + opt_seq(opt_model(found)));
        },
    }
}

} // verus!
