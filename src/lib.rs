pub mod data;
pub mod json_rpc;
pub mod constraint;
pub mod property;
pub mod requests;
pub mod seq_bound;
pub mod validations;
pub mod violation;

pub use constraint::{Bound, EveryElement, Length, SameVariant};
pub use property::{HasIter, HasSameVariant};
pub use seq_bound::{SeqBound, SeqBoundModel};
pub use violation::{ReportModel, ReportValue, ValidationError, Violation, ViolationModel};
pub use validations::RequestError;
pub use data::{RandomData, RandomStringCharSet};
