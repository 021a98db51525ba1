//! Uniform error representation for a desktop HTTP client backend.
//!
//! Every failure raised by one of the backend's subsystems is collapsed into
//! an [`HTTPulseError`]: the failure's own display text plus a tag from the
//! closed [`Category`] set naming the subsystem it came from.

pub mod category;
pub mod convert;
pub mod error;
pub mod source;

pub use crate::category::Category;
pub use crate::error::HTTPulseError;
pub use crate::error::WireShape;
pub use crate::source::SourceKind;
