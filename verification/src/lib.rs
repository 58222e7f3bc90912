//! Utilities for normalizing heterogeneous failure shapes into one canonical
//! error type, annotating failures with messages and call sites, and resolving
//! slash-delimited paths into their segments.

pub mod errors;
pub mod paths;
pub mod text;

pub use errors::Debugging;
pub use errors::ErrorAnyhow;
pub use errors::OptionAnyhow;
pub use errors::SourceLocation;
pub use errors::StringAnyhow;
