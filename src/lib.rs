pub mod errors;
pub mod formatter;
pub mod iterator;
pub mod naming;
pub mod natural;
pub mod source;

pub use errors::{FormatError, InputError, SourceError};
pub use formatter::Formatter;
pub use source::{Pattern, SortOrder, Source};
pub use iterator::InputIterator;
