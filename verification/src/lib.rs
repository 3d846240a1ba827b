//! Well-known directories on Apple systems: which directory is asked for, in
//! which domain, and what the path is that the system's answer spells.

pub mod directory;
pub mod domain;
pub mod lookup;
pub mod query;
pub mod text;

pub use directory::SearchPathDirectory;
pub use domain::SearchPathDomainMask;
pub use lookup::{found_path, resolve_home, resolve_location, LookupFailure};
pub use query::DirectoryQuery;
pub use text::decode_text;
