//! Decoding, validation and re-encoding of Portable Executable (PE) images.
pub mod bytes;
pub mod error;
pub mod file;
pub mod image;
pub mod laws;
pub mod nt;
pub mod parse;
pub mod traits;
pub mod view;
pub mod write;

pub use error::{Error, Reason};
pub use file::File;
pub use nt::{DirectoryEntry, ImportSymbol, NtHeaders, NtKind, Relocation, RelocationKind};
pub use parse::{invalid_data, ImportIterator, ImportTableIterator, RelocationIterator};
pub use traits::PeHeaders;
pub use view::View;
pub use write::write_pe;
