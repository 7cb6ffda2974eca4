//! Text-encoding detection for byte buffers.
//!
//! A buffer is classified as UTF-8, UTF-8 with a byte-order mark, UTF-16 in
//! either byte order, or binary. Recognised text is decoded together with the
//! encoding it was found in, so that it can later be written back byte for
//! byte.

pub mod code_units;
pub mod constants;
pub mod encoding;
pub mod file;
pub mod guarantees;
pub mod std_specs;
pub mod text_data;
pub mod utf16;

pub use encoding::Encoding;
pub use file::read_from_reader;
pub use file::File;
pub use file::FileContent;
pub use file::FileError;
pub use text_data::TextData;
pub use text_data::TextDataError;
