//! Decoder for a compiler-emitted, big-endian exception table: per-function
//! unwind metadata mapping program-counter ranges to chains of cleanup and
//! catch action records. The decoder turns a raw byte buffer into a structured
//! table (header flags, PC ranges, action records, and the relocatable
//! destructor-address fields found inside those records), and a renderer turns
//! the decoded table plus a caller-supplied destructor name list into
//! diagnostic text.

pub mod action;
pub mod record;
pub mod table;
pub mod decoder;
pub mod numfmt;
pub mod render;
pub mod cursor;
pub mod error;

pub use action::ExAction;
pub use error::ExtabDecodeError;
pub use record::{ExActionData, ExceptionAction};
pub use table::{ExceptionTableData, PCAction, Relocation};
pub use decoder::decode_extab;
