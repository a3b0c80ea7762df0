//! A library to read and write Sphinx inventory files (`objects.inv`), with which
//! documentation sites built by Sphinx let other sites link to their objects.
//!
//! An inventory (version 2 of the format) has a header of four lines,
//!
//! ```txt
//! # Sphinx inventory version 2
//! # Project: <project name>
//! # Version: <full version number>
//! # The remainder of this file is compressed using zlib.
//! ```
//!
//! and a body, zlib-compressed or plain text as the fourth line says, with one
//! record per line:
//!
//! ```txt
//! {name} {domain}:{role} {priority} {uri} {dispname}
//! ```
//!
//! for example `str.join py:method 1 library/stdtypes.html#$ -`.
//!
//! [`SphinxInventoryReader`] reads the header and then the records one by one;
//! [`SphinxInventoryWriter`] collects records and writes an inventory.

pub mod error;
pub mod header;
pub mod priority;
pub mod reader;
pub mod record;
pub mod reference;
pub mod roles;
pub mod text;
pub mod writer;
pub mod zlib;

pub use error::{MalformedReference, MissingHeaderComponent, SphinxInvError, SphinxParseError, UnknownRole};
pub use header::{parse_header, InventoryHeader};
pub use priority::{SphinxPriority, UnknownPriority};
pub use reader::{parse_line, SphinxInventoryReader};
pub use record::{parse_reference, parse_role, LineFailure};
pub use reference::{ReferenceString, SphinxReference};
pub use roles::{
    CRole, CmakeRole, CppRole, Domain, HttpRole, JsRole, MathRole, PyRole, RstRole, SipRole,
    SphinxType, StdRole,
};
pub use writer::{SphinxInventoryWriter, WriteFormat};
