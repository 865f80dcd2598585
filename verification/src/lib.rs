//! A verified model of a vtable-based foreign object protocol: 128-bit
//! identifiers, status codes, interface table layouts, object handles with an
//! acquire/release discipline, the calls into the object broker, and the
//! sequence that shows the shell's "Run" dialog.

pub mod broker;
pub mod guid;
pub mod handle;
pub mod report;
pub mod run;
pub mod status;
pub mod table;
pub mod text;
pub mod types;
