//! Connection manager of a serial monitor: the handle that owns the open
//! port, the decisions of the background reader, and the writer path.

pub mod link;
pub mod reader;
