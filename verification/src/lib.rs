//! Keeps a running application server's configuration in step with a file on
//! disk: the error taxonomy, the rules by which one control endpoint is chosen,
//! the filter that turns raw filesystem events into change signals, and the
//! decisions of the loop that pushes each change to the server.
//!
//! The library decides; it performs no I/O. A caller watches the file, probes
//! sockets, sleeps and sends, and hands what it observed to these functions.

pub mod change_filter;
pub mod resolver;
pub mod sync_driver;
pub mod text;
pub mod unitctl_error;
