//! Builds the command line for the Internet Download Manager executable.
//!
//! The library holds a download request (tool location, mode, source URL and
//! optional destination directory and file name) and derives, with a proved
//! contract, the ordered argument list handed to the tool.

pub mod laws;
pub mod request;

pub use request::{idman, Mode, RequestView, DEFAULT_IDM_PATH};
