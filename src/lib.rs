//! Host side of the browser native-messaging protocol: length-prefixed JSON
//! frames over a byte stream, the decisions of the dispatch loop, and the
//! path and manifest rules of the host installer.
pub mod dispatch;
pub mod error;
pub mod frame;
pub mod install;
pub mod json;
pub mod prefix;
pub mod stream;
pub mod text;
