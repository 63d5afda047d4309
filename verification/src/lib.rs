//! A native bridge that hands a fixed greeting to a Java host.
//!
//! The host calls one function with its execution environment and the calling
//! object, and receives a Java string that holds the greeting.

pub mod bridge;
pub mod greeting;
pub mod host;

pub use bridge::string_or_fatal;
pub use bridge::BridgeError;
pub use bridge::Java_dev_rodroid_rust_MainActivity_callRustCode;
pub use greeting::greeting;
