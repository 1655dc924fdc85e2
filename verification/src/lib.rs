//! Client-side logic for unlocking a running secret-keyring service over its
//! unix-socket control channel: locating the channel endpoint, framing an
//! unlock request in the service's binary wire format, and interpreting the
//! service's binary response.

pub mod client;
pub mod codec;
pub mod errors;
pub mod locator;
