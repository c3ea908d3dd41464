//! File listing, download and upload: request decoding, response building,
//! path containment and the transfer state machines.

pub mod paths;
pub mod requests;
pub mod timeouts;
pub mod transfer;
pub mod upload;
