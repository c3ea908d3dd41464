//! Verified core of the ADACS job controller client: the binary wire format
//! spoken with the job controller server, the database request/response
//! protocol, job lifecycle decisions, file transfer state machines, path
//! containment checks and configuration validation.

pub mod bundle_db;
pub mod bundle_interface;
pub mod bundle_logging;
pub mod bundle_manager;
pub mod config;
pub mod db;
pub mod files;
pub mod jobs;
pub mod message;
pub mod text;
