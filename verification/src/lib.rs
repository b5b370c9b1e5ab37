//! The verified core of a loopback broker between Python clients and the
//! bridges that run inside Adobe applications.
pub mod attest;
pub mod attest_laws;
pub mod bootstrap;
pub mod bootstrap_call;
pub mod bootstrap_laws;
pub mod bootstrap_outcome;
pub mod bootstrap_types;
pub mod broker;
pub mod broker_laws;
pub mod bytes;
pub mod checks;
pub mod config;
pub mod config_laws;
pub mod files;
pub mod helper;
pub mod helper_laws;
pub mod handshake;
pub mod handshake_laws;
pub mod history;
pub mod host;
pub mod identity;
pub mod identity_laws;
pub mod json;
pub mod json_laws;
pub mod laws;
pub mod outside;
pub mod pool;
pub mod pool_laws;
pub mod process;
pub mod protocol;
pub mod receipts;
pub mod runtime;
pub mod settings;
pub mod table;
pub mod text;
pub mod text_laws;
pub mod transaction;
pub mod wire_laws;
