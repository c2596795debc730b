//! Control-plane logic for local speech-to-text provider runtimes.
pub mod assoc;
pub mod catalog;
pub mod cli;
pub mod config;
pub mod conformance;
pub mod error;
pub mod hardware;
pub mod launch;
pub mod manager;
pub mod manifest;
pub mod providers;
pub mod realtime;
pub mod recognizer;
pub mod recommend;
pub mod routes;
pub mod sherpad;
pub mod supervisor;
pub mod text;
pub mod types;
