//! Core logic of a mock API server: request routing by URL and headers,
//! mock response planning, request logging, record conversion and the
//! small text protocols (PID files, daemon arguments, paths) around them.

pub mod text;
pub mod numeric;
pub mod strmap;
pub mod models;
pub mod paths;
pub mod reply;
pub mod request;
pub mod routing;
pub mod mock;
pub mod admin;
pub mod service;
pub mod store;
