//! A credential-based user authentication library: it validates registration
//! and login requests, hashes and verifies passwords, enforces username and
//! email uniqueness against a user store, and issues signed bearer tokens.

pub mod configuration;
pub mod domain;
pub mod errors;
pub mod hasher;
pub mod status_handler;
pub mod store;
mod strutil;
pub mod token;
pub mod user_handler;
pub mod validate;
