//! Account authentication and lifecycle: registration rules, email
//! verification, brute-force lockout, session and profile caching, and the
//! decisions of the login, logout and profile flows. Storage, transport and
//! token signing are left to the caller; the decisions here are verified.
pub mod address;
pub mod commands;
pub mod date;
pub mod error;
pub mod laws;
pub mod lock_policy;
pub mod login;
pub mod password;
pub mod presentation;
pub mod rules;
pub mod service;
pub mod session_store;
pub mod text;
pub mod token;
pub mod user;
pub mod verification;
