//! Core of an anonymous, cookie-identified discussion board: identity
//! issuance, content submission, display projection and request-rate
//! containment, each stated over a mathematical model and proved.
//!
//! The library runs no I/O. Where work needs the record store, a function
//! returns the statement to run and takes the store's answer back.
pub mod clock;
pub mod content;
pub mod identity;
pub mod ids;
pub mod pages;
pub mod rate_limit;
pub mod text;
