//! Decides whether a regular expression consumes a whole haystack.
//!
//! The library holds the invocation model (`command`), the resolution of
//! where the pattern and haystack come from and the validation of the
//! matching options (`resolve`), and the call into the regex engine
//! together with the exit status derived from it (`engine`).
pub mod command;
pub mod resolve;
pub mod engine;
