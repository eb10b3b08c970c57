//! A shell "command not found" fallback: decides whether the typed command
//! resolves locally and, when it does not, builds one request to a configured
//! model provider and interprets the provider's reply as a suggestion.
pub mod errors;
pub mod json;
pub mod provider;
pub mod reply;
pub mod request;
pub mod run;
pub mod text;
