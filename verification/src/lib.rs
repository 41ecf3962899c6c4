//! Credential capture for browser-only identity providers.
//!
//! The crate holds the decisions of a login session: which provider a key
//! stands for, what the observer script looks like, how a navigation attempt
//! is judged, how the set of open login windows evolves, and how the stored
//! documents of the application are shaped. The host performs the effects.

pub mod text;
pub mod provider;
pub mod signal;
pub mod script;
pub mod paths;
pub mod session;
pub mod json;
pub mod record;
