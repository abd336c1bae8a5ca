//! Incoming-call routing for a small phone directory: contacts, default rules
//! matched by regexp, the call log, and mirroring of contacts into LDAP.
pub mod action;
pub mod api;
pub mod assets;
pub mod auth;
pub mod contacts;
pub mod errors;
pub mod forms;
pub mod incoming;
pub mod ldap;
pub mod number;
pub mod paging;
pub mod pattern;
pub mod phone_calls;
pub mod rules;
pub mod text;
