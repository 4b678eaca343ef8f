//! Login and session handling for a command-line remote control of a music
//! streaming service: the OAuth2 authorization-code flow with PKCE, the
//! redirect that carries the code back, and the token lifecycle after it.

pub mod api;
pub mod args;
pub mod auth;
pub mod config;
pub mod http;
pub mod pkce;
pub mod redirect;
pub mod session;
pub mod token;
