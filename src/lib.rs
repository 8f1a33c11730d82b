//! A single-hop HTTP reverse proxy's verified core: header policy, URL
//! rewriting, request planning and outcome classification, streaming
//! classification, shutdown coordination, and credential-store keying.
pub mod forward;
pub mod headers;
pub mod keychain;
pub mod shutdown;
pub mod text;
pub mod url;
