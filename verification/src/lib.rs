//! Turns a free-text question into a call against one of two text-completion
//! providers. The caller's single opaque token encodes which provider, which
//! engine and which downstream secret to use. This crate holds the domain
//! logic: token decoding, prompt templating, provider-specific request
//! construction, response extraction, and the local-first dispatch policy.
//! The surrounding binaries do the argument handling and the actual HTTP
//! traffic and hand plain values in and out.

pub mod adapter;
pub mod dispatch;
pub mod json_text;
pub mod jsonio;
pub mod prompt;
pub mod server;
pub mod strutil;
pub mod token;

pub use jsonio::Error;
pub use token::Completion;
pub use token::CompletionProvider;
pub use token::Question;
