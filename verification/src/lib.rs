//! Outbound HTTP response sequencing.
//!
//! A [`response::Response`] owns an open byte sink and moves through two
//! phases, reified as distinct types: while *fresh* the status and headers
//! may still be changed and nothing has reached the wire; committing the
//! response writes the status line, the header block and the terminating
//! blank line exactly once, and yields a *streaming* response through which
//! only raw body bytes can be appended.  Misuse — body bytes before the
//! preamble, or header mutation after it — is unrepresentable.

pub mod date;
pub mod header;
pub mod net;
pub mod response;
pub mod rfc7230;
pub mod status;
pub mod version;
