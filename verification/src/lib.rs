//! Protocol-correctness core of an SMTP client.
//!
//! The library validates server responses against command-level
//! expectations, models ESMTP capability negotiation, and provides the
//! decision logic behind establishing a plaintext or TLS-secured
//! transport. Command serialization, the mail-sending workflow and the
//! actual network I/O live in the layers around this core.

pub mod capability;
pub mod connect;
pub mod error;
pub mod response;
