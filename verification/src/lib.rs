//! TLS credentials for an MQTT client that authenticates with certificates.
//!
//! The TLS layer below the client takes each credential (root CA, device
//! certificate, private key) as PEM text that ends in a zero byte, and reads
//! it up to the first zero byte. This library turns an owned credential blob
//! into such a view, which lives as long as the process, and says exactly
//! what the view holds and what the TLS layer will read from it.

pub mod certificate;
pub mod identity;
pub mod nul;
