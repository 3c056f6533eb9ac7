//! Secure-link layer for a mesh of cooperating aircraft nodes.
//!
//! The crate covers the cryptographic core of the link: long-term node
//! identities ([`identity`]), an authenticated ephemeral key exchange that
//! yields a shared session key ([`handshake`]), authenticated encryption of
//! fixed-shape packet bodies ([`crypto`]), the wire-level packet shapes with
//! their integrity digest ([`packets`]), and a minimal session lifecycle that
//! composes them ([`node`]). Radio transports are abstract ([`radio`], [`hal`]).

pub mod crypto;
pub mod hal;
pub mod handshake;
pub mod identity;
pub mod node;
pub mod packets;
pub mod radio;
