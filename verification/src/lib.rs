//! A small packet-inspection library: it decodes one captured link-layer
//! frame (an opaque byte buffer) into a typed record with fixed-offset
//! Ethernet/IPv4/TCP-UDP fields, classifies it, and renders a one-line
//! textual summary.

pub mod packet;
pub mod render;
