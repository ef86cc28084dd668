//! Mid-connection upgrade of a remote-desktop session from its established
//! transport to an iroh (QUIC) one, and the QUIC transports beside it.
//!
//! Everything here is free of I/O: each function takes what was read or what
//! happened, and returns what is to be written or done next.

pub mod crypto_handoff;
pub mod crypto_laws;
pub mod handover;
pub mod handover_laws;
pub mod hex_text;
pub mod iroh_transition;
pub mod iroh_transport;
pub mod iroh_upgrade;
pub mod iroh_upgrade_session;
pub mod message_proto;
pub mod net;
pub mod quic_laws;
pub mod quic_sidecar;
pub mod quic_stream;
pub mod session_laws;
pub mod sidecar_laws;
pub mod stream;
pub mod stream_laws;
pub mod tcp;
pub mod text;
pub mod text_laws;
pub mod trace_laws;
pub mod transition_laws;
pub mod transport_laws;
pub mod upgrade_laws;
pub mod webrtc;
pub mod websocket;
