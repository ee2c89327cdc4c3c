//! The decisions that a native WebRTC socket takes: how it signs in to the signalling
//! server, shakes hands with a peer, trickles ICE candidates, lays out its data channels
//! and passes packets on. Everything that waits for the network is left to the caller, who
//! reports what happened and carries out what these modules answer.
pub mod candidate;
pub mod connection;
pub mod data_channel;
pub mod decimal;
pub mod description;
pub mod handshake;
pub mod handshake_laws;
pub mod messages;
pub mod mpsc;
pub mod packet;
pub mod peer_loop;
pub mod remote_candidates;
pub mod session_laws;
pub mod signal_peer;
pub mod signaller;
pub mod trickle;
