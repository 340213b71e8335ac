pub mod ice;
pub mod signaling;
pub mod webrtc_peer;
