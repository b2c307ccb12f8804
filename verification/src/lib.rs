//! The decisions behind a live mirror and remote control of an iOS device.
//!
//! The library holds what can be computed without touching a socket, a process
//! or a clipboard: RTP reception and its RTCP feedback, the choice of what to
//! feed the HEVC depacketizer, keyboard and button input, clipboard
//! synchronisation, the device picker and the command line. Everything that
//! waits or talks to the outside lives in the application around it.
pub mod cli;
pub mod clip_sync;
pub mod clipboard;
pub mod devices;
pub mod hevc;
pub mod input;
pub mod keymap;
pub mod manager;
pub mod media;
pub mod pasteboard;
pub mod picture;
pub mod recovery;
pub mod replay;
pub mod rtcp;
pub mod rtcp_wire;
pub mod rtp;
pub mod session;
pub mod stats;
pub mod text;
pub mod video;
pub mod wire;
