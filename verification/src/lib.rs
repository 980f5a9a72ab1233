//! Core logic of an RDP connection manager: connection records, address
//! text, the session registries behind the two session managers, the
//! encoding of user input into RDP fast-path events and the framebuffer
//! updates of embedded sessions.

pub mod text;
pub mod db;
pub mod registry;
pub mod rdp;
pub mod health;
pub mod ironrdp_session;
pub mod framebuffer;
