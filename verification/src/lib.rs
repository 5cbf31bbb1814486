//! Input bookkeeping, port-forward specifications and window-frame decisions
//! of a terminal emulator, with their contracts proved by Verus.
pub mod input;
pub mod forward;
pub mod frame;
pub mod session;
pub mod scripting;
pub mod domain;
pub mod text;
