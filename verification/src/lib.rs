//! Capture-session lifecycle and cross-boundary synchronisation for a
//! callback-driven native screen capture engine.
//!
//! The native engine is never called from here. Every operation is a
//! transition on plain values: the caller performs the native call that a
//! transition asks for and hands the engine's answer back.

pub mod buffer;
pub mod cg_display;
pub mod completion;
pub mod error;
pub mod ffi;
pub mod handle;
pub mod screenshot_manager;
pub mod shareable_content;
pub mod stream;
pub mod text;
