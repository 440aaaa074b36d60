//! Packed records that the native layer fills in batch retrieval.
//!
//! A number that the native layer holds as a 64-bit float is kept here as
//! its bit pattern.

use vstd::prelude::*;

verus! {

/// Packed rectangle (32 bytes). Each field is the bit pattern of a 64-bit
/// float.
#[derive(Debug, Clone, Copy, PartialEq, Eq, Structural)]
pub struct FFIRect {
    pub x: u64,
    pub y: u64,
    pub width: u64,
    pub height: u64,
}

impl Default for FFIRect {
    /// The rectangle at the origin without extent: all four numbers are 0.0,
    /// whose bit pattern is 0.
    fn default() -> (rect: Self)
        ensures
            rect == (FFIRect { x: 0, y: 0, width: 0, height: 0 }),
    {
        FFIRect { x: 0, y: 0, width: 0, height: 0 }
    }
}

/// Packed display data (48 bytes).
#[derive(Debug, Clone, Copy, PartialEq, Eq, Structural)]
pub struct FFIDisplayData {
    pub display_id: u32,
    pub width: i32,
    pub height: i32,
    pub frame: FFIRect,
}

/// Packed window data. The title lies in a table of bytes that comes with
/// the batch, named by its offset and length there.
#[derive(Debug, Clone, Copy, PartialEq, Eq, Structural)]
pub struct FFIWindowData {
    pub window_id: u32,
    pub window_layer: i32,
    pub is_on_screen: bool,
    pub is_active: bool,
    pub frame: FFIRect,
    pub title_offset: u32,
    pub title_length: u32,
    pub owning_app_index: i32,
    pub _padding: i32,
}

/// Packed application data. The strings lie in a table of bytes that comes
/// with the batch: each is named by its offset and length there.
#[derive(Debug, Clone, Copy, PartialEq, Eq, Structural)]
pub struct FFIApplicationData {
    pub process_id: i32,
    pub _padding: i32,
    pub bundle_id_offset: u32,
    pub bundle_id_length: u32,
    pub app_name_offset: u32,
    pub app_name_length: u32,
}

} // verus!
