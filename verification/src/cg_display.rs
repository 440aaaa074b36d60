//! Displays by their id, and the mode they are in.

use vstd::prelude::*;
use crate::error::SCError;
use crate::handle::NativeHandle;
use crate::screenshot_manager::CGImage;

verus! {

/// The mode a display is in.
///
/// The refresh rate is kept as the bit pattern of the 64-bit float that the
/// native layer reports.
#[derive(Debug, Clone, Copy, PartialEq, Eq, Structural)]
pub struct DisplayMode {
    logical_width: i32,
    logical_height: i32,
    pixel_width: i32,
    pixel_height: i32,
    refresh_rate_bits: u64,
}

/// A display mode, as plain values.
pub struct DisplayModeValues {
    pub logical_width: i32,
    pub logical_height: i32,
    pub pixel_width: i32,
    pub pixel_height: i32,
    pub refresh_rate_bits: u64,
}

impl View for DisplayMode {
    type V = DisplayModeValues;

    closed spec fn view(&self) -> DisplayModeValues {
        DisplayModeValues {
            logical_width: self.logical_width,
            logical_height: self.logical_height,
            pixel_width: self.pixel_width,
            pixel_height: self.pixel_height,
            refresh_rate_bits: self.refresh_rate_bits,
        }
    }
}

impl DisplayMode {
    /// The mode with these values.
    pub fn new(
        logical_width: i32,
        logical_height: i32,
        pixel_width: i32,
        pixel_height: i32,
        refresh_rate_bits: u64,
    ) -> (mode: Self)
        ensures
            mode@ == (DisplayModeValues {
                logical_width,
                logical_height,
                pixel_width,
                pixel_height,
                refresh_rate_bits,
            }),
    {
        DisplayMode { logical_width, logical_height, pixel_width, pixel_height, refresh_rate_bits }
    }

    /// Width in physical pixels.
    #[must_use]
    pub fn pixel_width(&self) -> (w: i32)
        ensures
            w == self@.pixel_width,
    {
        self.pixel_width
    }

    /// Height in physical pixels.
    #[must_use]
    pub fn pixel_height(&self) -> (h: i32)
        ensures
            h == self@.pixel_height,
    {
        self.pixel_height
    }

    /// Width in points, after scaling.
    #[must_use]
    pub fn logical_width(&self) -> (w: i32)
        ensures
            w == self@.logical_width,
    {
        self.logical_width
    }

    /// Height in points, after scaling.
    #[must_use]
    pub fn logical_height(&self) -> (h: i32)
        ensures
            h == self@.logical_height,
    {
        self.logical_height
    }

    /// The refresh rate, as the bit pattern of a 64-bit float.
    #[must_use]
    pub fn refresh_rate_bits(&self) -> (bits: u64)
        ensures
            bits == self@.refresh_rate_bits,
    {
        self.refresh_rate_bits
    }
}

impl Default for DisplayMode {
    /// The mode with every value 0; the refresh rate 0.0 has the bit
    /// pattern 0.
    fn default() -> (mode: Self)
        ensures
            mode@ == (DisplayModeValues {
                logical_width: 0,
                logical_height: 0,
                pixel_width: 0,
                pixel_height: 0,
                refresh_rate_bits: 0,
            }),
    {
        DisplayMode {
            logical_width: 0,
            logical_height: 0,
            pixel_width: 0,
            pixel_height: 0,
            refresh_rate_bits: 0,
        }
    }
}

/// A display, named by its id.
#[derive(Debug, Clone, Copy, PartialEq, Eq, Structural, Hash)]
pub struct CGDisplay {
    id: u32,
}

impl View for CGDisplay {
    type V = u32;

    closed spec fn view(&self) -> u32 {
        self.id
    }
}

impl CGDisplay {
    /// The display with the id `id`.
    #[must_use]
    pub fn new(id: u32) -> (display: Self)
        ensures
            display@ == id,
    {
        CGDisplay { id }
    }

    /// The id of the display.
    #[must_use]
    pub fn id(&self) -> (id: u32)
        ensures
            id == self@,
    {
        self.id
    }

    /// The ids of the active displays, from what the native query
    /// answered: whether it succeeded, and the list it filled if it filled
    /// one. A failed query is an error; a query that filled no list has no
    /// displays.
    pub fn active_displays(ok: bool, list: Option<Vec<u32>>) -> (r: Result<Vec<u32>, SCError>)
        ensures
            r is Ok <==> ok,
            r is Ok ==> r->Ok_0@ == (match list {
                Some(ids) => ids@,
                None => Seq::<u32>::empty(),
            }),
            r is Err ==> (r->Err_0 matches SCError::InternalError(m) && m@
                == "Failed to get active display list"@),
    {
        if !ok {
            return Err(SCError::InternalError("Failed to get active display list".to_owned()));
        }
        match list {
            Some(ids) => Ok(ids),
            None => Ok(Vec::new()),
        }
    }

    /// The current mode of the display, from what the native query
    /// answered: whether it succeeded, and the mode it filled in.
    pub fn display_mode(&self, ok: bool, mode: DisplayMode) -> (r: Option<DisplayMode>)
        ensures
            r == (if ok {
                Some(mode)
            } else {
                None
            }),
    {
        if ok {
            Some(mode)
        } else {
            None
        }
    }

    /// The image that the native layer made of the display, if it made one.
    /// The image comes with one reference, which the result owns.
    pub fn create_image(&self, image: NativeHandle, width: usize, height: usize) -> (r: Option<
        CGImage,
    >)
        ensures
            r is Some <==> image.addr != 0,
            r is Some ==> r->Some_0.as_ptr_spec() == image && r->Some_0.size() == (width, height),
    {
        CGImage::from_ptr(image, width, height)
    }

    /// The image that the native layer made of a rectangle of the display,
    /// if it made one. The image comes with one reference, which the result
    /// owns.
    pub fn create_image_in_rect(&self, image: NativeHandle, width: usize, height: usize) -> (r:
        Option<CGImage>)
        ensures
            r is Some <==> image.addr != 0,
            r is Some ==> r->Some_0.as_ptr_spec() == image && r->Some_0.size() == (width, height),
    {
        CGImage::from_ptr(image, width, height)
    }
}

} // verus!
