//! Single-shot capture: images, their formats, and the completion of a
//! capture that the native layer answers by callback.

use vstd::prelude::*;
use vstd::string::StringSliceAdditionalSpecFns;
use crate::buffer::FrameBuffer;
use crate::completion::{
    Awaitable, BridgeState, CompletionBridge, ContextToken, Readiness, Resolution,
};
use crate::error::SCError;
use crate::ffi::FFIRect;
use crate::handle::{NativeHandle, OwnedHandle, ResourceKind};
use crate::text::{c_text, contains_nul, decode_c_buffer};

verus! {

/// The format an image is saved in.
///
/// A lossy format carries its quality as the bit pattern of a 32-bit float
/// between 0.0 and 1.0.
#[derive(Debug, Clone, Copy, PartialEq, Eq, Structural)]
pub enum ImageFormat {
    /// PNG (lossless).
    Png,
    /// JPEG with quality.
    Jpeg(u32),
    /// TIFF (lossless).
    Tiff,
    /// GIF.
    Gif,
    /// BMP.
    Bmp,
    /// HEIC with quality.
    Heic(u32),
}

impl ImageFormat {
    /// The number by which the native layer knows the format.
    pub open spec fn format_id(self) -> i32 {
        match self {
            ImageFormat::Png => 0,
            ImageFormat::Jpeg(_) => 1,
            ImageFormat::Tiff => 2,
            ImageFormat::Gif => 3,
            ImageFormat::Bmp => 4,
            ImageFormat::Heic(_) => 5,
        }
    }

    /// The usual file extension of the format.
    pub open spec fn extension_text(self) -> Seq<char> {
        match self {
            ImageFormat::Png => "png"@,
            ImageFormat::Jpeg(_) => "jpg"@,
            ImageFormat::Tiff => "tiff"@,
            ImageFormat::Gif => "gif"@,
            ImageFormat::Bmp => "bmp"@,
            ImageFormat::Heic(_) => "heic"@,
        }
    }

    /// What is reported when an image could not be saved in the format.
    pub open spec fn failure_text(self) -> Seq<char> {
        match self {
            ImageFormat::Png => "Failed to save image as PNG"@,
            ImageFormat::Jpeg(_) => "Failed to save image as JPG"@,
            ImageFormat::Tiff => "Failed to save image as TIFF"@,
            ImageFormat::Gif => "Failed to save image as GIF"@,
            ImageFormat::Bmp => "Failed to save image as BMP"@,
            ImageFormat::Heic(_) => "Failed to save image as HEIC"@,
        }
    }

    /// The number by which the native layer knows the format.
    pub fn to_format_id(self) -> (id: i32)
        ensures
            id == self.format_id(),
    {
        match self {
            ImageFormat::Png => 0,
            ImageFormat::Jpeg(_) => 1,
            ImageFormat::Tiff => 2,
            ImageFormat::Gif => 3,
            ImageFormat::Bmp => 4,
            ImageFormat::Heic(_) => 5,
        }
    }

    /// The quality that the format carries, as given, if it carries one.
    pub fn quality_bits(self) -> (q: Option<u32>)
        ensures
            q == match self {
                ImageFormat::Jpeg(bits) => Some(bits),
                ImageFormat::Heic(bits) => Some(bits),
                _ => None,
            },
    {
        match self {
            ImageFormat::Jpeg(bits) => Some(bits),
            ImageFormat::Heic(bits) => Some(bits),
            _ => None,
        }
    }

    /// The usual file extension of the format.
    #[must_use]
    pub fn extension(&self) -> (ext: &'static str)
        ensures
            ext@ == self.extension_text(),
    {
        match self {
            ImageFormat::Png => "png",
            ImageFormat::Jpeg(_) => "jpg",
            ImageFormat::Tiff => "tiff",
            ImageFormat::Gif => "gif",
            ImageFormat::Bmp => "bmp",
            ImageFormat::Heic(_) => "heic",
        }
    }

    /// What is reported when an image could not be saved in the format:
    /// the extension in capitals, after "Failed to save image as ".
    pub fn failure_message(&self) -> (text: &'static str)
        ensures
            text@ == self.failure_text(),
    {
        match self {
            ImageFormat::Png => "Failed to save image as PNG",
            ImageFormat::Jpeg(_) => "Failed to save image as JPG",
            ImageFormat::Tiff => "Failed to save image as TIFF",
            ImageFormat::Gif => "Failed to save image as GIF",
            ImageFormat::Bmp => "Failed to save image as BMP",
            ImageFormat::Heic(_) => "Failed to save image as HEIC",
        }
    }
}

/// Whether `outcome` is what a callback resolves its completion with, given
/// the value and the error description it carried. An error description
/// wins; without one a value is the result; with neither the error is
/// "Unknown error".
pub open spec fn is_callback_outcome<T>(
    value: Option<T>,
    error: Option<String>,
    outcome: Result<T, SCError>,
) -> bool {
    match (error, value) {
        (Some(message), _) => outcome == Err::<T, SCError>(SCError::InternalError(message)),
        (None, Some(v)) => outcome == Ok::<T, SCError>(v),
        (None, None) => outcome matches Err(SCError::InternalError(m)) && m@ == "Unknown error"@,
    }
}

/// What a callback resolves its completion with.
pub fn callback_outcome<T>(value: Option<T>, error: Option<String>) -> (outcome: Result<T, SCError>)
    ensures
        is_callback_outcome(value, error, outcome),
{
    match error {
        Some(message) => Err(SCError::InternalError(message)),
        None => match value {
            Some(v) => Ok(v),
            None => Err(SCError::InternalError("Unknown error".to_owned())),
        },
    }
}

/// Whether `after` is `before` once the callback for `token` has resolved
/// its completion with `outcome`, and `res` what became of the callback:
/// how it was resolved, and the outcome back if nobody took it.
pub open spec fn callback_resolved<T>(
    before: BridgeState<T>,
    after: BridgeState<T>,
    token: ContextToken,
    outcome: Result<T, SCError>,
    res: (Resolution, Option<Result<T, SCError>>),
) -> bool {
    &&& res.0 == before.resolution(token.id)
    &&& res.1 == before.spare(token.id, outcome)
    &&& after == before.resolve(token.id, outcome)
}

/// A captured image, with the one reference that it owns.
#[derive(Debug)]
pub struct CGImage {
    handle: OwnedHandle,
    width: usize,
    height: usize,
}

/// The native call that writes an image to a file.
#[derive(Debug, Clone, Copy, PartialEq, Eq, Structural)]
pub struct SaveCall {
    pub image: NativeHandle,
    pub format_id: i32,
    /// The quality as given, for the lossy formats.
    pub quality_bits: Option<u32>,
}

impl CGImage {
    /// The native image.
    pub closed spec fn as_ptr_spec(&self) -> NativeHandle {
        self.handle.raw()
    }

    /// Width and height in pixels.
    pub closed spec fn size(&self) -> (usize, usize) {
        (self.width, self.height)
    }

    /// The one reference that the image owns.
    pub closed spec fn owner(&self) -> OwnedHandle {
        self.handle
    }

    /// The image over `ptr`, of `width` by `height` pixels. The caller
    /// holds one reference, which the image takes over. No image is made of
    /// a null pointer.
    pub fn from_ptr(ptr: NativeHandle, width: usize, height: usize) -> (image: Option<CGImage>)
        ensures
            image is Some <==> ptr.addr != 0,
            image is Some ==> image->Some_0.as_ptr_spec() == ptr && image->Some_0.size() == (
                width,
                height,
            ) && image->Some_0.owner().resource_kind() == ResourceKind::Image,
    {
        match OwnedHandle::wrap(ptr, ResourceKind::Image) {
            Ok(handle) => Some(CGImage { handle, width, height }),
            Err(_) => None,
        }
    }

    /// Width in pixels.
    #[must_use]
    pub fn width(&self) -> (w: usize)
        ensures
            w == self.size().0,
    {
        self.width
    }

    /// Height in pixels.
    #[must_use]
    pub fn height(&self) -> (h: usize)
        ensures
            h == self.size().1,
    {
        self.height
    }

    /// The native image, for native calls.
    #[must_use]
    pub fn as_ptr(&self) -> (ptr: NativeHandle)
        ensures
            ptr == self.as_ptr_spec(),
            ptr.addr != 0,
    {
        self.handle.as_raw()
    }

    /// The RGBA bytes of the image, from what the native query answered:
    /// whether it succeeded, and the bytes it handed out if it handed out
    /// any.
    pub fn rgba_data(&self, success: bool, data: Option<Vec<u8>>) -> (r: Result<Vec<u8>, SCError>)
        ensures
            r is Ok <==> success && data is Some,
            r is Ok ==> r->Ok_0 == data->Some_0,
            r is Err ==> (r->Err_0 matches SCError::InternalError(m) && m@
                == "Failed to extract pixel data from CGImage"@),
    {
        match data {
            Some(bytes) => {
                if success {
                    return Ok(bytes);
                }
            },
            None => {},
        }
        Err(SCError::InternalError("Failed to extract pixel data from CGImage".to_owned()))
    }

    /// The native call that saves the image at `path` in `format`. A path
    /// with a NUL in it cannot be handed to the native layer.
    pub fn save_call(&self, path: &str, format: ImageFormat) -> (r: Result<SaveCall, SCError>)
        ensures
            r is Err <==> path_has_nul(path),
            r is Err ==> (r->Err_0 matches SCError::InternalError(m) && m@
                == "Path contains null bytes"@),
            r is Ok ==> r->Ok_0 == (SaveCall {
                image: self.as_ptr_spec(),
                format_id: format.format_id(),
                quality_bits: match format {
                    ImageFormat::Jpeg(bits) => Some(bits),
                    ImageFormat::Heic(bits) => Some(bits),
                    _ => None,
                },
            }),
    {
        if contains_nul(path) {
            Err(SCError::InternalError("Path contains null bytes".to_owned()))
        } else {
            Ok(
                SaveCall {
                    image: self.handle.as_raw(),
                    format_id: format.to_format_id(),
                    quality_bits: format.quality_bits(),
                },
            )
        }
    }

    /// Saves the image as PNG: [`CGImage::save`] with that format.
    pub fn save_png(&self, path: &str, written: bool) -> (r: Result<(), SCError>)
        ensures
            is_save_result(path, ImageFormat::Png, written, r),
    {
        self.save(path, ImageFormat::Png, written)
    }

    /// What saving the image at `path` in `format` comes to, where
    /// `written` is what the native call of [`CGImage::save_call`]
    /// answered. The path is judged first.
    pub fn save(&self, path: &str, format: ImageFormat, written: bool) -> (r: Result<(), SCError>)
        ensures
            is_save_result(path, format, written, r),
    {
        if contains_nul(path) {
            Err(SCError::InternalError("Path contains null bytes".to_owned()))
        } else if written {
            Ok(())
        } else {
            Err(SCError::InternalError(format.failure_message().to_owned()))
        }
    }

    /// Ends the image and hands out its reference for release.
    pub fn into_handle(self) -> (handle: OwnedHandle)
        ensures
            handle == self.owner(),
    {
        self.handle
    }
}

/// Whether `text` holds a NUL byte.
pub open spec fn path_has_nul(text: &str) -> bool {
    exists|i: int| 0 <= i < text.spec_bytes().len() && text.spec_bytes()[i] == 0u8
}

/// Whether `r` is what saving at `path` in `format` comes to when the
/// native call answered `written`.
pub open spec fn is_save_result(
    path: &str,
    format: ImageFormat,
    written: bool,
    r: Result<(), SCError>,
) -> bool {
    if path_has_nul(path) {
        r matches Err(SCError::InternalError(m)) && m@ == "Path contains null bytes"@
    } else if written {
        r is Ok
    } else {
        r matches Err(SCError::InternalError(m)) && m@ == format.failure_text()
    }
}

/// Whether `outcome` is what the callback of an image capture resolves its
/// completion with: the error if there is one, else the image over
/// `image_ptr` if that is not null, else "Unknown error".
pub open spec fn is_image_outcome(
    image_ptr: NativeHandle,
    width: usize,
    height: usize,
    error: Option<String>,
    outcome: Result<CGImage, SCError>,
) -> bool {
    match error {
        Some(message) => outcome == Err::<CGImage, SCError>(SCError::InternalError(message)),
        None => if image_ptr.addr != 0 {
            outcome matches Ok(image) && image.as_ptr_spec() == image_ptr && image.size() == (
                width,
                height,
            )
        } else {
            outcome matches Err(SCError::InternalError(m)) && m@ == "Unknown error"@
        },
    }
}

/// Whether `outcome` is what the callback of a screenshot capture resolves
/// its completion with: the error if there is one, else the output over
/// `output_ptr` if that is not null, else "Unknown error".
pub open spec fn is_output_outcome(
    output_ptr: NativeHandle,
    error: Option<String>,
    outcome: Result<SCScreenshotOutput, SCError>,
) -> bool {
    match error {
        Some(message) => outcome == Err::<SCScreenshotOutput, SCError>(
            SCError::InternalError(message),
        ),
        None => if output_ptr.addr != 0 {
            outcome matches Ok(output) && output.as_ptr_spec() == output_ptr
        } else {
            outcome matches Err(SCError::InternalError(m)) && m@ == "Unknown error"@
        },
    }
}

/// The callback of an image capture: resolves the completion of
/// `user_data` with the image over `image_ptr`, or with the error. With an
/// error no image is made of the pointer. An outcome that nobody takes comes
/// back, for the image to be released.
pub fn image_callback(
    bridge: &mut CompletionBridge<CGImage>,
    image_ptr: NativeHandle,
    width: usize,
    height: usize,
    error: Option<String>,
    user_data: ContextToken,
) -> (res: (Resolution, Option<Result<CGImage, SCError>>))
    requires
        old(bridge).wf(),
    ensures
        final(bridge).wf(),
        exists|outcome: Result<CGImage, SCError>|
            {
                &&& is_image_outcome(image_ptr, width, height, error, outcome)
                &&& #[trigger] callback_resolved(old(bridge)@, final(bridge)@, user_data, outcome, res)
            },
{
    let image = match &error {
        Some(_) => None,
        None => CGImage::from_ptr(image_ptr, width, height),
    };
    let outcome = callback_outcome(image, error);
    let ghost before = bridge@;
    let res = bridge.resolve(user_data, outcome);
    assert(callback_resolved(before, bridge@, user_data, outcome, res));
    res
}

/// The callback of a sample capture: resolves the completion of
/// `user_data` with `buffer`, or with the error. An outcome that nobody
/// takes comes back, for the sample to be released.
pub fn buffer_callback(
    bridge: &mut CompletionBridge<FrameBuffer>,
    buffer: Option<FrameBuffer>,
    error: Option<String>,
    user_data: ContextToken,
) -> (res: (Resolution, Option<Result<FrameBuffer, SCError>>))
    requires
        old(bridge).wf(),
    ensures
        final(bridge).wf(),
        exists|outcome: Result<FrameBuffer, SCError>|
            {
                &&& is_callback_outcome(buffer, error, outcome)
                &&& #[trigger] callback_resolved(old(bridge)@, final(bridge)@, user_data, outcome, res)
            },
{
    let outcome = callback_outcome(buffer, error);
    let ghost before = bridge@;
    let res = bridge.resolve(user_data, outcome);
    assert(callback_resolved(before, bridge@, user_data, outcome, res));
    res
}

/// The callback of a screenshot capture: resolves the completion of
/// `user_data` with the output over `output_ptr`, or with the error. With
/// an error no output is made of the pointer. An outcome that nobody takes
/// comes back, for the output to be released.
pub fn screenshot_output_callback(
    bridge: &mut CompletionBridge<SCScreenshotOutput>,
    output_ptr: NativeHandle,
    error: Option<String>,
    user_data: ContextToken,
) -> (res: (Resolution, Option<Result<SCScreenshotOutput, SCError>>))
    requires
        old(bridge).wf(),
    ensures
        final(bridge).wf(),
        exists|outcome: Result<SCScreenshotOutput, SCError>|
            {
                &&& is_output_outcome(output_ptr, error, outcome)
                &&& #[trigger] callback_resolved(old(bridge)@, final(bridge)@, user_data, outcome, res)
            },
{
    let output = match &error {
        Some(_) => None,
        None => SCScreenshotOutput::from_ptr(output_ptr),
    };
    let outcome = callback_outcome(output, error);
    let ghost before = bridge@;
    let res = bridge.resolve(user_data, outcome);
    assert(callback_resolved(before, bridge@, user_data, outcome, res));
    res
}

/// What the caller of a screenshot operation gets for `result`: a failure
/// of the native bridge is reported as a screenshot error with the same
/// message, and everything else as it is.
pub open spec fn as_screenshot_result<T>(result: Result<T, SCError>) -> Result<T, SCError> {
    match result {
        Err(SCError::InternalError(message)) => Err(SCError::ScreenshotError(message)),
        other => other,
    }
}

/// What the caller of a screenshot operation gets for `result`.
pub fn screenshot_result<T>(result: Result<T, SCError>) -> (r: Result<T, SCError>)
    ensures
        r == as_screenshot_result(result),
{
    match result {
        Err(SCError::InternalError(message)) => Err(SCError::ScreenshotError(message)),
        other => other,
    }
}

/// One step of waiting for a single frame captured through a stream: the
/// image or the error once the callback has fired, else the awaitable back.
pub fn capture_image_with_stream(bridge: &mut CompletionBridge<CGImage>, awaitable: Awaitable) -> (r:
    Readiness<CGImage>)
    requires
        old(bridge).wf(),
    ensures
        final(bridge).wf(),
        match old(bridge)@.blocking_observation(awaitable.token_of().id) {
            Some(result) => r == Readiness::Ready(result) && final(bridge)@ == old(bridge)@.consume(awaitable.token_of().id),
            None => r == Readiness::<CGImage>::Pending(awaitable) && final(bridge)@ == old(bridge)@,
        },
{
    bridge.wait_step(awaitable)
}

/// Single-shot screenshot capture.
#[derive(Debug, Clone, Copy, PartialEq, Eq, Structural)]
pub struct SCScreenshotManager;

impl SCScreenshotManager {
    /// Opens the completion of a capture: the token goes to the native
    /// call as user data, the awaitable stays with the caller.
    pub fn begin<T>(bridge: &mut CompletionBridge<T>) -> (r: Option<(Awaitable, ContextToken)>)
        requires
            old(bridge).wf(),
        ensures
            final(bridge).wf(),
            r is Some <==> old(bridge)@.issued < u64::MAX,
            r is None ==> final(bridge)@ == old(bridge)@,
            r is Some ==> {
                &&& final(bridge)@ == old(bridge)@.open()
                &&& r->Some_0.1.id == old(bridge)@.issued
                &&& r->Some_0.0.token_of() == r->Some_0.1
            },
    {
        bridge.open()
    }

    /// One step of waiting for a capture: once its callback has fired, the
    /// result as a screenshot result; else the awaitable back, to wait on.
    pub fn finish<T>(bridge: &mut CompletionBridge<T>, awaitable: Awaitable) -> (r: Readiness<T>)
        requires
            old(bridge).wf(),
        ensures
            final(bridge).wf(),
            match old(bridge)@.blocking_observation(awaitable.token_of().id) {
                Some(result) => r == Readiness::Ready(as_screenshot_result(result)) && final(bridge)@ == old(bridge)@.consume(awaitable.token_of().id),
                None => r == Readiness::<T>::Pending(awaitable) && final(bridge)@ == old(bridge)@,
            },
    {
        match bridge.wait_step(awaitable) {
            Readiness::Ready(result) => Readiness::Ready(screenshot_result(result)),
            Readiness::Pending(awaitable) => Readiness::Pending(awaitable),
        }
    }

    /// One step of waiting for a captured image.
    pub fn capture_image(bridge: &mut CompletionBridge<CGImage>, awaitable: Awaitable) -> (r:
        Readiness<CGImage>)
        requires
            old(bridge).wf(),
        ensures
            final(bridge).wf(),
            match old(bridge)@.blocking_observation(awaitable.token_of().id) {
                Some(result) => r == Readiness::Ready(as_screenshot_result(result)) && final(bridge)@ == old(bridge)@.consume(awaitable.token_of().id),
                None => r == Readiness::<CGImage>::Pending(awaitable) && final(bridge)@ == old(bridge)@,
            },
    {
        Self::finish(bridge, awaitable)
    }

    /// One step of waiting for the captured image of a rectangle of the
    /// screen.
    pub fn capture_image_in_rect(bridge: &mut CompletionBridge<CGImage>, awaitable: Awaitable) -> (r:
        Readiness<CGImage>)
        requires
            old(bridge).wf(),
        ensures
            final(bridge).wf(),
            match old(bridge)@.blocking_observation(awaitable.token_of().id) {
                Some(result) => r == Readiness::Ready(as_screenshot_result(result)) && final(bridge)@
                    == old(bridge)@.consume(awaitable.token_of().id),
                None => r == Readiness::<CGImage>::Pending(awaitable) && final(bridge)@ == old(
                    bridge)@,
            },
    {
        Self::finish(bridge, awaitable)
    }

    /// One step of waiting for a captured sample.
    pub fn capture_sample_buffer(
        bridge: &mut CompletionBridge<FrameBuffer>,
        awaitable: Awaitable,
    ) -> (r: Readiness<FrameBuffer>)
        requires
            old(bridge).wf(),
        ensures
            final(bridge).wf(),
            match old(bridge)@.blocking_observation(awaitable.token_of().id) {
                Some(result) => r == Readiness::Ready(as_screenshot_result(result)) && final(bridge)@ == old(bridge)@.consume(awaitable.token_of().id),
                None => r == Readiness::<FrameBuffer>::Pending(awaitable) && final(bridge)@ == old(bridge)@,
            },
    {
        Self::finish(bridge, awaitable)
    }

    /// One step of waiting for a captured screenshot output.
    pub fn capture_screenshot(
        bridge: &mut CompletionBridge<SCScreenshotOutput>,
        awaitable: Awaitable,
    ) -> (r: Readiness<SCScreenshotOutput>)
        requires
            old(bridge).wf(),
        ensures
            final(bridge).wf(),
            match old(bridge)@.blocking_observation(awaitable.token_of().id) {
                Some(result) => r == Readiness::Ready(as_screenshot_result(result)) && final(bridge)@ == old(bridge)@.consume(awaitable.token_of().id),
                None => r == Readiness::<SCScreenshotOutput>::Pending(awaitable) && final(bridge)@
                    == old(bridge)@,
            },
    {
        Self::finish(bridge, awaitable)
    }

    /// One step of waiting for the captured screenshot output of a
    /// rectangle of the screen.
    pub fn capture_screenshot_in_rect(
        bridge: &mut CompletionBridge<SCScreenshotOutput>,
        awaitable: Awaitable,
    ) -> (r: Readiness<SCScreenshotOutput>)
        requires
            old(bridge).wf(),
        ensures
            final(bridge).wf(),
            match old(bridge)@.blocking_observation(awaitable.token_of().id) {
                Some(result) => r == Readiness::Ready(as_screenshot_result(result)) && final(bridge)@
                    == old(bridge)@.consume(awaitable.token_of().id),
                None => r == Readiness::<SCScreenshotOutput>::Pending(awaitable) && final(bridge)@
                    == old(bridge)@,
            },
    {
        Self::finish(bridge, awaitable)
    }
}

/// How a screenshot is rendered for the display it is shown on.
#[derive(Debug, Clone, Copy, PartialEq, Eq, Structural, Hash)]
pub enum SCScreenshotDisplayIntent {
    /// Render on the canonical display.
    Canonical,
    /// Render on the local display.
    Local,
}

impl SCScreenshotDisplayIntent {
    /// The number by which the native layer knows the intent.
    pub open spec fn raw(self) -> i32 {
        match self {
            SCScreenshotDisplayIntent::Canonical => 0,
            SCScreenshotDisplayIntent::Local => 1,
        }
    }

    /// The number by which the native layer knows the intent.
    pub fn as_i32(self) -> (n: i32)
        ensures
            n == self.raw(),
    {
        match self {
            SCScreenshotDisplayIntent::Canonical => 0,
            SCScreenshotDisplayIntent::Local => 1,
        }
    }
}

impl Default for SCScreenshotDisplayIntent {
    fn default() -> (intent: Self)
        ensures
            intent == SCScreenshotDisplayIntent::Canonical,
    {
        SCScreenshotDisplayIntent::Canonical
    }
}

/// The dynamic range of a screenshot.
#[derive(Debug, Clone, Copy, PartialEq, Eq, Structural, Hash)]
pub enum SCScreenshotDynamicRange {
    /// Standard dynamic range.
    SDR,
    /// High dynamic range.
    HDR,
    /// Both, as two images.
    BothSDRAndHDR,
}

impl SCScreenshotDynamicRange {
    /// The number by which the native layer knows the range.
    pub open spec fn raw(self) -> i32 {
        match self {
            SCScreenshotDynamicRange::SDR => 0,
            SCScreenshotDynamicRange::HDR => 1,
            SCScreenshotDynamicRange::BothSDRAndHDR => 2,
        }
    }

    /// The number by which the native layer knows the range.
    pub fn as_i32(self) -> (n: i32)
        ensures
            n == self.raw(),
    {
        match self {
            SCScreenshotDynamicRange::SDR => 0,
            SCScreenshotDynamicRange::HDR => 1,
            SCScreenshotDynamicRange::BothSDRAndHDR => 2,
        }
    }
}

impl Default for SCScreenshotDynamicRange {
    fn default() -> (range: Self)
        ensures
            range == SCScreenshotDynamicRange::SDR,
    {
        SCScreenshotDynamicRange::SDR
    }
}

/// The settings of a screenshot configuration, as plain values. A setting
/// that was never made is `None`: the native default stands.
pub struct ScreenshotSettings {
    pub width: Option<usize>,
    pub height: Option<usize>,
    pub shows_cursor: Option<bool>,
    pub source_rect: Option<FFIRect>,
    pub destination_rect: Option<FFIRect>,
    pub ignore_shadows: Option<bool>,
    pub ignore_clipping: Option<bool>,
    pub include_child_windows: Option<bool>,
    pub display_intent: Option<SCScreenshotDisplayIntent>,
    pub dynamic_range: Option<SCScreenshotDynamicRange>,
    pub file_path: Option<Seq<char>>,
    pub content_type: Option<Seq<char>>,
}

impl ScreenshotSettings {
    /// Nothing set.
    pub open spec fn unset() -> Self {
        ScreenshotSettings {
            width: None,
            height: None,
            shows_cursor: None,
            source_rect: None,
            destination_rect: None,
            ignore_shadows: None,
            ignore_clipping: None,
            include_child_windows: None,
            display_intent: None,
            dynamic_range: None,
            file_path: None,
            content_type: None,
        }
    }
}

/// A screenshot configuration: the native object, and the settings made
/// on it so far.
#[derive(Debug)]
pub struct SCScreenshotConfiguration {
    handle: OwnedHandle,
    width: Option<usize>,
    height: Option<usize>,
    shows_cursor: Option<bool>,
    source_rect: Option<FFIRect>,
    destination_rect: Option<FFIRect>,
    ignore_shadows: Option<bool>,
    ignore_clipping: Option<bool>,
    include_child_windows: Option<bool>,
    display_intent: Option<SCScreenshotDisplayIntent>,
    dynamic_range: Option<SCScreenshotDynamicRange>,
    file_path: Option<String>,
    content_type: Option<String>,
}

impl View for SCScreenshotConfiguration {
    type V = ScreenshotSettings;

    closed spec fn view(&self) -> ScreenshotSettings {
        ScreenshotSettings {
            width: self.width,
            height: self.height,
            shows_cursor: self.shows_cursor,
            source_rect: self.source_rect,
            destination_rect: self.destination_rect,
            ignore_shadows: self.ignore_shadows,
            ignore_clipping: self.ignore_clipping,
            include_child_windows: self.include_child_windows,
            display_intent: self.display_intent,
            dynamic_range: self.dynamic_range,
            file_path: match self.file_path {
                Some(path) => Some(path@),
                None => None,
            },
            content_type: match self.content_type {
                Some(identifier) => Some(identifier@),
                None => None,
            },
        }
    }
}

/// The text of one answer of the native layer: the C string in the buffer
/// if the query succeeded.
pub open spec fn answer_text(answer: (bool, Vec<u8>)) -> Option<Seq<char>> {
    if answer.0 {
        c_text(answer.1@)
    } else {
        None
    }
}

/// The texts of those answers that have one, in their order.
pub open spec fn answer_texts(answers: Seq<(bool, Vec<u8>)>) -> Seq<Seq<char>>
    decreases answers.len(),
{
    if answers.len() == 0 {
        Seq::empty()
    } else {
        match answer_text(answers.last()) {
            Some(text) => answer_texts(answers.drop_last()).push(text),
            None => answer_texts(answers.drop_last()),
        }
    }
}

/// The views of `strings`.
pub open spec fn views_of(strings: Seq<String>) -> Seq<Seq<char>> {
    strings.map_values(|s: String| s@)
}

impl SCScreenshotConfiguration {
    /// The native configuration.
    pub closed spec fn as_ptr_spec(&self) -> NativeHandle {
        self.handle.raw()
    }

    /// The one reference that the configuration owns.
    pub closed spec fn owner(&self) -> OwnedHandle {
        self.handle
    }

    /// The configuration over the native object `ptr`, which was just
    /// created. Nothing is set on it yet. A null `ptr` is refused.
    pub fn new(ptr: NativeHandle) -> (r: Result<Self, SCError>)
        ensures
            r is Err <==> ptr.addr == 0,
            r is Err ==> r->Err_0 == SCError::ResourceUnavailable,
            r is Ok ==> {
                &&& r->Ok_0@ == ScreenshotSettings::unset()
                &&& r->Ok_0.as_ptr_spec() == ptr
                &&& r->Ok_0.owner().resource_kind() == ResourceKind::Configuration
            },
    {
        match OwnedHandle::wrap(ptr, ResourceKind::Configuration) {
            Ok(handle) => Ok(
                SCScreenshotConfiguration {
                    handle,
                    width: None,
                    height: None,
                    shows_cursor: None,
                    source_rect: None,
                    destination_rect: None,
                    ignore_shadows: None,
                    ignore_clipping: None,
                    include_child_windows: None,
                    display_intent: None,
                    dynamic_range: None,
                    file_path: None,
                    content_type: None,
                },
            ),
            Err(e) => Err(e),
        }
    }

    /// The output width that was set, in pixels.
    pub fn width(&self) -> (v: Option<usize>)
        ensures
            v == self@.width,
    {
        self.width
    }

    /// The output height that was set, in pixels.
    pub fn height(&self) -> (v: Option<usize>)
        ensures
            v == self@.height,
    {
        self.height
    }

    /// Whether the cursor is shown, if that was set.
    pub fn shows_cursor(&self) -> (v: Option<bool>)
        ensures
            v == self@.shows_cursor,
    {
        self.shows_cursor
    }

    /// The source rectangle that was set.
    pub fn source_rect(&self) -> (v: Option<FFIRect>)
        ensures
            v == self@.source_rect,
    {
        self.source_rect
    }

    /// The destination rectangle that was set.
    pub fn destination_rect(&self) -> (v: Option<FFIRect>)
        ensures
            v == self@.destination_rect,
    {
        self.destination_rect
    }

    /// Whether window shadows are left out, if that was set.
    pub fn ignore_shadows(&self) -> (v: Option<bool>)
        ensures
            v == self@.ignore_shadows,
    {
        self.ignore_shadows
    }

    /// Whether clipping is ignored, if that was set.
    pub fn ignore_clipping(&self) -> (v: Option<bool>)
        ensures
            v == self@.ignore_clipping,
    {
        self.ignore_clipping
    }

    /// Whether child windows are included, if that was set.
    pub fn include_child_windows(&self) -> (v: Option<bool>)
        ensures
            v == self@.include_child_windows,
    {
        self.include_child_windows
    }

    /// The display intent that was set.
    pub fn display_intent(&self) -> (v: Option<SCScreenshotDisplayIntent>)
        ensures
            v == self@.display_intent,
    {
        self.display_intent
    }

    /// The dynamic range that was set.
    pub fn dynamic_range(&self) -> (v: Option<SCScreenshotDynamicRange>)
        ensures
            v == self@.dynamic_range,
    {
        self.dynamic_range
    }

    /// The file path that was set.
    pub fn file_path(&self) -> (v: Option<&str>)
        ensures
            v is Some <==> self@.file_path is Some,
            v is Some ==> v->Some_0@ == self@.file_path->Some_0,
    {
        match &self.file_path {
            Some(path) => Some(path.as_str()),
            None => None,
        }
    }

    /// The content type that was set, by its identifier.
    pub fn requested_content_type(&self) -> (v: Option<&str>)
        ensures
            v is Some <==> self@.content_type is Some,
            v is Some ==> v->Some_0@ == self@.content_type->Some_0,
    {
        match &self.content_type {
            Some(identifier) => Some(identifier.as_str()),
            None => None,
        }
    }

    /// Sets the output width in pixels.
    #[must_use]
    pub fn with_width(self, width: usize) -> (config: Self)
        ensures
            config@ == (ScreenshotSettings { width: Some(width), ..self@ }),
            config.owner() == self.owner(),
    {
        let mut config = self;
        config.width = Some(width);
        config
    }

    /// Sets the output height in pixels.
    #[must_use]
    pub fn with_height(self, height: usize) -> (config: Self)
        ensures
            config@ == (ScreenshotSettings { height: Some(height), ..self@ }),
            config.owner() == self.owner(),
    {
        let mut config = self;
        config.height = Some(height);
        config
    }

    /// Sets whether the cursor is shown.
    #[must_use]
    pub fn with_shows_cursor(self, shows_cursor: bool) -> (config: Self)
        ensures
            config@ == (ScreenshotSettings { shows_cursor: Some(shows_cursor), ..self@ }),
            config.owner() == self.owner(),
    {
        let mut config = self;
        config.shows_cursor = Some(shows_cursor);
        config
    }

    /// Sets the rectangle of the source that is captured.
    #[must_use]
    pub fn with_source_rect(self, rect: FFIRect) -> (config: Self)
        ensures
            config@ == (ScreenshotSettings { source_rect: Some(rect), ..self@ }),
            config.owner() == self.owner(),
    {
        let mut config = self;
        config.source_rect = Some(rect);
        config
    }

    /// Sets the rectangle of the output that the capture is drawn into.
    #[must_use]
    pub fn with_destination_rect(self, rect: FFIRect) -> (config: Self)
        ensures
            config@ == (ScreenshotSettings { destination_rect: Some(rect), ..self@ }),
            config.owner() == self.owner(),
    {
        let mut config = self;
        config.destination_rect = Some(rect);
        config
    }

    /// Sets whether window shadows are left out.
    #[must_use]
    pub fn with_ignore_shadows(self, ignore_shadows: bool) -> (config: Self)
        ensures
            config@ == (ScreenshotSettings { ignore_shadows: Some(ignore_shadows), ..self@ }),
            config.owner() == self.owner(),
    {
        let mut config = self;
        config.ignore_shadows = Some(ignore_shadows);
        config
    }

    /// Sets whether clipping is ignored.
    #[must_use]
    pub fn with_ignore_clipping(self, ignore_clipping: bool) -> (config: Self)
        ensures
            config@ == (ScreenshotSettings { ignore_clipping: Some(ignore_clipping), ..self@ }),
            config.owner() == self.owner(),
    {
        let mut config = self;
        config.ignore_clipping = Some(ignore_clipping);
        config
    }

    /// Sets whether child windows are included.
    #[must_use]
    pub fn with_include_child_windows(self, include_child_windows: bool) -> (config: Self)
        ensures
            config@ == (ScreenshotSettings {
                include_child_windows: Some(include_child_windows),
                ..self@
            }),
            config.owner() == self.owner(),
    {
        let mut config = self;
        config.include_child_windows = Some(include_child_windows);
        config
    }

    /// Sets the display intent.
    #[must_use]
    pub fn with_display_intent(self, display_intent: SCScreenshotDisplayIntent) -> (config: Self)
        ensures
            config@ == (ScreenshotSettings { display_intent: Some(display_intent), ..self@ }),
            config.owner() == self.owner(),
    {
        let mut config = self;
        config.display_intent = Some(display_intent);
        config
    }

    /// Sets the dynamic range.
    #[must_use]
    pub fn with_dynamic_range(self, dynamic_range: SCScreenshotDynamicRange) -> (config: Self)
        ensures
            config@ == (ScreenshotSettings { dynamic_range: Some(dynamic_range), ..self@ }),
            config.owner() == self.owner(),
    {
        let mut config = self;
        config.dynamic_range = Some(dynamic_range);
        config
    }

    /// Sets the file that the screenshot is saved to. The path holds no NUL.
    #[must_use]
    pub fn with_file_path(self, path: &str) -> (config: Self)
        requires
            !path_has_nul(path),
        ensures
            config@ == (ScreenshotSettings { file_path: Some(path@), ..self@ }),
            config.owner() == self.owner(),
    {
        let mut config = self;
        config.file_path = Some(path.to_owned());
        config
    }

    /// Sets the content type of the output, by its identifier. The
    /// identifier holds no NUL.
    #[must_use]
    pub fn with_content_type(self, identifier: &str) -> (config: Self)
        requires
            !path_has_nul(identifier),
        ensures
            config@ == (ScreenshotSettings { content_type: Some(identifier@), ..self@ }),
            config.owner() == self.owner(),
    {
        let mut config = self;
        config.content_type = Some(identifier.to_owned());
        config
    }

    /// Sets the file that the screenshot is saved to, unless the path holds
    /// a NUL: then the configuration comes back unchanged, with `false`.
    pub fn try_with_file_path(self, path: &str) -> (r: (Self, bool))
        ensures
            r.1 == !path_has_nul(path),
            r.1 ==> r.0@ == (ScreenshotSettings { file_path: Some(path@), ..self@ }),
            !r.1 ==> r.0@ == self@,
            r.0.owner() == self.owner(),
    {
        if contains_nul(path) {
            (self, false)
        } else {
            (self.with_file_path(path), true)
        }
    }

    /// Sets the content type of the output, unless the identifier holds a
    /// NUL: then the configuration comes back unchanged, with `false`.
    pub fn try_with_content_type(self, identifier: &str) -> (r: (Self, bool))
        ensures
            r.1 == !path_has_nul(identifier),
            r.1 ==> r.0@ == (ScreenshotSettings { content_type: Some(identifier@), ..self@ }),
            !r.1 ==> r.0@ == self@,
            r.0.owner() == self.owner(),
    {
        if contains_nul(identifier) {
            (self, false)
        } else {
            (self.with_content_type(identifier), true)
        }
    }

    /// The content type that the native layer reports, from what the
    /// query answered: whether it succeeded, and the buffer it filled.
    pub fn content_type(&self, success: bool, buffer: &[u8]) -> (r: Option<String>)
        ensures
            r is Some <==> success && c_text(buffer@) is Some,
            r is Some ==> r->Some_0@ == c_text(buffer@)->Some_0,
    {
        if success {
            decode_c_buffer(buffer)
        } else {
            None
        }
    }

    /// The content types that the native layer supports, from what it
    /// answered for each index: whether the query succeeded, and the buffer
    /// it filled. An answer without text is passed over.
    pub fn supported_content_types(answers: &Vec<(bool, Vec<u8>)>) -> (types: Vec<String>)
        ensures
            views_of(types@) == answer_texts(answers@),
    {
        let mut types: Vec<String> = Vec::new();
        let mut i: usize = 0;
        assert(views_of(types@) =~= answer_texts(answers@.take(0)));
        while i < answers.len()
            invariant
                i <= answers@.len(),
                views_of(types@) == answer_texts(answers@.take(i as int)),
            decreases answers@.len() - i,
        {
            let ghost before = types@;
            assert(answers@.take(i + 1).drop_last() =~= answers@.take(i as int));
            assert(answers@.take(i + 1).last() == answers@[i as int]);
            if answers[i].0 {
                match decode_c_buffer(answers[i].1.as_slice()) {
                    Some(text) => {
                        types.push(text);
                        assert(views_of(types@) =~= views_of(before).push(text@));
                    },
                    None => {},
                }
            }
            i += 1;
        }
        assert(answers@.take(i as int) =~= answers@);
        types
    }

    /// The native configuration, for native calls.
    #[must_use]
    pub fn as_ptr(&self) -> (ptr: NativeHandle)
        ensures
            ptr == self.as_ptr_spec(),
            ptr.addr != 0,
    {
        self.handle.as_raw()
    }

    /// Ends the configuration and hands out its reference for release.
    pub fn into_handle(self) -> (handle: OwnedHandle)
        ensures
            handle == self.owner(),
    {
        self.handle
    }
}

/// What a screenshot capture put out.
#[derive(Debug)]
pub struct SCScreenshotOutput {
    handle: OwnedHandle,
}

impl SCScreenshotOutput {
    /// The native output.
    pub closed spec fn as_ptr_spec(&self) -> NativeHandle {
        self.handle.raw()
    }

    /// The one reference that the output owns.
    pub closed spec fn owner(&self) -> OwnedHandle {
        self.handle
    }

    /// The output over `ptr`. The caller holds one reference, which the
    /// output takes over. No output is made of a null pointer.
    pub fn from_ptr(ptr: NativeHandle) -> (output: Option<SCScreenshotOutput>)
        ensures
            output is Some <==> ptr.addr != 0,
            output is Some ==> output->Some_0.as_ptr_spec() == ptr,
    {
        match OwnedHandle::wrap(ptr, ResourceKind::Image) {
            Ok(handle) => Some(SCScreenshotOutput { handle }),
            Err(_) => None,
        }
    }

    /// The native output, for native calls.
    pub fn as_ptr(&self) -> (ptr: NativeHandle)
        ensures
            ptr == self.as_ptr_spec(),
            ptr.addr != 0,
    {
        self.handle.as_raw()
    }

    /// The SDR image of the output, if the native layer handed one out.
    #[must_use]
    pub fn sdr_image(&self, image: NativeHandle, width: usize, height: usize) -> (r: Option<CGImage>)
        ensures
            r is Some <==> image.addr != 0,
            r is Some ==> r->Some_0.as_ptr_spec() == image && r->Some_0.size() == (width, height),
    {
        CGImage::from_ptr(image, width, height)
    }

    /// The HDR image of the output, if the native layer handed one out.
    #[must_use]
    pub fn hdr_image(&self, image: NativeHandle, width: usize, height: usize) -> (r: Option<CGImage>)
        ensures
            r is Some <==> image.addr != 0,
            r is Some ==> r->Some_0.as_ptr_spec() == image && r->Some_0.size() == (width, height),
    {
        CGImage::from_ptr(image, width, height)
    }

    /// The file that the screenshot was saved to, from what the native
    /// query answered: whether it succeeded, and the buffer it filled.
    #[must_use]
    pub fn file_url(&self, success: bool, buffer: &[u8]) -> (r: Option<String>)
        ensures
            r is Some <==> success && c_text(buffer@) is Some,
            r is Some ==> r->Some_0@ == c_text(buffer@)->Some_0,
    {
        if success {
            decode_c_buffer(buffer)
        } else {
            None
        }
    }

    /// Ends the output and hands out its reference for release.
    pub fn into_handle(self) -> (handle: OwnedHandle)
        ensures
            handle == self.owner(),
    {
        self.handle
    }
}

} // verus!
