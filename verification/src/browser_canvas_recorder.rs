use vstd::prelude::*;

verus! {

/// Canvas width the recorder expects, in pixels.
pub const RECORDING_WIDTH: u32 = 640;

/// Canvas height the recorder expects, in pixels.
pub const RECORDING_HEIGHT: u32 = 640;

/// The canvas did not have the recording size; these are its actual pixels.
#[derive(Clone, Copy, Debug, PartialEq, Eq, Structural)]
pub struct CanvasDimensionMismatch {
    pub width: u32,
    pub height: u32,
}

/// Recording needs a `RECORDING_WIDTH` x `RECORDING_HEIGHT` canvas.
pub fn verify_canvas_dimensions(width: u32, height: u32) -> (checked: Result<(), CanvasDimensionMismatch>)
    ensures
        checked is Ok <==> width == RECORDING_WIDTH && height == RECORDING_HEIGHT,
        checked matches Err(mismatch) ==> mismatch.width == width && mismatch.height == height,
{
    if width != RECORDING_WIDTH || height != RECORDING_HEIGHT {
        Err(CanvasDimensionMismatch { width, height })
    } else {
        Ok(())
    }
}

/// WebM encodings to try, best first.
pub open spec fn webm_mime_type_candidates() -> Seq<Seq<char>> {
    seq!["video/webm;codecs=vp9"@, "video/webm;codecs=vp8"@, "video/webm"@]
}

/// The first candidate index whose support flag is set, if any.
pub open spec fn first_supported(supported: Seq<bool>) -> Option<int> {
    if supported[0] {
        Some(0)
    } else if supported[1] {
        Some(1)
    } else if supported[2] {
        Some(2)
    } else {
        None
    }
}

/// The WebM MIME type to record with: the first of `video/webm;codecs=vp9`,
/// `video/webm;codecs=vp8`, `video/webm` that the browser reports as
/// supported (`supported[i]` is the browser's answer for candidate `i`);
/// `None` when it supports none.
pub fn choose_webm_mime_type(supported: &[bool; 3]) -> (mime_type: Option<&'static str>)
    ensures
        mime_type is None <==> first_supported(supported@) is None,
        mime_type matches Some(m) ==> m@ == webm_mime_type_candidates()[first_supported(supported@)->0],
{
    if supported[0] {
        Some("video/webm;codecs=vp9")
    } else if supported[1] {
        Some("video/webm;codecs=vp8")
    } else if supported[2] {
        Some("video/webm")
    } else {
        None
    }
}

} // verus!
