//! A captured screen, ready to be shown to a reasoning service.

use vstd::prelude::*;
use vstd::string::*;

verus! {

/// The text that the standard base64 alphabet, with padding, gives for
/// bytes.
pub uninterp spec fn base64_text(bytes: Seq<u8>) -> Seq<char>;

/// Whether the base64 text of `len` bytes has a length that the machine can
/// hold.
pub open spec fn fits_base64(len: nat) -> bool {
    (len / 3 + 1) * 4 <= usize::MAX
}

/// Calls `encode` of `base64::engine::general_purpose::STANDARD`, and names
/// its result `base64_text`.
///
/// Left out by `requires` are inputs so long that the length of the text
/// overflows, on which the crate gives up.
#[verifier::external_body]
fn encode_base64(bytes: &Vec<u8>) -> (r: String)
    requires
        fits_base64(bytes@.len()),
    ensures
        r@ == base64_text(bytes@),
{
    base64::Engine::encode(&base64::engine::general_purpose::STANDARD, bytes)
}

/// A picture of the screen.
#[derive(Debug, PartialEq, Eq)]
pub struct ScreenCapture {
    /// The picture as a PNG file in base64.
    pub base64_image: String,
    /// The width of the screen as captured.
    pub width: u32,
    /// The height of the screen as captured.
    pub height: u32,
    pub timestamp: String,
}

/// What a `ScreenCapture` holds.
pub struct ScreenCaptureView {
    pub base64_image: Seq<char>,
    pub width: u32,
    pub height: u32,
    pub timestamp: Seq<char>,
}

impl View for ScreenCapture {
    type V = ScreenCaptureView;

    open spec fn view(&self) -> ScreenCaptureView {
        ScreenCaptureView {
            base64_image: self.base64_image@,
            width: self.width,
            height: self.height,
            timestamp: self.timestamp@,
        }
    }
}

/// The widest picture that is sent as it is; wider ones are scaled down to
/// this width first.
pub const MAX_WIDTH: u32 = 1280;

/// Whether a picture of the given width is scaled down before it is
/// encoded.
pub fn needs_resize(width: u32) -> (r: bool)
    ensures
        r == (width > MAX_WIDTH),
{
    width > MAX_WIDTH
}

impl ScreenCapture {
    /// The capture of a screen of the given size from its picture as a PNG
    /// file, or `None` where the file is too long for its base64 text to fit
    /// the machine.
    pub fn from_png(png: &Vec<u8>, width: u32, height: u32, timestamp: String) -> (r: Option<
        ScreenCapture,
    >)
        ensures
            match r {
                Some(capture) => fits_base64(png@.len()) && capture@ == (ScreenCaptureView {
                    base64_image: base64_text(png@),
                    width,
                    height,
                    timestamp: timestamp@,
                }),
                None => !fits_base64(png@.len()),
            },
    {
        if png.len() / 3 >= usize::MAX / 4 {
            return None;
        }
        Some(ScreenCapture { base64_image: encode_base64(png), width, height, timestamp })
    }
}

} // verus!
