//! Capturing audio and the screen: samples, the buffers that collect them,
//! and the controllers that start and stop a source.

pub mod audio;
pub mod sample;
pub mod screen;

use vstd::prelude::*;
use crate::text::opt_text;

verus! {

/// What the capture commands remember between calls.
#[derive(Debug, PartialEq, Eq)]
pub struct CaptureState {
    pub is_recording_audio: bool,
    pub last_screen_capture: Option<String>,
}

/// What a `CaptureState` holds.
pub struct CaptureStateView {
    pub is_recording_audio: bool,
    pub last_screen_capture: Option<Seq<char>>,
}

impl View for CaptureState {
    type V = CaptureStateView;

    open spec fn view(&self) -> CaptureStateView {
        CaptureStateView {
            is_recording_audio: self.is_recording_audio,
            last_screen_capture: opt_text(self.last_screen_capture),
        }
    }
}

impl Default for CaptureState {
    fn default() -> (r: Self)
        ensures
            r@ == (CaptureStateView { is_recording_audio: false, last_screen_capture: None }),
    {
        CaptureState { is_recording_audio: false, last_screen_capture: None }
    }
}

} // verus!
