//! Decision logic for a single-frame-in-flight GPU presentation pipeline:
//! device selection, swapchain negotiation, render-pass and recording plans,
//! the frame synchronisation state machine, reverse-order teardown, and the
//! string-keyed command dispatch of the window-manager bridge.

use vstd::prelude::*;

pub mod commands;
pub mod config;
pub mod device;
pub mod frame;
pub mod record;
pub mod renderpass;
pub mod renderer;
pub mod swapchain;
pub mod teardown;
pub mod wm;

verus! {

/// The error kinds the pipeline can surface.
#[derive(Clone, Copy, Debug, PartialEq, Eq, Structural)]
pub enum RenderError {
    /// Creation of an instance, device, swapchain or other GPU object failed.
    Initialization,
    /// No physical device exposes a queue family with graphics and present support.
    NoSuitableDevice,
    /// Acquiring the next swapchain image failed.
    FrameAcquire,
    /// Submitting the recorded command buffer failed.
    FrameSubmit,
    /// Presenting the acquired image failed.
    FramePresent,
}

/// Two text slices read the same.
pub(crate) fn str_eq(a: &str, b: &str) -> (r: bool)
    ensures
        r == (a@ == b@),
{
    let owned_a: String = a.to_owned();
    let owned_b: String = b.to_owned();
    owned_a == owned_b
}

} // verus!
