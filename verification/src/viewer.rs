//! The decisions of a viewer that shows a tracer's image: what one frame
//! does with the keys that are down, and what a change of the viewport does
//! to the tracer. Drawing the window and reading the keys is the caller's
//! part; what follows from them is decided here.

use crate::tracer::{gradient, Tracer};
use vstd::prelude::*;

verus! {

/// The options that a user of the viewer can switch on and off.
#[derive(Clone, Copy, Debug, PartialEq, Eq, Structural)]
pub struct RenderOptions {
    /// Draw the image anew whenever its size has changed.
    pub render_on_resize: bool,
    /// Draw the image anew in every frame.
    pub render_continuously: bool,
    /// Let the image follow the size of the viewport.
    pub fit_to_viewport: bool,
}

/// What the user asks for in one frame.
#[derive(Clone, Copy, Debug, PartialEq, Eq, Structural)]
pub struct FrameInput {
    /// The key that closes the viewer is down.
    pub close: bool,
    /// The key that switches fullscreen was pressed in this frame.
    pub toggle_fullscreen: bool,
    /// The key that draws the image is down.
    pub trace: bool,
    /// The key combination that saves the image was pressed in this frame.
    pub save: bool,
}

/// What the viewer does in one frame before it shows its window, in this
/// order: close, draw on request, save, draw because drawing is continuous,
/// switch fullscreen.
#[derive(Clone, Copy, Debug, PartialEq, Eq, Structural)]
pub struct FramePlan {
    pub close: bool,
    pub trace_on_request: bool,
    pub save: bool,
    pub trace_continuously: bool,
    /// Whether the window is fullscreen from this frame on.
    pub fullscreen: bool,
    /// Whether the panel with the options is shown beside the image.
    pub side_panel: bool,
}

/// The plan of a frame. Every request of the user is carried out; the image
/// is drawn once more when drawing is continuous; fullscreen flips when its
/// key was pressed; the side panel is shown exactly when the window is not
/// fullscreen.
pub open spec fn frame_plan(
    fullscreen: bool,
    options: RenderOptions,
    input: FrameInput,
) -> FramePlan {
    FramePlan {
        close: input.close,
        trace_on_request: input.trace,
        save: input.save,
        trace_continuously: options.render_continuously,
        fullscreen: fullscreen != input.toggle_fullscreen,
        side_panel: fullscreen == input.toggle_fullscreen,
    }
}

/// Decides what one frame does, from whether the window is fullscreen now,
/// the options, and the user's input.
pub fn plan_frame(fullscreen: bool, options: &RenderOptions, input: &FrameInput) -> (plan: FramePlan)
    ensures
        plan == frame_plan(fullscreen, *options, *input),
{
    let now_fullscreen = if input.toggle_fullscreen {
        !fullscreen
    } else {
        fullscreen
    };
    FramePlan {
        close: input.close,
        trace_on_request: input.trace,
        save: input.save,
        trace_continuously: options.render_continuously,
        fullscreen: now_fullscreen,
        side_panel: !now_fullscreen,
    }
}

/// Whether a viewport of `width * height` makes the viewer draw the image
/// anew: the size is one an image can have, it differs from the size of the
/// image, and drawing on a change of size is switched on.
pub open spec fn redraws_on_resize(
    current_width: nat,
    current_height: nat,
    width: nat,
    height: nat,
    options: RenderOptions,
) -> bool {
    &&& width >= 1
    &&& height >= 1
    &&& options.render_on_resize
    &&& (current_width != width || current_height != height)
}

/// Brings the tracer to the size of the viewport and says whether it drew
/// the image anew.
///
/// A viewport without area (a window that is being collapsed) is passed
/// over: the tracer stays as it is. Otherwise the tracer is resized, and
/// where that changed its size and `render_on_resize` is on, the image is
/// drawn again.
pub fn resize_tracer(
    tracer: &mut Tracer,
    width: usize,
    height: usize,
    options: &RenderOptions,
) -> (redrawn: bool)
    requires
        old(tracer).wf(),
        width * height * 3 <= usize::MAX,
    ensures
        final(tracer).wf(),
        redrawn == redraws_on_resize(
            old(tracer)@.width,
            old(tracer)@.height,
            width as nat,
            height as nat,
            *options,
        ),
        width < 1 || height < 1 ==> final(tracer)@ == old(tracer)@,
        width >= 1 && height >= 1 ==> final(tracer)@.width == width && final(tracer)@.height
            == height,
        width >= 1 && height >= 1 && !redrawn ==> final(tracer)@ == old(tracer)@.resized(
            width as nat,
            height as nat,
        ),
        redrawn ==> final(tracer)@.pixels == gradient(width as nat, height as nat),
{
    if width < 1 || height < 1 {
        return false;
    }
    let size_changed = tracer.width() != width || tracer.height() != height;
    let resized = tracer.resize(width, height);
    assert(resized is Ok);
    if options.render_on_resize && size_changed {
        tracer.trace();
        true
    } else {
        false
    }
}

} // verus!
