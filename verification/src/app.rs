//! Frame-loop decisions: what the shell's update cycle does with the
//! window's signals and the surface's validity.
//!
//! The shell polls the window, translates its events, performs the
//! drawing and presentation; every decision in between is taken here.

use vstd::prelude::*;

use crate::device::Device;
use crate::input::Event;
use crate::render::{Surface, SwapchainConfig};
use crate::types::Extent2d;

verus! {

/// Whether the application loop goes on.
#[derive(Clone, Copy, PartialEq, Eq, Structural, Debug)]
pub enum LoopInstruction {
    Continue,
    Exit,
}

/// What a batch of window events asks of the frame loop.
#[derive(Clone, Copy, PartialEq, Eq, Structural, Debug)]
pub struct WindowSignals {
    pub should_terminate: bool,
    pub should_invalidate: bool,
}

/// Whether the batch holds a close request.
pub open spec fn has_close_request(events: Seq<Event>) -> bool {
    exists|i: int| 0 <= i < events.len() && (#[trigger] events[i]) is CloseRequested
}

/// Whether the batch holds a resize.
pub open spec fn has_resize(events: Seq<Event>) -> bool {
    exists|i: int| 0 <= i < events.len() && (#[trigger] events[i]) is Resized
}

/// Scans one frame's events for the loop's signals: a close request
/// asks for termination, a resize invalidates the surface so that the
/// swapchain is rebuilt before the next frame.
pub fn collect_window_signals(events: &Vec<Event>) -> (r: WindowSignals)
    ensures
        r.should_terminate == has_close_request(events@),
        r.should_invalidate == has_resize(events@),
{
    let mut should_terminate = false;
    let mut should_invalidate = false;
    let mut i: usize = 0;
    while i < events.len()
        invariant
            i <= events@.len(),
            should_terminate == has_close_request(events@.take(i as int)),
            should_invalidate == has_resize(events@.take(i as int)),
        decreases events@.len() - i,
    {
        match events[i] {
            Event::CloseRequested => {
                should_terminate = true;
            },
            Event::Resized { width, height } => {
                should_invalidate = true;
            },
            _ => {},
        }
        proof {
            assert(events@.take(i as int + 1).drop_last() =~= events@.take(i as int));
            assert(events@.take(i as int + 1).last() == events@[i as int]);
            if has_close_request(events@.take(i as int)) {
                let k = choose|k: int|
                    0 <= k < i && (#[trigger] events@.take(i as int)[k]) is CloseRequested;
                assert(events@.take(i as int + 1)[k] is CloseRequested);
            }
            if has_resize(events@.take(i as int)) {
                let k = choose|k: int|
                    0 <= k < i && (#[trigger] events@.take(i as int)[k]) is Resized;
                assert(events@.take(i as int + 1)[k] is Resized);
            }
            if events@[i as int] is CloseRequested {
                assert(events@.take(i as int + 1)[i as int] is CloseRequested);
            }
            if events@[i as int] is Resized {
                assert(events@.take(i as int + 1)[i as int] is Resized);
            }
        }
        i = i + 1;
    }
    proof {
        assert(events@.take(events@.len() as int) =~= events@);
    }
    WindowSignals { should_terminate, should_invalidate }
}

/// Surface maintenance before a frame: an invalid surface is rebuilt
/// for the window's current size; a valid one is left alone. After the
/// call the surface is always valid.
pub fn maintain_surface(surface: &mut Surface, device: &mut Device, window_size: Extent2d)
    requires
        old(device).wf(),
        old(surface).swapchain.generation < u64::MAX,
    ensures
        final(surface).is_valid,
        old(surface).is_valid ==> {
            &&& *final(surface) == *old(surface)
            &&& *final(device) == *old(device)
        },
        !old(surface).is_valid ==> {
            &&& final(surface).wf()
            &&& final(surface).did_rebuild
            &&& final(surface).extent == SwapchainConfig::spec_from_caps(
                old(device).capabilities,
                old(device).color_format,
                window_size,
            ).extent
            &&& final(surface).backbuffer == Option::Some(final(surface).swapchain.image_count)
            &&& final(device).submissions_in_flight == 0
        },
{
    if !surface.is_valid {
        surface.rebuild(window_size, device);
    }
}

/// Whether the loop goes on after this cycle: it exits exactly when
/// termination was requested.
pub fn loop_instruction(should_terminate: bool) -> (r: LoopInstruction)
    ensures
        r == (if should_terminate {
            LoopInstruction::Exit
        } else {
            LoopInstruction::Continue
        }),
{
    if should_terminate {
        LoopInstruction::Exit
    } else {
        LoopInstruction::Continue
    }
}

} // verus!
