//! The spatial render pass: the standard pass and its frame aggregator,
//! driven once per tick.

use vstd::prelude::*;

use crate::command::{Frame, FrameAggregator};
use crate::device::DeviceError;
use crate::render::{Graphics, RenderPass, STD_DEPTH_FORMAT};

verus! {

/// The standard pass together with the per-framebuffer frame slots.
pub struct SpatialPass {
    pub pass: RenderPass,
    pub frame_aggregator: FrameAggregator,
}

impl SpatialPass {
    /// What must hold between the pass, its aggregator and the surface
    /// for the next frame to be driven.
    pub open spec fn ready(self, graphics: Graphics) -> bool {
        &&& self.frame_aggregator.wf()
        &&& self.frame_aggregator.slots_settled()
        &&& graphics.render_surface.wf()
        &&& (forall|i: int|
            0 <= i < self.frame_aggregator.command_pools@.len() ==> (
            #[trigger] self.frame_aggregator.command_pools@[i]).resets < u64::MAX)
        &&& (forall|i: int|
            0 <= i < self.frame_aggregator.present_semaphores@.len() ==> !(
            #[trigger] self.frame_aggregator.present_semaphores@[i]).pending)
        &&& (!graphics.render_surface.did_rebuild
            ==> self.frame_aggregator.framebuffers@.len()
            == graphics.render_surface.swapchain.image_count)
    }

    /// Builds the standard pass and one frame slot per swapchain image.
    pub fn new(graphics: &mut Graphics) -> (r: Result<SpatialPass, DeviceError>)
        requires
            old(graphics).device.wf(),
            old(graphics).render_surface.wf(),
            !old(graphics).render_surface.did_rebuild,
            old(graphics).render_surface.backbuffer == Option::Some(
                old(graphics).render_surface.swapchain.image_count,
            ),
            4 * (old(graphics).render_surface.extent.width as nat) * (old(
                graphics,
            ).render_surface.extent.height as nat) <= usize::MAX,
        ensures
            final(graphics).device == old(graphics).device,
            match r {
                Result::Ok(p) => {
                    &&& p.ready(*final(graphics))
                    &&& final(graphics).render_surface.is_valid == old(
                        graphics,
                    ).render_surface.is_valid
                    &&& final(graphics).render_surface.swapchain == old(
                        graphics,
                    ).render_surface.swapchain
                    &&& final(graphics).render_surface.extent == old(
                        graphics,
                    ).render_surface.extent
                    &&& p.frame_aggregator.framebuffers@.len() == old(
                        graphics,
                    ).render_surface.swapchain.image_count
                    &&& p.pass.is_basic(old(graphics).device.color_format)
                },
                Result::Err(e) => {
                    &&& e == DeviceError::NoCompatibleMemoryType
                    &&& forall|j: int|
                        !crate::device::mem_type_matches(
                            old(graphics).device.memory_types@,
                            u64::MAX,
                            crate::device::MEMORY_DEVICE_LOCAL,
                            j,
                        )
                },
            },
    {
        let pass = RenderPass::create_basic(&graphics.device);
        let frame_aggregator = match FrameAggregator::create(
            &pass,
            Option::Some(STD_DEPTH_FORMAT),
            graphics,
        ) {
            Result::Ok(a) => a,
            Result::Err(e) => {
                return Result::Err(e);
            },
        };
        Result::Ok(SpatialPass { pass, frame_aggregator })
    }

    /// Drives one tick: reacts to a just-rebuilt surface by recreating
    /// the framebuffers and slots (consuming the one-shot flag), then
    /// acquires the next frame. No frame means the surface has been
    /// invalidated; the caller skips rendering and the surface is
    /// rebuilt before the next tick.
    pub fn next(&mut self, graphics: &mut Graphics) -> (r: Option<Frame>)
        requires
            old(self).ready(*old(graphics)),
            old(graphics).device.wf(),
            old(graphics).render_surface.did_rebuild ==> old(
                graphics,
            ).render_surface.backbuffer == Option::Some(
                old(graphics).render_surface.swapchain.image_count,
            ),
            4 * (old(graphics).render_surface.extent.width as nat) * (old(
                graphics,
            ).render_surface.extent.height as nat) <= usize::MAX,
        ensures
            final(graphics).device == old(graphics).device,
            !final(graphics).render_surface.did_rebuild,
            final(self).pass == old(self).pass,
            match r {
                Option::Some(frame) => {
                    &&& final(graphics).render_surface.is_valid
                    &&& frame.frame_index < final(self).frame_aggregator.framebuffers@.len()
                    &&& frame.semaphore_index < final(self).frame_aggregator.framebuffers@.len()
                    // The slot is ready for recording and submission.
                    &&& !final(self).frame_aggregator.framebuffer_fences@[frame.frame_index as int].signaled
                    &&& !final(self).frame_aggregator.command_pools@[frame.frame_index as int].in_flight
                    &&& final(self).frame_aggregator.acquire_semaphores@[frame.semaphore_index as int].pending
                    &&& !final(self).frame_aggregator.present_semaphores@[frame.semaphore_index as int].pending
                    &&& final(self).frame_aggregator.wf()
                    &&& final(graphics).render_surface.wf()
                    // The aggregator serves the current swapchain: after
                    // a rebuild it was recreated with one slot per new
                    // image.
                    &&& final(self).frame_aggregator.framebuffers@.len()
                        == final(graphics).render_surface.swapchain.image_count
                },
                Option::None => {
                    // A frame is owed unless the surface was already
                    // invalid or no device-local memory exists for the
                    // rebuilt framebuffers' depth view.
                    &&& !final(graphics).render_surface.is_valid
                    &&& (!old(graphics).render_surface.is_valid || (forall|j: int|
                        !crate::device::mem_type_matches(
                            old(graphics).device.memory_types@,
                            u64::MAX,
                            crate::device::MEMORY_DEVICE_LOCAL,
                            j,
                        )))
                },
            },
    {
        if graphics.render_surface.consume_rebuilt() {
            match FrameAggregator::create(&self.pass, Option::Some(STD_DEPTH_FORMAT), graphics) {
                Result::Ok(aggregator) => {
                    self.frame_aggregator = aggregator;
                },
                Result::Err(_) => {
                    graphics.render_surface.invalidate();
                    return Option::None;
                },
            }
        }
        match self.frame_aggregator.acquire_next(graphics) {
            Option::Some(frame) => Option::Some(frame),
            Option::None => {
                // Invalidate the swapchain for rebuilding.
                graphics.render_surface.invalidate();
                Option::None
            },
        }
    }
}

} // verus!
