//! Per-frame command recording, submission and presentation: the
//! N-way frame-overlap machinery.
//!
//! The aggregator keeps one slot per swapchain image: a command pool, a
//! fence and an acquire/present semaphore pair. Semaphore pairs rotate
//! round-robin independently of the image index the swapchain hands out.
//! A slot's fence is waited on and cleared, and only then is its command
//! pool reset, before the slot is reused — so at most one submission per
//! slot is ever in flight.

use vstd::prelude::*;
use vstd::arithmetic::div_mod::{
    lemma_fundamental_div_mod,
    lemma_fundamental_div_mod_converse,
    lemma_mod_self_0,
    lemma_small_mod,
};

use crate::device::{Device, DeviceError, DeviceToken};
use crate::render::{Framebuffer, Graphics, RenderPass, Viewport};
use crate::types::Color;

verus! {

/// A CPU-observable GPU completion signal.
#[derive(Clone, Copy, PartialEq, Eq, Structural, Debug)]
pub struct Fence {
    pub signaled: bool,
}

/// A GPU-side-only ordering primitive: `pending` says a signal has been
/// queued and not yet consumed by a waiting queue operation.
#[derive(Clone, Copy, PartialEq, Eq, Structural, Debug)]
pub struct Semaphore {
    pub pending: bool,
}

/// A per-slot command pool. `resets` counts pool resets; `in_flight`
/// says a submission recorded from this pool has not yet been waited on.
#[derive(Clone, Copy, PartialEq, Eq, Structural, Debug)]
pub struct CommandPool {
    pub resets: u64,
    pub in_flight: bool,
}

/// One recorded command of a frame.
#[derive(Clone, PartialEq, Eq, Debug)]
pub enum Command {
    SetViewport(Viewport),
    SetScissor(Viewport),
    BeginRenderPass { framebuffer: u32, clear_color: Color },
    BindPipeline { pipeline: u64 },
    BindDescriptorSets { first_set: u32, sets: Vec<u64> },
    BindVertexBuffer { binding: u32 },
    BindIndexBuffer,
    PushConstants { stages: u32, offset: u32, words: Vec<u32> },
    Draw { vertex_count: u32, instance_count: u32 },
    DrawIndexed { index_count: u32, instance_count: u32 },
    EndRenderPass,
}

/// Records draw commands inside one render pass.
pub struct Encoder {
    pub commands: Vec<Command>,
}

impl Encoder {
    pub fn new() -> (r: Encoder)
        ensures
            r.commands@ =~= Seq::<Command>::empty(),
    {
        Encoder { commands: Vec::new() }
    }

    pub fn bind_graphics_pipeline(&mut self, pipeline: u64)
        ensures
            final(self).commands@ == old(self).commands@.push(
                Command::BindPipeline { pipeline },
            ),
    {
        self.commands.push(Command::BindPipeline { pipeline });
    }

    pub fn bind_graphics_descriptor_sets(&mut self, first_set: u32, sets: Vec<u64>)
        ensures
            final(self).commands@ == old(self).commands@.push(
                Command::BindDescriptorSets { first_set, sets },
            ),
    {
        self.commands.push(Command::BindDescriptorSets { first_set, sets });
    }

    pub fn bind_vertex_buffer(&mut self, binding: u32)
        ensures
            final(self).commands@ == old(self).commands@.push(
                Command::BindVertexBuffer { binding },
            ),
    {
        self.commands.push(Command::BindVertexBuffer { binding });
    }

    pub fn bind_index_buffer(&mut self)
        ensures
            final(self).commands@ == old(self).commands@.push(Command::BindIndexBuffer),
    {
        self.commands.push(Command::BindIndexBuffer);
    }

    pub fn push_graphics_constants(&mut self, stages: u32, offset: u32, words: Vec<u32>)
        ensures
            final(self).commands@ == old(self).commands@.push(
                Command::PushConstants { stages, offset, words },
            ),
    {
        self.commands.push(Command::PushConstants { stages, offset, words });
    }

    pub fn draw(&mut self, vertex_count: u32, instance_count: u32)
        ensures
            final(self).commands@ == old(self).commands@.push(
                Command::Draw { vertex_count, instance_count },
            ),
    {
        self.commands.push(Command::Draw { vertex_count, instance_count });
    }

    pub fn draw_indexed(&mut self, index_count: u32, instance_count: u32)
        ensures
            final(self).commands@ == old(self).commands@.push(
                Command::DrawIndexed { index_count, instance_count },
            ),
    {
        self.commands.push(Command::DrawIndexed { index_count, instance_count });
    }
}

/// A one-shot command buffer being recorded for a frame.
pub struct CommandBuffer {
    pub commands: Vec<Command>,
    pub finished: bool,
}

impl CommandBuffer {
    /// Acquires a fresh one-shot command buffer from a slot's pool.
    pub fn new(command_pool: &CommandPool) -> (r: CommandBuffer)
        ensures
            r.commands@ =~= Seq::<Command>::empty(),
            !r.finished,
    {
        CommandBuffer { commands: Vec::new(), finished: false }
    }

    /// Starts the frame's render pass: sets the viewport and scissor to
    /// the surface's viewport and opens the pass over the framebuffer
    /// with the given clear color. Draws recorded into the returned
    /// encoder follow inside the pass.
    pub fn begin_draw(
        &mut self,
        framebuffer: &Framebuffer,
        render_pass: &RenderPass,
        render_surface: &crate::render::Surface,
        clear_color: Color,
    ) -> (r: Encoder)
        requires
            !old(self).finished,
        ensures
            !final(self).finished,
            final(self).commands@ == old(self).commands@ + seq![
                Command::SetViewport(render_surface.viewport),
                Command::SetScissor(render_surface.viewport),
                Command::BeginRenderPass {
                    framebuffer: framebuffer.image_index,
                    clear_color,
                },
            ],
            r.commands@ =~= Seq::<Command>::empty(),
    {
        self.commands.push(Command::SetViewport(render_surface.viewport));
        self.commands.push(Command::SetScissor(render_surface.viewport));
        self.commands.push(
            Command::BeginRenderPass { framebuffer: framebuffer.image_index, clear_color },
        );
        proof {
            assert(self.commands@ =~= old(self).commands@ + seq![
                Command::SetViewport(render_surface.viewport),
                Command::SetScissor(render_surface.viewport),
                Command::BeginRenderPass {
                    framebuffer: framebuffer.image_index,
                    clear_color,
                },
            ]);
        }
        Encoder::new()
    }

    /// Closes the render pass, appending the encoder's draws.
    pub fn end_pass(&mut self, encoder: Encoder)
        requires
            !old(self).finished,
        ensures
            !final(self).finished,
            final(self).commands@ == old(self).commands@ + encoder.commands@ + seq![
                Command::EndRenderPass,
            ],
    {
        let mut encoder = encoder;
        let ghost enc = encoder.commands@;
        let ghost before = self.commands@;
        self.commands.append(&mut encoder.commands);
        self.commands.push(Command::EndRenderPass);
        proof {
            assert(self.commands@ =~= before + enc + seq![Command::EndRenderPass]);
        }
    }

    /// Finishes recording; the buffer can then be submitted.
    pub fn finish(&mut self)
        ensures
            final(self).commands@ == old(self).commands@,
            final(self).finished,
    {
        self.finished = true;
    }
}

/// The commands a frame's submission holds: the viewport and scissor
/// setup, the render pass opened over the frame's framebuffer with the
/// clear color, the recorded draws, and the pass's end.
pub open spec fn frame_submission(
    viewport: Viewport,
    framebuffer: u32,
    clear_color: Color,
    draws: Seq<Command>,
) -> Seq<Command> {
    seq![
        Command::SetViewport(viewport),
        Command::SetScissor(viewport),
        Command::BeginRenderPass { framebuffer, clear_color },
    ] + draws + seq![Command::EndRenderPass]
}

/// A frame handed out by the aggregator: the acquired swapchain image's
/// slot and the semaphore pair chosen for this acquisition. Acquisition
/// order is backend-defined, so the two indices need not match.
#[derive(Clone, Copy, PartialEq, Eq, Structural, Debug)]
pub struct Frame {
    pub frame_index: usize,
    pub semaphore_index: usize,
}

impl Frame {
    pub fn new(frame_index: usize, semaphore_index: usize) -> (r: Frame)
        ensures
            r == (Frame { frame_index, semaphore_index }),
    {
        Frame { frame_index, semaphore_index }
    }

    /// Records the frame: finishes the command buffer with the given
    /// draws inside the render pass, submits it waiting on the frame's
    /// acquire semaphore and signaling its present semaphore and slot
    /// fence, then presents waiting on the present semaphore.
    ///
    /// Presentation failure is reported as `false`, never as a fatal
    /// error: the caller marks the surface invalid and rebuilds next
    /// tick.
    pub fn begin_render(
        &self,
        aggregator: &mut FrameAggregator,
        graphics: &mut Graphics,
        render_pass: &RenderPass,
        clear_color: Color,
        encoder: Encoder,
    ) -> (r: (bool, Ghost<Seq<Command>>))
        requires
            old(aggregator).wf(),
            self.frame_index < old(aggregator).framebuffers@.len(),
            self.semaphore_index < old(aggregator).framebuffers@.len(),
            // The slot is as acquisition left it: fence cleared, pool
            // drained, acquire semaphore signaled by the acquisition.
            !old(aggregator).framebuffer_fences@[self.frame_index as int].signaled,
            !old(aggregator).command_pools@[self.frame_index as int].in_flight,
            old(aggregator).acquire_semaphores@[self.semaphore_index as int].pending,
            !old(aggregator).present_semaphores@[self.semaphore_index as int].pending,
            old(graphics).device.submissions_in_flight < u64::MAX,
        ensures
            final(aggregator).wf(),
            final(aggregator).framebuffers == old(aggregator).framebuffers,
            final(aggregator).last_ref == old(aggregator).last_ref,
            // The acquire semaphore was consumed by the submission and
            // the present semaphore by the presentation.
            final(aggregator).acquire_semaphores@ == old(
                aggregator,
            ).acquire_semaphores@.update(
                self.semaphore_index as int,
                Semaphore { pending: false },
            ),
            final(aggregator).present_semaphores@ == old(aggregator).present_semaphores@,
            // The slot's submission retired and signaled its fence; the
            // slot stays marked in flight until the fence is waited on.
            final(aggregator).framebuffer_fences@ == old(
                aggregator,
            ).framebuffer_fences@.update(self.frame_index as int, Fence { signaled: true }),
            final(aggregator).command_pools@ == old(aggregator).command_pools@.update(
                self.frame_index as int,
                CommandPool {
                    resets: old(aggregator).command_pools@[self.frame_index as int].resets,
                    in_flight: true,
                },
            ),
            final(graphics).device.submissions_in_flight == old(
                graphics,
            ).device.submissions_in_flight + 1,
            final(graphics).render_surface == old(graphics).render_surface,
            final(graphics).device.id == old(graphics).device.id,
            final(graphics).device.color_format == old(graphics).device.color_format,
            final(graphics).device.memory_types == old(graphics).device.memory_types,
            final(graphics).device.capabilities == old(graphics).device.capabilities,
            final(graphics).device.min_buffer_copy_pitch_alignment == old(
                graphics,
            ).device.min_buffer_copy_pitch_alignment,
            final(graphics).device.next_resource_id == old(graphics).device.next_resource_id,
            // Presentation outcome: true exactly when the surface was
            // still valid for the swapchain presented to.
            r.0 == old(graphics).render_surface.is_valid,
            // What the queue received: the frame's setup, the encoder's
            // draws, and nothing else.
            r.1@ == frame_submission(
                old(graphics).render_surface.viewport,
                old(aggregator).framebuffers@[self.frame_index as int].image_index,
                clear_color,
                encoder.commands@,
            ),
    {
        let fi = self.frame_index;
        let si = self.semaphore_index;
        let ghost draws = encoder.commands@;
        let mut cmd_buffer = CommandBuffer::new(&aggregator.command_pools[fi]);
        let _ = cmd_buffer.begin_draw(
            &aggregator.framebuffers[fi],
            render_pass,
            &graphics.render_surface,
            clear_color,
        );
        cmd_buffer.end_pass(encoder);
        cmd_buffer.finish();
        let ghost submitted = cmd_buffer.commands@;
        proof {
            assert(submitted =~= frame_submission(
                graphics.render_surface.viewport,
                aggregator.framebuffers@[fi as int].image_index,
                clear_color,
                draws,
            ));
        }

        // Submission: wait on the acquire semaphore, signal the present
        // semaphore and the slot fence.
        aggregator.acquire_semaphores.set(si, Semaphore { pending: false });
        aggregator.present_semaphores.set(si, Semaphore { pending: true });
        aggregator.framebuffer_fences.set(fi, Fence { signaled: true });
        let resets = aggregator.command_pools[fi].resets;
        aggregator.command_pools.set(fi, CommandPool { resets, in_flight: true });
        graphics.device.submissions_in_flight = graphics.device.submissions_in_flight + 1;

        // Presentation: wait on the present semaphore; the outcome is a
        // boolean for the frame loop.
        aggregator.present_semaphores.set(si, Semaphore { pending: false });
        let ok = graphics.render_surface.is_valid;
        let result = (ok, Ghost(submitted));
        proof {
            assert(aggregator.acquire_semaphores@ =~= old(aggregator).acquire_semaphores@.update(
                si as int,
                Semaphore { pending: false },
            ));
            assert(aggregator.present_semaphores@ =~= old(aggregator).present_semaphores@);
            assert(aggregator.framebuffer_fences@ =~= old(aggregator).framebuffer_fences@.update(
                fi as int,
                Fence { signaled: true },
            ));
            assert(aggregator.command_pools@ =~= old(aggregator).command_pools@.update(
                fi as int,
                CommandPool {
                    resets: old(aggregator).command_pools@[fi as int].resets,
                    in_flight: true,
                },
            ));
        }
        result
    }
}

/// Per-framebuffer pool of {command pool, fence, acquire semaphore,
/// present semaphore}; slot count equals the swapchain image count.
pub struct FrameAggregator {
    pub framebuffers: Vec<Framebuffer>,
    pub command_pools: Vec<CommandPool>,
    pub framebuffer_fences: Vec<Fence>,
    pub acquire_semaphores: Vec<Semaphore>,
    pub present_semaphores: Vec<Semaphore>,
    pub last_ref: usize,
    pub device_token: DeviceToken,
}

impl FrameAggregator {
    pub open spec fn wf(self) -> bool {
        &&& self.command_pools@.len() == self.framebuffers@.len()
        &&& self.framebuffer_fences@.len() == self.framebuffers@.len()
        &&& self.acquire_semaphores@.len() == self.framebuffers@.len()
        &&& self.present_semaphores@.len() == self.framebuffers@.len()
        &&& self.last_ref <= self.framebuffers@.len()
    }

    /// Every slot whose pool still has a submission in flight has a
    /// signaled fence: the retired work can be waited for without
    /// blocking forever.
    pub open spec fn slots_settled(self) -> bool {
        forall|i: int|
            0 <= i < self.command_pools@.len() && self.command_pools@[i].in_flight
                ==> self.framebuffer_fences@[i].signaled
    }

    /// Builds one slot per framebuffer: an empty command pool, a fence
    /// created signaled, and an unsignaled semaphore pair.
    pub fn new(framebuffers: Vec<Framebuffer>, device: &Device) -> (r: FrameAggregator)
        ensures
            r.wf(),
            r.slots_settled(),
            r.framebuffers == framebuffers,
            r.last_ref == 0,
            r.framebuffer_fences@ =~= Seq::new(
                framebuffers@.len(),
                |i: int| Fence { signaled: true },
            ),
            r.command_pools@ =~= Seq::new(
                framebuffers@.len(),
                |i: int| CommandPool { resets: 0, in_flight: false },
            ),
            r.acquire_semaphores@ =~= Seq::new(
                framebuffers@.len(),
                |i: int| Semaphore { pending: false },
            ),
            r.present_semaphores@ =~= Seq::new(
                framebuffers@.len(),
                |i: int| Semaphore { pending: false },
            ),
            r.device_token.device_id == device.id,
    {
        let count = framebuffers.len();
        let mut command_pools: Vec<CommandPool> = Vec::new();
        let mut framebuffer_fences: Vec<Fence> = Vec::new();
        let mut acquire_semaphores: Vec<Semaphore> = Vec::new();
        let mut present_semaphores: Vec<Semaphore> = Vec::new();
        let mut i: usize = 0;
        while i < count
            invariant
                i <= count,
                command_pools@ =~= Seq::new(
                    i as nat,
                    |k: int| CommandPool { resets: 0, in_flight: false },
                ),
                framebuffer_fences@ =~= Seq::new(i as nat, |k: int| Fence { signaled: true }),
                acquire_semaphores@ =~= Seq::new(i as nat, |k: int| Semaphore { pending: false }),
                present_semaphores@ =~= Seq::new(i as nat, |k: int| Semaphore { pending: false }),
            decreases count - i,
        {
            command_pools.push(CommandPool { resets: 0, in_flight: false });
            framebuffer_fences.push(Fence { signaled: true });
            acquire_semaphores.push(Semaphore { pending: false });
            present_semaphores.push(Semaphore { pending: false });
            i = i + 1;
        }
        FrameAggregator {
            framebuffers,
            command_pools,
            framebuffer_fences,
            acquire_semaphores,
            present_semaphores,
            last_ref: 0,
            device_token: device.create_token(),
        }
    }

    /// Builds the aggregator for a render pass: takes the surface's
    /// backbuffer as framebuffers and gives each image its slot.
    pub fn create(
        render_pass: &RenderPass,
        depth_format: Option<crate::device::Format>,
        graphics: &mut Graphics,
    ) -> (r: Result<FrameAggregator, DeviceError>)
        requires
            old(graphics).device.wf(),
            4 * (old(graphics).render_surface.extent.width as nat) * (old(
                graphics,
            ).render_surface.extent.height as nat) <= usize::MAX,
        ensures
            final(graphics).device == old(graphics).device,
            match r {
                Result::Ok(agg) => {
                    &&& agg.wf()
                    &&& agg.slots_settled()
                    &&& agg.last_ref == 0
                    &&& agg.framebuffer_fences@ =~= Seq::new(
                        agg.framebuffers@.len(),
                        |i: int| Fence { signaled: true },
                    )
                    &&& agg.command_pools@ =~= Seq::new(
                        agg.framebuffers@.len(),
                        |i: int| CommandPool { resets: 0, in_flight: false },
                    )
                    &&& agg.acquire_semaphores@ =~= Seq::new(
                        agg.framebuffers@.len(),
                        |i: int| Semaphore { pending: false },
                    )
                    &&& agg.present_semaphores@ =~= Seq::new(
                        agg.framebuffers@.len(),
                        |i: int| Semaphore { pending: false },
                    )
                    &&& match old(graphics).render_surface.backbuffer {
                        Option::Some(n) => agg.framebuffers@.len() == n,
                        Option::None => agg.framebuffers@.len() == 0,
                    }
                    &&& final(graphics).render_surface.backbuffer is None
                    &&& final(graphics).render_surface.is_valid == old(
                        graphics,
                    ).render_surface.is_valid
                    &&& final(graphics).render_surface.did_rebuild == old(
                        graphics,
                    ).render_surface.did_rebuild
                    &&& final(graphics).render_surface.swapchain == old(
                        graphics,
                    ).render_surface.swapchain
                    &&& final(graphics).render_surface.extent == old(
                        graphics,
                    ).render_surface.extent
                    &&& final(graphics).render_surface.viewport == old(
                        graphics,
                    ).render_surface.viewport
                    &&& final(graphics).render_surface.window_surface == old(
                        graphics,
                    ).render_surface.window_surface
                },
                Result::Err(e) => {
                    &&& e == DeviceError::NoCompatibleMemoryType
                    &&& final(graphics).render_surface == old(graphics).render_surface
                    &&& forall|j: int|
                        !crate::device::mem_type_matches(
                            old(graphics).device.memory_types@,
                            u64::MAX,
                            crate::device::MEMORY_DEVICE_LOCAL,
                            j,
                        )
                },
            },
    {
        let framebuffers = match graphics.render_surface.create_framebuffers(
            render_pass,
            depth_format,
            &graphics.device,
        ) {
            Result::Ok(fbs) => fbs,
            Result::Err(e) => {
                return Result::Err(e);
            },
        };
        Result::Ok(Self::new(framebuffers, &graphics.device))
    }

    /// Picks the next semaphore-pair index, round-robin.
    fn next_acq_pre_pair_index(&mut self) -> (r: usize)
        requires
            old(self).wf(),
            old(self).framebuffers@.len() > 0,
        ensures
            final(self).wf(),
            r == rotation_pick(old(self).last_ref as int, old(self).framebuffers@.len() as int),
            final(self).last_ref == r + 1,
            r < final(self).framebuffers@.len(),
            *final(self) == (FrameAggregator { last_ref: final(self).last_ref, ..*old(self) }),
    {
        if self.last_ref >= self.acquire_semaphores.len() {
            self.last_ref = 0;
        }
        let ret = self.last_ref;
        self.last_ref = self.last_ref + 1;
        ret
    }

    /// Acquires the next image and semaphore pair, or nothing when the
    /// surface cannot provide an image this tick.
    fn acquire_next_indices(&mut self, graphics: &mut Graphics) -> (r: Option<(usize, usize)>)
        requires
            old(self).wf(),
            old(graphics).render_surface.wf(),
            old(self).framebuffers@.len() == old(
                graphics,
            ).render_surface.swapchain.image_count,
        ensures
            final(self).wf(),
            final(graphics).device == old(graphics).device,
            final(self).framebuffers == old(self).framebuffers,
            final(self).command_pools == old(self).command_pools,
            final(self).framebuffer_fences == old(self).framebuffer_fences,
            final(self).present_semaphores == old(self).present_semaphores,
            final(graphics).render_surface.wf(),
            match r {
                Option::Some((fi, si)) => {
                    &&& old(self).framebuffers@.len() > 0
                    &&& old(graphics).render_surface.is_valid
                    &&& fi == old(graphics).render_surface.swapchain.next_image
                    &&& si == rotation_pick(
                        old(self).last_ref as int,
                        old(self).framebuffers@.len() as int,
                    )
                    &&& final(self).last_ref == si + 1
                    &&& fi < old(self).framebuffers@.len()
                    &&& si < old(self).framebuffers@.len()
                    &&& final(self).acquire_semaphores@ == old(self).acquire_semaphores@.update(
                        si as int,
                        Semaphore { pending: true },
                    )
                    &&& final(graphics).render_surface == (crate::render::Surface {
                        swapchain: final(graphics).render_surface.swapchain,
                        ..old(graphics).render_surface
                    })
                    &&& final(graphics).render_surface.swapchain == (crate::render::Swapchain {
                        next_image: final(graphics).render_surface.swapchain.next_image,
                        ..old(graphics).render_surface.swapchain
                    })
                    &&& final(graphics).render_surface.swapchain.next_image as int == (fi as int
                        + 1) % (old(graphics).render_surface.swapchain.image_count as int)
                },
                Option::None => {
                    &&& !(old(self).framebuffers@.len() > 0 && old(
                        graphics,
                    ).render_surface.is_valid)
                    &&& final(self).acquire_semaphores == old(self).acquire_semaphores
                    &&& final(graphics).render_surface == old(graphics).render_surface
                    &&& (old(self).framebuffers@.len() > 0 ==> final(self).last_ref
                        == rotation_pick(
                        old(self).last_ref as int,
                        old(self).framebuffers@.len() as int,
                    ) + 1)
                    &&& (old(self).framebuffers@.len() == 0 ==> final(self).last_ref == old(
                        self,
                    ).last_ref)
                },
            },
    {
        if self.acquire_semaphores.len() > 0 {
            let si = self.next_acq_pre_pair_index();
            // Acquire the next swapchain image with an unbounded timeout,
            // using the chosen acquire semaphore. An invalid surface
            // yields no image: no frame this tick.
            if graphics.render_surface.is_valid {
                let fi_u32 = graphics.render_surface.swapchain.next_image;
                let count = graphics.render_surface.swapchain.image_count;
                let next = if fi_u32 + 1 >= count {
                    0u32
                } else {
                    fi_u32 + 1
                };
                graphics.render_surface.swapchain.next_image = next;
                self.acquire_semaphores.set(si, Semaphore { pending: true });
                let fi = fi_u32 as usize;
                proof {
                    if fi_u32 + 1 >= count {
                        lemma_mod_self_0(count as int);
                    } else {
                        lemma_small_mod((fi_u32 + 1) as nat, count as nat);
                    }
                }
                return Option::Some((fi, si));
            }
        }
        Option::None
    }
}

impl FrameAggregator {
    /// Binds an acquired image index and semaphore-pair index into a
    /// frame.
    pub fn next_frame(&mut self, frame_index: usize, semaphore_index: usize) -> (r: Frame)
        ensures
            *final(self) == *old(self),
            r == (Frame { frame_index, semaphore_index }),
    {
        Frame::new(frame_index, semaphore_index)
    }

    /// Acquires the next frame: picks the semaphore pair round-robin,
    /// acquires the next swapchain image, and prepares the image's slot —
    /// its fence is waited on and cleared, and only then is its command
    /// pool reset. Returns nothing when the surface cannot provide an
    /// image this tick; the caller skips rendering and retries next tick.
    pub fn acquire_next(&mut self, graphics: &mut Graphics) -> (r: Option<Frame>)
        requires
            old(self).wf(),
            old(self).slots_settled(),
            old(graphics).render_surface.wf(),
            old(self).framebuffers@.len() == old(graphics).render_surface.swapchain.image_count,
            forall|i: int|
                0 <= i < old(self).command_pools@.len() ==> old(
                    self,
                ).command_pools@[i].resets < u64::MAX,
        ensures
            final(self).wf(),
            final(graphics).device == old(graphics).device,
            final(self).framebuffers == old(self).framebuffers,
            final(self).present_semaphores == old(self).present_semaphores,
            final(graphics).render_surface.wf(),
            match r {
                Option::Some(frame) => {
                    &&& old(self).framebuffers@.len() > 0
                    &&& old(graphics).render_surface.is_valid
                    &&& frame.frame_index < old(self).framebuffers@.len()
                    &&& frame.semaphore_index < old(self).framebuffers@.len()
                    // Image index and semaphore-pair index rotate
                    // independently.
                    &&& frame.frame_index == old(graphics).render_surface.swapchain.next_image
                    &&& frame.semaphore_index == rotation_pick(
                        old(self).last_ref as int,
                        old(self).framebuffers@.len() as int,
                    )
                    &&& final(self).last_ref == frame.semaphore_index + 1
                    // The reused slot had retired before its pool was
                    // touched: its fence was signaled, was waited on and
                    // cleared, and only then was the pool reset.
                    &&& (old(self).command_pools@[frame.frame_index as int].in_flight ==> old(
                        self,
                    ).framebuffer_fences@[frame.frame_index as int].signaled)
                    &&& final(self).framebuffer_fences@ == old(self).framebuffer_fences@.update(
                        frame.frame_index as int,
                        Fence { signaled: false },
                    )
                    &&& final(self).command_pools@ == old(self).command_pools@.update(
                        frame.frame_index as int,
                        CommandPool {
                            resets: (old(
                                self,
                            ).command_pools@[frame.frame_index as int].resets + 1) as u64,
                            in_flight: false,
                        },
                    )
                    &&& final(self).acquire_semaphores@ == old(self).acquire_semaphores@.update(
                        frame.semaphore_index as int,
                        Semaphore { pending: true },
                    )
                    &&& final(graphics).render_surface == (crate::render::Surface {
                        swapchain: final(graphics).render_surface.swapchain,
                        ..old(graphics).render_surface
                    })
                    &&& final(graphics).render_surface.swapchain == (crate::render::Swapchain {
                        next_image: final(graphics).render_surface.swapchain.next_image,
                        ..old(graphics).render_surface.swapchain
                    })
                    &&& final(graphics).render_surface.swapchain.next_image as int == (
                    frame.frame_index as int + 1) % (old(
                        graphics,
                    ).render_surface.swapchain.image_count as int)
                },
                Option::None => {
                    &&& !(old(self).framebuffers@.len() > 0 && old(
                        graphics,
                    ).render_surface.is_valid)
                    &&& final(self).acquire_semaphores == old(self).acquire_semaphores
                    &&& final(self).framebuffer_fences == old(self).framebuffer_fences
                    &&& final(self).command_pools == old(self).command_pools
                    &&& final(graphics).render_surface == old(graphics).render_surface
                },
            },
    {
        let indices = self.acquire_next_indices(graphics);
        match indices {
            Option::Some((fi, si)) => {
                // Wait for the slot's fence: the prior submission from
                // this slot, if any, has retired. Clear the fence for
                // the coming submission, then reset the pool.
                let resets = self.command_pools[fi].resets;
                self.framebuffer_fences.set(fi, Fence { signaled: false });
                self.command_pools.set(fi, CommandPool { resets: resets + 1, in_flight: false });
                Option::Some(self.next_frame(fi, si))
            },
            Option::None => Option::None,
        }
    }
}

/// The semaphore-pair index an acquisition picks when the rotation
/// cursor stands at `last_ref` with `n` slots: the cursor itself, or the
/// start of the ring when the cursor has run past it.
pub open spec fn rotation_pick(last_ref: int, n: int) -> int {
    if last_ref >= n {
        0
    } else {
        last_ref
    }
}

/// The rotation cursor after `k` acquisitions from cursor `l`.
pub open spec fn cursor_after(l: int, k: nat, n: int) -> int
    decreases k,
{
    if k == 0 {
        l
    } else {
        rotation_pick(cursor_after(l, (k - 1) as nat, n), n) + 1
    }
}

/// The semaphore-pair index of acquisition number `k` (counting from
/// zero) when the aggregator starts with cursor `l` and `n` slots.
pub open spec fn pick_at(l: int, k: nat, n: int) -> int {
    rotation_pick(cursor_after(l, k, n), n)
}

/// The pair index rotates arithmetically: acquisition `k` uses pair
/// `(l + k) % n`.
pub proof fn lemma_pick_at_mod(l: int, k: nat, n: int)
    requires
        n >= 1,
        0 <= l <= n,
    ensures
        pick_at(l, k, n) == (l + k) % n,
        1 <= cursor_after(l, (k + 1) as nat, n) <= n,
    decreases k,
{
    if k == 0 {
        assert(cursor_after(l, 0, n) == l);
        assert(cursor_after(l, 1, n) == rotation_pick(l, n) + 1);
        if l == n {
            lemma_mod_self_0(n);
        } else {
            lemma_small_mod(l as nat, n as nat);
        }
    } else {
        lemma_pick_at_mod(l, (k - 1) as nat, n);
        let prev = (l + k - 1) % n;
        lemma_fundamental_div_mod(l + k - 1, n);
        let q = (l + k - 1) / n;
        assert(l + k - 1 == q * n + prev) by (nonlinear_arith)
            requires
                l + k - 1 == n * q + prev,
        ;
        assert(cursor_after(l, k, n) == prev + 1);
        if prev + 1 == n {
            assert(l + k == (q + 1) * n + 0) by (nonlinear_arith)
                requires
                    l + k - 1 == q * n + prev,
                    prev + 1 == n,
            ;
            lemma_fundamental_div_mod_converse(l + k, n, q + 1, 0);
        } else {
            assert(l + k == q * n + (prev + 1)) by (nonlinear_arith)
                requires
                    l + k - 1 == q * n + prev,
            ;
            lemma_fundamental_div_mod_converse(l + k, n, q, prev + 1);
        }
        assert(cursor_after(l, (k + 1) as nat, n) == rotation_pick(cursor_after(l, k, n), n) + 1);
    }
}

/// Frame slot exclusivity over the rotation: with `n` slots, acquisition
/// `k + n` picks the same semaphore pair as acquisition `k` — and by the
/// acquisition contract, that slot's fence has been waited on and
/// cleared, and its command pool reset, before the reuse.
pub proof fn lemma_slot_rotation_period(l: int, k: nat, n: int)
    requires
        n >= 1,
        0 <= l <= n,
    ensures
        pick_at(l, (k + n) as nat, n) == pick_at(l, k, n),
{
    lemma_pick_at_mod(l, k, n);
    lemma_pick_at_mod(l, (k + n) as nat, n);
    lemma_fundamental_div_mod(l + k, n);
    let q = (l + k) / n;
    let r = (l + k) % n;
    assert(l + k + n == (q + 1) * n + r) by (nonlinear_arith)
        requires
            l + k == n * q + r,
    ;
    lemma_fundamental_div_mod_converse(l + k + n, n, q + 1, r);
}

} // verus!
