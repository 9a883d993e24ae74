use vstd::prelude::*;
use crate::error::Error;
use crate::gpu::{
    BindPoint, Color, Command, ContextResources, Framebuffer, GpuState, Image, Lifetime, Rect,
    Renderbuffer, Size, Surface, Target,
};
use crate::ownership::{Bindings, ContextId, ContextOwnership, ContextState, CurrentContextHandle};
use crate::plan::{
    advance, bracket, emit, follows_protocol, frame_plan, resize_plan, setup_plan, teardown_plan,
};

verus! {

/// What the windowing side reports.
#[derive(Clone, Copy, Debug, PartialEq, Eq)]
pub enum Event {
    WindowResized { width: u32, height: u32 },
    CloseRequested,
    RedrawRequested,
    LoopTerminating,
}

/// Where the renderer stands between startup and exit.
#[derive(Clone, Copy, Debug, PartialEq, Eq, Structural)]
pub enum Phase {
    /// Frames are drawn and resizes followed.
    Running,
    /// A close was requested: nothing is drawn any more.
    Closing,
    /// The GPU objects are deleted: no GL command is issued any more.
    TornDown,
}

/// The mathematical model of a [`Renderer`].
pub ghost struct RendererState {
    pub bindings: Bindings,
    pub gpu: GpuState,
    /// The logical frame size.
    pub size: Size,
    /// The colour that every frame is cleared to.
    pub clear: Color,
    pub phase: Phase,
}

impl RendererState {
    /// What holds between any two events. While the renderer lives, the
    /// storage of the renderbuffer, the window surface and the presentation
    /// viewport all have the frame size; both framebuffers are attached to
    /// the one renderbuffer; and no context is current.
    pub open spec fn wf(self) -> bool {
        &&& self.bindings.idle()
        &&& self.size.valid()
        &&& self.gpu.presentation.surface.pending is None
        &&& self.gpu.compute.surface.pending is None
        &&& self.gpu.presentation.surface.size == self.size
        &&& self.gpu.presentation.draw == Target::Default
        &&& if self.phase == Phase::TornDown {
            &&& self.gpu.renderbuffer.life == Lifetime::Deleted
            &&& self.gpu.presentation.framebuffer.life == Lifetime::Deleted
            &&& self.gpu.compute.framebuffer.life == Lifetime::Deleted
        } else {
            &&& self.gpu.renderbuffer.life == Lifetime::Live
            &&& self.gpu.renderbuffer.storage == Some(self.size)
            &&& self.gpu.complete(ContextId::Presentation)
            &&& self.gpu.complete(ContextId::Compute)
            &&& self.gpu.presentation.renderbuffer_bound
            &&& self.gpu.presentation.read == Target::Own
            &&& self.gpu.compute.draw == Target::Own
            &&& self.gpu.presentation.viewport == Some(Rect::full_spec(self.size))
            &&& (self.gpu.compute.viewport is None || self.gpu.compute.viewport == Some(
                Rect::full_spec(self.size),
            ))
        }
    }

    /// The state that startup leaves behind.
    pub open spec fn started(size: Size, clear: Color) -> RendererState {
        RendererState {
            bindings: Bindings {
                presentation: ContextState::NotCurrent,
                compute: ContextState::NotCurrent,
            },
            gpu: GpuState {
                renderbuffer: Renderbuffer {
                    life: Lifetime::Live,
                    storage: Some(size),
                    content: None,
                },
                presentation: ContextResources {
                    framebuffer: Framebuffer { life: Lifetime::Live, attached: true },
                    draw: Target::Default,
                    read: Target::Own,
                    renderbuffer_bound: true,
                    viewport: Some(Rect::full_spec(size)),
                    surface: Surface { size, pending: None, shown: None },
                },
                compute: ContextResources {
                    framebuffer: Framebuffer { life: Lifetime::Live, attached: true },
                    draw: Target::Own,
                    read: Target::Default,
                    renderbuffer_bound: true,
                    viewport: None,
                    surface: Surface {
                        size: Size { width: 1, height: 1 },
                        pending: None,
                        shown: None,
                    },
                },
            },
            size,
            clear,
            phase: Phase::Running,
        }
    }

    /// The state after one frame: the renderbuffer holds the clear colour,
    /// and the window shows it over the whole frame.
    pub open spec fn drawn(self) -> RendererState {
        RendererState {
            gpu: GpuState {
                renderbuffer: Renderbuffer { content: Some(self.clear), ..self.gpu.renderbuffer },
                presentation: ContextResources {
                    surface: Surface {
                        size: self.size,
                        pending: None,
                        shown: Some(Image { area: Rect::full_spec(self.size), color: self.clear }),
                    },
                    ..self.gpu.presentation
                },
                compute: ContextResources {
                    surface: Surface { pending: None, shown: None, ..self.gpu.compute.surface },
                    ..self.gpu.compute
                },
            },
            ..self
        }
    }

    /// The state after a resize to `size`: storage, both surfaces and both
    /// viewports have the new size, and nothing of the old content is left.
    pub open spec fn resized(self, size: Size) -> RendererState {
        RendererState {
            gpu: GpuState {
                renderbuffer: Renderbuffer {
                    life: Lifetime::Live,
                    storage: Some(size),
                    content: None,
                },
                presentation: ContextResources {
                    viewport: Some(Rect::full_spec(size)),
                    surface: Surface { size, pending: None, shown: None },
                    ..self.gpu.presentation
                },
                compute: ContextResources {
                    viewport: Some(Rect::full_spec(size)),
                    surface: Surface { size, pending: None, shown: None },
                    ..self.gpu.compute
                },
            },
            size,
            ..self
        }
    }

    /// The state after teardown: every GPU object is deleted.
    pub open spec fn torn_down(self) -> RendererState {
        let gone = Framebuffer { life: Lifetime::Deleted, attached: false };
        RendererState {
            gpu: GpuState {
                renderbuffer: Renderbuffer {
                    life: Lifetime::Deleted,
                    storage: None,
                    content: None,
                },
                presentation: ContextResources {
                    framebuffer: gone,
                    draw: Target::Default,
                    read: Target::Default,
                    ..self.gpu.presentation
                },
                compute: ContextResources {
                    framebuffer: gone,
                    draw: Target::Default,
                    read: Target::Default,
                    ..self.gpu.compute
                },
            },
            phase: Phase::TornDown,
            ..self
        }
    }

    /// The state after an event.
    pub open spec fn after(self, event: Event) -> RendererState {
        match event {
            Event::RedrawRequested => if self.phase == Phase::Running {
                self.drawn()
            } else {
                self
            },
            Event::WindowResized { width, height } => if self.phase == Phase::Running {
                self.resized(Size { width, height })
            } else {
                self
            },
            Event::CloseRequested => if self.phase == Phase::TornDown {
                self
            } else {
                RendererState { phase: Phase::Closing, ..self }
            },
            Event::LoopTerminating => if self.phase == Phase::TornDown {
                self
            } else {
                self.torn_down()
            },
        }
    }

    /// The commands that answer an event.
    pub open spec fn plan_for(self, event: Event) -> Seq<Command> {
        match event {
            Event::RedrawRequested => if self.phase == Phase::Running {
                frame_plan(self.size, self.clear)
            } else {
                Seq::empty()
            },
            Event::WindowResized { width, height } => if self.phase == Phase::Running {
                resize_plan(Size { width, height })
            } else {
                Seq::empty()
            },
            Event::CloseRequested => if self.phase == Phase::TornDown {
                Seq::empty()
            } else {
                seq![Command::Exit]
            },
            Event::LoopTerminating => if self.phase == Phase::TornDown {
                Seq::empty()
            } else {
                teardown_plan()
            },
        }
    }
}

/// Resize consistency: after a resize to any positive size the storage of
/// the renderbuffer has that size, both viewports are the full rectangle of
/// that size, and the state is well formed at the new frame size.
pub proof fn lemma_resize_consistent(s: RendererState, size: Size)
    requires
        s.wf(),
        s.phase == Phase::Running,
        size.valid(),
    ensures
        s.resized(size).gpu.renderbuffer.storage == Some(size),
        s.resized(size).gpu.presentation.viewport == Some(
            Rect { x: 0, y: 0, width: size.width, height: size.height },
        ),
        s.resized(size).gpu.compute.viewport == Some(
            Rect { x: 0, y: 0, width: size.width, height: size.height },
        ),
        s.resized(size).size == size,
        s.resized(size).wf(),
{
}

/// Whatever the events, a well-formed renderer stays well formed: no
/// context is left current, the storage keeps the frame size, and the two
/// framebuffers keep the one renderbuffer until all three are deleted.
pub proof fn lemma_events_preserve_wf(s: RendererState, event: Event)
    requires
        s.wf(),
        event matches Event::WindowResized { width, height } ==> width > 0 && height > 0,
    ensures
        s.after(event).wf(),
        s.after(event).bindings == s.bindings,
{
}

/// The state after a sequence of events, first event first.
pub open spec fn after_all(s: RendererState, events: Seq<Event>) -> RendererState
    decreases events.len(),
{
    if events.len() == 0 {
        s
    } else {
        after_all(s, events.drop_last()).after(events.last())
    }
}

/// No event of the sequence reports a window without area.
pub open spec fn admissible(events: Seq<Event>) -> bool {
    forall|i: int|
        0 <= i < events.len() ==> (#[trigger] events[i] matches Event::WindowResized {
            width,
            height,
        } ==> width > 0 && height > 0)
}

/// The invariants hold throughout a run: after any sequence of events no
/// context is current, and the renderer is well formed, so that the storage
/// has the frame size and both framebuffers attach the one renderbuffer
/// until teardown.
pub proof fn lemma_invariants_hold_throughout(s: RendererState, events: Seq<Event>)
    requires
        s.wf(),
        admissible(events),
    ensures
        after_all(s, events).wf(),
        after_all(s, events).bindings.idle(),
        after_all(s, events).bindings.exclusive(),
    decreases events.len(),
{
    if events.len() > 0 {
        let earlier = events.drop_last();
        assert forall|i: int| 0 <= i < earlier.len() implies (#[trigger] earlier[i]
            matches Event::WindowResized { width, height } ==> width > 0 && height > 0) by {
            assert(earlier[i] == events[i]);
        }
        lemma_invariants_hold_throughout(s, earlier);
        lemma_events_preserve_wf(after_all(s, earlier), events.last());
    }
}

/// The shared objects are created once: no event makes the renderer create
/// a renderbuffer or a framebuffer again, so both framebuffers refer to the
/// same renderbuffer for as long as they live.
pub proof fn lemma_never_recreated(s: RendererState, event: Event)
    ensures
        forall|i: int|
            0 <= i < s.plan_for(event).len() ==> !((#[trigger] s.plan_for(event)[i])
                is CreateRenderbuffer) && !(s.plan_for(event)[i] is CreateFramebuffer),
{
}

/// Once the renderbuffer is deleted no event deletes it again: after
/// teardown every plan is empty and nothing changes.
pub proof fn lemma_torn_down_is_final(s: RendererState, event: Event)
    requires
        s.phase == Phase::TornDown,
    ensures
        s.plan_for(event) == Seq::<Command>::empty(),
        s.after(event) == s,
{
}

/// Makes `which` current and records the acquire in the plan.
fn enter(contexts: &mut ContextOwnership, which: ContextId, plan: &mut Vec<Command>) -> (r: Result<
    CurrentContextHandle,
    Error,
>)
    ensures
        match old(contexts)@.acquire(which) {
            Ok(next) => {
                &&& r matches Ok(handle) && handle.context() == which
                &&& final(contexts)@ == next
                &&& final(plan)@ == old(plan)@.push(Command::Acquire(which))
                &&& bracket(final(plan)@) == advance(
                    bracket(old(plan)@),
                    Command::Acquire(which),
                )
            },
            Err(e) => r matches Err(f) && f == e,
        },
{
    let handle = contexts.acquire(which)?;
    emit(plan, Command::Acquire(which));
    Ok(handle)
}

/// Gives `which` back and records the release in the plan.
fn leave(
    contexts: &mut ContextOwnership,
    which: ContextId,
    handle: CurrentContextHandle,
    plan: &mut Vec<Command>,
) -> (r: Result<(), Error>)
    ensures
        match old(contexts)@.release(which, handle.context()) {
            Ok(next) => {
                &&& r is Ok
                &&& final(contexts)@ == next
                &&& final(plan)@ == old(plan)@.push(Command::Release(which))
                &&& bracket(final(plan)@) == advance(
                    bracket(old(plan)@),
                    Command::Release(which),
                )
            },
            Err(e) => r matches Err(f) && f == e,
        },
{
    contexts.release(which, handle)?;
    emit(plan, Command::Release(which));
    Ok(())
}

/// The renderer: both contexts, the GPU objects, and the frame size. Every
/// method answers with the commands that the driver is to execute, in
/// order, and has by then brought the model to the state that they lead to.
#[derive(Debug)]
pub struct Renderer {
    contexts: ContextOwnership,
    gpu: GpuState,
    size: Size,
    clear: Color,
    phase: Phase,
}

impl View for Renderer {
    type V = RendererState;

    closed spec fn view(&self) -> RendererState {
        RendererState {
            bindings: self.contexts@,
            gpu: self.gpu,
            size: self.size,
            clear: self.clear,
            phase: self.phase,
        }
    }
}

impl Renderer {
    /// Creates the shared renderbuffer, of the window's size, and the two
    /// framebuffers that attach it.
    pub fn start(size: Size, clear: Color) -> (r: Result<(Renderer, Vec<Command>), Error>)
        requires
            size.valid(),
        ensures
            r matches Ok((renderer, plan)) && renderer@ == RendererState::started(size, clear)
                && renderer@.wf() && plan@ == setup_plan(size) && follows_protocol(plan@),
    {
        let mut plan: Vec<Command> = Vec::new();
        let mut contexts = ContextOwnership::new();
        let mut gpu = GpuState::new(size);

        let handle = enter(&mut contexts, ContextId::Compute, &mut plan)?;
        let command = gpu.create_renderbuffer(&handle);
        emit(&mut plan, command);
        let command = gpu.bind_renderbuffer(&handle);
        emit(&mut plan, command);
        let command = gpu.allocate_storage(&handle, size);
        emit(&mut plan, command);
        let command = gpu.create_framebuffer(&handle);
        emit(&mut plan, command);
        let command = gpu.bind_framebuffer(&handle, BindPoint::Draw, Target::Own);
        emit(&mut plan, command);
        let command = gpu.attach_renderbuffer(&handle, BindPoint::Draw);
        emit(&mut plan, command);
        let command = gpu.check_framebuffer(&handle, BindPoint::Draw);
        emit(&mut plan, command);
        leave(&mut contexts, ContextId::Compute, handle, &mut plan)?;

        let handle = enter(&mut contexts, ContextId::Presentation, &mut plan)?;
        let command = gpu.bind_renderbuffer(&handle);
        emit(&mut plan, command);
        let command = gpu.create_framebuffer(&handle);
        emit(&mut plan, command);
        let command = gpu.bind_framebuffer(&handle, BindPoint::Read, Target::Own);
        emit(&mut plan, command);
        let command = gpu.attach_renderbuffer(&handle, BindPoint::Read);
        emit(&mut plan, command);
        let command = gpu.check_framebuffer(&handle, BindPoint::Read);
        emit(&mut plan, command);
        let command = gpu.set_viewport(&handle, Rect::full(size));
        emit(&mut plan, command);
        leave(&mut contexts, ContextId::Presentation, handle, &mut plan)?;

        proof {
            assert(plan@ =~= setup_plan(size));
        }
        Ok((Renderer { contexts, gpu, size, clear, phase: Phase::Running }, plan))
    }

    /// Draws one frame and shows it, unless a close was requested.
    pub fn redraw(&mut self) -> (r: Result<Vec<Command>, Error>)
        requires
            old(self)@.wf(),
        ensures
            r matches Ok(plan) && plan@ == old(self)@.plan_for(Event::RedrawRequested)
                && follows_protocol(plan@),
            final(self)@ == old(self)@.after(Event::RedrawRequested),
            final(self)@.wf(),
            old(self)@.phase == Phase::Running ==> final(self)@.gpu.presentation.surface.shown
                == Some(
                Image { area: Rect::full_spec(old(self)@.size), color: old(self)@.clear },
            ) && final(self)@.gpu.presentation.surface.size == old(self)@.size,
    {
        let mut plan: Vec<Command> = Vec::new();
        match self.phase {
            Phase::Running => {},
            _ => {
                return Ok(plan);
            },
        }
        let handle = enter(&mut self.contexts, ContextId::Compute, &mut plan)?;
        let command = self.gpu.clear(&handle, self.clear);
        emit(&mut plan, command);
        let command = self.gpu.present(&handle);
        emit(&mut plan, command);
        leave(&mut self.contexts, ContextId::Compute, handle, &mut plan)?;

        let handle = enter(&mut self.contexts, ContextId::Presentation, &mut plan)?;
        let command = self.gpu.bind_framebuffer(&handle, BindPoint::Read, Target::Own);
        emit(&mut plan, command);
        let command = self.gpu.blit(&handle, Rect::full(self.size));
        emit(&mut plan, command);
        let command = self.gpu.present(&handle);
        emit(&mut plan, command);
        leave(&mut self.contexts, ContextId::Presentation, handle, &mut plan)?;

        proof {
            assert(plan@ =~= frame_plan(old(self)@.size, old(self)@.clear));
        }
        Ok(plan)
    }

    /// Follows a change of the window's size and asks for a repaint,
    /// unless a close was requested.
    pub fn resize(&mut self, width: u32, height: u32) -> (r: Result<Vec<Command>, Error>)
        requires
            old(self)@.wf(),
            width > 0,
            height > 0,
        ensures
            r matches Ok(plan) && plan@ == old(self)@.plan_for(
                Event::WindowResized { width, height },
            ) && follows_protocol(plan@),
            final(self)@ == old(self)@.after(Event::WindowResized { width, height }),
            final(self)@.wf(),
            old(self)@.phase == Phase::Running ==> {
                &&& final(self)@.size == (Size { width, height })
                &&& final(self)@.gpu.renderbuffer.storage == Some(Size { width, height })
                &&& final(self)@.gpu.presentation.viewport == Some(
                    Rect { x: 0, y: 0, width, height },
                )
                &&& final(self)@.gpu.compute.viewport == Some(Rect { x: 0, y: 0, width, height })
            },
    {
        let mut plan: Vec<Command> = Vec::new();
        match self.phase {
            Phase::Running => {},
            _ => {
                return Ok(plan);
            },
        }
        let size = Size { width, height };
        let handle = enter(&mut self.contexts, ContextId::Presentation, &mut plan)?;
        let command = self.gpu.resize_surface(&handle, size);
        emit(&mut plan, command);
        let command = self.gpu.present(&handle);
        emit(&mut plan, command);
        let command = self.gpu.allocate_storage(&handle, size);
        emit(&mut plan, command);
        let command = self.gpu.check_framebuffer(&handle, BindPoint::Read);
        emit(&mut plan, command);
        let command = self.gpu.set_viewport(&handle, Rect::full(size));
        emit(&mut plan, command);
        leave(&mut self.contexts, ContextId::Presentation, handle, &mut plan)?;

        let handle = enter(&mut self.contexts, ContextId::Compute, &mut plan)?;
        let command = self.gpu.resize_surface(&handle, size);
        emit(&mut plan, command);
        let command = self.gpu.present(&handle);
        emit(&mut plan, command);
        let command = self.gpu.set_viewport(&handle, Rect::full(size));
        emit(&mut plan, command);
        leave(&mut self.contexts, ContextId::Compute, handle, &mut plan)?;

        self.size = size;
        emit(&mut plan, Command::RequestRedraw);
        proof {
            assert(plan@ =~= resize_plan(size));
        }
        Ok(plan)
    }

    /// Stops drawing and asks the event loop to end.
    pub fn close(&mut self) -> (plan: Vec<Command>)
        requires
            old(self)@.wf(),
        ensures
            plan@ == old(self)@.plan_for(Event::CloseRequested),
            follows_protocol(plan@),
            final(self)@ == old(self)@.after(Event::CloseRequested),
            final(self)@.wf(),
    {
        let mut plan: Vec<Command> = Vec::new();
        match self.phase {
            Phase::TornDown => {},
            _ => {
                self.phase = Phase::Closing;
                emit(&mut plan, Command::Exit);
                proof {
                    assert(plan@ =~= seq![Command::Exit]);
                }
            },
        }
        plan
    }

    /// Deletes both framebuffers and, once, the renderbuffer that they
    /// share. A second teardown deletes nothing.
    pub fn teardown(&mut self) -> (r: Result<Vec<Command>, Error>)
        requires
            old(self)@.wf(),
        ensures
            r matches Ok(plan) && plan@ == old(self)@.plan_for(Event::LoopTerminating)
                && follows_protocol(plan@),
            final(self)@ == old(self)@.after(Event::LoopTerminating),
            final(self)@.wf(),
            final(self)@.phase == Phase::TornDown,
            final(self)@.gpu.renderbuffer.life == Lifetime::Deleted,
    {
        let mut plan: Vec<Command> = Vec::new();
        match self.phase {
            Phase::TornDown => {
                return Ok(plan);
            },
            _ => {},
        }
        let handle = enter(&mut self.contexts, ContextId::Presentation, &mut plan)?;
        let command = self.gpu.delete_framebuffer(&handle);
        emit(&mut plan, command);
        let command = self.gpu.delete_renderbuffer(&handle);
        emit(&mut plan, command);
        leave(&mut self.contexts, ContextId::Presentation, handle, &mut plan)?;

        let handle = enter(&mut self.contexts, ContextId::Compute, &mut plan)?;
        let command = self.gpu.delete_framebuffer(&handle);
        emit(&mut plan, command);
        leave(&mut self.contexts, ContextId::Compute, handle, &mut plan)?;

        self.phase = Phase::TornDown;
        proof {
            assert(plan@ =~= teardown_plan());
        }
        Ok(plan)
    }

    /// Answers one event of the windowing side.
    pub fn handle(&mut self, event: Event) -> (r: Result<Vec<Command>, Error>)
        requires
            old(self)@.wf(),
            event matches Event::WindowResized { width, height } ==> width > 0 && height > 0,
        ensures
            r matches Ok(plan) && plan@ == old(self)@.plan_for(event) && follows_protocol(plan@),
            final(self)@ == old(self)@.after(event),
            final(self)@.wf(),
    {
        match event {
            Event::WindowResized { width, height } => self.resize(width, height),
            Event::CloseRequested => Ok(self.close()),
            Event::RedrawRequested => self.redraw(),
            Event::LoopTerminating => self.teardown(),
        }
    }

    /// The logical frame size.
    pub fn size(&self) -> (r: Size)
        ensures
            r == self@.size,
    {
        self.size
    }

    /// The colour that every frame is cleared to.
    pub fn clear_color(&self) -> (r: Color)
        ensures
            r == self@.clear,
    {
        self.clear
    }

    pub fn phase(&self) -> (r: Phase)
        ensures
            r == self@.phase,
    {
        self.phase
    }

    /// The model of the GPU objects as the last plan leaves them.
    pub fn gpu(&self) -> (r: GpuState)
        ensures
            r == self@.gpu,
    {
        self.gpu
    }

    /// The context that is current: none between two calls.
    pub fn current(&self) -> (r: Option<ContextId>)
        ensures
            r is None <==> self@.bindings.idle(),
            r matches Some(c) ==> self@.bindings.state(c) == ContextState::Current,
    {
        self.contexts.current()
    }
}

} // verus!
