use vstd::prelude::*;
use crate::ownership::{ContextId, CurrentContextHandle};

verus! {

/// A width and a height in pixels.
#[derive(Clone, Copy, Debug, PartialEq, Eq, Structural)]
pub struct Size {
    pub width: u32,
    pub height: u32,
}

impl Size {
    /// Both dimensions are positive.
    pub open spec fn valid(self) -> bool {
        self.width > 0 && self.height > 0
    }

    /// A size, unless a dimension is zero.
    pub fn new(width: u32, height: u32) -> (r: Option<Size>)
        ensures
            r == (if width > 0 && height > 0 {
                Some(Size { width, height })
            } else {
                None
            }),
    {
        if width > 0 && height > 0 {
            Some(Size { width, height })
        } else {
            None
        }
    }
}

/// A rectangle of pixels, by its lower left corner and its extent.
#[derive(Clone, Copy, Debug, PartialEq, Eq, Structural)]
pub struct Rect {
    pub x: u32,
    pub y: u32,
    pub width: u32,
    pub height: u32,
}

impl Rect {
    pub open spec fn full_spec(size: Size) -> Rect {
        Rect { x: 0, y: 0, width: size.width, height: size.height }
    }

    /// The rectangle that covers a whole area of the given size.
    #[verifier::when_used_as_spec(full_spec)]
    pub fn full(size: Size) -> (r: Rect)
        ensures
            r == Rect::full_spec(size),
    {
        Rect { x: 0, y: 0, width: size.width, height: size.height }
    }
}

/// A colour with eight bits per channel.
#[derive(Clone, Copy, Debug, PartialEq, Eq, Structural)]
pub struct Color {
    pub red: u8,
    pub green: u8,
    pub blue: u8,
    pub alpha: u8,
}

/// A rectangle filled with one colour: all that this renderer ever draws.
#[derive(Clone, Copy, Debug, PartialEq, Eq)]
pub struct Image {
    pub area: Rect,
    pub color: Color,
}

/// Where a GPU object stands between creation and deletion.
#[derive(Clone, Copy, Debug, PartialEq, Eq, Structural)]
pub enum Lifetime {
    Absent,
    Live,
    Deleted,
}

/// What a framebuffer binding point of a context refers to.
#[derive(Clone, Copy, Debug, PartialEq, Eq, Structural)]
pub enum Target {
    /// The surface of the context.
    Default,
    /// The framebuffer object of the context.
    Own,
}

/// The two framebuffer binding points of a context.
#[derive(Clone, Copy, Debug, PartialEq, Eq, Structural)]
pub enum BindPoint {
    Draw,
    Read,
}

/// One step for the driver to execute. Every GL command names the context
/// under which it is issued.
#[derive(Clone, Copy, Debug, PartialEq, Eq)]
pub enum Command {
    Acquire(ContextId),
    Release(ContextId),
    CreateRenderbuffer { context: ContextId },
    BindRenderbuffer { context: ContextId },
    AllocateStorage { context: ContextId, size: Size },
    CreateFramebuffer { context: ContextId },
    BindFramebuffer { context: ContextId, point: BindPoint, target: Target },
    AttachRenderbuffer { context: ContextId, point: BindPoint },
    CheckFramebuffer { context: ContextId, point: BindPoint },
    SetViewport { context: ContextId, area: Rect },
    ResizeSurface { context: ContextId, size: Size },
    Present { context: ContextId },
    Clear { context: ContextId, color: Color },
    Blit { context: ContextId, area: Rect },
    DeleteFramebuffer { context: ContextId },
    DeleteRenderbuffer { context: ContextId },
    RequestRedraw,
    Exit,
}

/// The renderbuffer that both contexts share.
#[derive(Clone, Copy, Debug, PartialEq, Eq)]
pub struct Renderbuffer {
    pub life: Lifetime,
    /// The extent of its storage, once allocated.
    pub storage: Option<Size>,
    /// The colour it was last cleared to; allocation leaves it undefined.
    pub content: Option<Color>,
}

/// The framebuffer object of one context.
#[derive(Clone, Copy, Debug, PartialEq, Eq)]
pub struct Framebuffer {
    pub life: Lifetime,
    /// The shared renderbuffer is its colour attachment 0.
    pub attached: bool,
}

/// The native surface of one context.
#[derive(Clone, Copy, Debug, PartialEq, Eq)]
pub struct Surface {
    pub size: Size,
    /// What was drawn since the last present.
    pub pending: Option<Image>,
    /// What the last present made visible.
    pub shown: Option<Image>,
}

/// What belongs to one context alone.
#[derive(Clone, Copy, Debug, PartialEq, Eq)]
pub struct ContextResources {
    pub framebuffer: Framebuffer,
    pub draw: Target,
    pub read: Target,
    /// The shared renderbuffer is bound in this context.
    pub renderbuffer_bound: bool,
    /// The viewport, once it was set.
    pub viewport: Option<Rect>,
    pub surface: Surface,
}

/// A model of the GPU objects of the renderer: the shared renderbuffer and
/// what each context holds.
#[derive(Clone, Copy, Debug, PartialEq, Eq)]
pub struct GpuState {
    pub renderbuffer: Renderbuffer,
    pub presentation: ContextResources,
    pub compute: ContextResources,
}

impl ContextResources {
    pub open spec fn fresh(surface: Size) -> ContextResources {
        ContextResources {
            framebuffer: Framebuffer { life: Lifetime::Absent, attached: false },
            draw: Target::Default,
            read: Target::Default,
            renderbuffer_bound: false,
            viewport: None,
            surface: Surface { size: surface, pending: None, shown: None },
        }
    }

    pub open spec fn bound(self, point: BindPoint) -> Target {
        match point {
            BindPoint::Draw => self.draw,
            BindPoint::Read => self.read,
        }
    }

    pub open spec fn bind(self, point: BindPoint, target: Target) -> ContextResources {
        match point {
            BindPoint::Draw => ContextResources { draw: target, ..self },
            BindPoint::Read => ContextResources { read: target, ..self },
        }
    }
}

impl GpuState {
    /// Nothing created yet: a window surface of the given size, and an
    /// off-screen surface of one pixel.
    pub open spec fn fresh(window: Size) -> GpuState {
        GpuState {
            renderbuffer: Renderbuffer { life: Lifetime::Absent, storage: None, content: None },
            presentation: ContextResources::fresh(window),
            compute: ContextResources::fresh(Size { width: 1, height: 1 }),
        }
    }

    pub open spec fn of(self, context: ContextId) -> ContextResources {
        match context {
            ContextId::Presentation => self.presentation,
            ContextId::Compute => self.compute,
        }
    }

    pub open spec fn with(self, context: ContextId, to: ContextResources) -> GpuState {
        match context {
            ContextId::Presentation => GpuState { presentation: to, ..self },
            ContextId::Compute => GpuState { compute: to, ..self },
        }
    }

    /// The framebuffer object of `context` is complete: it exists, and its
    /// colour attachment is the live renderbuffer with storage.
    pub open spec fn complete(self, context: ContextId) -> bool {
        &&& self.of(context).framebuffer.life == Lifetime::Live
        &&& self.of(context).framebuffer.attached
        &&& self.renderbuffer.life == Lifetime::Live
        &&& self.renderbuffer.storage is Some
    }

    /// What a clear under `context` leaves behind.
    pub open spec fn cleared(self, context: ContextId, color: Color) -> GpuState {
        match self.of(context).draw {
            Target::Own => GpuState {
                renderbuffer: Renderbuffer { content: Some(color), ..self.renderbuffer },
                ..self
            },
            Target::Default => self.with(
                context,
                ContextResources {
                    surface: Surface {
                        pending: Some(
                            Image { area: Rect::full_spec(self.of(context).surface.size), color },
                        ),
                        ..self.of(context).surface
                    },
                    ..self.of(context)
                },
            ),
        }
    }

    /// What a blit of `area` from the renderbuffer to the surface of
    /// `context` leaves behind.
    pub open spec fn blitted(self, context: ContextId, area: Rect) -> GpuState {
        self.with(
            context,
            ContextResources {
                surface: Surface {
                    pending: match self.renderbuffer.content {
                        Some(color) => Some(Image { area, color }),
                        None => None,
                    },
                    ..self.of(context).surface
                },
                ..self.of(context)
            },
        )
    }

    /// The state before anything is created.
    pub(crate) fn new(window: Size) -> (r: GpuState)
        ensures
            r == GpuState::fresh(window),
    {
        let absent = Framebuffer { life: Lifetime::Absent, attached: false };
        GpuState {
            renderbuffer: Renderbuffer { life: Lifetime::Absent, storage: None, content: None },
            presentation: ContextResources {
                framebuffer: absent,
                draw: Target::Default,
                read: Target::Default,
                renderbuffer_bound: false,
                viewport: None,
                surface: Surface { size: window, pending: None, shown: None },
            },
            compute: ContextResources {
                framebuffer: absent,
                draw: Target::Default,
                read: Target::Default,
                renderbuffer_bound: false,
                viewport: None,
                surface: Surface { size: Size { width: 1, height: 1 }, pending: None, shown: None },
            },
        }
    }

    /// What belongs to `context`.
    fn get(&self, context: ContextId) -> (r: ContextResources)
        ensures
            r == self.of(context),
    {
        match context {
            ContextId::Presentation => self.presentation,
            ContextId::Compute => self.compute,
        }
    }

    /// Replaces what belongs to `context`.
    fn put(&mut self, context: ContextId, to: ContextResources)
        ensures
            *final(self) == old(self).with(context, to),
    {
        match context {
            ContextId::Presentation => {
                self.presentation = to;
            },
            ContextId::Compute => {
                self.compute = to;
            },
        }
    }

    /// Creates the shared renderbuffer, without storage.
    pub(crate) fn create_renderbuffer(&mut self, handle: &CurrentContextHandle) -> (r: Command)
        requires
            old(self).renderbuffer.life == Lifetime::Absent,
        ensures
            r == (Command::CreateRenderbuffer { context: handle.context() }),
            *final(self) == (GpuState {
                renderbuffer: Renderbuffer { life: Lifetime::Live, storage: None, content: None },
                ..*old(self)
            }),
    {
        self.renderbuffer = Renderbuffer { life: Lifetime::Live, storage: None, content: None };
        Command::CreateRenderbuffer { context: handle.context() }
    }

    /// Binds the shared renderbuffer in the context of the handle.
    pub(crate) fn bind_renderbuffer(&mut self, handle: &CurrentContextHandle) -> (r: Command)
        requires
            old(self).renderbuffer.life == Lifetime::Live,
        ensures
            r == (Command::BindRenderbuffer { context: handle.context() }),
            *final(self) == old(self).with(
                handle.context(),
                ContextResources { renderbuffer_bound: true, ..old(self).of(handle.context()) },
            ),
    {
        let mut own = self.get(handle.context());
        own.renderbuffer_bound = true;
        self.put(handle.context(), own);
        Command::BindRenderbuffer { context: handle.context() }
    }

    /// Gives the renderbuffer storage of `size`; what it held is undefined
    /// afterwards.
    pub(crate) fn allocate_storage(&mut self, handle: &CurrentContextHandle, size: Size) -> (r: Command)
        requires
            old(self).renderbuffer.life == Lifetime::Live,
            old(self).of(handle.context()).renderbuffer_bound,
            size.valid(),
        ensures
            r == (Command::AllocateStorage { context: handle.context(), size }),
            *final(self) == (GpuState {
                renderbuffer: Renderbuffer { life: Lifetime::Live, storage: Some(size), content: None },
                ..*old(self)
            }),
    {
        self.renderbuffer = Renderbuffer { life: Lifetime::Live, storage: Some(size), content: None };
        Command::AllocateStorage { context: handle.context(), size }
    }

    /// Creates the framebuffer object of the context of the handle.
    pub(crate) fn create_framebuffer(&mut self, handle: &CurrentContextHandle) -> (r: Command)
        requires
            old(self).of(handle.context()).framebuffer.life == Lifetime::Absent,
        ensures
            r == (Command::CreateFramebuffer { context: handle.context() }),
            *final(self) == old(self).with(
                handle.context(),
                ContextResources {
                    framebuffer: Framebuffer { life: Lifetime::Live, attached: false },
                    ..old(self).of(handle.context())
                },
            ),
    {
        let mut own = self.get(handle.context());
        own.framebuffer = Framebuffer { life: Lifetime::Live, attached: false };
        self.put(handle.context(), own);
        Command::CreateFramebuffer { context: handle.context() }
    }

    /// Points a binding point at the surface or at the framebuffer object.
    pub(crate) fn bind_framebuffer(
        &mut self,
        handle: &CurrentContextHandle,
        point: BindPoint,
        target: Target,
    ) -> (r: Command)
        requires
            target == Target::Own ==> old(self).of(handle.context()).framebuffer.life
                == Lifetime::Live,
        ensures
            r == (Command::BindFramebuffer { context: handle.context(), point, target }),
            *final(self) == old(self).with(
                handle.context(),
                old(self).of(handle.context()).bind(point, target),
            ),
    {
        let mut own = self.get(handle.context());
        match point {
            BindPoint::Draw => {
                own.draw = target;
            },
            BindPoint::Read => {
                own.read = target;
            },
        }
        self.put(handle.context(), own);
        Command::BindFramebuffer { context: handle.context(), point, target }
    }

    /// Attaches the shared renderbuffer as colour attachment 0 of the
    /// framebuffer object bound at `point`.
    pub(crate) fn attach_renderbuffer(&mut self, handle: &CurrentContextHandle, point: BindPoint) -> (r:
        Command)
        requires
            old(self).renderbuffer.life == Lifetime::Live,
            old(self).of(handle.context()).framebuffer.life == Lifetime::Live,
            old(self).of(handle.context()).bound(point) == Target::Own,
        ensures
            r == (Command::AttachRenderbuffer { context: handle.context(), point }),
            *final(self) == old(self).with(
                handle.context(),
                ContextResources {
                    framebuffer: Framebuffer { life: Lifetime::Live, attached: true },
                    ..old(self).of(handle.context())
                },
            ),
    {
        let mut own = self.get(handle.context());
        own.framebuffer = Framebuffer { life: Lifetime::Live, attached: true };
        self.put(handle.context(), own);
        Command::AttachRenderbuffer { context: handle.context(), point }
    }

    /// Asks for the completeness of the framebuffer object bound at `point`.
    pub(crate) fn check_framebuffer(&self, handle: &CurrentContextHandle, point: BindPoint) -> (r: Command)
        requires
            self.of(handle.context()).bound(point) == Target::Own,
            self.complete(handle.context()),
        ensures
            r == (Command::CheckFramebuffer { context: handle.context(), point }),
    {
        Command::CheckFramebuffer { context: handle.context(), point }
    }

    /// Sets the viewport of the context of the handle.
    pub(crate) fn set_viewport(&mut self, handle: &CurrentContextHandle, area: Rect) -> (r: Command)
        ensures
            r == (Command::SetViewport { context: handle.context(), area }),
            *final(self) == old(self).with(
                handle.context(),
                ContextResources { viewport: Some(area), ..old(self).of(handle.context()) },
            ),
    {
        let mut own = self.get(handle.context());
        own.viewport = Some(area);
        self.put(handle.context(), own);
        Command::SetViewport { context: handle.context(), area }
    }

    /// Resizes the surface; what was drawn and not yet presented is lost.
    pub(crate) fn resize_surface(&mut self, handle: &CurrentContextHandle, size: Size) -> (r: Command)
        requires
            size.valid(),
        ensures
            r == (Command::ResizeSurface { context: handle.context(), size }),
            *final(self) == old(self).with(
                handle.context(),
                ContextResources {
                    surface: Surface {
                        size,
                        pending: None,
                        shown: old(self).of(handle.context()).surface.shown,
                    },
                    ..old(self).of(handle.context())
                },
            ),
    {
        let mut own = self.get(handle.context());
        own.surface = Surface { size, pending: None, shown: own.surface.shown };
        self.put(handle.context(), own);
        Command::ResizeSurface { context: handle.context(), size }
    }

    /// Makes visible what was drawn to the surface.
    pub(crate) fn present(&mut self, handle: &CurrentContextHandle) -> (r: Command)
        ensures
            r == (Command::Present { context: handle.context() }),
            *final(self) == old(self).with(
                handle.context(),
                ContextResources {
                    surface: Surface {
                        size: old(self).of(handle.context()).surface.size,
                        pending: None,
                        shown: old(self).of(handle.context()).surface.pending,
                    },
                    ..old(self).of(handle.context())
                },
            ),
    {
        let mut own = self.get(handle.context());
        own.surface = Surface { size: own.surface.size, pending: None, shown: own.surface.pending };
        self.put(handle.context(), own);
        Command::Present { context: handle.context() }
    }

    /// Fills the draw target with one colour.
    pub(crate) fn clear(&mut self, handle: &CurrentContextHandle, color: Color) -> (r: Command)
        requires
            old(self).of(handle.context()).draw == Target::Own ==> old(self).complete(
                handle.context(),
            ),
        ensures
            r == (Command::Clear { context: handle.context(), color }),
            *final(self) == old(self).cleared(handle.context(), color),
    {
        let mut own = self.get(handle.context());
        match own.draw {
            Target::Own => {
                self.renderbuffer.content = Some(color);
            },
            Target::Default => {
                own.surface.pending = Some(Image { area: Rect::full(own.surface.size), color });
                self.put(handle.context(), own);
            },
        }
        Command::Clear { context: handle.context(), color }
    }

    /// Copies `area` of the renderbuffer to the same area of the surface.
    pub(crate) fn blit(&mut self, handle: &CurrentContextHandle, area: Rect) -> (r: Command)
        requires
            old(self).of(handle.context()).read == Target::Own,
            old(self).of(handle.context()).draw == Target::Default,
            old(self).complete(handle.context()),
        ensures
            r == (Command::Blit { context: handle.context(), area }),
            *final(self) == old(self).blitted(handle.context(), area),
    {
        let mut own = self.get(handle.context());
        own.surface.pending = match self.renderbuffer.content {
            Some(color) => Some(Image { area, color }),
            None => None,
        };
        self.put(handle.context(), own);
        Command::Blit { context: handle.context(), area }
    }

    /// Deletes the framebuffer object; its binding points fall back to the
    /// surface.
    pub(crate) fn delete_framebuffer(&mut self, handle: &CurrentContextHandle) -> (r: Command)
        requires
            old(self).of(handle.context()).framebuffer.life == Lifetime::Live,
        ensures
            r == (Command::DeleteFramebuffer { context: handle.context() }),
            *final(self) == old(self).with(
                handle.context(),
                ContextResources {
                    framebuffer: Framebuffer { life: Lifetime::Deleted, attached: false },
                    draw: Target::Default,
                    read: Target::Default,
                    ..old(self).of(handle.context())
                },
            ),
    {
        let mut own = self.get(handle.context());
        own.framebuffer = Framebuffer { life: Lifetime::Deleted, attached: false };
        own.draw = Target::Default;
        own.read = Target::Default;
        self.put(handle.context(), own);
        Command::DeleteFramebuffer { context: handle.context() }
    }

    /// Deletes the shared renderbuffer.
    pub(crate) fn delete_renderbuffer(&mut self, handle: &CurrentContextHandle) -> (r: Command)
        requires
            old(self).renderbuffer.life == Lifetime::Live,
        ensures
            r == (Command::DeleteRenderbuffer { context: handle.context() }),
            *final(self) == (GpuState {
                renderbuffer: Renderbuffer { life: Lifetime::Deleted, storage: None, content: None },
                ..*old(self)
            }),
    {
        self.renderbuffer = Renderbuffer { life: Lifetime::Deleted, storage: None, content: None };
        Command::DeleteRenderbuffer { context: handle.context() }
    }
}

} // verus!
