use vstd::prelude::*;
use crate::error::Error;
use crate::gpu::{BindPoint, Color, Command, Rect, Size, Target};
use crate::ownership::ContextId;

verus! {

impl Command {
    /// The context under which a GL command is issued; `None` for the
    /// commands that are no GL commands.
    pub open spec fn context_spec(self) -> Option<ContextId> {
        match self {
            Command::Acquire(_) => None,
            Command::Release(_) => None,
            Command::RequestRedraw => None,
            Command::Exit => None,
            Command::CreateRenderbuffer { context } => Some(context),
            Command::BindRenderbuffer { context } => Some(context),
            Command::AllocateStorage { context, .. } => Some(context),
            Command::CreateFramebuffer { context } => Some(context),
            Command::BindFramebuffer { context, .. } => Some(context),
            Command::AttachRenderbuffer { context, .. } => Some(context),
            Command::CheckFramebuffer { context, .. } => Some(context),
            Command::SetViewport { context, .. } => Some(context),
            Command::ResizeSurface { context, .. } => Some(context),
            Command::Present { context } => Some(context),
            Command::Clear { context, .. } => Some(context),
            Command::Blit { context, .. } => Some(context),
            Command::DeleteFramebuffer { context } => Some(context),
            Command::DeleteRenderbuffer { context } => Some(context),
        }
    }

    /// The context under which a GL command is issued; `None` for the
    /// commands that are no GL commands.
    #[verifier::when_used_as_spec(context_spec)]
    pub fn context(self) -> (r: Option<ContextId>)
        ensures
            r == self.context_spec(),
    {
        match self {
            Command::Acquire(_) => None,
            Command::Release(_) => None,
            Command::RequestRedraw => None,
            Command::Exit => None,
            Command::CreateRenderbuffer { context } => Some(context),
            Command::BindRenderbuffer { context } => Some(context),
            Command::AllocateStorage { context, .. } => Some(context),
            Command::CreateFramebuffer { context } => Some(context),
            Command::BindFramebuffer { context, .. } => Some(context),
            Command::AttachRenderbuffer { context, .. } => Some(context),
            Command::CheckFramebuffer { context, .. } => Some(context),
            Command::SetViewport { context, .. } => Some(context),
            Command::ResizeSurface { context, .. } => Some(context),
            Command::Present { context } => Some(context),
            Command::Clear { context, .. } => Some(context),
            Command::Blit { context, .. } => Some(context),
            Command::DeleteFramebuffer { context } => Some(context),
            Command::DeleteRenderbuffer { context } => Some(context),
        }
    }

    pub open spec fn failure_spec(self) -> Option<Error> {
        match self {
            Command::Present { .. } => Some(Error::SwapFailed),
            Command::CheckFramebuffer { .. } => Some(Error::FramebufferIncomplete),
            Command::Release(_) => Some(Error::StuckContext),
            _ => None,
        }
    }

    /// The error that the driver reports when it cannot carry the command
    /// out: a refused present, an incomplete framebuffer, a context that
    /// cannot be unbound. The other commands have no failure of their own.
    #[verifier::when_used_as_spec(failure_spec)]
    pub fn failure(self) -> (r: Option<Error>)
        ensures
            r == self.failure_spec(),
    {
        match self {
            Command::Present { .. } => Some(Error::SwapFailed),
            Command::CheckFramebuffer { .. } => Some(Error::FramebufferIncomplete),
            Command::Release(_) => Some(Error::StuckContext),
            _ => None,
        }
    }
}

/// What a driver that executes a plan holds after some of its commands.
#[derive(Clone, Copy, Debug, PartialEq, Eq, Structural)]
pub enum Bracket {
    /// No context is current.
    Idle,
    /// Exactly this context is current.
    Holding(ContextId),
    /// A command broke the discipline: an acquire while a context was
    /// current, a release of a context that was not, or a GL command issued
    /// under any context but the current one.
    Broken,
}

pub open spec fn advance(at: Bracket, command: Command) -> Bracket {
    match at {
        Bracket::Broken => Bracket::Broken,
        Bracket::Idle => match command {
            Command::Acquire(which) => Bracket::Holding(which),
            Command::RequestRedraw => Bracket::Idle,
            Command::Exit => Bracket::Idle,
            _ => Bracket::Broken,
        },
        Bracket::Holding(held) => match command {
            Command::Acquire(_) => Bracket::Broken,
            Command::Release(which) => if which == held {
                Bracket::Idle
            } else {
                Bracket::Broken
            },
            Command::RequestRedraw => at,
            Command::Exit => at,
            _ => if command.context_spec() == Some(held) {
                at
            } else {
                Bracket::Broken
            },
        },
    }
}

/// Where a driver stands after the whole of `plan`, having started idle.
pub open spec fn bracket(plan: Seq<Command>) -> Bracket
    decreases plan.len(),
{
    if plan.len() == 0 {
        Bracket::Idle
    } else {
        advance(bracket(plan.drop_last()), plan.last())
    }
}

/// The plan keeps the ownership discipline: every acquire is met by one
/// release of the same context before the next acquire, every GL command
/// runs under the context that is current, and nothing is left current.
pub open spec fn follows_protocol(plan: Seq<Command>) -> bool {
    bracket(plan) == Bracket::Idle
}

impl Bracket {
    /// Where the driver stands after one more command.
    pub fn after(self, command: Command) -> (r: Bracket)
        ensures
            r == advance(self, command),
    {
        match self {
            Bracket::Broken => Bracket::Broken,
            Bracket::Idle => match command {
                Command::Acquire(which) => Bracket::Holding(which),
                Command::RequestRedraw => Bracket::Idle,
                Command::Exit => Bracket::Idle,
                _ => Bracket::Broken,
            },
            Bracket::Holding(held) => match command {
                Command::Acquire(_) => Bracket::Broken,
                Command::Release(which) => if which == held {
                    Bracket::Idle
                } else {
                    Bracket::Broken
                },
                Command::RequestRedraw => self,
                Command::Exit => self,
                _ => match command.context() {
                    Some(under) => if under == held {
                        self
                    } else {
                        Bracket::Broken
                    },
                    None => Bracket::Broken,
                },
            },
        }
    }
}

/// Where a driver stands after the first `count` commands of a plan.
fn bracket_after(plan: &Vec<Command>, count: usize) -> (r: Bracket)
    requires
        count <= plan@.len(),
    ensures
        r == bracket(plan@.take(count as int)),
{
    let mut at = Bracket::Idle;
    let mut i: usize = 0;
    proof {
        assert(plan@.take(0).len() == 0);
    }
    while i < count
        invariant
            i <= count <= plan@.len(),
            at == bracket(plan@.take(i as int)),
        decreases count - i,
    {
        proof {
            let longer = plan@.take(i + 1);
            assert(longer.drop_last() =~= plan@.take(i as int));
            assert(longer.last() == plan@[i as int]);
        }
        at = at.after(plan[i]);
        i += 1;
    }
    at
}

/// Whether a plan keeps the ownership discipline.
pub fn check_plan(plan: &Vec<Command>) -> (r: bool)
    ensures
        r == follows_protocol(plan@),
{
    proof {
        assert(plan@.take(plan@.len() as int) =~= plan@);
    }
    match bracket_after(plan, plan.len()) {
        Bracket::Idle => true,
        _ => false,
    }
}

/// The release that is still owed when the command at `failed` could not
/// be carried out.
pub open spec fn owed_release(plan: Seq<Command>, failed: int) -> Option<Command> {
    if 0 <= failed < plan.len() {
        match bracket(plan.take(failed)) {
            Bracket::Holding(held) => if plan[failed] is Release {
                None
            } else {
                Some(Command::Release(held))
            },
            _ => None,
        }
    } else {
        None
    }
}

/// What the driver must still execute, before it gives up, when the command
/// at `failed` could not be carried out: the release of the context that
/// was current then, so that no error path leaves a context bound. Nothing
/// is owed where no context was current, where the release itself is what
/// failed, or where the plan has no command at `failed`.
pub fn unwind(plan: &Vec<Command>, failed: usize) -> (r: Option<Command>)
    ensures
        r == owed_release(plan@, failed as int),
{
    if failed >= plan.len() {
        return None;
    }
    match bracket_after(plan, failed) {
        Bracket::Holding(held) => match plan[failed] {
            Command::Release(_) => None,
            _ => Some(Command::Release(held)),
        },
        _ => None,
    }
}

/// First-time creation of the shared objects, under the compute context,
/// then the presentation side.
pub open spec fn setup_plan(size: Size) -> Seq<Command> {
    let c = ContextId::Compute;
    let p = ContextId::Presentation;
    seq![
        Command::Acquire(c),
        Command::CreateRenderbuffer { context: c },
        Command::BindRenderbuffer { context: c },
        Command::AllocateStorage { context: c, size },
        Command::CreateFramebuffer { context: c },
        Command::BindFramebuffer { context: c, point: BindPoint::Draw, target: Target::Own },
        Command::AttachRenderbuffer { context: c, point: BindPoint::Draw },
        Command::CheckFramebuffer { context: c, point: BindPoint::Draw },
        Command::Release(c),
        Command::Acquire(p),
        Command::BindRenderbuffer { context: p },
        Command::CreateFramebuffer { context: p },
        Command::BindFramebuffer { context: p, point: BindPoint::Read, target: Target::Own },
        Command::AttachRenderbuffer { context: p, point: BindPoint::Read },
        Command::CheckFramebuffer { context: p, point: BindPoint::Read },
        Command::SetViewport { context: p, area: Rect::full_spec(size) },
        Command::Release(p),
    ]
}

/// One frame: clear off-screen, then blit to the window and present.
pub open spec fn frame_plan(size: Size, color: Color) -> Seq<Command> {
    let c = ContextId::Compute;
    let p = ContextId::Presentation;
    seq![
        Command::Acquire(c),
        Command::Clear { context: c, color },
        Command::Present { context: c },
        Command::Release(c),
        Command::Acquire(p),
        Command::BindFramebuffer { context: p, point: BindPoint::Read, target: Target::Own },
        Command::Blit { context: p, area: Rect::full_spec(size) },
        Command::Present { context: p },
        Command::Release(p),
    ]
}

/// A change of the window's size: the presentation side with the shared
/// storage first, then the compute side, then a repaint.
pub open spec fn resize_plan(size: Size) -> Seq<Command> {
    let c = ContextId::Compute;
    let p = ContextId::Presentation;
    seq![
        Command::Acquire(p),
        Command::ResizeSurface { context: p, size },
        Command::Present { context: p },
        Command::AllocateStorage { context: p, size },
        Command::CheckFramebuffer { context: p, point: BindPoint::Read },
        Command::SetViewport { context: p, area: Rect::full_spec(size) },
        Command::Release(p),
        Command::Acquire(c),
        Command::ResizeSurface { context: c, size },
        Command::Present { context: c },
        Command::SetViewport { context: c, area: Rect::full_spec(size) },
        Command::Release(c),
        Command::RequestRedraw,
    ]
}

/// Disposal: the presentation context deletes its framebuffer and the
/// shared renderbuffer, the compute context its framebuffer.
pub open spec fn teardown_plan() -> Seq<Command> {
    let c = ContextId::Compute;
    let p = ContextId::Presentation;
    seq![
        Command::Acquire(p),
        Command::DeleteFramebuffer { context: p },
        Command::DeleteRenderbuffer { context: p },
        Command::Release(p),
        Command::Acquire(c),
        Command::DeleteFramebuffer { context: c },
        Command::Release(c),
    ]
}

/// The teardown deletes the shared renderbuffer exactly once, although two
/// framebuffers refer to it: one command of the plan deletes it, and no
/// other does.
pub proof fn lemma_teardown_deletes_renderbuffer_once()
    ensures
        forall|i: int|
            0 <= i < teardown_plan().len() ==> ((#[trigger] teardown_plan()[i]
                matches Command::DeleteRenderbuffer { .. }) <==> i == 2),
        teardown_plan()[2] == (Command::DeleteRenderbuffer { context: ContextId::Presentation }),
{
}

/// A resize gives the shared renderbuffer new storage exactly once: one
/// command of the plan allocates, under the presentation context, and no
/// other does.
pub proof fn lemma_resize_allocates_once(size: Size)
    ensures
        forall|i: int|
            0 <= i < resize_plan(size).len() ==> ((#[trigger] resize_plan(size)[i]
                matches Command::AllocateStorage { .. }) <==> i == 3),
        resize_plan(size)[3] == (Command::AllocateStorage {
            context: ContextId::Presentation,
            size,
        }),
{
}

/// Every command of `plan` that attaches the renderbuffer or gives it new
/// storage while a framebuffer refers to it is followed at once by a check
/// of that framebuffer.
pub open spec fn checked_at_once(plan: Seq<Command>, with_storage: bool) -> bool {
    forall|i: int|
        0 <= i < plan.len() ==> match #[trigger] plan[i] {
            Command::AttachRenderbuffer { context, point } => i + 1 < plan.len() && plan[i + 1]
                == (Command::CheckFramebuffer { context, point }),
            Command::AllocateStorage { context, .. } => with_storage ==> (i + 1 < plan.len()
                && plan[i + 1] is CheckFramebuffer && plan[i + 1].context_spec() == Some(
                context,
            )),
            _ => true,
        }
}

/// An incomplete framebuffer is caught where it arises: setup checks each
/// framebuffer right after the attachment, and a resize checks right after
/// the new allocation.
pub proof fn lemma_completeness_is_checked(size: Size)
    ensures
        checked_at_once(setup_plan(size), false),
        checked_at_once(resize_plan(size), true),
{
}

/// Appends one command to a plan.
pub(crate) fn emit(plan: &mut Vec<Command>, command: Command)
    ensures
        final(plan)@ == old(plan)@.push(command),
        bracket(final(plan)@) == advance(bracket(old(plan)@), command),
{
    plan.push(command);
    proof {
        assert(plan@.drop_last() =~= old(plan)@);
    }
}

} // verus!
