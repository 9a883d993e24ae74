use vstd::prelude::*;
use crate::error::Error;

verus! {

/// The two GL contexts of the renderer.
#[derive(Clone, Copy, Debug, PartialEq, Eq, Structural)]
pub enum ContextId {
    /// Bound to the on-screen swap chain.
    Presentation,
    /// Renders off-screen into the shared renderbuffer.
    Compute,
}

impl ContextId {
    pub open spec fn other_spec(self) -> ContextId {
        match self {
            ContextId::Presentation => ContextId::Compute,
            ContextId::Compute => ContextId::Presentation,
        }
    }

    /// The context that is not `self`.
    #[verifier::when_used_as_spec(other_spec)]
    pub fn other(self) -> (r: ContextId)
        ensures
            r == self.other_spec(),
    {
        match self {
            ContextId::Presentation => ContextId::Compute,
            ContextId::Compute => ContextId::Presentation,
        }
    }
}

/// Whether a context is bound to the calling thread.
#[derive(Clone, Copy, Debug, PartialEq, Eq, Structural)]
pub enum ContextState {
    NotCurrent,
    Current,
}

/// The state of both contexts: the mathematical model of
/// [`ContextOwnership`].
pub ghost struct Bindings {
    pub presentation: ContextState,
    pub compute: ContextState,
}

impl Bindings {
    pub open spec fn state(self, which: ContextId) -> ContextState {
        match which {
            ContextId::Presentation => self.presentation,
            ContextId::Compute => self.compute,
        }
    }

    pub open spec fn with(self, which: ContextId, to: ContextState) -> Bindings {
        match which {
            ContextId::Presentation => Bindings { presentation: to, ..self },
            ContextId::Compute => Bindings { compute: to, ..self },
        }
    }

    /// At most one context is current.
    pub open spec fn exclusive(self) -> bool {
        !(self.presentation == ContextState::Current && self.compute == ContextState::Current)
    }

    /// No context is current.
    pub open spec fn idle(self) -> bool {
        self.presentation == ContextState::NotCurrent && self.compute == ContextState::NotCurrent
    }

    /// What `acquire(which)` does: refused with `DoubleAcquire` when `which`
    /// is current, with `StuckContext` when the other context was never
    /// released, and otherwise `which` becomes current.
    pub open spec fn acquire(self, which: ContextId) -> Result<Bindings, Error> {
        if self.state(which) == ContextState::Current {
            Err(Error::DoubleAcquire)
        } else if self.state(which.other_spec()) == ContextState::Current {
            Err(Error::StuckContext)
        } else {
            Ok(self.with(which, ContextState::Current))
        }
    }

    /// What `release(which, handle)` does with a handle that was handed out
    /// for `held`: `which` becomes not current when the handle is the one for
    /// `which` and `which` is current. Any other handle is lost without
    /// unbinding its context, which is `StuckContext`.
    pub open spec fn release(self, which: ContextId, held: ContextId) -> Result<Bindings, Error> {
        if held == which && self.state(which) == ContextState::Current {
            Ok(self.with(which, ContextState::NotCurrent))
        } else {
            Err(Error::StuckContext)
        }
    }
}

/// One call on the ownership manager.
pub ghost enum Op {
    Acquire(ContextId),
    /// A release of `which` with the handle that was handed out for `held`.
    Release { which: ContextId, held: ContextId },
}

/// The bindings after one call. A refused call changes nothing.
pub open spec fn step(b: Bindings, op: Op) -> Bindings {
    match op {
        Op::Acquire(which) => match b.acquire(which) {
            Ok(next) => next,
            Err(_) => b,
        },
        Op::Release { which, held } => match b.release(which, held) {
            Ok(next) => next,
            Err(_) => b,
        },
    }
}

/// The bindings after a sequence of calls, first call first.
pub open spec fn run(b: Bindings, ops: Seq<Op>) -> Bindings
    decreases ops.len(),
{
    if ops.len() == 0 {
        b
    } else {
        step(run(b, ops.drop_last()), ops.last())
    }
}

/// Mutual exclusion: starting with at most one context current, no sequence
/// of acquire and release calls, accepted or refused, reaches a state in
/// which both contexts are current. It holds after every prefix of the
/// sequence, so at every instant.
pub proof fn lemma_mutual_exclusion(b: Bindings, ops: Seq<Op>)
    requires
        b.exclusive(),
    ensures
        run(b, ops).exclusive(),
        forall|k: int| 0 <= k <= ops.len() ==> (#[trigger] run(b, ops.take(k))).exclusive(),
    decreases ops.len(),
{
    if ops.len() > 0 {
        lemma_mutual_exclusion(b, ops.drop_last());
    }
    assert forall|k: int| 0 <= k <= ops.len() implies (#[trigger] run(b, ops.take(k))).exclusive() by {
        if k == ops.len() {
            assert(ops.take(k) =~= ops);
        } else {
            assert(ops.take(k) =~= ops.drop_last().take(k));
        }
    }
}

/// Round trip: an accepted acquire followed at once by the release of the
/// same context, with the handle that the acquire gave, is accepted and
/// restores the bindings exactly.
pub proof fn lemma_round_trip(b: Bindings, which: ContextId)
    requires
        b.acquire(which) is Ok,
    ensures
        b.acquire(which).unwrap().release(which, which) == Ok::<Bindings, Error>(b),
        run(b, seq![Op::Acquire(which), Op::Release { which, held: which }]) == b,
{
    let ops = seq![Op::Acquire(which), Op::Release { which, held: which }];
    assert(ops.drop_last() =~= seq![Op::Acquire(which)]);
    assert(ops.drop_last().drop_last() =~= Seq::<Op>::empty());
    reveal_with_fuel(run, 3);
}

/// The capability to issue GL commands against one context. Only
/// [`ContextOwnership::acquire`] makes one, and
/// [`ContextOwnership::release`] consumes it.
#[derive(Debug)]
pub struct CurrentContextHandle {
    which: ContextId,
}

impl CurrentContextHandle {
    pub closed spec fn context_spec(&self) -> ContextId {
        self.which
    }

    /// The context that this handle stands for.
    #[verifier::when_used_as_spec(context_spec)]
    pub fn context(&self) -> (r: ContextId)
        ensures
            r == self.context_spec(),
    {
        self.which
    }
}

/// Tracks which of the two contexts is bound to the calling thread.
#[derive(Debug)]
pub struct ContextOwnership {
    presentation: ContextState,
    compute: ContextState,
}

impl View for ContextOwnership {
    type V = Bindings;

    closed spec fn view(&self) -> Bindings {
        Bindings { presentation: self.presentation, compute: self.compute }
    }
}

impl ContextOwnership {
    /// Both contexts start out not current.
    pub fn new() -> (r: ContextOwnership)
        ensures
            r@.idle(),
            r@.exclusive(),
    {
        ContextOwnership {
            presentation: ContextState::NotCurrent,
            compute: ContextState::NotCurrent,
        }
    }

    /// The state of one context.
    pub fn state(&self, which: ContextId) -> (r: ContextState)
        ensures
            r == self@.state(which),
    {
        match which {
            ContextId::Presentation => self.presentation,
            ContextId::Compute => self.compute,
        }
    }

    /// The context that is current, if one is. Of two it names the
    /// presentation context; no call on this type leads there.
    pub fn current(&self) -> (r: Option<ContextId>)
        ensures
            r is None <==> self@.idle(),
            r matches Some(c) ==> self@.state(c) == ContextState::Current,
            self@.presentation == ContextState::Current ==> r == Some(ContextId::Presentation),
    {
        if self.presentation == ContextState::Current {
            Some(ContextId::Presentation)
        } else if self.compute == ContextState::Current {
            Some(ContextId::Compute)
        } else {
            None
        }
    }

    fn set(&mut self, which: ContextId, to: ContextState)
        ensures
            final(self)@ == old(self)@.with(which, to),
    {
        match which {
            ContextId::Presentation => {
                self.presentation = to;
            },
            ContextId::Compute => {
                self.compute = to;
            },
        }
    }

    /// Makes `which` current and hands out the capability for it. Refused,
    /// with nothing changed, while either context is current.
    pub fn acquire(&mut self, which: ContextId) -> (r: Result<CurrentContextHandle, Error>)
        ensures
            match old(self)@.acquire(which) {
                Ok(next) => r matches Ok(handle) && handle.context_spec() == which && final(self)@ == next,
                Err(e) => r matches Err(f) && f == e && final(self)@ == old(self)@,
            },
            old(self)@.exclusive() ==> final(self)@.exclusive(),
    {
        if self.state(which) == ContextState::Current {
            Err(Error::DoubleAcquire)
        } else if self.state(which.other()) == ContextState::Current {
            Err(Error::StuckContext)
        } else {
            self.set(which, ContextState::Current);
            Ok(CurrentContextHandle { which })
        }
    }

    /// Takes the capability back and makes `which` not current. A handle
    /// that was not handed out for `which`, or a `which` that is not
    /// current, is refused with nothing changed.
    pub fn release(&mut self, which: ContextId, handle: CurrentContextHandle) -> (r: Result<(), Error>)
        ensures
            match old(self)@.release(which, handle.context_spec()) {
                Ok(next) => r is Ok && final(self)@ == next,
                Err(e) => r matches Err(f) && f == e && final(self)@ == old(self)@,
            },
            old(self)@.exclusive() ==> final(self)@.exclusive(),
    {
        if handle.which == which && self.state(which) == ContextState::Current {
            self.set(which, ContextState::NotCurrent);
            Ok(())
        } else {
            Err(Error::StuckContext)
        }
    }
}

} // verus!
