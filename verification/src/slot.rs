use vstd::prelude::*;

verus! {

/// The outcome of installing a handler in a [`HandlerSlot`].
///
/// `Applied` means the replacement took effect immediately (no invocation of
/// the previous handler was in progress); the caller should now drain any
/// buffered values into the new handler.  `Deferred` means the install
/// happened from inside an invocation of the current handler; the
/// replacement has been recorded and lands the instant that invocation ends,
/// and the caller must not drain buffered values itself.
#[derive(Debug, Clone, Copy, PartialEq, Eq, Structural)]
pub enum InstallOutcome {
    Applied,
    Deferred,
}

/// The abstract state of a [`HandlerSlot`]: the installed handler, a
/// replacement recorded during an active invocation, and whether an
/// invocation of the installed handler is in progress right now.
pub struct SlotView<H> {
    pub handler: Option<H>,
    pub pending: Option<Option<H>>,
    pub busy: bool,
}

impl<H> SlotView<H> {
    /// A pending replacement exists only while the installed handler is
    /// being invoked, and an invocation can only be in progress for an
    /// installed handler.
    pub open spec fn wf(self) -> bool {
        &&& self.pending is Some ==> self.busy
        &&& self.busy ==> self.handler is Some
    }
}

/// What installing `h` does to a slot: outside an invocation the handler is
/// replaced at once; inside one, the replacement is only recorded.
pub open spec fn step_install<H>(s: SlotView<H>, h: Option<H>) -> SlotView<H> {
    if s.busy {
        SlotView { pending: Some(h), ..s }
    } else {
        SlotView { handler: h, pending: None, busy: s.busy }
    }
}

/// The outcome that [`step_install`] reports for slot state `s`.
pub open spec fn install_outcome<H>(s: SlotView<H>, h: Option<H>) -> InstallOutcome {
    if s.busy {
        InstallOutcome::Deferred
    } else {
        InstallOutcome::Applied
    }
}

/// What beginning an invocation does to a slot: if a handler is installed
/// and no invocation is in progress, the slot becomes busy; otherwise
/// nothing changes.
pub open spec fn step_acquire<H>(s: SlotView<H>) -> SlotView<H> {
    if s.handler is Some && !s.busy {
        SlotView { busy: true, ..s }
    } else {
        s
    }
}

/// The handler that beginning an invocation hands out of slot state `s`:
/// the installed handler, or `None` if the slot is empty or already busy.
pub open spec fn acquired<H>(s: SlotView<H>) -> Option<H> {
    if s.handler is Some && !s.busy {
        s.handler
    } else {
        None
    }
}

/// What ending an invocation does to a slot: the busy mark is cleared and a
/// recorded replacement, if any, is applied exactly now.
pub open spec fn step_release<H>(s: SlotView<H>) -> SlotView<H> {
    match s.pending {
        Some(p) => SlotView { handler: p, pending: None, busy: false },
        None => SlotView { handler: s.handler, pending: None, busy: false },
    }
}

/// A reentrancy-safe container for at most one installed event handler.
///
/// A handler here is an opaque token of type `H`; the unverified shell maps
/// tokens to actual callbacks and performs the invocations.  The slot keeps
/// an explicit in-use mark around each invocation: an install that arrives
/// while the mark is set (that is, from inside the invoked handler itself)
/// is recorded as a pending replacement and applied when the invocation
/// ends, never while the handler still runs.
pub struct HandlerSlot<H> {
    current: Option<H>,
    pending: Option<Option<H>>,
    in_use: bool,
}

impl<H> View for HandlerSlot<H> {
    type V = SlotView<H>;

    closed spec fn view(&self) -> SlotView<H> {
        SlotView { handler: self.current, pending: self.pending, busy: self.in_use }
    }
}

impl<H> HandlerSlot<H> {
    /// An empty slot: no handler, no pending replacement, no invocation in
    /// progress.
    pub fn new() -> (s: Self)
        ensures
            s@ == (SlotView { handler: None::<H>, pending: None::<Option<H>>, busy: false }),
            s@.wf(),
    {
        HandlerSlot { current: None, pending: None, in_use: false }
    }

    /// Install `new_handler` (or uninstall, for `None`).  Outside an
    /// invocation the replacement takes effect immediately and the outcome
    /// is `Applied`; from inside an invocation it is recorded and applied
    /// when that invocation returns, and the outcome is `Deferred`.
    pub fn install(&mut self, new_handler: Option<H>) -> (o: InstallOutcome)
        requires
            old(self)@.wf(),
        ensures
            final(self)@ == step_install(old(self)@, new_handler),
            o == install_outcome(old(self)@, new_handler),
            final(self)@.wf(),
    {
        if self.in_use {
            self.pending = Some(new_handler);
            InstallOutcome::Deferred
        } else {
            self.current = new_handler;
            InstallOutcome::Applied
        }
    }

    /// Whether an invocation of the installed handler is in progress.
    pub fn is_busy(&self) -> (r: bool)
        ensures
            r == self@.busy,
    {
        self.in_use
    }

    /// End the invocation begun by [`HandlerSlot::try_acquire`]: clear the
    /// in-use mark and apply a replacement recorded meanwhile, if any.
    pub fn release(&mut self)
        requires
            old(self)@.busy,
        ensures
            final(self)@ == step_release(old(self)@),
            final(self)@.wf(),
    {
        self.in_use = false;
        let replacement = self.pending.take();
        if let Some(p) = replacement {
            self.current = p;
        }
    }
}

impl<H: Copy> HandlerSlot<H> {
    /// Begin an invocation: if a handler is installed and no invocation is
    /// in progress, mark the slot in use and hand out the handler token;
    /// otherwise hand out nothing and leave the slot unchanged (the caller
    /// then buffers the value instead).
    pub fn try_acquire(&mut self) -> (h: Option<H>)
        requires
            old(self)@.wf(),
        ensures
            final(self)@ == step_acquire(old(self)@),
            h == acquired(old(self)@),
            final(self)@.wf(),
    {
        if self.in_use {
            None
        } else {
            match self.current {
                Some(handler) => {
                    self.in_use = true;
                    Some(handler)
                },
                None => None,
            }
        }
    }
}

/// A handler that installs its own replacement from inside its invocation
/// never sees the replacement itself: the install is deferred, the handler
/// in place stays in place for the rest of the invocation, no further
/// invocation can begin meanwhile, and the replacement lands exactly when
/// the invocation ends.
pub proof fn lemma_reentrant_install_defers<H>(s: SlotView<H>, h: Option<H>)
    requires
        s.wf(),
        s.busy,
    ensures
        install_outcome(s, h) == InstallOutcome::Deferred,
        step_install(s, h).handler == s.handler,
        acquired(step_install(s, h)) is None,
        step_release(step_install(s, h)) == (SlotView {
            handler: h,
            pending: None::<Option<H>>,
            busy: false,
        }),
{
}

/// Outside an invocation an install is applied at once: the new handler is
/// in place, no pending replacement remains, and the very next value routed
/// through the slot is handed to the new handler.
pub proof fn lemma_install_applies<H>(s: SlotView<H>, h: Option<H>)
    requires
        s.wf(),
        !s.busy,
    ensures
        install_outcome(s, h) == InstallOutcome::Applied,
        step_install(s, h) == (SlotView { handler: h, pending: None::<Option<H>>, busy: false }),
        acquired(step_install(s, h)) == h,
{
}

} // verus!
