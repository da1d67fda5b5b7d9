use vstd::prelude::*;

use crate::latch::{step_record, ErrorLatch, ErrorValue};
use crate::message::{classify, spec_classify, Message, RawPayload};
use crate::queue::PendingQueue;
use crate::slot::{
    acquired, install_outcome, step_acquire, step_install, step_release, HandlerSlot,
    InstallOutcome, SlotView,
};

verus! {

/// One handler invocation that the unverified shell must perform: call the
/// callback that `handler` stands for with `value`, and then report back
/// through the matching `finish` operation on [`ClientCore`].
#[derive(Debug, Clone, PartialEq, Eq)]
pub struct Delivery<H, T> {
    pub handler: H,
    pub value: T,
}

/// Where a close event was routed: to the message handler (clean close), to
/// the error handler (unclean close), or into the buffer/latch because the
/// relevant handler was absent or mid-invocation.
#[derive(Debug, Clone, PartialEq, Eq)]
pub enum CloseOutcome<MH, EH> {
    Message(Delivery<MH, Message>),
    Error(Delivery<EH, ErrorValue>),
    Buffered,
}

/// The abstract state of a [`ClientCore`]: the not-yet-sent init message,
/// the message handler slot with its FIFO buffer, and the error handler
/// slot with its one-value latch.
pub struct CoreModel<MH, EH> {
    pub init: Option<Message>,
    pub msg: SlotView<MH>,
    pub queue: Seq<Message>,
    pub err: SlotView<EH>,
    pub latch: Option<ErrorValue>,
}

impl<MH, EH> CoreModel<MH, EH> {
    pub open spec fn wf(self) -> bool {
        &&& self.msg.wf()
        &&& self.err.wf()
    }
}

/// The state of a freshly created core: both slots empty and idle, nothing
/// buffered, nothing latched, the init message (if any) still to be sent.
pub open spec fn initial_model<MH, EH>(init: Option<Message>) -> CoreModel<MH, EH> {
    CoreModel {
        init,
        msg: SlotView { handler: None, pending: None, busy: false },
        queue: Seq::empty(),
        err: SlotView { handler: None, pending: None, busy: false },
        latch: None,
    }
}

/// What routing one message does: if the message handler is installed and
/// idle, it is handed the message (and is busy until the invocation is
/// finished); otherwise the message is appended to the buffer, never
/// dropped.
pub open spec fn step_route_message<MH, EH>(c: CoreModel<MH, EH>, m: Message) -> (
    CoreModel<MH, EH>,
    Option<(MH, Message)>,
) {
    match acquired(c.msg) {
        Some(h) => (CoreModel { msg: step_acquire(c.msg), ..c }, Some((h, m))),
        None => (CoreModel { queue: c.queue.push(m), ..c }, None),
    }
}

/// What routing one error does: if the error handler is installed and idle,
/// it is handed the error; otherwise the error goes to the latch, where
/// only the first unconsumed error is kept.
pub open spec fn step_route_error<MH, EH>(c: CoreModel<MH, EH>, e: ErrorValue) -> (
    CoreModel<MH, EH>,
    Option<(EH, ErrorValue)>,
) {
    match acquired(c.err) {
        Some(h) => (CoreModel { err: step_acquire(c.err), ..c }, Some((h, e))),
        None => (CoreModel { latch: step_record(c.latch, e), ..c }, None),
    }
}

/// What one drain step does: if the message handler is installed and idle
/// and the buffer is non-empty, the front of the buffer is handed to the
/// handler; otherwise nothing happens.
pub open spec fn step_next_delivery<MH, EH>(c: CoreModel<MH, EH>) -> (
    CoreModel<MH, EH>,
    Option<(MH, Message)>,
) {
    if c.queue.len() > 0 && acquired(c.msg) is Some {
        (
            CoreModel {
                msg: step_acquire(c.msg),
                queue: c.queue.subrange(1, c.queue.len() as int),
                ..c
            },
            Some((acquired(c.msg).unwrap(), c.queue[0])),
        )
    } else {
        (c, None)
    }
}

/// What taking the latched error does: if the error handler is installed
/// and idle and an error is latched, the latch is emptied and the error is
/// handed to the handler; otherwise nothing happens.
pub open spec fn step_take_latched<MH, EH>(c: CoreModel<MH, EH>) -> (
    CoreModel<MH, EH>,
    Option<(EH, ErrorValue)>,
) {
    if c.latch is Some && acquired(c.err) is Some {
        (
            CoreModel { err: step_acquire(c.err), latch: None, ..c },
            Some((acquired(c.err).unwrap(), c.latch.unwrap())),
        )
    } else {
        (c, None)
    }
}

/// The delivery a routing function returned, as the pair the spec-level
/// steps speak of.
pub open spec fn as_pair<H, T>(d: Option<Delivery<H, T>>) -> Option<(H, T)> {
    match d {
        Some(del) => Some((del.handler, del.value)),
        None => None,
    }
}

/// The message delivery inside a [`CloseOutcome`], if that is what it holds.
pub open spec fn close_message_pair<MH, EH>(o: CloseOutcome<MH, EH>) -> Option<(MH, Message)> {
    match o {
        CloseOutcome::Message(d) => Some((d.handler, d.value)),
        _ => None,
    }
}

/// The error delivery inside a [`CloseOutcome`], if that is what it holds.
pub open spec fn close_error_pair<MH, EH>(o: CloseOutcome<MH, EH>) -> Option<(EH, ErrorValue)> {
    match o {
        CloseOutcome::Error(d) => Some((d.handler, d.value)),
        _ => None,
    }
}

/// The decision core of the client: one handler slot plus FIFO buffer for
/// inbound messages, one handler slot plus one-value latch for errors, and
/// the optional init message to be sent when the transport reports open.
///
/// Handlers are opaque tokens (`MH` for the message handler, `EH` for the
/// error handler).  The unverified shell owns the transport and the actual
/// callbacks: it feeds every transport event into the methods here, carries
/// out the [`Delivery`] each method hands back (if any), and reports the end
/// of each invocation through the matching `finish` method, so that a
/// replacement installed from inside a handler lands at the right moment.
pub struct ClientCore<MH, EH> {
    init: Option<Message>,
    msg_slot: HandlerSlot<MH>,
    queue: PendingQueue<Message>,
    err_slot: HandlerSlot<EH>,
    latch: ErrorLatch,
}

impl<MH, EH> View for ClientCore<MH, EH> {
    type V = CoreModel<MH, EH>;

    closed spec fn view(&self) -> CoreModel<MH, EH> {
        CoreModel {
            init: self.init,
            msg: self.msg_slot@,
            queue: self.queue@,
            err: self.err_slot@,
            latch: self.latch@,
        }
    }
}

impl<MH: Copy, EH: Copy> ClientCore<MH, EH> {
    /// A fresh core with no handlers installed, nothing buffered and
    /// nothing latched.  `init_message`, if supplied, is held back until
    /// the transport reports that the connection is open.
    pub fn new(init_message: Option<Message>) -> (c: Self)
        ensures
            c@ == initial_model::<MH, EH>(init_message),
            c@.wf(),
    {
        ClientCore {
            init: init_message,
            msg_slot: HandlerSlot::new(),
            queue: PendingQueue::new(),
            err_slot: HandlerSlot::new(),
            latch: ErrorLatch::new(),
        }
    }

    /// The transport reports the connection open: hand out the init
    /// message to be sent now, exactly once.  The first call returns the
    /// message given at construction; every later call returns `None`, so
    /// a send of the init message can never be attempted twice.
    pub fn on_open(&mut self) -> (m: Option<Message>)
        ensures
            m == old(self)@.init,
            final(self)@ == (CoreModel { init: None, ..old(self)@ }),
    {
        self.init.take()
    }

    /// Route one translated message: hand it to the installed message
    /// handler, or buffer it if no handler is installed or the handler is
    /// mid-invocation.  If a delivery is returned, the shell must invoke
    /// the callback and then call [`ClientCore::finish_message_delivery`].
    pub fn route_message(&mut self, m: Message) -> (d: Option<Delivery<MH, Message>>)
        requires
            old(self)@.wf(),
        ensures
            final(self)@ == step_route_message(old(self)@, m).0,
            as_pair(d) == step_route_message(old(self)@, m).1,
            final(self)@.wf(),
    {
        match self.msg_slot.try_acquire() {
            Some(h) => Some(Delivery { handler: h, value: m }),
            None => {
                self.queue.push(m);
                None
            },
        }
    }

    /// The transport reports an inbound message event: translate the raw
    /// payload and route the result.  An unrecognized payload shape is
    /// silently discarded — not delivered, not buffered, not an error.
    pub fn on_message_event(&mut self, payload: RawPayload) -> (d: Option<Delivery<MH, Message>>)
        requires
            old(self)@.wf(),
        ensures
            spec_classify(payload) is None ==> final(self)@ == old(self)@ && d is None,
            spec_classify(payload) matches Some(m) ==> final(self)@ == step_route_message(
                old(self)@,
                m,
            ).0 && as_pair(d) == step_route_message(old(self)@, m).1,
            final(self)@.wf(),
    {
        match classify(payload) {
            Some(m) => self.route_message(m),
            None => None,
        }
    }

    /// Route one error: hand it to the installed error handler, or latch
    /// it if no handler is installed or the handler is mid-invocation.
    /// Used both for the transport's error events and for synchronous send
    /// failures.  If a delivery is returned, the shell must invoke the
    /// callback and then call [`ClientCore::finish_error_delivery`].
    pub fn route_error(&mut self, err: ErrorValue) -> (d: Option<Delivery<EH, ErrorValue>>)
        requires
            old(self)@.wf(),
        ensures
            final(self)@ == step_route_error(old(self)@, err).0,
            as_pair(d) == step_route_error(old(self)@, err).1,
            final(self)@.wf(),
    {
        match self.err_slot.try_acquire() {
            Some(h) => Some(Delivery { handler: h, value: err }),
            None => {
                self.latch.record(err);
                None
            },
        }
    }

    /// The transport reports the connection closed.  A clean close turns
    /// into `Message::Text(reason)` routed through the message channel — a
    /// terminal informational message, never an error; an unclean close
    /// turns into an [`ErrorValue::UncleanClose`] routed through the error
    /// channel, never the message channel.
    pub fn on_close(&mut self, was_clean: bool, code: u16, reason: String) -> (o: CloseOutcome<
        MH,
        EH,
    >)
        requires
            old(self)@.wf(),
        ensures
            was_clean ==> {
                &&& o !is Error
                &&& final(self)@ == step_route_message(old(self)@, Message::Text(reason)).0
                &&& close_message_pair(o) == step_route_message(
                    old(self)@,
                    Message::Text(reason),
                ).1
                &&& final(self)@.err == old(self)@.err
                &&& final(self)@.latch == old(self)@.latch
            },
            !was_clean ==> {
                &&& o !is Message
                &&& final(self)@ == step_route_error(
                    old(self)@,
                    ErrorValue::UncleanClose { code, reason },
                ).0
                &&& close_error_pair(o) == step_route_error(
                    old(self)@,
                    ErrorValue::UncleanClose { code, reason },
                ).1
                &&& final(self)@.msg == old(self)@.msg
                &&& final(self)@.queue == old(self)@.queue
            },
            final(self)@.wf(),
    {
        if was_clean {
            match self.route_message(Message::Text(reason)) {
                Some(d) => CloseOutcome::Message(d),
                None => CloseOutcome::Buffered,
            }
        } else {
            match self.route_error(ErrorValue::UncleanClose { code, reason }) {
                Some(d) => CloseOutcome::Error(d),
                None => CloseOutcome::Buffered,
            }
        }
    }

    /// Install (or with `None`, uninstall) the message handler, under the
    /// slot's reentrancy rule.  On `Applied` the caller should now drain
    /// the buffer through [`ClientCore::next_queued_delivery`]; on
    /// `Deferred` it must not, because the replacement has not landed yet.
    pub fn set_on_message(&mut self, handler: Option<MH>) -> (o: InstallOutcome)
        requires
            old(self)@.wf(),
        ensures
            final(self)@ == (CoreModel { msg: step_install(old(self)@.msg, handler), ..old(self)@ }),
            o == install_outcome(old(self)@.msg, handler),
            final(self)@.wf(),
    {
        self.msg_slot.install(handler)
    }

    /// One drain step: if the message handler is installed and idle and
    /// the buffer is non-empty, hand out the front of the buffer.  The
    /// shell calls this in a loop after an `Applied` install, invoking the
    /// callback and calling [`ClientCore::finish_message_delivery`] after
    /// each step, until it returns `None`; a replacement installed
    /// mid-drain stops or redirects the remaining deliveries without
    /// disturbing their order.
    pub fn next_queued_delivery(&mut self) -> (d: Option<Delivery<MH, Message>>)
        requires
            old(self)@.wf(),
        ensures
            final(self)@ == step_next_delivery(old(self)@).0,
            as_pair(d) == step_next_delivery(old(self)@).1,
            final(self)@.wf(),
    {
        if self.queue.len() == 0 {
            None
        } else {
            match self.msg_slot.try_acquire() {
                Some(h) => match self.queue.pop_front() {
                    Some(m) => Some(Delivery { handler: h, value: m }),
                    None => None,
                },
                None => None,
            }
        }
    }

    /// The shell reports that a message handler invocation has returned:
    /// clear the busy mark and apply a replacement installed meanwhile.
    pub fn finish_message_delivery(&mut self)
        requires
            old(self)@.wf(),
            old(self)@.msg.busy,
        ensures
            final(self)@ == (CoreModel { msg: step_release(old(self)@.msg), ..old(self)@ }),
            final(self)@.wf(),
    {
        self.msg_slot.release()
    }

    /// Install (or with `None`, uninstall) the error handler, under the
    /// slot's reentrancy rule.  On `Applied` the caller should now consume
    /// a latched error through [`ClientCore::take_latched_delivery`].
    pub fn set_on_error(&mut self, handler: Option<EH>) -> (o: InstallOutcome)
        requires
            old(self)@.wf(),
        ensures
            final(self)@ == (CoreModel { err: step_install(old(self)@.err, handler), ..old(self)@ }),
            o == install_outcome(old(self)@.err, handler),
            final(self)@.wf(),
    {
        self.err_slot.install(handler)
    }

    /// If the error handler is installed and idle and an error is latched,
    /// empty the latch and hand the error out to be delivered exactly
    /// once.  The shell invokes the callback and then calls
    /// [`ClientCore::finish_error_delivery`].
    pub fn take_latched_delivery(&mut self) -> (d: Option<Delivery<EH, ErrorValue>>)
        requires
            old(self)@.wf(),
        ensures
            final(self)@ == step_take_latched(old(self)@).0,
            as_pair(d) == step_take_latched(old(self)@).1,
            final(self)@.wf(),
    {
        if !self.latch.is_set() {
            None
        } else {
            match self.err_slot.try_acquire() {
                Some(h) => match self.latch.take() {
                    Some(e) => Some(Delivery { handler: h, value: e }),
                    None => None,
                },
                None => None,
            }
        }
    }

    /// The shell reports that an error handler invocation has returned:
    /// clear the busy mark and apply a replacement installed meanwhile.
    pub fn finish_error_delivery(&mut self)
        requires
            old(self)@.wf(),
            old(self)@.err.busy,
        ensures
            final(self)@ == (CoreModel { err: step_release(old(self)@.err), ..old(self)@ }),
            final(self)@.wf(),
    {
        self.err_slot.release()
    }

    /// Whether a message handler invocation is in flight, begun by a
    /// delivery and not yet reported finished.
    pub fn message_delivery_in_flight(&self) -> (r: bool)
        ensures
            r == self@.msg.busy,
    {
        self.msg_slot.is_busy()
    }

    /// Whether an error handler invocation is in flight, begun by a
    /// delivery and not yet reported finished.
    pub fn error_delivery_in_flight(&self) -> (r: bool)
        ensures
            r == self@.err.busy,
    {
        self.err_slot.is_busy()
    }

    /// The number of messages currently buffered.
    pub fn queued_len(&self) -> (n: usize)
        ensures
            n == self@.queue.len(),
    {
        self.queue.len()
    }

    /// Whether an unhandled error is currently latched.
    pub fn has_latched_error(&self) -> (r: bool)
        ensures
            r == (self@.latch is Some),
    {
        self.latch.is_set()
    }
}

} // verus!
