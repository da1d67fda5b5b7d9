use vstd::prelude::*;

use crate::client::{
    step_next_delivery, step_route_error, step_route_message, step_take_latched, CoreModel,
};
use crate::latch::ErrorValue;
use crate::message::Message;
use crate::slot::{
    acquired, install_outcome, step_acquire, step_install, step_release, InstallOutcome,
};

verus! {

/// Route a whole sequence of messages through the core, oldest first.
pub open spec fn route_all<MH, EH>(c: CoreModel<MH, EH>, ms: Seq<Message>) -> CoreModel<MH, EH>
    decreases ms.len(),
{
    if ms.len() == 0 {
        c
    } else {
        route_all(step_route_message(c, ms[0]).0, ms.subrange(1, ms.len() as int))
    }
}

/// Drain the buffer to exhaustion: repeat one drain step followed by the
/// end of the invocation it began, for a handler that does not call back
/// into the core, and collect the deliveries in the order they are made.
pub open spec fn drain_all<MH, EH>(c: CoreModel<MH, EH>) -> (CoreModel<MH, EH>, Seq<(MH, Message)>)
    decreases c.queue.len(),
{
    if c.queue.len() > 0 && acquired(c.msg) is Some {
        let stepped = step_next_delivery(c);
        let finished = CoreModel { msg: step_release(stepped.0.msg), ..stepped.0 };
        let rest = drain_all(finished);
        (rest.0, seq![stepped.1.unwrap()] + rest.1)
    } else {
        (c, Seq::empty())
    }
}

/// While no message handler is installed, arriving messages are appended
/// to the buffer one after another: nothing is delivered, nothing is
/// dropped, and the buffer holds them in exact arrival order.
pub proof fn lemma_buffer_in_arrival_order<MH, EH>(c: CoreModel<MH, EH>, ms: Seq<Message>)
    requires
        c.wf(),
        c.msg.handler is None,
    ensures
        route_all(c, ms).queue == c.queue + ms,
        route_all(c, ms).msg == c.msg,
        route_all(c, ms).err == c.err,
        route_all(c, ms).latch == c.latch,
        route_all(c, ms).init == c.init,
    decreases ms.len(),
{
    if ms.len() == 0 {
        assert(c.queue + ms =~= c.queue);
    } else {
        let c1 = step_route_message(c, ms[0]).0;
        lemma_buffer_in_arrival_order(c1, ms.subrange(1, ms.len() as int));
        assert(c.queue.push(ms[0]) + ms.subrange(1, ms.len() as int) =~= c.queue + ms);
    }
}

/// Draining with a handler installed and idle delivers the entire buffer
/// to that handler, front first, in buffer order, and leaves the buffer
/// empty with the handler still installed.
pub proof fn lemma_drain_delivers_in_order<MH, EH>(c: CoreModel<MH, EH>)
    requires
        c.wf(),
        c.msg.handler is Some,
        !c.msg.busy,
    ensures
        drain_all(c).1 == c.queue.map_values(|m: Message| (c.msg.handler.unwrap(), m)),
        drain_all(c).0.queue == Seq::<Message>::empty(),
        drain_all(c).0.msg == c.msg,
        drain_all(c).0.err == c.err,
        drain_all(c).0.latch == c.latch,
        drain_all(c).0.init == c.init,
    decreases c.queue.len(),
{
    if c.queue.len() == 0 {
        assert(drain_all(c).1 =~= c.queue.map_values(|m: Message| (c.msg.handler.unwrap(), m)));
    } else {
        let stepped = step_next_delivery(c);
        let finished = CoreModel { msg: step_release(stepped.0.msg), ..stepped.0 };
        assert(finished.msg == c.msg);
        lemma_drain_delivers_in_order(finished);
        assert(finished.queue.map_values(|m: Message| (finished.msg.handler.unwrap(), m))
            =~= finished.queue.map_values(|m: Message| (c.msg.handler.unwrap(), m)));
        assert(drain_all(c).1 =~= c.queue.map_values(|m: Message| (c.msg.handler.unwrap(), m)));
        assert(drain_all(c).0.queue =~= Seq::<Message>::empty());
    }
}

/// For every sequence of messages routed while no handler is installed,
/// installing a handler afterwards applies immediately, and the drain that
/// follows hands every one of those messages to the new handler in exact
/// arrival order — no loss, no reordering — leaving the buffer empty.
pub proof fn lemma_buffered_messages_drain_in_arrival_order<MH, EH>(
    c: CoreModel<MH, EH>,
    ms: Seq<Message>,
    h: MH,
)
    requires
        c.wf(),
        c.msg.handler is None,
        c.queue.len() == 0,
    ensures
        ({
            let buffered = route_all(c, ms);
            let installed = CoreModel { msg: step_install(buffered.msg, Some(h)), ..buffered };
            &&& install_outcome(buffered.msg, Some(h)) == InstallOutcome::Applied
            &&& drain_all(installed).1 == ms.map_values(|m: Message| (h, m))
            &&& drain_all(installed).0.queue == Seq::<Message>::empty()
        }),
{
    lemma_buffer_in_arrival_order(c, ms);
    let buffered = route_all(c, ms);
    let installed = CoreModel { msg: step_install(buffered.msg, Some(h)), ..buffered };
    lemma_drain_delivers_in_order(installed);
    assert(installed.queue =~= ms);
    assert(drain_all(installed).1 =~= ms.map_values(|m: Message| (h, m)));
}

/// Installing `None` as the message handler (outside any invocation)
/// applies immediately and suspends delivery: a message routed afterwards
/// is buffered at the back of the queue, not delivered and not dropped.
pub proof fn lemma_install_none_suspends_delivery<MH, EH>(c: CoreModel<MH, EH>, m: Message)
    requires
        c.wf(),
        !c.msg.busy,
    ensures
        install_outcome(c.msg, None::<MH>) == InstallOutcome::Applied,
        ({
            let suspended = CoreModel { msg: step_install(c.msg, None::<MH>), ..c };
            &&& step_route_message(suspended, m).1 is None
            &&& step_route_message(suspended, m).0.queue == c.queue.push(m)
        }),
{
}

/// A message handler that installs its own replacement from inside its
/// invocation never deadlocks or crashes the core: the install is
/// deferred, the invocation in flight keeps the old handler, no further
/// delivery can begin meanwhile, and the replacement governs exactly from
/// the end of that invocation — that is, from the next event on.
pub proof fn lemma_self_replacement_mid_invocation<MH, EH>(c: CoreModel<MH, EH>, h2: Option<MH>)
    requires
        c.wf(),
        c.msg.busy,
    ensures
        install_outcome(c.msg, h2) == InstallOutcome::Deferred,
        ({
            let deferred = CoreModel { msg: step_install(c.msg, h2), ..c };
            let finished = CoreModel { msg: step_release(deferred.msg), ..deferred };
            &&& deferred.msg.handler == c.msg.handler
            &&& acquired(deferred.msg) is None
            &&& finished.msg.handler == h2
            &&& !finished.msg.busy
            &&& finished.msg.pending is None
        }),
{
}

/// With no error handler installed, of two errors in a row only the first
/// is latched and the second is dropped; installing a handler afterwards
/// delivers exactly the first error, once, leaving the latch empty.
pub proof fn lemma_first_latched_error_is_delivered<MH, EH>(
    c: CoreModel<MH, EH>,
    e1: ErrorValue,
    e2: ErrorValue,
    h: EH,
)
    requires
        c.wf(),
        c.err.handler is None,
        c.latch is None,
    ensures
        ({
            let c1 = step_route_error(c, e1).0;
            let c2 = step_route_error(c1, e2).0;
            let c3 = CoreModel { err: step_install(c2.err, Some(h)), ..c2 };
            &&& step_route_error(c, e1).1 is None
            &&& c1.latch == Some(e1)
            &&& step_route_error(c1, e2).1 is None
            &&& c2.latch == Some(e1)
            &&& install_outcome(c2.err, Some(h)) == InstallOutcome::Applied
            &&& step_take_latched(c3).1 == Some((h, e1))
            &&& step_take_latched(c3).0.latch is None
        }),
{
}

} // verus!
