//! What holds of the registry over whole runs of calls, proved from the
//! model that the contracts of the functions are stated in.

use crate::event::Event;
use crate::logger::{LoggerCall, RegistryView};
use tracing::Dispatch;
use vstd::prelude::*;

verus! {

/// One call that changes a registry.
pub enum Step<L> {
    /// An attempt to register this logger.
    SetLogger(L),
    /// An attempt to register this timing handle.
    SetDispatch(Dispatch),
    /// A dispatch of this event.
    Dispatch(Event),
    /// A flush.
    Flush,
}

/// The registry after one step.
pub open spec fn after_step<L>(start: RegistryView<L>, step: Step<L>) -> RegistryView<L> {
    match step {
        Step::SetLogger(logger) => start.set_logger(logger),
        Step::SetDispatch(handle) => start.set_timing(handle),
        Step::Dispatch(event) => start.dispatch(event),
        Step::Flush => start.flush(),
    }
}

/// The registry after the steps of `steps`, taken in order.
pub open spec fn after_steps<L>(start: RegistryView<L>, steps: Seq<Step<L>>) -> RegistryView<L>
    decreases steps.len(),
{
    if steps.len() == 0 {
        start
    } else {
        after_step(after_steps(start, steps.drop_last()), steps.last())
    }
}

/// The logger of the first step of `steps` that offers one.
pub open spec fn first_logger<L>(steps: Seq<Step<L>>) -> Option<L>
    decreases steps.len(),
{
    if steps.len() == 0 {
        None
    } else if first_logger(steps.drop_last()) is Some {
        first_logger(steps.drop_last())
    } else if let Step::SetLogger(logger) = steps.last() {
        Some(logger)
    } else {
        None
    }
}

/// The timing handle of the first step of `steps` that offers one.
pub open spec fn first_handle<L>(steps: Seq<Step<L>>) -> Option<Dispatch>
    decreases steps.len(),
{
    if steps.len() == 0 {
        None
    } else if first_handle(steps.drop_last()) is Some {
        first_handle(steps.drop_last())
    } else if let Step::SetDispatch(handle) = steps.last() {
        Some(handle)
    } else {
        None
    }
}

/// Some step of `steps` offers a timing handle.
pub open spec fn offers_handle<L>(steps: Seq<Step<L>>) -> bool {
    exists|i: int| 0 <= i < steps.len() && (#[trigger] steps[i]) is SetDispatch
}

/// The registry after each logger of `loggers` was offered to `start`, in
/// order.
pub open spec fn after_loggers<L>(start: RegistryView<L>, loggers: Seq<L>) -> RegistryView<L>
    decreases loggers.len(),
{
    if loggers.len() == 0 {
        start
    } else {
        after_loggers(start, loggers.drop_last()).set_logger(loggers.last())
    }
}

/// The registry after each handle of `handles` was offered to `start` as the
/// timing handle, in order.
pub open spec fn after_handles<L>(start: RegistryView<L>, handles: Seq<Dispatch>) -> RegistryView<L>
    decreases handles.len(),
{
    if handles.len() == 0 {
        start
    } else {
        after_handles(start, handles.drop_last()).set_timing(handles.last())
    }
}

/// The registry after each event of `events` was dispatched to `start`, in
/// order.
pub open spec fn after_dispatches<L>(start: RegistryView<L>, events: Seq<Event>) -> RegistryView<L>
    decreases events.len(),
{
    if events.len() == 0 {
        start
    } else {
        after_dispatches(start, events.drop_last()).dispatch(events.last())
    }
}

/// The registry after `start` was flushed `times` times.
pub open spec fn after_flushes<L>(start: RegistryView<L>, times: nat) -> RegistryView<L>
    decreases times,
{
    if times == 0 {
        start
    } else {
        after_flushes(start, (times - 1) as nat).flush()
    }
}

/// One call of `record` for each event of `events`, in order.
pub open spec fn records_of(events: Seq<Event>) -> Seq<LoggerCall> {
    Seq::new(events.len(), |i: int| LoggerCall::Record(events[i]))
}

/// `times` calls of `flush`.
pub open spec fn flushes_of(times: nat) -> Seq<LoggerCall> {
    Seq::new(times, |i: int| LoggerCall::Flush)
}

proof fn after_loggers_holds_first<L>(start: RegistryView<L>, loggers: Seq<L>)
    ensures
        after_loggers(start, loggers) == (RegistryView {
            logger: if start.logger is Some || loggers.len() == 0 {
                start.logger
            } else {
                Some(loggers[0])
            },
            ..start
        }),
    decreases loggers.len(),
{
    if loggers.len() > 0 {
        after_loggers_holds_first(start, loggers.drop_last());
    }
}

proof fn after_handles_holds_first<L>(start: RegistryView<L>, handles: Seq<Dispatch>)
    ensures
        after_handles(start, handles) == (RegistryView {
            timing: if start.timing is Some || handles.len() == 0 {
                start.timing
            } else {
                Some(handles[0])
            },
            ..start
        }),
    decreases handles.len(),
{
    if handles.len() > 0 {
        after_handles_holds_first(start, handles.drop_last());
    }
}

/// Of the loggers offered to a registry one after the other, only the first
/// is accepted, and that only if the slot was empty before; from then on the
/// slot holds that first logger, and nothing else in the registry has moved.
pub proof fn first_logger_wins<L>(start: RegistryView<L>, loggers: Seq<L>, i: int)
    requires
        0 <= i < loggers.len(),
    ensures
        after_loggers(start, loggers.take(i)).logger is None <==> start.logger is None && i == 0,
        after_loggers(start, loggers.take(i + 1)) == (RegistryView {
            logger: if start.logger is Some {
                start.logger
            } else {
                Some(loggers[0])
            },
            ..start
        }),
{
    after_loggers_holds_first(start, loggers.take(i));
    after_loggers_holds_first(start, loggers.take(i + 1));
}

/// Of the timing handles offered to a registry one after the other, only the
/// first is accepted, and that only if the slot was empty before; from then
/// on the slot holds that first handle, and nothing else in the registry has
/// moved.
pub proof fn first_handle_wins<L>(start: RegistryView<L>, handles: Seq<Dispatch>, i: int)
    requires
        0 <= i < handles.len(),
    ensures
        after_handles(start, handles.take(i)).timing is None <==> start.timing is None && i == 0,
        after_handles(start, handles.take(i + 1)) == (RegistryView {
            timing: if start.timing is Some {
                start.timing
            } else {
                Some(handles[0])
            },
            ..start
        }),
{
    after_handles_holds_first(start, handles.take(i));
    after_handles_holds_first(start, handles.take(i + 1));
}

/// What a slot holds, it holds for good: whatever is called on the registry
/// afterwards, flushes among it, and however often, a logger once registered
/// and a timing handle once set are still there, the same as before.
pub proof fn slots_are_kept<L>(start: RegistryView<L>, steps: Seq<Step<L>>)
    ensures
        start.logger is Some ==> after_steps(start, steps).logger == start.logger,
        start.timing is Some ==> after_steps(start, steps).timing == start.timing,
    decreases steps.len(),
{
    if steps.len() > 0 {
        slots_are_kept(start, steps.drop_last());
    }
}

/// Whatever is called on a registry from its start, each slot holds what was
/// first offered to it, and is empty only if nothing was offered: a reader
/// gets a timing handle if and only if one was set before, and calls that
/// set the logger, dispatch or flush do not give it one.
pub proof fn slots_hold_the_first_offered<L>(steps: Seq<Step<L>>)
    ensures
        after_steps(RegistryView::<L>::empty(), steps).logger == first_logger(steps),
        after_steps(RegistryView::<L>::empty(), steps).timing == first_handle(steps),
        after_steps(RegistryView::<L>::empty(), steps).timing is Some <==> offers_handle(steps),
    decreases steps.len(),
{
    if steps.len() > 0 {
        let before = steps.drop_last();
        slots_hold_the_first_offered(before);
        if offers_handle(before) {
            let i = choose|i: int| 0 <= i < before.len() && (#[trigger] before[i]) is SetDispatch;
            assert(steps[i] is SetDispatch);
        }
        if steps.last() is SetDispatch {
            assert(steps[steps.len() - 1] is SetDispatch);
        }
        if offers_handle(steps) {
            let i = choose|i: int| 0 <= i < steps.len() && (#[trigger] steps[i]) is SetDispatch;
            if i < before.len() {
                assert(before[i] is SetDispatch);
            }
        }
    }
}

/// Dispatching before any logger is registered changes nothing, however
/// often it is done: `record` is not called, and the counter stands.
pub proof fn dispatch_without_logger_drops<L>(start: RegistryView<L>, events: Seq<Event>)
    requires
        start.logger is None,
    ensures
        after_dispatches(start, events) == start,
    decreases events.len(),
{
    if events.len() > 0 {
        dispatch_without_logger_drops(start, events.drop_last());
    }
}

/// With a logger registered, a run of dispatches makes one call of `record`
/// for each event, in the order of the events, and no other call. The
/// counter has moved by the number of events, or stands at `u64::MAX`; the
/// two slots are untouched.
pub proof fn dispatch_delivers_each_event_once<L>(start: RegistryView<L>, events: Seq<Event>)
    requires
        start.logger is Some,
    ensures
        after_dispatches(start, events) == (RegistryView {
            calls: start.calls + records_of(events),
            dispatched: if start.dispatched + events.len() <= u64::MAX {
                (start.dispatched + events.len()) as u64
            } else {
                u64::MAX
            },
            ..start
        }),
    decreases events.len(),
{
    if events.len() > 0 {
        let before = events.drop_last();
        dispatch_delivers_each_event_once(start, before);
        assert(start.calls + records_of(events) == (start.calls + records_of(before)).push(
            LoggerCall::Record(events.last()),
        ));
    } else {
        assert(start.calls + records_of(events) == start.calls);
    }
}

/// Flushing releases nothing, however often it is done: both slots hold what
/// they held and the counter stands. All that has happened is one call of
/// the logger's `flush` for each flush, if there is a logger, and nothing at
/// all if there is none.
pub proof fn flushes_release_nothing<L>(start: RegistryView<L>, times: nat)
    ensures
        after_flushes(start, times) == (RegistryView {
            calls: if start.logger is Some {
                start.calls + flushes_of(times)
            } else {
                start.calls
            },
            ..start
        }),
    decreases times,
{
    if times > 0 {
        let before = (times - 1) as nat;
        flushes_release_nothing(start, before);
        assert(start.calls + flushes_of(times) == (start.calls + flushes_of(before)).push(
            LoggerCall::Flush,
        ));
    } else {
        assert(start.calls + flushes_of(times) == start.calls);
    }
}

} // verus!
