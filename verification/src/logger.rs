//! The logger capability, the registry that holds the one active logger, and
//! the functions that every log call goes through.

use crate::event::{Event, Metadata};
use crate::sink::{cell_get, cell_new, cell_set, handle_clone, held};
use once_cell::sync::OnceCell;
use tracing::Dispatch;
use vstd::prelude::*;

verus! {

/// A trait encapsulating the operations required of a logger. A logger is
/// used through shared references only: what it changes, it changes inside.
pub trait Logger: Sync + Send + 'static {
    /// Determines if an event with the specified metadata would be logged.
    fn enabled(&self, metadata: &Metadata) -> bool;

    /// Records an event.
    fn record(&self, event: &Event);

    /// Flushes any buffered events.
    fn flush(&self);
}

/// A slot of the registry was already occupied; the value offered was dropped
/// and the slot is as it was.
#[derive(Clone, Copy, Debug, PartialEq, Eq, Structural)]
pub struct AlreadySet;

/// Why a backend was not installed.
#[derive(Debug)]
pub enum InstallError<E> {
    /// The backend could not be built; the cause is handed on.
    AdapterFailed(E),
    /// A logger was installed before.
    AlreadySet,
}

/// A call that the registry has made on its logger.
pub enum LoggerCall {
    /// `record`, with this event.
    Record(Event),
    /// `flush`.
    Flush,
}

/// The registry as contracts see it.
pub struct RegistryView<L> {
    /// The active logger.
    pub logger: Option<L>,
    /// The timing dispatch handle.
    pub timing: Option<Dispatch>,
    /// How many events were forwarded; the count stops at `u64::MAX`.
    pub dispatched: u64,
    /// The calls of `record` and `flush` made on the logger, oldest first.
    pub calls: Seq<LoggerCall>,
}

impl<L> RegistryView<L> {
    /// The registry at process start.
    pub open spec fn empty() -> Self {
        RegistryView { logger: None, timing: None, dispatched: 0, calls: Seq::empty() }
    }

    /// The registry after an attempt to register `logger`: an empty slot takes
    /// it, an occupied one stays as it is.
    pub open spec fn set_logger(self, logger: L) -> Self {
        if self.logger is None {
            RegistryView { logger: Some(logger), ..self }
        } else {
            self
        }
    }

    /// The registry after an attempt to register the timing handle `handle`:
    /// an empty slot takes it, an occupied one stays as it is.
    pub open spec fn set_timing(self, handle: Dispatch) -> Self {
        if self.timing is None {
            RegistryView { timing: Some(handle), ..self }
        } else {
            self
        }
    }

    /// The counter after one more forwarded event.
    pub open spec fn counted(self) -> u64 {
        if self.dispatched < u64::MAX {
            (self.dispatched + 1) as u64
        } else {
            self.dispatched
        }
    }

    /// The registry after `event` was dispatched: with a logger, one call of
    /// `record` with `event` has been made and counted; without one, nothing
    /// has changed.
    pub open spec fn dispatch(self, event: Event) -> Self {
        if self.logger is Some {
            RegistryView {
                dispatched: self.counted(),
                calls: self.calls.push(LoggerCall::Record(event)),
                ..self
            }
        } else {
            self
        }
    }

    /// The registry after a flush: the logger, if there is one, has been
    /// called to flush. Both slots hold what they held, and nothing is
    /// counted.
    pub open spec fn flush(self) -> Self {
        if self.logger is Some {
            RegistryView { calls: self.calls.push(LoggerCall::Flush), ..self }
        } else {
            self
        }
    }
}

/// The process-wide state of the facade: the slot of the active logger, the
/// slot of the timing dispatch handle, and the count of forwarded events.
/// Startup code owns it, fills it, and hands it to every call site. It keeps,
/// as ghost state, the list of the calls that it has made on the logger.
pub struct Registry<L: Logger> {
    logger: Option<L>,
    timing: OnceCell<Dispatch>,
    dispatched: u64,
    calls: Ghost<Seq<LoggerCall>>,
}

impl<L: Logger> View for Registry<L> {
    type V = RegistryView<L>;

    closed spec fn view(&self) -> RegistryView<L> {
        RegistryView {
            logger: self.logger,
            timing: held(self.timing),
            dispatched: self.dispatched,
            calls: self.calls@,
        }
    }
}

impl<L: Logger> Registry<L> {
    /// A registry with both slots empty, nothing counted and no call made.
    pub fn new() -> (registry: Self)
        ensures
            registry@ == RegistryView::<L>::empty(),
    {
        Registry {
            logger: None,
            timing: cell_new(),
            dispatched: 0,
            calls: Ghost(Seq::empty()),
        }
    }

    /// The active logger, if one was registered.
    pub fn logger(&self) -> (r: Option<&L>)
        ensures
            r is Some == self@.logger is Some,
            r matches Some(logger) ==> self@.logger == Some(*logger),
    {
        self.logger.as_ref()
    }

    /// How many events were forwarded to the logger.
    pub fn dispatch_count(&self) -> (count: u64)
        ensures
            count == self@.dispatched,
    {
        self.dispatched
    }
}

/// Records a logging event to the registered logger: the logger's `record`
/// is called with `event`, once, and the call is counted. Without a logger
/// the event is dropped, silently and on purpose.
pub fn dispatch<L: Logger>(registry: &mut Registry<L>, event: &Event)
    ensures
        final(registry)@ == old(registry)@.dispatch(*event),
        old(registry)@.logger matches Some(logger) ==> call_ensures(
            L::record,
            (&logger, event),
            (),
        ),
{
    match &registry.logger {
        Some(logger) => {
            registry.dispatched = registry.dispatched.saturating_add(1);
            registry.calls = Ghost(registry.calls@.push(LoggerCall::Record(*event)));
            logger.record(event);
        },
        None => {},
    }
}

/// Checks whether an event with `metadata` would be recorded: the answer is
/// the registered logger's own, and `false` where there is none.
pub fn enabled<L: Logger>(registry: &Registry<L>, metadata: &Metadata) -> (r: bool)
    ensures
        match registry@.logger {
            Some(logger) => call_ensures(L::enabled, (&logger, metadata), r),
            None => !r,
        },
{
    match &registry.logger {
        Some(logger) => logger.enabled(metadata),
        None => false,
    }
}

/// Sets the logger exactly once: the first call takes effect, every later one
/// is refused and changes nothing.
pub fn set_global_logger<L: Logger>(registry: &mut Registry<L>, logger: L) -> (r: Result<
    (),
    AlreadySet,
>)
    ensures
        final(registry)@ == old(registry)@.set_logger(logger),
        r is Ok <==> old(registry)@.logger is None,
{
    if registry.logger.is_none() {
        registry.logger = Some(logger);
        Ok(())
    } else {
        Err(AlreadySet)
    }
}

/// Installs the logger that a backend built, if it could be built: a failed
/// construction leaves the registry as it was and is handed back with its
/// cause.
pub fn install_logger<L: Logger, E>(registry: &mut Registry<L>, built: Result<L, E>) -> (r: Result<
    (),
    InstallError<E>,
>)
    ensures
        match built {
            Ok(logger) => {
                &&& final(registry)@ == old(registry)@.set_logger(logger)
                &&& r is Ok <==> old(registry)@.logger is None
                &&& r is Err ==> r->Err_0 is AlreadySet
            },
            Err(cause) => {
                &&& final(registry)@ == old(registry)@
                &&& r is Err
                &&& r->Err_0 == InstallError::AdapterFailed(cause)
            },
        },
{
    match built {
        Ok(logger) => match set_global_logger(registry, logger) {
            Ok(()) => Ok(()),
            Err(_) => Err(InstallError::AlreadySet),
        },
        Err(cause) => Err(InstallError::AdapterFailed(cause)),
    }
}

/// Flushes what the registry holds: the logger's `flush` is called, if there
/// is a logger. The timing handle has nothing of its own to flush and stays
/// where it is, so that readers get it after a flush as before; neither slot
/// is emptied, however often this is called.
pub fn flush<L: Logger>(registry: &mut Registry<L>)
    ensures
        final(registry)@ == old(registry)@.flush(),
        final(registry)@.timing == old(registry)@.timing,
        final(registry)@.logger == old(registry)@.logger,
        old(registry)@.logger matches Some(logger) ==> call_ensures(L::flush, (&logger,), ()),
{
    match &registry.logger {
        Some(logger) => {
            registry.calls = Ghost(registry.calls@.push(LoggerCall::Flush));
            logger.flush();
        },
        None => {},
    }
}

/// Sets the timing dispatch handle exactly once.
pub fn set_global_dispatch<L: Logger>(registry: &mut Registry<L>, dispatch: Dispatch) -> (r: Result<
    (),
    AlreadySet,
>)
    ensures
        final(registry)@ == old(registry)@.set_timing(dispatch),
        r is Ok <==> old(registry)@.timing is None,
{
    match cell_set(&mut registry.timing, dispatch) {
        Ok(()) => Ok(()),
        Err(_) => Err(AlreadySet),
    }
}

/// A handle to the timing dispatch, if one was set.
pub fn get_timing_dispatch<L: Logger>(registry: &Registry<L>) -> (r: Option<Dispatch>)
    ensures
        r == registry@.timing,
{
    match cell_get(&registry.timing) {
        Some(handle) => Some(handle_clone(handle)),
        None => None,
    }
}

} // verus!
