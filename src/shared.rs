//! A cloneable handle to one epoch-protected slot that holds the current
//! backend.
use vstd::prelude::*;

use crate::backend::{Backend, BackendConfig};
use crate::style::{ColorChoice, FilterLevel, WriteStyle, write_style_of};
use crossbeam::epoch::{Atomic, Guard, Owned};
use log::{Log, Metadata, Record};
use std::sync::Arc;
use std::sync::atomic::Ordering;

verus! {

#[verifier::external_type_specification]
#[verifier::external_body]
#[verifier::reject_recursive_types(T)]
pub struct ExAtomic<T>(crossbeam::epoch::Atomic<T>);

#[verifier::external_type_specification]
#[verifier::external_body]
pub struct ExGuard(crossbeam::epoch::Guard);

/// Relies on crossbeam's `epoch::pin`: marks this thread as reading until
/// the guard is dropped, so nothing retired meanwhile is freed.
pub assume_specification[ crossbeam::epoch::pin ]() -> Guard;

/// How many backends a slot holds: 1 while its pointer is set, 0 once it is
/// null. Only `Atomic::null` and a store of `None` make it null; this crate
/// calls neither.
pub uninterp spec fn slot_len(slot: Atomic<Backend>) -> nat;

/// The configuration of the backend that a slot was made with.
pub uninterp spec fn slot_made_with(slot: Atomic<Backend>) -> BackendConfig;

/// Relies on crossbeam's `Atomic::new`: a slot whose pointer is set to a
/// fresh allocation holding `backend`.
#[verifier::external_body]
fn slot_new(backend: Backend) -> (r: Atomic<Backend>)
    ensures
        slot_len(r) == 1,
        slot_made_with(r) == backend@,
{
    Atomic::new(backend)
}

/// Relies on std's `Arc::clone`: another pointer to the same allocation,
/// hence to the same slot.
#[verifier::external_body]
fn share_slot(slot: &Arc<Atomic<Backend>>) -> (r: Arc<Atomic<Backend>>)
    ensures
        r == *slot,
{
    Arc::clone(slot)
}

/// Relies on crossbeam's `Atomic::load` with acquire ordering: the backend
/// that the slot holds now, borrowed for as long as the guard pins the epoch.
/// It is `None` only when the slot's pointer is null.
#[verifier::external_body]
fn slot_load<'g>(slot: &Atomic<Backend>, guard: &'g Guard) -> (r: Option<&'g Backend>)
    ensures
        slot_len(*slot) == 1 ==> r is Some,
{
    slot.load(Ordering::Acquire, guard).map(|shared| *shared)
}

/// Relies on crossbeam's `Atomic::store` with release ordering: publishes
/// `backend` in the slot, whose pointer stays set. The backend it replaces is
/// left where it is, so a reader that still holds it is never left with
/// freed memory.
#[verifier::external_body]
fn slot_store(slot: &Atomic<Backend>, backend: Backend) {
    slot.store(Some(Owned::new(backend)), Ordering::Release)
}

/// Relies on `log::set_boxed_logger`: installs `logger` as the process's
/// logger and returns `true`, or returns `false` when a logger was installed
/// before.
#[verifier::external_body]
fn register(logger: SharedLogger) -> bool {
    log::set_boxed_logger(Box::new(logger)).is_ok()
}

/// Relies on `log::set_max_level`: sets the process-wide level above which
/// the `log` macros drop records.
#[verifier::external_body]
fn set_max_level(level: FilterLevel) {
    log::set_max_level(
        match level {
            FilterLevel::Off => log::LevelFilter::Off,
            FilterLevel::Error => log::LevelFilter::Error,
            FilterLevel::Warn => log::LevelFilter::Warn,
            FilterLevel::Info => log::LevelFilter::Info,
            FilterLevel::Debug => log::LevelFilter::Debug,
            FilterLevel::Trace => log::LevelFilter::Trace,
        },
    )
}

/// Why `init` could not install a handle.
#[derive(Clone, Copy, Debug, PartialEq, Eq, Structural)]
pub enum InitError {
    /// The process already has a logger.
    AlreadyRegistered,
}

impl InitError {
    /// What `init` returns once the process's logger registry has answered:
    /// `Ok` when this handle was installed, `AlreadyRegistered` when another
    /// logger held the place.
    pub fn from_registration(installed: bool) -> (r: Result<(), InitError>)
        ensures
            r == (if installed {
                Ok::<(), InitError>(())
            } else {
                Err(InitError::AlreadyRegistered)
            }),
    {
        if installed {
            Ok(())
        } else {
            Err(InitError::AlreadyRegistered)
        }
    }
}

/// A logger whose backend can be swapped while other threads log. Its slot
/// always holds a backend.
#[derive(Debug)]
pub struct SharedLogger {
    inner: Arc<Atomic<Backend>>,
}

impl SharedLogger {
    #[verifier::type_invariant]
    spec fn slot_is_full(&self) -> bool {
        slot_len(*self.inner) == 1
    }

    /// The configuration of the backend that this handle's slot was made
    /// with, before any swap.
    pub closed spec fn initial_config(&self) -> BackendConfig {
        slot_made_with(*self.inner)
    }

    /// A handle whose slot holds a backend built for `color_choice`.
    pub fn new(color_choice: ColorChoice) -> (r: SharedLogger)
        ensures
            r.initial_config().write_style == write_style_of(color_choice),
    {
        SharedLogger { inner: Arc::new(slot_new(Backend::build(color_choice))) }
    }

    /// Builds a backend for `color_choice` and publishes it; the slot is
    /// never left empty. Readers that loaded the previous backend finish with
    /// it; later readers see the new one.
    pub fn set_color_choice(&self, color_choice: ColorChoice) {
        slot_store(&self.inner, Backend::build(color_choice))
    }

    /// Pins the epoch, loads the current backend and hands it to `f`; the
    /// epoch stays pinned until `f` returns, so the backend `f` sees is not
    /// freed under it, even if another thread publishes a new one meanwhile.
    fn with<F, R>(&self, f: F) -> (r: R)
        where
            F: FnOnce(&Backend) -> R,
        requires
            forall|backend: &Backend| f.requires((backend,)),
        ensures
            exists|backend: &Backend| f.ensures((backend,), r),
    {
        proof {
            use_type_invariant(self);
        }
        let guard = crossbeam::epoch::pin();
        let backend = slot_load(&self.inner, &guard).unwrap();
        f(backend)
    }

    /// The configuration of the backend that the slot holds now.
    pub fn current_config(&self) -> (r: BackendConfig)
        ensures
            exists|backend: &Backend| r == backend@,
    {
        proof {
            use_type_invariant(self);
        }
        let guard = crossbeam::epoch::pin();
        let backend = slot_load(&self.inner, &guard).unwrap();
        backend.config()
    }

    /// Installs a clone of this handle as the process's logger and, once it
    /// is installed, raises the process-wide maximum level to the current
    /// backend's filter level. When the process already has a logger, nothing
    /// is changed and `AlreadyRegistered` is returned: the logger installed
    /// first keeps serving every record.
    pub fn init(&self) -> Result<(), InitError> {
        let installed = register(self.clone());
        if installed {
            self.with(|backend: &Backend| set_max_level(backend.filter_level()));
        }
        InitError::from_registration(installed)
    }
}

impl Clone for SharedLogger {
    /// Another handle to the same slot.
    fn clone(&self) -> (r: SharedLogger)
        ensures
            r.initial_config() == self.initial_config(),
    {
        proof {
            use_type_invariant(self);
        }
        SharedLogger { inner: share_slot(&self.inner) }
    }
}

impl Default for SharedLogger {
    /// A handle whose backend never colours its output.
    fn default() -> (r: SharedLogger)
        ensures
            r.initial_config().write_style == WriteStyle::Never,
    {
        SharedLogger::new(ColorChoice::Never)
    }
}

impl Log for SharedLogger {
    fn enabled(&self, metadata: &Metadata) -> bool {
        self.with(|backend: &Backend| backend.enabled(metadata))
    }

    fn log(&self, record: &Record) {
        self.with(|backend: &Backend| backend.log(record))
    }

    fn flush(&self) {
        self.with(|backend: &Backend| backend.flush())
    }
}

} // verus!
