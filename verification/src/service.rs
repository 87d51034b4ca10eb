//! The coordinator service.
//!
//! One exclusive-access primitive guards the single {configuration, scheduler}
//! record. Every public operation acquires it before any read or delegation
//! and releases it on every exit path, so all coordinator-level state
//! transitions are serialized; the lock cannot be poisoned, so a failed
//! operation never denies future lockers. The lock's invariant pins the
//! configuration and the provider name for the service's lifetime: both are
//! immutable once construction has committed them.
//!
//! Construction performs reconciliation (see `crate::disk`) before the record
//! is sealed behind the lock. The shell around this library loads the fresh
//! configuration from the environment, reads the persisted artifact state,
//! and mirrors the returned artifact state back to the filesystem.

use vstd::prelude::*;
use vstd::rwlock::{RwLock, RwLockPredicate, WriteHandle};

use crate::config::Config;
use crate::disk::{reconcile, spec_reconcile, DiskState};
use crate::error::{err_to_binder_status, spec_status_message, BinderStatus, SvcError};
use crate::report::pack_report;
use crate::scheduler::{spec_process, Scheduler};

verus! {

/// The record the lock protects: the active configuration and the scheduler.
pub struct Lock {
    pub config: Config,
    pub scheduler: Scheduler,
}

/// The lock's invariant: the held record carries the configuration and the
/// provider name that construction committed.
pub struct ServicePred {
    pub config: Config,
    pub provider: Seq<char>,
}

impl RwLockPredicate<Lock> for ServicePred {
    open spec fn inv(self, v: Lock) -> bool {
        &&& v.config == self.config
        &&& v.scheduler@.provider == self.provider
    }
}

/// The coordinator: owns the mutually-exclusive slot holding the
/// configuration and the scheduler, delegates every operation under the lock,
/// and maps internal failures into the caller-visible error.
pub struct ProfcollectdBinderService {
    lock: RwLock<Lock, ServicePred>,
}

/// The two-step body of `report`: process every outstanding trace (waiting
/// for the work), then pack the available profiles. Packing is attempted only
/// after processing has succeeded, and a processing failure would be handed
/// back unchanged. The scheduler is left exactly in its processed state.
pub fn report_step(lock: &mut Lock) -> (r: Result<u64, SvcError>)
    ensures
        final(lock).config == old(lock).config,
        final(lock).scheduler@ == spec_process(old(lock).scheduler@, true),
        r is Ok <==> spec_process(old(lock).scheduler@, true).profiles.len() > 0,
        r matches Ok(n) ==> n == spec_process(old(lock).scheduler@, true).profiles.len(),
        r is Err ==> r == Err::<u64, SvcError>(SvcError::NoProfiles),
{
    let processed = lock.scheduler.process(true);
    match processed {
        Ok(()) => pack_report(lock.scheduler.profiles()),
        Err(e) => Err(e),
    }
}

impl ProfcollectdBinderService {
    /// The exclusive-access primitive.
    pub closed spec fn spec_lock(&self) -> RwLock<Lock, ServicePred> {
        self.lock
    }

    /// The configuration committed at construction.
    pub open spec fn spec_config(&self) -> Config {
        self.spec_lock().pred().config
    }

    /// The provider name committed at construction.
    pub open spec fn spec_provider(&self) -> Seq<char> {
        self.spec_lock().pred().provider
    }

    /// Builds the service: constructs a fresh scheduler around the given
    /// provider, reconciles the on-disk artifact state against the freshly
    /// loaded configuration, and seals the record behind the lock. Returns
    /// the service together with the artifact state the disk must now hold.
    pub fn new(new_config: Config, provider: String, disk: DiskState) -> (r: (
        ProfcollectdBinderService,
        DiskState,
    ))
        ensures
            r.0.spec_config() == new_config,
            r.0.spec_provider() == provider@,
            r.1@ == spec_reconcile(disk@, new_config),
    {
        let ghost provider_view = provider@;
        let new_scheduler = Scheduler::new(provider);
        let new_disk = reconcile(disk, &new_config);
        let record = Lock { config: new_config, scheduler: new_scheduler };
        let ghost pred = ServicePred { config: new_config, provider: provider_view };
        let lock = RwLock::new(record, Ghost(pred));
        (ProfcollectdBinderService { lock }, new_disk)
    }

    /// Acquires exclusive access to the {configuration, scheduler} record.
    /// The caller returns the record through the handle when it is done.
    pub fn lock(&self) -> (r: (Lock, WriteHandle<'_, Lock, ServicePred>))
        ensures
            r.1.rwlock() == self.spec_lock(),
            self.spec_lock().inv(r.0),
            r.0.config == self.spec_config(),
            r.0.scheduler@.provider == self.spec_provider(),
    {
        self.lock.acquire_write()
    }

    /// Sets up periodic collection under the current configuration.
    pub fn schedule(&self) -> (r: Result<(), BinderStatus>)
        ensures
            r matches Err(s) ==> s.code == 1 && s.message@ == spec_status_message(
                "Failed to schedule collection."@,
                SvcError::AlreadyScheduled,
            ),
    {
        let (mut lock, handle) = self.lock();
        let result = lock.scheduler.schedule_periodic(&lock.config);
        handle.release_write(lock);
        match result {
            Ok(()) => Ok(()),
            Err(e) => Err(err_to_binder_status("Failed to schedule collection.", e)),
        }
    }

    /// Ends the periodic collection.
    pub fn terminate(&self) -> (r: Result<(), BinderStatus>)
        ensures
            r matches Err(s) ==> s.code == 1 && s.message@ == spec_status_message(
                "Failed to terminate collection."@,
                SvcError::NotScheduled,
            ),
    {
        let (mut lock, handle) = self.lock();
        let result = lock.scheduler.terminate_periodic();
        handle.release_write(lock);
        match result {
            Ok(()) => Ok(()),
            Err(e) => Err(err_to_binder_status("Failed to terminate collection.", e)),
        }
    }

    /// Collects one trace under the given tag, outside the periodic schedule.
    pub fn trace_once(&self, tag: String) -> (r: Result<(), BinderStatus>)
        ensures
            r matches Err(s) ==> s.code == 1 && s.message@ == spec_status_message(
                "Failed to initiate an one-off trace."@,
                SvcError::DuplicateTraceTag,
            ),
    {
        let (mut lock, handle) = self.lock();
        let result = lock.scheduler.one_shot(&lock.config, tag);
        handle.release_write(lock);
        match result {
            Ok(()) => Ok(()),
            Err(e) => Err(err_to_binder_status("Failed to initiate an one-off trace.", e)),
        }
    }

    /// Processes outstanding collection work, waiting for it when `blocking`
    /// holds. Processing always completes.
    pub fn process(&self, blocking: bool) -> (r: Result<(), BinderStatus>)
        ensures
            r is Ok,
    {
        let (mut lock, handle) = self.lock();
        let result = lock.scheduler.process(blocking);
        handle.release_write(lock);
        match result {
            Ok(()) => Ok(()),
            Err(e) => Err(err_to_binder_status("Failed to process profiles.", e)),
        }
    }

    /// Processes all outstanding work, then packs the available profiles into
    /// a report. A processing failure would be reported under its own
    /// context; a packing failure is reported under the report context.
    pub fn report(&self) -> (r: Result<(), BinderStatus>)
        ensures
            r matches Err(s) ==> s.code == 1 && s.message@ == spec_status_message(
                "Failed to create profile report."@,
                SvcError::NoProfiles,
            ),
    {
        let (mut lock, handle) = self.lock();
        let result = report_step(&mut lock);
        handle.release_write(lock);
        match result {
            Ok(_) => Ok(()),
            Err(SvcError::NoProfiles) => Err(
                err_to_binder_status("Failed to create profile report.", SvcError::NoProfiles),
            ),
            Err(e) => Err(err_to_binder_status("Failed to process profiles.", e)),
        }
    }

    /// Name of the scheduler's active trace provider. Reads under the same
    /// exclusive lock as every mutating operation, and the lock's invariant
    /// pins the name: no queued mutation can change what this returns.
    pub fn get_supported_provider(&self) -> (r: Result<String, BinderStatus>)
        ensures
            r is Ok,
            r matches Ok(p) ==> p@ == self.spec_provider(),
    {
        let (lock, handle) = self.lock();
        let name = lock.scheduler.get_trace_provider_name().clone();
        handle.release_write(lock);
        Ok(name)
    }
}

} // verus!
