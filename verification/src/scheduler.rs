//! The scheduler collaborator.
//!
//! The coordinator owns one scheduler and delegates every operation to it.
//! The scheduler's internal timing and the trace providers' work are outside
//! this core; what the coordinator relies on is the scheduler's observable
//! state machine: whether a periodic collection is active, which one-off
//! traces are pending, and which profiles processing has produced. `Scheduler`
//! is that state machine, and every transition carries an exact contract.

use vstd::prelude::*;

use crate::config::Config;
use crate::error::SvcError;

verus! {

/// The scheduler's observable state: every field as mathematics.
#[verifier::ext_equal]
pub struct SchedulerModel {
    /// Name of the active trace provider, fixed when the scheduler is built.
    pub provider: Seq<char>,
    /// Whether a periodic collection is active.
    pub periodic_active: bool,
    /// The interval the active periodic collection was set up with.
    pub active_interval_secs: u64,
    /// Tags of collected traces that processing has not consumed yet.
    pub traces: Seq<Seq<char>>,
    /// Profiles produced by processing, in processing order.
    pub profiles: Seq<Seq<char>>,
}

/// What processing does to the scheduler: waiting for outstanding work turns
/// every pending trace into a profile; a call that does not wait observes
/// nothing of the still-outstanding work and leaves the state as it is.
pub open spec fn spec_process(m: SchedulerModel, blocking: bool) -> SchedulerModel {
    if blocking {
        SchedulerModel { traces: Seq::empty(), profiles: m.profiles + m.traces, ..m }
    } else {
        m
    }
}

/// Drives periodic and one-off profile collection.
pub struct Scheduler {
    provider: String,
    periodic_active: bool,
    active_interval_secs: u64,
    traces: Vec<String>,
    profiles: Vec<String>,
}

impl View for Scheduler {
    type V = SchedulerModel;

    closed spec fn view(&self) -> SchedulerModel {
        SchedulerModel {
            provider: self.provider@,
            periodic_active: self.periodic_active,
            active_interval_secs: self.active_interval_secs,
            traces: self.traces.deep_view(),
            profiles: self.profiles.deep_view(),
        }
    }
}

impl Scheduler {
    /// Builds a fresh scheduler around the named trace provider: nothing is
    /// scheduled, no trace is pending, no profile has been produced.
    pub fn new(provider: String) -> (r: Scheduler)
        ensures
            r@ == (SchedulerModel {
                provider: provider@,
                periodic_active: false,
                active_interval_secs: 0,
                traces: Seq::empty(),
                profiles: Seq::empty(),
            }),
    {
        let r = Scheduler {
            provider,
            periodic_active: false,
            active_interval_secs: 0,
            traces: Vec::new(),
            profiles: Vec::new(),
        };
        proof {
            assert(r.traces.deep_view() =~= Seq::<Seq<char>>::empty());
            assert(r.profiles.deep_view() =~= Seq::<Seq<char>>::empty());
            assert(r@ =~= (SchedulerModel {
                provider: r.provider@,
                periodic_active: false,
                active_interval_secs: 0,
                traces: Seq::empty(),
                profiles: Seq::empty(),
            }));
        }
        r
    }

    /// Sets up periodic collection under the given configuration. Rejected
    /// exactly when a periodic collection is already active.
    pub fn schedule_periodic(&mut self, config: &Config) -> (r: Result<(), SvcError>)
        ensures
            old(self)@.periodic_active ==> r == Err::<(), SvcError>(SvcError::AlreadyScheduled)
                && final(self)@ == old(self)@,
            !old(self)@.periodic_active ==> r == Ok::<(), SvcError>(()) && final(self)@
                == (SchedulerModel {
                periodic_active: true,
                active_interval_secs: config.collection_interval_secs,
                ..old(self)@
            }),
    {
        if self.periodic_active {
            return Err(SvcError::AlreadyScheduled);
        }
        self.periodic_active = true;
        self.active_interval_secs = config.collection_interval_secs;
        proof {
            assert(final(self)@ =~= (SchedulerModel {
                periodic_active: true,
                active_interval_secs: config.collection_interval_secs,
                ..old(self)@
            }));
        }
        Ok(())
    }

    /// Ends the periodic collection. Rejected exactly when none is active.
    pub fn terminate_periodic(&mut self) -> (r: Result<(), SvcError>)
        ensures
            !old(self)@.periodic_active ==> r == Err::<(), SvcError>(SvcError::NotScheduled)
                && final(self)@ == old(self)@,
            old(self)@.periodic_active ==> r == Ok::<(), SvcError>(()) && final(self)@
                == (SchedulerModel { periodic_active: false, active_interval_secs: 0, ..old(self)@ }),
    {
        if !self.periodic_active {
            return Err(SvcError::NotScheduled);
        }
        self.periodic_active = false;
        self.active_interval_secs = 0;
        proof {
            assert(final(self)@ =~= (SchedulerModel {
                periodic_active: false,
                active_interval_secs: 0,
                ..old(self)@
            }));
        }
        Ok(())
    }

    /// Collects one trace under the given tag, outside the periodic schedule.
    /// Rejected exactly when a pending trace already carries the tag.
    pub fn one_shot(&mut self, config: &Config, tag: String) -> (r: Result<(), SvcError>)
        ensures
            old(self)@.traces.contains(tag@) ==> r == Err::<(), SvcError>(
                SvcError::DuplicateTraceTag,
            ) && final(self)@ == old(self)@,
            !old(self)@.traces.contains(tag@) ==> r == Ok::<(), SvcError>(()) && final(self)@
                == (SchedulerModel { traces: old(self)@.traces.push(tag@), ..old(self)@ }),
    {
        let _ = config;
        if self.has_pending_trace(&tag) {
            return Err(SvcError::DuplicateTraceTag);
        }
        self.traces.push(tag);
        proof {
            assert(final(self)@.traces =~= old(self)@.traces.push(final(self).traces@.last()@));
            assert(final(self)@ =~= (SchedulerModel {
                traces: old(self)@.traces.push(final(self).traces@.last()@),
                ..old(self)@
            }));
        }
        Ok(())
    }

    /// Whether a pending trace carries the given tag.
    fn has_pending_trace(&self, tag: &String) -> (r: bool)
        ensures
            r == self@.traces.contains(tag@),
    {
        let mut i: usize = 0;
        while i < self.traces.len()
            invariant
                0 <= i <= self.traces.len(),
                forall|j: int| 0 <= j < i ==> self@.traces[j] != tag@,
            decreases self.traces.len() - i,
        {
            if self.traces[i] == *tag {
                proof {
                    assert(self@.traces[i as int] == tag@);
                }
                return true;
            }
            proof {
                assert(self@.traces[i as int] == self.traces@[i as int]@);
            }
            i = i + 1;
        }
        proof {
            assert(!self@.traces.contains(tag@));
        }
        false
    }

    /// Processes outstanding collection work. A blocking call waits for the
    /// work and turns every pending trace into a profile; a non-blocking call
    /// returns without observing the outstanding work. Processing itself
    /// always completes.
    pub fn process(&mut self, blocking: bool) -> (r: Result<(), SvcError>)
        ensures
            r is Ok,
            final(self)@ == spec_process(old(self)@, blocking),
    {
        if blocking {
            self.profiles.append(&mut self.traces);
            proof {
                assert(final(self)@.profiles =~= old(self)@.profiles + old(self)@.traces);
                assert(final(self)@.traces =~= Seq::<Seq<char>>::empty());
                assert(final(self)@ =~= spec_process(old(self)@, blocking));
            }
        }
        Ok(())
    }

    /// The profiles processing has produced so far, in processing order.
    pub fn profiles(&self) -> (r: &Vec<String>)
        ensures
            r.deep_view() == self@.profiles,
    {
        &self.profiles
    }

    /// Name of the active trace provider.
    pub fn get_trace_provider_name(&self) -> (r: &String)
        ensures
            r@ == self@.provider,
    {
        &self.provider
    }
}

} // verus!
