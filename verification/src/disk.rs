//! On-disk artifact state and startup reconciliation.
//!
//! The artifact directories are valid only relative to the persisted
//! configuration. Reconciliation compares the freshly loaded configuration to
//! the persisted one; on any difference — a missing or corrupt persisted text
//! counts as one — it purges and recreates the profile and trace directories,
//! drops the legacy report file, and persists the new configuration. The
//! filesystem itself is outside this core: `DiskState` carries its observable
//! content as plain values, and the shell that performs the real filesystem
//! operations mirrors exactly what `reconcile` returns, aborting startup if
//! any operation fails.

use vstd::prelude::*;

use crate::config::{spec_from_text, spec_to_text, Config};

verus! {

/// The artifact state on stable storage, as plain values: each output
/// directory's entries (`None` when the directory is missing), whether the
/// report file at the legacy location exists, and the persisted configuration
/// text (`None` when the file is missing).
#[derive(Clone, PartialEq, Eq, Debug)]
pub struct DiskState {
    pub profile_dir: Option<Vec<String>>,
    pub trace_dir: Option<Vec<String>>,
    pub old_report_exists: bool,
    pub config_text: Option<Vec<u8>>,
}

/// `DiskState` as mathematics.
#[verifier::ext_equal]
pub struct DiskModel {
    pub profile_dir: Option<Seq<String>>,
    pub trace_dir: Option<Seq<String>>,
    pub old_report_exists: bool,
    pub config_text: Option<Seq<u8>>,
}

/// The view of one optional directory listing.
pub open spec fn spec_dir_view(dir: Option<Vec<String>>) -> Option<Seq<String>> {
    match dir {
        Some(entries) => Some(entries@),
        None => None,
    }
}

/// The view of the optional persisted text.
pub open spec fn spec_text_view(text: Option<Vec<u8>>) -> Option<Seq<u8>> {
    match text {
        Some(bytes) => Some(bytes@),
        None => None,
    }
}

impl View for DiskState {
    type V = DiskModel;

    open spec fn view(&self) -> DiskModel {
        DiskModel {
            profile_dir: spec_dir_view(self.profile_dir),
            trace_dir: spec_dir_view(self.trace_dir),
            old_report_exists: self.old_report_exists,
            config_text: spec_text_view(self.config_text),
        }
    }
}

/// Has the configuration changed relative to the persisted text? A missing
/// text, a text that does not parse, and a text that parses to a different
/// configuration all mean: changed.
pub open spec fn spec_config_changed(text: Option<Seq<u8>>, c: Config) -> bool {
    match text {
        None => true,
        Some(t) => spec_from_text(t) != Some(c),
    }
}

/// What reconciliation leaves on disk: on a configuration change both output
/// directories exist and are empty, the legacy report file is gone, and the
/// new configuration's canonical text is persisted; otherwise the disk is
/// left untouched.
pub open spec fn spec_reconcile(d: DiskModel, c: Config) -> DiskModel {
    if spec_config_changed(d.config_text, c) {
        DiskModel {
            profile_dir: Some(Seq::empty()),
            trace_dir: Some(Seq::empty()),
            old_report_exists: false,
            config_text: Some(spec_to_text(c)),
        }
    } else {
        d
    }
}

/// Decides whether the freshly loaded configuration differs from the
/// persisted text.
pub fn config_changed(persisted: &Option<Vec<u8>>, config: &Config) -> (r: bool)
    ensures
        r == spec_config_changed(spec_text_view(*persisted), *config),
{
    match persisted {
        None => true,
        Some(text) => match Config::from_text(text.as_slice()) {
            None => true,
            Some(parsed) => !(parsed == *config),
        },
    }
}

/// Startup reconciliation over the artifact state: purges and recreates both
/// output directories, drops the legacy report file, and persists the new
/// configuration — exactly when the configuration changed; otherwise returns
/// the state unchanged.
pub fn reconcile(disk: DiskState, config: &Config) -> (r: DiskState)
    ensures
        r@ == spec_reconcile(disk@, *config),
{
    if config_changed(&disk.config_text, config) {
        let fresh_profile_dir: Vec<String> = Vec::new();
        let fresh_trace_dir: Vec<String> = Vec::new();
        let r = DiskState {
            profile_dir: Some(fresh_profile_dir),
            trace_dir: Some(fresh_trace_dir),
            old_report_exists: false,
            config_text: Some(config.to_text()),
        };
        proof {
            assert(fresh_profile_dir@ =~= Seq::<String>::empty());
            assert(fresh_trace_dir@ =~= Seq::<String>::empty());
            assert(r@ =~= spec_reconcile(disk@, *config));
        }
        r
    } else {
        disk
    }
}

/// A configuration change reconciles exactly once: with `a` persisted and a
/// different `b` loaded, reconciliation purges and recreates both output
/// directories and persists `b`; a second start with `b` loaded finds nothing
/// changed and leaves the disk untouched.
pub proof fn lemma_config_change_reconciles_once(d: DiskModel, a: Config, b: Config)
    requires
        d.config_text == Some(spec_to_text(a)),
        a != b,
    ensures
        spec_config_changed(d.config_text, b),
        spec_reconcile(d, b).profile_dir == Some(Seq::<String>::empty()),
        spec_reconcile(d, b).trace_dir == Some(Seq::<String>::empty()),
        !spec_reconcile(d, b).old_report_exists,
        spec_reconcile(d, b).config_text == Some(spec_to_text(b)),
        !spec_config_changed(spec_reconcile(d, b).config_text, b),
        spec_reconcile(spec_reconcile(d, b), b) == spec_reconcile(d, b),
{
    crate::config::lemma_text_round_trip(a);
    crate::config::lemma_text_round_trip(b);
}

/// Reconciliation is idempotent: a second run under the same configuration
/// leaves the disk — directory contents included — exactly as the first run
/// left it.
pub proof fn lemma_reconcile_idempotent(d: DiskModel, c: Config)
    ensures
        spec_reconcile(spec_reconcile(d, c), c) == spec_reconcile(d, c),
{
    crate::config::lemma_text_round_trip(c);
}

/// A persisted text that does not parse is treated exactly like a missing
/// one: both mean "no prior configuration", and reconciliation from either
/// starting state leaves the same disk.
pub proof fn lemma_corrupt_equals_missing(d: DiskModel, t: Seq<u8>, c: Config)
    requires
        d.config_text == Some(t),
        spec_from_text(t) is None,
    ensures
        spec_config_changed(d.config_text, c),
        spec_config_changed(None, c),
        spec_reconcile(d, c) == spec_reconcile(DiskModel { config_text: None, ..d }, c),
{
}

} // verus!
