use profcollectd::error::err_to_binder_status;
use profcollectd::{BinderStatus, Config, DiskState, ProfcollectdBinderService, SvcError};

fn cfg(version: u64, interval: u64, period: u64) -> Config {
    Config { version, collection_interval_secs: interval, sampling_period_ms: period }
}

fn empty_disk() -> DiskState {
    DiskState { profile_dir: None, trace_dir: None, old_report_exists: false, config_text: None }
}

fn fresh_service() -> ProfcollectdBinderService {
    let (service, _) = ProfcollectdBinderService::new(
        cfg(1, 3600, 500),
        "simpleperf_etm".to_string(),
        empty_disk(),
    );
    service
}

fn expect_err(r: Result<(), BinderStatus>, message: &str) {
    match r {
        Ok(()) => panic!("operation unexpectedly succeeded"),
        Err(status) => {
            assert_eq!(status.code, 1);
            assert_eq!(status.message, message);
        }
    }
}

#[test]
fn construction_reconciles_a_fresh_install() {
    let c = cfg(1, 3600, 500);
    let (_, disk) = ProfcollectdBinderService::new(c, "simpleperf_etm".to_string(), empty_disk());
    assert_eq!(disk.profile_dir, Some(vec![]));
    assert_eq!(disk.trace_dir, Some(vec![]));
    assert!(!disk.old_report_exists);
    assert_eq!(disk.config_text, Some(c.to_text()));
}

#[test]
fn construction_with_unchanged_config_keeps_the_disk() {
    let c = cfg(1, 3600, 500);
    let disk = DiskState {
        profile_dir: Some(vec!["profile-0".to_string()]),
        trace_dir: Some(vec!["trace-0".to_string()]),
        old_report_exists: false,
        config_text: Some(c.to_text()),
    };
    let (_, after) = ProfcollectdBinderService::new(c, "simpleperf_etm".to_string(), disk.clone());
    assert_eq!(after, disk);
}

#[test]
fn get_supported_provider_reports_the_scheduler_name() {
    let service = fresh_service();
    let provider = service.get_supported_provider().unwrap();
    assert_eq!(provider, "simpleperf_etm");
    // Mutating calls leave the reported provider untouched.
    service.schedule().unwrap();
    service.trace_once("run-1".to_string()).unwrap();
    assert_eq!(service.get_supported_provider().unwrap(), "simpleperf_etm");
}

#[test]
fn schedule_twice_reports_the_scheduling_error() {
    let service = fresh_service();
    assert!(service.schedule().is_ok());
    expect_err(
        service.schedule(),
        "Failed to schedule collection.: periodic collection is already scheduled",
    );
}

#[test]
fn terminate_without_schedule_reports_the_termination_error() {
    let service = fresh_service();
    expect_err(
        service.terminate(),
        "Failed to terminate collection.: no periodic collection is scheduled",
    );
    assert!(service.schedule().is_ok());
    assert!(service.terminate().is_ok());
}

#[test]
fn trace_once_with_pending_tag_reports_the_trace_error() {
    let service = fresh_service();
    assert!(service.trace_once("benchmark-run-1".to_string()).is_ok());
    expect_err(
        service.trace_once("benchmark-run-1".to_string()),
        "Failed to initiate an one-off trace.: a trace with this tag is already pending",
    );
}

#[test]
fn process_always_succeeds() {
    let service = fresh_service();
    assert!(service.process(false).is_ok());
    assert!(service.process(true).is_ok());
}

#[test]
fn report_without_profiles_reports_the_packing_error() {
    let service = fresh_service();
    expect_err(
        service.report(),
        "Failed to create profile report.: no profiles are available to pack",
    );
}

#[test]
fn report_after_a_trace_processes_then_packs() {
    let service = fresh_service();
    assert!(service.trace_once("run-1".to_string()).is_ok());
    assert!(service.report().is_ok());
    // The profiles stay available, so a second report also succeeds.
    assert!(service.report().is_ok());
}

#[test]
fn trace_once_runs_normally_after_a_blocking_process() {
    let service = fresh_service();
    assert!(service.trace_once("benchmark-run-1".to_string()).is_ok());
    assert!(service.process(true).is_ok());
    assert!(service.trace_once("benchmark-run-1".to_string()).is_ok());
}

#[test]
fn err_to_binder_status_formats_code_and_message() {
    let status = err_to_binder_status("Failed to process profiles.", SvcError::NoProfiles);
    assert_eq!(status.code, 1);
    assert_eq!(status.message, "Failed to process profiles.: no profiles are available to pack");
}
