use efi_size_check::messages::alloc_header_line;
use efi_size_check::messages::banner_line;
use efi_size_check::messages::ceiling_line;
use efi_size_check::messages::error_message;
use efi_size_check::messages::file_header_line;
use efi_size_check::messages::probe_file_name;
use efi_size_check::messages::read_attempt_line;
use efi_size_check::messages::read_success_line;
use efi_size_check::probe::run_alloc_probe;
use efi_size_check::probe::run_diagnostic;
use efi_size_check::probe::run_file_probe;
use efi_size_check::probe::AllocAttemptOutcome;
use efi_size_check::probe::FileAttemptOutcome;
use efi_size_check::probe::InitOutcome;
use efi_size_check::probe::ProbeError;
use efi_size_check::probe::ProbeResult;
use efi_size_check::INCREMENT;
use efi_size_check::MAX_SIZE;
use efi_size_check::START_SIZE;

fn all_file_success() -> Vec<FileAttemptOutcome> {
    vec![FileAttemptOutcome::Success; 20]
}

fn all_alloc_success() -> Vec<AllocAttemptOutcome> {
    vec![AllocAttemptOutcome::Success; 20]
}

#[test]
fn schedule_constants() {
    assert_eq!(START_SIZE, 104857600);
    assert_eq!(INCREMENT, 104857600);
    assert_eq!(MAX_SIZE, 2147483648);
}

#[test]
fn probe_file_is_named_abc() {
    assert_eq!(probe_file_name(), "ABC");
}

#[test]
fn file_probe_attempts_whole_schedule_on_success() {
    let r = run_file_probe(&all_file_success());
    assert_eq!(r.result, ProbeResult::Completed);
    assert_eq!(r.attempts.len(), 20);
    // Monotonic progression: 100 MiB, 200 MiB, ... up to the largest
    // value at most 2 GiB, and nothing beyond it.
    for (i, size) in r.attempts.iter().enumerate() {
        assert_eq!(*size, 104857600 * (i as u64 + 1));
        assert!(*size <= MAX_SIZE);
    }
    assert_eq!(r.attempts[0], 104857600);
    assert_eq!(r.attempts[19], 2097152000);
    // The next candidate would have exceeded the ceiling.
    assert!(r.attempts[19] + INCREMENT > MAX_SIZE);
}

#[test]
fn file_probe_logs_header_steps_and_ceiling() {
    let r = run_file_probe(&all_file_success());
    assert_eq!(r.log.len(), 42);
    assert_eq!(r.log[0], "start to do file read check...");
    assert_eq!(r.log[1], "Reading 100.00 MB bytes into buffer");
    assert_eq!(r.log[2], "Successfully read 100.00 MB into buffer");
    assert_eq!(r.log[39], "Reading 1.95 GB bytes into buffer");
    assert_eq!(r.log[40], "Successfully read 1.95 GB into buffer");
    // The terminal line shows the ceiling itself, not the first
    // candidate size beyond it.
    assert_eq!(r.log[41], "Max buffer size reached: 2.00 GB");
}

#[test]
fn file_probe_aborts_on_first_open_failure() {
    let mut outs = all_file_success();
    outs[0] = FileAttemptOutcome::OpenFailed { status: 14 };
    let r = run_file_probe(&outs);
    assert_eq!(r.attempts, vec![104857600]);
    assert_eq!(
        r.result,
        ProbeResult::Aborted(ProbeError::Open { size: 104857600, status: 14 })
    );
    // The open failed before the per-step attempt line was logged.
    assert_eq!(r.log.len(), 1);
}

#[test]
fn file_probe_aborts_on_read_failure_mid_run() {
    let mut outs = all_file_success();
    outs[3] = FileAttemptOutcome::ReadFailed { status: 7 };
    let r = run_file_probe(&outs);
    assert_eq!(r.attempts.len(), 4);
    assert_eq!(r.attempts[3], 419430400);
    assert_eq!(
        r.result,
        ProbeResult::Aborted(ProbeError::Read { size: 419430400, status: 7 })
    );
    assert_eq!(r.log.len(), 8);
    assert_eq!(r.log[7], "Reading 400.00 MB bytes into buffer");
}

#[test]
fn alloc_probe_attempts_whole_schedule_on_success() {
    let r = run_alloc_probe(&all_alloc_success());
    assert_eq!(r.result, ProbeResult::Completed);
    assert_eq!(r.attempts.len(), 20);
    for (i, size) in r.attempts.iter().enumerate() {
        assert_eq!(*size, 104857600 * (i as u64 + 1));
    }
    assert_eq!(r.log.len(), 42);
    assert_eq!(r.log[0], "start to do memory allocation check...");
    assert_eq!(r.log[1], "Successfully allocated 100.00 MB mem");
    assert_eq!(r.log[2], "Successfully freed 100.00 MB mem");
    assert_eq!(r.log[41], "Max buffer size reached: 2.00 GB");
}

#[test]
fn alloc_probe_aborts_on_allocation_failure() {
    let mut outs = all_alloc_success();
    outs[4] = AllocAttemptOutcome::AllocFailed { status: 9 };
    let r = run_alloc_probe(&outs);
    assert_eq!(r.attempts.len(), 5);
    assert_eq!(r.attempts[4], 524288000);
    assert_eq!(
        r.result,
        ProbeResult::Aborted(ProbeError::Alloc { size: 524288000, status: 9 })
    );
    // Nothing is logged for a step whose allocation was refused.
    assert_eq!(r.log.len(), 9);
}

#[test]
fn alloc_probe_aborts_on_release_failure() {
    // Releasing a region that was never used is itself failable and fatal.
    let mut outs = all_alloc_success();
    outs[2] = AllocAttemptOutcome::FreeFailed { status: 5 };
    let r = run_alloc_probe(&outs);
    assert_eq!(r.attempts.len(), 3);
    assert_eq!(
        r.result,
        ProbeResult::Aborted(ProbeError::Free { size: 314572800, status: 5 })
    );
    assert_eq!(r.log.len(), 6);
    assert_eq!(r.log[5], "Successfully allocated 300.00 MB mem");
}

#[test]
fn whole_run_completes_when_platform_allows_two_gib() {
    let r = run_diagnostic(InitOutcome::Success, &all_file_success(), &all_alloc_success());
    let file = r.file.expect("file probe ran");
    let alloc = r.alloc.expect("alloc probe ran");
    assert_eq!(file.result, ProbeResult::Completed);
    assert_eq!(alloc.result, ProbeResult::Completed);
    assert_eq!(file.attempts.len(), 20);
    assert_eq!(alloc.attempts.len(), 20);
    assert_eq!(r.result, ProbeResult::Completed);
}

#[test]
fn whole_run_aborts_before_alloc_when_probe_file_missing() {
    let mut fo = all_file_success();
    fo[0] = FileAttemptOutcome::OpenFailed { status: 14 };
    let r = run_diagnostic(InitOutcome::Success, &fo, &all_alloc_success());
    let file = r.file.expect("file probe ran");
    assert_eq!(file.attempts.len(), 1);
    // No allocation prober activity at all.
    assert!(r.alloc.is_none());
    assert_eq!(
        r.result,
        ProbeResult::Aborted(ProbeError::Open { size: 104857600, status: 14 })
    );
}

#[test]
fn whole_run_aborts_in_alloc_probe_at_five_hundred_mib() {
    let mut ao = all_alloc_success();
    ao[4] = AllocAttemptOutcome::AllocFailed { status: 9 };
    let r = run_diagnostic(InitOutcome::Success, &all_file_success(), &ao);
    let file = r.file.expect("file probe ran");
    let alloc = r.alloc.expect("alloc probe ran");
    // The file prober completed fully before the allocation prober
    // aborted on its fifth attempt.
    assert_eq!(file.result, ProbeResult::Completed);
    assert_eq!(file.attempts.len(), 20);
    assert_eq!(alloc.attempts.len(), 5);
    assert_eq!(
        r.result,
        ProbeResult::Aborted(ProbeError::Alloc { size: 524288000, status: 9 })
    );
}

#[test]
fn whole_run_aborts_when_init_fails() {
    let r = run_diagnostic(
        InitOutcome::Failed { status: 3 },
        &all_file_success(),
        &all_alloc_success(),
    );
    assert!(r.file.is_none());
    assert!(r.alloc.is_none());
    assert_eq!(r.result, ProbeResult::Aborted(ProbeError::Init { status: 3 }));
}

#[test]
fn log_lines_match_console_output() {
    assert_eq!(banner_line(), "Starting EFI size checker...");
    assert_eq!(file_header_line(), "start to do file read check...");
    assert_eq!(alloc_header_line(), "start to do memory allocation check...");
    assert_eq!(read_attempt_line(104857600), "Reading 100.00 MB bytes into buffer");
    assert_eq!(read_success_line(2097152000), "Successfully read 1.95 GB into buffer");
    assert_eq!(ceiling_line(), "Max buffer size reached: 2.00 GB");
}

#[test]
fn abort_diagnostics_name_operation_size_and_status() {
    assert_eq!(
        error_message(&ProbeError::Init { status: 3 }),
        "Failed to initialize platform services: status 3"
    );
    assert_eq!(
        error_message(&ProbeError::Open { size: 104857600, status: 14 }),
        "Failed to open file ABC at 100.00 MB: status 14"
    );
    assert_eq!(
        error_message(&ProbeError::Read { size: 419430400, status: 7 }),
        "Failed to read 400.00 MB into buffer: status 7"
    );
    assert_eq!(
        error_message(&ProbeError::Alloc { size: 524288000, status: 9 }),
        "Failed to allocate 500.00 MB mem: status 9"
    );
    assert_eq!(
        error_message(&ProbeError::Free { size: 314572800, status: 5 }),
        "Failed to free 300.00 MB mem: status 5"
    );
}

#[test]
fn failure_at_each_step_stops_the_file_probe_there() {
    for k in 0..20 {
        let mut outs = all_file_success();
        outs[k] = FileAttemptOutcome::ReadFailed { status: 1 };
        let r = run_file_probe(&outs);
        assert_eq!(r.attempts.len(), k + 1);
        let size = 104857600 * (k as u64 + 1);
        assert_eq!(r.result, ProbeResult::Aborted(ProbeError::Read { size, status: 1 }));
    }
}
