//! The two probe loops and the fail-fast decision logic.
//!
//! Each prober walks the schedule of `schedule.rs` and attempts one
//! platform operation per step.  What the platform did at each step is a
//! plain value here (an attempt outcome); the driver turns a sequence of
//! outcomes into the exact run the diagnostic performs: the sizes
//! attempted in order, the log lines produced, and either normal
//! completion at the ceiling or an immediate abort carrying the first
//! error.  The surrounding program performs the real firmware calls one
//! step at a time and follows the same schedule and messages.

use vstd::prelude::*;

use crate::messages::alloc_header_line;
use crate::messages::alloc_success_line;
use crate::messages::ceiling_line;
use crate::messages::file_header_line;
use crate::messages::free_success_line;
use crate::messages::read_attempt_line;
use crate::messages::read_success_line;
use crate::messages::spec_alloc_header_line;
use crate::messages::spec_alloc_success_line;
use crate::messages::spec_ceiling_line;
use crate::messages::spec_file_header_line;
use crate::messages::spec_free_success_line;
use crate::messages::spec_read_attempt_line;
use crate::messages::spec_read_success_line;
use crate::schedule::attempt_count;
use crate::schedule::attempt_size;
use crate::schedule::lemma_attempt_sizes_monotonic;
use crate::schedule::lemma_ceiling_inclusive;
use crate::schedule::ProbeSchedule;

verus! {

/// What the platform did when the file-read prober attempted one step:
/// the open failed, the open succeeded but the read failed, or both
/// succeeded.  A failure carries the platform status code.
#[derive(Clone, Copy, PartialEq, Eq, Structural, Debug)]
pub enum FileAttemptOutcome {
    OpenFailed { status: u64 },
    ReadFailed { status: u64 },
    Success,
}

/// What the platform did when the allocation prober attempted one step:
/// the allocation failed, the allocation succeeded but the release
/// failed, or both succeeded.
#[derive(Clone, Copy, PartialEq, Eq, Structural, Debug)]
pub enum AllocAttemptOutcome {
    AllocFailed { status: u64 },
    FreeFailed { status: u64 },
    Success,
}

/// Whether platform services came up at startup.
#[derive(Clone, Copy, PartialEq, Eq, Structural, Debug)]
pub enum InitOutcome {
    Success,
    Failed { status: u64 },
}

/// The fatal conditions of the diagnostic, each carrying the attempted
/// size (where one exists) and the platform status code.  Every one of
/// them aborts the whole program; none is retried or recovered from.
#[derive(Clone, Copy, PartialEq, Eq, Structural, Debug)]
pub enum ProbeError {
    Init { status: u64 },
    Open { size: u64, status: u64 },
    Read { size: u64, status: u64 },
    Alloc { size: u64, status: u64 },
    Free { size: u64, status: u64 },
}

/// How a probe run ended: the ceiling was reached, or the first failure
/// aborted it.
#[derive(Clone, Copy, PartialEq, Eq, Structural, Debug)]
pub enum ProbeResult {
    Completed,
    Aborted(ProbeError),
}

/// One prober's run: the sizes attempted in order, the log lines
/// produced, and how the run ended.
pub struct ProbeReport {
    pub attempts: Vec<u64>,
    pub log: Vec<String>,
    pub result: ProbeResult,
}

/// The error the file-read prober aborts with when the step at `size`
/// ends in the given failing outcome.
pub open spec fn file_error_of(o: FileAttemptOutcome, size: u64) -> ProbeError
    recommends
        !(o is Success),
{
    match o {
        FileAttemptOutcome::OpenFailed { status } => ProbeError::Open { size, status },
        FileAttemptOutcome::ReadFailed { status } => ProbeError::Read { size, status },
        FileAttemptOutcome::Success => ProbeError::Open { size, status: 0 },
    }
}

/// The error the allocation prober aborts with when the step at `size`
/// ends in the given failing outcome.
pub open spec fn alloc_error_of(o: AllocAttemptOutcome, size: u64) -> ProbeError
    recommends
        !(o is Success),
{
    match o {
        AllocAttemptOutcome::AllocFailed { status } => ProbeError::Alloc { size, status },
        AllocAttemptOutcome::FreeFailed { status } => ProbeError::Free { size, status },
        AllocAttemptOutcome::Success => ProbeError::Alloc { size, status: 0 },
    }
}

/// The two log lines of a successful file-prober step `i`.
pub open spec fn file_iter_logged(log: Seq<String>, i: int) -> bool {
    &&& log[1 + 2 * i]@ == spec_read_attempt_line(attempt_size(i) as u64)
    &&& log[2 + 2 * i]@ == spec_read_success_line(attempt_size(i) as u64)
}

/// The two log lines of a successful allocation-prober step `i`.
pub open spec fn alloc_iter_logged(log: Seq<String>, i: int) -> bool {
    &&& log[1 + 2 * i]@ == spec_alloc_success_line(attempt_size(i) as u64)
    &&& log[2 + 2 * i]@ == spec_free_success_line(attempt_size(i) as u64)
}

/// Everything a file-read probe run promises, given what the platform did
/// at each step: the attempted sizes are exactly a prefix of the
/// schedule; the run completes exactly when every scheduled step
/// succeeds; otherwise it aborts on the first failing step with the
/// matching error and no later step is attempted; and the log holds the
/// header, the two lines of each successful step, the attempt line of a
/// step that failed at the read (the open comes before that line), and
/// the ceiling line exactly on completion.
pub open spec fn file_probe_post(outs: Seq<FileAttemptOutcome>, r: ProbeReport) -> bool {
    let n = r.attempts@.len() as int;
    let succ = if r.result is Completed {
        n
    } else {
        n - 1
    };
    &&& n <= attempt_count()
    &&& (forall|i: int| 0 <= i < n ==> (#[trigger] r.attempts@[i]) == attempt_size(i))
    &&& ((r.result is Completed) <==> (forall|k: int|
        0 <= k < attempt_count() ==> outs[k] is Success))
    &&& (r.result is Completed ==> n == attempt_count())
    &&& (forall|j: int| 0 <= j < succ ==> outs[j] is Success)
    &&& (r.result matches ProbeResult::Aborted(e) ==> {
        &&& n >= 1
        &&& !(outs[n - 1] is Success)
        &&& e == file_error_of(outs[n - 1], attempt_size(n - 1) as u64)
    })
    &&& r.log@.len() >= 1
    &&& r.log@[0]@ == spec_file_header_line()
    &&& (forall|i: int| 0 <= i < succ ==> #[trigger] file_iter_logged(r.log@, i))
    &&& (r.result is Completed ==> r.log@.len() == 2 + 2 * succ && r.log@[r.log@.len() - 1]@
        == spec_ceiling_line())
    &&& (r.result is Aborted ==> {
        &&& ((outs[n - 1] is OpenFailed) ==> r.log@.len() == 1 + 2 * succ)
        &&& ((outs[n - 1] is ReadFailed) ==> r.log@.len() == 2 + 2 * succ && r.log@[r.log@.len()
            - 1]@ == spec_read_attempt_line(attempt_size(succ) as u64))
    })
}

/// Everything an allocation probe run promises; the shape mirrors the
/// file prober's, with the allocation-success line taking the place of
/// the attempt line (nothing is logged before a region is requested, one
/// line once it is allocated, one more once it is released).
pub open spec fn alloc_probe_post(outs: Seq<AllocAttemptOutcome>, r: ProbeReport) -> bool {
    let n = r.attempts@.len() as int;
    let succ = if r.result is Completed {
        n
    } else {
        n - 1
    };
    &&& n <= attempt_count()
    &&& (forall|i: int| 0 <= i < n ==> (#[trigger] r.attempts@[i]) == attempt_size(i))
    &&& ((r.result is Completed) <==> (forall|k: int|
        0 <= k < attempt_count() ==> outs[k] is Success))
    &&& (r.result is Completed ==> n == attempt_count())
    &&& (forall|j: int| 0 <= j < succ ==> outs[j] is Success)
    &&& (r.result matches ProbeResult::Aborted(e) ==> {
        &&& n >= 1
        &&& !(outs[n - 1] is Success)
        &&& e == alloc_error_of(outs[n - 1], attempt_size(n - 1) as u64)
    })
    &&& r.log@.len() >= 1
    &&& r.log@[0]@ == spec_alloc_header_line()
    &&& (forall|i: int| 0 <= i < succ ==> #[trigger] alloc_iter_logged(r.log@, i))
    &&& (r.result is Completed ==> r.log@.len() == 2 + 2 * succ && r.log@[r.log@.len() - 1]@
        == spec_ceiling_line())
    &&& (r.result is Aborted ==> {
        &&& ((outs[n - 1] is AllocFailed) ==> r.log@.len() == 1 + 2 * succ)
        &&& ((outs[n - 1] is FreeFailed) ==> r.log@.len() == 2 + 2 * succ && r.log@[r.log@.len()
            - 1]@ == spec_alloc_success_line(attempt_size(succ) as u64))
    })
}

/// Runs the file-read probe over the given per-step platform outcomes.
///
/// Each step opens the probe file, sizes a scratch buffer to the current
/// candidate and issues one unchunked read; any failure is fatal and ends
/// the run at once, and reaching the ceiling ends it as a success.
pub fn run_file_probe(outcomes: &Vec<FileAttemptOutcome>) -> (r: ProbeReport)
    requires
        outcomes@.len() >= attempt_count(),
    ensures
        file_probe_post(outcomes@, r),
{
    let mut attempts: Vec<u64> = Vec::new();
    let mut log: Vec<String> = Vec::new();
    log.push(file_header_line());
    let mut sched = ProbeSchedule::new();
    let mut k: usize = 0;
    loop
        invariant
            outcomes@.len() >= attempt_count(),
            0 <= k as int <= attempt_count(),
            sched.size() == attempt_size(k as int),
            attempts@.len() == k as int,
            forall|i: int| 0 <= i < k as int ==> attempts@[i] == attempt_size(i),
            forall|j: int| 0 <= j < k as int ==> outcomes@[j] is Success,
            log@.len() == 1 + 2 * (k as int),
            log@[0]@ == spec_file_header_line(),
            forall|i: int| 0 <= i < k as int ==> #[trigger] file_iter_logged(log@, i),
        decreases attempt_count() - k as int,
    {
        if sched.ceiling_reached() {
            proof {
                if (k as int) < attempt_count() {
                    lemma_ceiling_inclusive(k as int);
                }
            }
            let ghost log_pre = log@;
            log.push(ceiling_line());
            proof {
                assert forall|i: int| 0 <= i < k as int implies #[trigger] file_iter_logged(
                    log@,
                    i,
                ) by {
                    assert(file_iter_logged(log_pre, i));
                    assert(log@[1 + 2 * i] == log_pre[1 + 2 * i]);
                    assert(log@[2 + 2 * i] == log_pre[2 + 2 * i]);
                }
            }
            return ProbeReport { attempts, log, result: ProbeResult::Completed };
        }
        proof {
            if (k as int) >= attempt_count() {
                lemma_ceiling_inclusive(attempt_count() - 1);
                lemma_attempt_sizes_monotonic(attempt_count() - 1, k as int);
            }
        }
        let size = sched.current_size();
        attempts.push(size);
        let outcome = outcomes[k];
        match outcome {
            FileAttemptOutcome::OpenFailed { status } => {
                return ProbeReport {
                    attempts,
                    log,
                    result: ProbeResult::Aborted(ProbeError::Open { size, status }),
                };
            },
            FileAttemptOutcome::ReadFailed { status } => {
                let ghost log_pre = log@;
                log.push(read_attempt_line(size));
                proof {
                    assert forall|i: int| 0 <= i < k as int implies #[trigger] file_iter_logged(
                        log@,
                        i,
                    ) by {
                        assert(file_iter_logged(log_pre, i));
                        assert(log@[1 + 2 * i] == log_pre[1 + 2 * i]);
                        assert(log@[2 + 2 * i] == log_pre[2 + 2 * i]);
                    }
                }
                return ProbeReport {
                    attempts,
                    log,
                    result: ProbeResult::Aborted(ProbeError::Read { size, status }),
                };
            },
            FileAttemptOutcome::Success => {
                let ghost log_pre = log@;
                log.push(read_attempt_line(size));
                log.push(read_success_line(size));
                proof {
                    assert forall|i: int| 0 <= i < 1 + k as int implies #[trigger] file_iter_logged(
                        log@,
                        i,
                    ) by {
                        if i < k as int {
                            assert(file_iter_logged(log_pre, i));
                            assert(log@[1 + 2 * i] == log_pre[1 + 2 * i]);
                            assert(log@[2 + 2 * i] == log_pre[2 + 2 * i]);
                        } else {
                            assert(log@[1 + 2 * i]@ == spec_read_attempt_line(size));
                            assert(log@[2 + 2 * i]@ == spec_read_success_line(size));
                        }
                    }
                }
                sched.advance();
                k = k + 1;
            },
        }
    }
}

/// Runs the allocation probe over the given per-step platform outcomes.
///
/// Each step requests a physically backed region of the current candidate
/// size and, if that succeeded, releases exactly the region just
/// allocated; either failure is fatal, and a failed release is fatal even
/// though the region was never used.
pub fn run_alloc_probe(outcomes: &Vec<AllocAttemptOutcome>) -> (r: ProbeReport)
    requires
        outcomes@.len() >= attempt_count(),
    ensures
        alloc_probe_post(outcomes@, r),
{
    let mut attempts: Vec<u64> = Vec::new();
    let mut log: Vec<String> = Vec::new();
    log.push(alloc_header_line());
    let mut sched = ProbeSchedule::new();
    let mut k: usize = 0;
    loop
        invariant
            outcomes@.len() >= attempt_count(),
            0 <= k as int <= attempt_count(),
            sched.size() == attempt_size(k as int),
            attempts@.len() == k as int,
            forall|i: int| 0 <= i < k as int ==> attempts@[i] == attempt_size(i),
            forall|j: int| 0 <= j < k as int ==> outcomes@[j] is Success,
            log@.len() == 1 + 2 * (k as int),
            log@[0]@ == spec_alloc_header_line(),
            forall|i: int| 0 <= i < k as int ==> #[trigger] alloc_iter_logged(log@, i),
        decreases attempt_count() - k as int,
    {
        if sched.ceiling_reached() {
            proof {
                if (k as int) < attempt_count() {
                    lemma_ceiling_inclusive(k as int);
                }
            }
            let ghost log_pre = log@;
            log.push(ceiling_line());
            proof {
                assert forall|i: int| 0 <= i < k as int implies #[trigger] alloc_iter_logged(
                    log@,
                    i,
                ) by {
                    assert(alloc_iter_logged(log_pre, i));
                    assert(log@[1 + 2 * i] == log_pre[1 + 2 * i]);
                    assert(log@[2 + 2 * i] == log_pre[2 + 2 * i]);
                }
            }
            return ProbeReport { attempts, log, result: ProbeResult::Completed };
        }
        proof {
            if (k as int) >= attempt_count() {
                lemma_ceiling_inclusive(attempt_count() - 1);
                lemma_attempt_sizes_monotonic(attempt_count() - 1, k as int);
            }
        }
        let size = sched.current_size();
        attempts.push(size);
        let outcome = outcomes[k];
        match outcome {
            AllocAttemptOutcome::AllocFailed { status } => {
                return ProbeReport {
                    attempts,
                    log,
                    result: ProbeResult::Aborted(ProbeError::Alloc { size, status }),
                };
            },
            AllocAttemptOutcome::FreeFailed { status } => {
                let ghost log_pre = log@;
                log.push(alloc_success_line(size));
                proof {
                    assert forall|i: int| 0 <= i < k as int implies #[trigger] alloc_iter_logged(
                        log@,
                        i,
                    ) by {
                        assert(alloc_iter_logged(log_pre, i));
                        assert(log@[1 + 2 * i] == log_pre[1 + 2 * i]);
                        assert(log@[2 + 2 * i] == log_pre[2 + 2 * i]);
                    }
                }
                return ProbeReport {
                    attempts,
                    log,
                    result: ProbeResult::Aborted(ProbeError::Free { size, status }),
                };
            },
            AllocAttemptOutcome::Success => {
                let ghost log_pre = log@;
                log.push(alloc_success_line(size));
                log.push(free_success_line(size));
                proof {
                    assert forall|i: int|
                        0 <= i < 1 + k as int implies #[trigger] alloc_iter_logged(log@, i) by {
                        if i < k as int {
                            assert(alloc_iter_logged(log_pre, i));
                            assert(log@[1 + 2 * i] == log_pre[1 + 2 * i]);
                            assert(log@[2 + 2 * i] == log_pre[2 + 2 * i]);
                        } else {
                            assert(log@[1 + 2 * i]@ == spec_alloc_success_line(size));
                            assert(log@[2 + 2 * i]@ == spec_free_success_line(size));
                        }
                    }
                }
                sched.advance();
                k = k + 1;
            },
        }
    }
}

/// The whole diagnostic's run: which probes ran and how the program
/// ended.  A `None` probe never started.
pub struct DiagnosticReport {
    pub file: Option<ProbeReport>,
    pub alloc: Option<ProbeReport>,
    pub result: ProbeResult,
}

/// Runs the whole diagnostic: platform initialization, then the file-read
/// probe, then the allocation probe, each started only if everything
/// before it succeeded; the first fatal condition ends the program at
/// once with that error, and the run completes only when both probes
/// reach the ceiling.
pub fn run_diagnostic(
    init: InitOutcome,
    file_outcomes: &Vec<FileAttemptOutcome>,
    alloc_outcomes: &Vec<AllocAttemptOutcome>,
) -> (r: DiagnosticReport)
    requires
        file_outcomes@.len() >= attempt_count(),
        alloc_outcomes@.len() >= attempt_count(),
    ensures
        (init matches InitOutcome::Failed { status } ==> r.file is None && r.alloc is None
            && r.result == ProbeResult::Aborted(ProbeError::Init { status })),
        (init is Success ==> {
            &&& r.file matches Some(f)
            &&& file_probe_post(file_outcomes@, f)
            &&& (f.result is Completed ==> {
                &&& r.alloc matches Some(a)
                &&& alloc_probe_post(alloc_outcomes@, a)
                &&& r.result == a.result
            })
            &&& (f.result matches ProbeResult::Aborted(e) ==> {
                &&& r.alloc is None
                &&& r.result == ProbeResult::Aborted(e)
            })
        }),
{
    match init {
        InitOutcome::Failed { status } => DiagnosticReport {
            file: None,
            alloc: None,
            result: ProbeResult::Aborted(ProbeError::Init { status }),
        },
        InitOutcome::Success => {
            let file = run_file_probe(file_outcomes);
            match file.result {
                ProbeResult::Aborted(e) => DiagnosticReport {
                    file: Some(file),
                    alloc: None,
                    result: ProbeResult::Aborted(e),
                },
                ProbeResult::Completed => {
                    let alloc = run_alloc_probe(alloc_outcomes);
                    let result = alloc.result;
                    DiagnosticReport { file: Some(file), alloc: Some(alloc), result }
                },
            }
        },
    }
}

/// Progression law for a completed file-probe run: the attempted sizes
/// are exactly the whole schedule, in order, each one increment above the
/// last, every one at most the ceiling, and the next size after the last
/// attempted one would have been the first to exceed the ceiling.
pub proof fn lemma_completed_file_run_schedule(outs: Seq<FileAttemptOutcome>, r: ProbeReport)
    requires
        file_probe_post(outs, r),
        r.result is Completed,
    ensures
        r.attempts@.len() == attempt_count(),
        forall|i: int| 0 <= i < attempt_count() ==> (#[trigger] r.attempts@[i]) == attempt_size(i),
        forall|i: int|
            0 <= i < attempt_count() ==> #[trigger] attempt_size(i) <= crate::MAX_SIZE
                && attempt_size(i + 1) == attempt_size(i) + crate::INCREMENT,
        attempt_size(attempt_count()) > crate::MAX_SIZE,
{
    assert forall|i: int|
        0 <= i < attempt_count() implies #[trigger] attempt_size(i) <= crate::MAX_SIZE
        && attempt_size(i + 1) == attempt_size(i) + crate::INCREMENT by {
        lemma_ceiling_inclusive(i);
        lemma_attempt_sizes_monotonic(i, i + 1);
    }
    lemma_ceiling_inclusive(0);
}

/// Progression law for a completed allocation-probe run, mirroring the
/// file prober's.
pub proof fn lemma_completed_alloc_run_schedule(outs: Seq<AllocAttemptOutcome>, r: ProbeReport)
    requires
        alloc_probe_post(outs, r),
        r.result is Completed,
    ensures
        r.attempts@.len() == attempt_count(),
        forall|i: int| 0 <= i < attempt_count() ==> (#[trigger] r.attempts@[i]) == attempt_size(i),
        forall|i: int|
            0 <= i < attempt_count() ==> #[trigger] attempt_size(i) <= crate::MAX_SIZE
                && attempt_size(i + 1) == attempt_size(i) + crate::INCREMENT,
        attempt_size(attempt_count()) > crate::MAX_SIZE,
{
    assert forall|i: int|
        0 <= i < attempt_count() implies #[trigger] attempt_size(i) <= crate::MAX_SIZE
        && attempt_size(i + 1) == attempt_size(i) + crate::INCREMENT by {
        lemma_ceiling_inclusive(i);
        lemma_attempt_sizes_monotonic(i, i + 1);
    }
    lemma_ceiling_inclusive(0);
}

/// Fail-fast law for the file-read prober: if every step before `k`
/// succeeds and step `k` fails, a run meeting the prober's contract stops
/// at step `k` exactly: `k + 1` sizes were attempted, none further, and
/// the run aborted with the error of step `k`.
pub proof fn lemma_fail_fast_file(outs: Seq<FileAttemptOutcome>, r: ProbeReport, k: int)
    requires
        file_probe_post(outs, r),
        0 <= k < attempt_count(),
        !(outs[k] is Success),
        forall|j: int| 0 <= j < k ==> outs[j] is Success,
    ensures
        r.attempts@.len() == k + 1,
        r.result == ProbeResult::Aborted(file_error_of(outs[k], attempt_size(k) as u64)),
{
    assert(!(r.result is Completed));
    let n = r.attempts@.len() as int;
    assert(!(outs[n - 1] is Success));
    assert(n - 1 == k) by {
        if n - 1 < k {
            assert(outs[n - 1] is Success);
        }
        if n - 1 > k {
            assert(outs[k] is Success);
        }
    }
}

/// Fail-fast law for the allocation prober, mirroring the file prober's.
pub proof fn lemma_fail_fast_alloc(outs: Seq<AllocAttemptOutcome>, r: ProbeReport, k: int)
    requires
        alloc_probe_post(outs, r),
        0 <= k < attempt_count(),
        !(outs[k] is Success),
        forall|j: int| 0 <= j < k ==> outs[j] is Success,
    ensures
        r.attempts@.len() == k + 1,
        r.result == ProbeResult::Aborted(alloc_error_of(outs[k], attempt_size(k) as u64)),
{
    assert(!(r.result is Completed));
    let n = r.attempts@.len() as int;
    assert(!(outs[n - 1] is Success));
    assert(n - 1 == k) by {
        if n - 1 < k {
            assert(outs[n - 1] is Success);
        }
        if n - 1 > k {
            assert(outs[k] is Success);
        }
    }
}

} // verus!
