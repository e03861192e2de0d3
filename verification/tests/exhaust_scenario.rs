use nix::sys::resource::{getrlimit, setrlimit, Resource};
use openmax::exhaust::ExhaustOutcome;

// This file holds the one test that lowers the process's descriptor limit,
// so that it never races another test in the same process.

#[test]
fn exhaustion_reports_exactly_the_remaining_capacity() {
    let (orig_soft, hard) = getrlimit(Resource::RLIMIT_NOFILE).unwrap();
    // Count every descriptor currently open; in a test process they all sit
    // far below this bound.
    let already_open = openmax::census::count_open_files(4096).count;

    let limit: usize = 64;
    assert!(already_open < limit, "test process has too many open files");
    setrlimit(Resource::RLIMIT_NOFILE, limit as u64, hard).unwrap();

    let report = openmax::exhaust::open_files(already_open, limit);

    // Release the retained handles and the cap before asserting, so a
    // failure does not leave the process starved of descriptors.
    for fd in &report.handles {
        let _ = nix::unistd::close(*fd);
    }
    setrlimit(Resource::RLIMIT_NOFILE, orig_soft, hard).unwrap();

    assert_eq!(report.opened, limit - already_open);
    assert_eq!(report.handles.len(), report.opened);
    match report.outcome {
        ExhaustOutcome::Exhausted { errno } => assert_eq!(errno, libc::EMFILE),
        other => panic!("expected exhaustion, got {:?}", other),
    }
    assert_eq!(
        openmax::text::exhaustion_summary(report.opened),
        format!("Opened {} additional files, then failed", limit - already_open)
    );
}
