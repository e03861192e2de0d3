use nix::sys::resource::{getrlimit, setrlimit, Resource};
use openmax::exhaust::ExhaustOutcome;
use openmax::run::RunReport;

// This file holds the one test that lowers the process's descriptor limit,
// so that it never races another test in the same process.

#[test]
fn full_probe_under_a_capped_limit() {
    let (orig_soft, hard) = getrlimit(Resource::RLIMIT_NOFILE).unwrap();
    let limit: usize = 128;
    setrlimit(Resource::RLIMIT_NOFILE, limit as u64, hard).unwrap();

    let report = openmax::run::run_probe();

    let (sysconf_max, rlimit_max, census, exhaust) = match report {
        RunReport::Completed { sysconf_max, rlimit_max, census, exhaust } => {
            (sysconf_max, rlimit_max, census, exhaust)
        },
        RunReport::SysconfFailed(e) => {
            setrlimit(Resource::RLIMIT_NOFILE, orig_soft, hard).unwrap();
            panic!("sysconf query failed: {}", e.message());
        },
        RunReport::RlimitFailed { error, .. } => {
            setrlimit(Resource::RLIMIT_NOFILE, orig_soft, hard).unwrap();
            panic!("rlimit query failed: {}", error.message());
        },
    };

    // Release the retained handles and the cap before asserting.
    for fd in &exhaust.handles {
        let _ = nix::unistd::close(*fd);
    }
    setrlimit(Resource::RLIMIT_NOFILE, orig_soft, hard).unwrap();

    // On this platform the configuration query reports the enforced limit.
    assert_eq!(sysconf_max, limit);
    assert_eq!(rlimit_max, limit);
    assert_eq!(census.count, census.records.len());
    assert!(census.count <= limit);
    assert_eq!(exhaust.opened, limit - census.count);
    assert_eq!(exhaust.handles.len(), exhaust.opened);
    match exhaust.outcome {
        ExhaustOutcome::Exhausted { errno } => assert_eq!(errno, libc::EMFILE),
        other => panic!("expected exhaustion, got {:?}", other),
    }
}
