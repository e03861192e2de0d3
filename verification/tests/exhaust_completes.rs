use openmax::exhaust::ExhaustOutcome;

#[test]
fn open_files_completes_when_there_is_room() {
    let already_open = openmax::census::count_open_files(4096).count;
    let report = openmax::exhaust::open_files(already_open, already_open + 5);
    for fd in &report.handles {
        let _ = nix::unistd::close(*fd);
    }
    assert_eq!(report.outcome, ExhaustOutcome::CompletedAll);
    // Attempts run from the census count up to and including the bound.
    assert_eq!(report.opened, 6);
    assert_eq!(report.handles.len(), 6);
    for fd in &report.handles {
        assert!(*fd >= 0);
    }
}
