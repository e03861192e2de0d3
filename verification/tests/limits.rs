use openmax::limits::{
    get_open_max_rlimit, get_open_max_sysconf, open_max_from_rlimit, open_max_from_sysconf,
    resolve_soft_limit, QueryError,
};

#[test]
fn sysconf_classification_accepts_a_count() {
    assert_eq!(open_max_from_sysconf(Ok(Some(256))), Ok(256));
    assert_eq!(open_max_from_sysconf(Ok(Some(0))), Ok(0));
    assert_eq!(open_max_from_sysconf(Ok(Some(1024))), Ok(1024));
}

#[test]
fn sysconf_classification_rejects_missing_or_negative_values() {
    assert_eq!(open_max_from_sysconf(Ok(None)), Err(QueryError::NoValue));
    assert_eq!(open_max_from_sysconf(Ok(Some(-5))), Err(QueryError::NoValue));
}

#[test]
fn sysconf_classification_keeps_the_error_code() {
    assert_eq!(open_max_from_sysconf(Err(22)), Err(QueryError::Sys(22)));
    assert_eq!(open_max_from_sysconf(Err(38)), Err(QueryError::Sys(38)));
}

#[test]
fn rlimit_classification_takes_the_soft_limit() {
    assert_eq!(open_max_from_rlimit(Ok((256, 1024))), Ok(256));
    assert_eq!(open_max_from_rlimit(Ok((0, 0))), Ok(0));
}

#[test]
fn rlimit_classification_keeps_the_error_code() {
    assert_eq!(open_max_from_rlimit(Err(1)), Err(QueryError::Sys(1)));
}

#[test]
fn unbounded_sentinel_becomes_largest_count() {
    assert_eq!(resolve_soft_limit(u64::MAX), usize::MAX);
    assert_eq!(
        open_max_from_rlimit(Ok((u64::MAX, u64::MAX))),
        Ok(usize::MAX)
    );
}

#[test]
fn ordinary_soft_limits_resolve_to_themselves() {
    assert_eq!(resolve_soft_limit(0), 0);
    assert_eq!(resolve_soft_limit(256), 256);
    assert_eq!(resolve_soft_limit(1048576), 1048576);
}

#[test]
fn live_queries_answer_with_positive_counts() {
    let sysconf_max = get_open_max_sysconf().expect("sysconf query failed");
    assert!(sysconf_max > 0);
    let rlimit_max = get_open_max_rlimit().expect("rlimit query failed");
    assert!(rlimit_max > 0);
}

#[test]
fn live_queries_repeat_identically_on_an_unchanged_system() {
    assert_eq!(get_open_max_sysconf(), get_open_max_sysconf());
    assert_eq!(get_open_max_rlimit(), get_open_max_rlimit());
}

#[test]
fn rlimit_query_matches_the_interface_directly() {
    let (soft, _hard) =
        nix::sys::resource::getrlimit(nix::sys::resource::Resource::RLIMIT_NOFILE).unwrap();
    assert_eq!(get_open_max_rlimit(), Ok(resolve_soft_limit(soft)));
}

#[test]
fn query_error_messages() {
    assert_eq!(
        QueryError::NoValue.message(),
        "the interface did not return a value"
    );
    assert_eq!(
        QueryError::Sys(libc::EMFILE).message(),
        "Too many open files (errno 24)"
    );
    assert_eq!(QueryError::Sys(-3).message(), "Unknown errno (errno -3)");
}
