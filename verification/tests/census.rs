use nix::fcntl::OFlag;
use nix::sys::stat::Mode;

#[test]
fn census_of_nothing_is_empty() {
    let census = openmax::census::count_open_files(0);
    assert_eq!(census.count, 0);
    assert!(census.records.is_empty());
}

#[test]
fn census_finds_a_descriptor_we_opened() {
    let fd = nix::fcntl::open("/dev/null", OFlag::O_RDONLY, Mode::empty()).unwrap();
    let expected_inode = nix::sys::stat::fstat(fd).unwrap().st_ino;
    let bound = fd as usize + 1;

    let census = openmax::census::count_open_files(bound);
    nix::unistd::close(fd).unwrap();

    let (count, records) = (census.count, census.records);
    assert_eq!(count, records.len());
    assert!(count >= 1);
    assert!(count <= bound);
    let ours = records
        .iter()
        .find(|r| r.fd == fd as usize)
        .expect("census missed an open descriptor");
    assert_eq!(ours.inode, expected_inode);
    for pair in records.windows(2) {
        assert!(pair[0].fd < pair[1].fd);
    }
    for r in &records {
        assert!(r.fd < bound);
    }
}

#[test]
fn census_count_never_exceeds_the_bound() {
    let census = openmax::census::count_open_files(3);
    assert!(census.count <= 3);
    assert_eq!(census.count, census.records.len());
}
