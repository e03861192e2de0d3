//! The descriptor census: before the exhaustion experiment begins, probe
//! every descriptor number below the queried limit and record which ones are
//! already open (standard input, output and error, typically).

use vstd::prelude::*;

use crate::sys;

verus! {

/// One already-open descriptor found by the census: its number and the
/// identifying inode of the underlying file object.
#[derive(Clone, Copy, Debug, PartialEq, Eq, Structural)]
pub struct DescriptorRecord {
    /// The descriptor number that was probed and found open.
    pub fd: usize,
    /// The inode number of the file object behind it.
    pub inode: u64,
}

/// What the census observed: the count and records of the open descriptors
/// it found, and — for the contract's sake — the full probe history they
/// were read from.
pub struct CensusReport {
    /// The number of open descriptors found; equals the number of records.
    pub count: usize,
    /// One record per open descriptor found, in increasing descriptor
    /// order.
    pub records: Vec<DescriptorRecord>,
    /// The probe history: entry `i` is the outcome of probing descriptor
    /// number `i` — the inode behind it if it was open, nothing otherwise.
    pub probes: Ghost<Seq<Option<u64>>>,
}

/// The records a probe history gives rise to: one per successful probe,
/// carrying the probed descriptor number and the inode the probe returned,
/// in increasing descriptor order.
pub open spec fn census_records(probes: Seq<Option<u64>>) -> Seq<DescriptorRecord>
    decreases probes.len(),
{
    if probes.len() == 0 {
        Seq::empty()
    } else {
        let prefix = census_records(probes.drop_last());
        match probes.last() {
            Some(inode) => prefix.push(
                DescriptorRecord { fd: (probes.len() - 1) as usize, inode },
            ),
            None => prefix,
        }
    }
}

/// Probe descriptor numbers `0` to `num - 1` with the existence check and
/// record each one that is currently open. Individual probe failures are the
/// expected case for almost every number, not an error, so the census as a
/// whole never fails.
///
/// The report's records are exactly what its probe history dictates: one
/// record per successful probe, carrying that probe's descriptor number and
/// inode, none skipped and none invented. The count is the number of
/// records; the records carry strictly increasing descriptor numbers below
/// `num`, so the count never exceeds `num` — and it only ever grew while the
/// census ran, one record per open descriptor found.
pub fn count_open_files(num: usize) -> (r: CensusReport)
    requires
        num <= i32::MAX as usize,
    ensures
        r.probes@.len() == num,
        r.records@ == census_records(r.probes@),
        r.count == r.records@.len(),
        r.count <= num,
        forall|k: int| 0 <= k < r.records@.len() ==> (#[trigger] r.records@[k]).fd < num,
        forall|j: int, k: int|
            0 <= j < k < r.records@.len() ==> (#[trigger] r.records@[j]).fd
                < (#[trigger] r.records@[k]).fd,
{
    let mut records: Vec<DescriptorRecord> = Vec::new();
    let ghost mut probes: Seq<Option<u64>> = Seq::empty();
    let mut i: usize = 0;
    while i < num
        invariant
            i <= num,
            num <= i32::MAX as usize,
            probes.len() == i,
            records@ == census_records(probes),
            records@.len() <= i,
            forall|k: int| 0 <= k < records@.len() ==> (#[trigger] records@[k]).fd < i,
            forall|j: int, k: int|
                0 <= j < k < records@.len() ==> (#[trigger] records@[j]).fd
                    < (#[trigger] records@[k]).fd,
        decreases num - i,
    {
        let probe = sys::fstat_inode(i as i32);
        proof {
            let earlier = probes;
            probes = probes.push(probe);
            assert(probes.drop_last() =~= earlier);
        }
        match probe {
            Some(inode) => {
                records.push(DescriptorRecord { fd: i, inode });
            },
            None => {},
        }
        i = i + 1;
    }
    let count = records.len();
    CensusReport { count, records, probes: Ghost(probes) }
}

} // verus!
