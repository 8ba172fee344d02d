//! Normalization and collection: each raw entry becomes one unified record
//! tagged with the family of the enumeration pass that produced it, the IPv4
//! and IPv6 results are concatenated in that order, and the merged collection
//! is sorted by local port.

use vstd::prelude::*;

use crate::directory::{lookup_spec, ProcessDirectory};
use crate::order::{sort_by_local_port, sort_by_port_spec};
use crate::record::{AddressFamily, ProcessRef, ProcessRefV, RawEntry, RawEntryV, SocketRecord, SocketRecordV};

verus! {

/// The owning processes a raw entry's identifier list resolves to: one
/// reference per identifier, in the reported order, each named by the
/// directory (an empty name on a miss).
pub open spec fn owners_spec(pids: Seq<u32>, dir: Seq<ProcessRefV>) -> Seq<ProcessRefV> {
    pids.map_values(|pid: u32| ProcessRefV { pid, name: lookup_spec(dir, pid) })
}

/// What normalization makes of one raw entry: the local endpoint and payload
/// carried over unchanged, the family taken from the enumeration pass, and
/// the owner list resolved through the directory.
pub open spec fn normalize_spec(
    e: RawEntryV,
    family: AddressFamily,
    dir: Seq<ProcessRefV>,
) -> SocketRecordV {
    SocketRecordV {
        family,
        local_address: e.local_address,
        local_port: e.local_port,
        payload: e.payload,
        owners: owners_spec(e.associated_pids, dir),
    }
}

/// `normalize_spec` applied to every entry of one enumeration pass.
pub open spec fn normalize_all_spec(
    es: Seq<RawEntryV>,
    family: AddressFamily,
    dir: Seq<ProcessRefV>,
) -> Seq<SocketRecordV> {
    es.map_values(|e: RawEntryV| normalize_spec(e, family, dir))
}

/// What the collector returns for the two passes: IPv4 records, then IPv6
/// records, the whole sorted stably by local port.
pub open spec fn collect_spec(
    v4: Seq<RawEntryV>,
    v6: Seq<RawEntryV>,
    dir: Seq<ProcessRefV>,
) -> Seq<SocketRecordV> {
    sort_by_port_spec(
        normalize_all_spec(v4, AddressFamily::V4, dir) + normalize_all_spec(
            v6,
            AddressFamily::V6,
            dir,
        ),
    )
}

/// Every record a pass produces is tagged with that pass's family, whatever
/// its address reads.
pub proof fn lemma_family_tag(es: Seq<RawEntryV>, family: AddressFamily, dir: Seq<ProcessRefV>)
    ensures
        forall|i: int|
            0 <= i < es.len() ==> #[trigger] normalize_all_spec(es, family, dir)[i].family
                == family,
{
}

/// The collected sequence is ascending by local port.
pub proof fn lemma_collect_sorted(v4: Seq<RawEntryV>, v6: Seq<RawEntryV>, dir: Seq<ProcessRefV>)
    ensures
        crate::order::sorted_by_port(collect_spec(v4, v6, dir)),
{
    crate::order::lemma_sort_sorted(
        normalize_all_spec(v4, AddressFamily::V4, dir) + normalize_all_spec(
            v6,
            AddressFamily::V6,
            dir,
        ),
    );
}

/// For every port, the collected records carrying it stand in discovery
/// order: the IPv4 pass's entries in enumeration order, then the IPv6
/// pass's.
pub proof fn lemma_collect_stable(
    v4: Seq<RawEntryV>,
    v6: Seq<RawEntryV>,
    dir: Seq<ProcessRefV>,
    p: u16,
)
    ensures
        collect_spec(v4, v6, dir).filter(|r: SocketRecordV| r.local_port == p) == (
        normalize_all_spec(v4, AddressFamily::V4, dir) + normalize_all_spec(
            v6,
            AddressFamily::V6,
            dir,
        )).filter(|r: SocketRecordV| r.local_port == p),
{
    crate::order::lemma_sort_stable(
        normalize_all_spec(v4, AddressFamily::V4, dir) + normalize_all_spec(
            v6,
            AddressFamily::V6,
            dir,
        ),
        p,
    );
}

/// Normalize one raw entry against the process directory, tagging it with
/// the family of the enumeration pass that produced it.
pub fn normalize(entry: RawEntry, family: AddressFamily, dir: &ProcessDirectory) -> (r:
    SocketRecord)
    ensures
        r@ == normalize_spec(entry@, family, dir@),
{
    let ghost e = entry@;
    let RawEntry { local_address, local_port, payload, associated_pids } = entry;
    let mut owners: Vec<ProcessRef> = Vec::new();
    let mut i: usize = 0;
    while i < associated_pids.len()
        invariant
            i <= associated_pids.len(),
            associated_pids@ == e.associated_pids,
            owners.deep_view() == owners_spec(e.associated_pids.take(i as int), dir@),
        decreases associated_pids.len() - i,
    {
        let pid = associated_pids[i];
        let name = dir.lookup(pid);
        let ghost before = owners.deep_view();
        owners.push(ProcessRef { pid, name });
        proof {
            assert(owners.deep_view() =~= before.push(
                ProcessRefV { pid, name: lookup_spec(dir@, pid) },
            ));
            assert(owners.deep_view() =~= owners_spec(e.associated_pids.take(i + 1), dir@));
        }
        i = i + 1;
    }
    proof {
        assert(e.associated_pids.take(i as int) =~= e.associated_pids);
    }
    let r = SocketRecord { family, local_address, local_port, payload, owners };
    r
}

/// Normalize the raw entries of both passes, concatenate IPv4 results before
/// IPv6 results, and sort the merged collection stably by local port.
pub fn collect_records(v4: Vec<RawEntry>, v6: Vec<RawEntry>, dir: &ProcessDirectory) -> (r: Vec<
    SocketRecord,
>)
    ensures
        r.deep_view() == collect_spec(v4.deep_view(), v6.deep_view(), dir@),
{
    let ghost g4 = v4.deep_view();
    let ghost g6 = v6.deep_view();
    let mut merged: Vec<SocketRecord> = Vec::new();
    normalize_into(&mut merged, v4, AddressFamily::V4, dir);
    proof {
        assert(merged.deep_view() =~= normalize_all_spec(g4, AddressFamily::V4, dir@));
    }
    normalize_into(&mut merged, v6, AddressFamily::V6, dir);
    sort_by_local_port(merged)
}

/// Normalize every entry of one enumeration pass and append the records to
/// the accumulating collection, in order.
fn normalize_into(
    acc: &mut Vec<SocketRecord>,
    entries: Vec<RawEntry>,
    family: AddressFamily,
    dir: &ProcessDirectory,
)
    ensures
        final(acc).deep_view() == old(acc).deep_view() + normalize_all_spec(
            entries.deep_view(),
            family,
            dir@,
        ),
{
    let ghost base = acc.deep_view();
    let ghost es = entries.deep_view();
    let mut rest = entries;
    let ghost mut k: int = 0;
    proof {
        assert(rest.deep_view() =~= es.skip(0));
        assert(acc.deep_view() =~= base + normalize_all_spec(es.take(0), family, dir@));
    }
    while rest.len() > 0
        invariant
            0 <= k <= es.len(),
            k + rest.len() == es.len(),
            rest.deep_view() == es.skip(k),
            acc.deep_view() == base + normalize_all_spec(es.take(k), family, dir@),
        decreases rest.len(),
    {
        let ghost prev = rest@;
        let ghost prevd = rest.deep_view();
        let entry = rest.remove(0);
        proof {
            assert(rest@ =~= prev.remove(0));
            assert forall|i: int| 0 <= i < rest@.len() implies rest.deep_view()[i] == prevd[i
                + 1] by {
                assert(rest@[i] == prev[i + 1]);
            }
            assert(rest.deep_view() =~= es.skip(k + 1));
            assert(entry@ == es.skip(k)[0]);
            assert(entry@ == es[k]);
        }
        let record = normalize(entry, family, dir);
        let ghost before = acc.deep_view();
        acc.push(record);
        proof {
            assert(acc.deep_view() =~= before.push(normalize_spec(es[k], family, dir@)));
            assert(es.take(k + 1).drop_last() =~= es.take(k));
            assert(es.take(k + 1).last() == es[k]);
            assert(normalize_all_spec(es.take(k + 1), family, dir@) =~= normalize_all_spec(
                es.take(k),
                family,
                dir@,
            ).push(normalize_spec(es[k], family, dir@)));
            assert(acc.deep_view() =~= base + normalize_all_spec(es.take(k + 1), family, dir@));
            k = k + 1;
        }
    }
    proof {
        assert(es.take(k) =~= es);
    }
}

} // verus!
