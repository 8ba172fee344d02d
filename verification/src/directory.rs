//! Process directory: a snapshot of running processes taken once per run,
//! queried by numeric process identifier. A missing identifier resolves to an
//! empty name rather than an error, since the process snapshot and the socket
//! snapshot are not atomic with respect to each other.

use vstd::prelude::*;

use crate::record::{ProcessRef, ProcessRefV};

verus! {

/// What `lookup` returns: the name recorded with the first entry whose
/// identifier matches, or the empty sequence when none matches.
pub open spec fn lookup_spec(entries: Seq<ProcessRefV>, pid: u32) -> Seq<char>
    decreases entries.len(),
{
    if entries.len() == 0 {
        Seq::empty()
    } else if entries[0].pid == pid {
        entries[0].name
    } else {
        lookup_spec(entries.drop_first(), pid)
    }
}

/// A snapshot of running processes, in the order they were recorded.
pub struct ProcessDirectory {
    entries: Vec<ProcessRef>,
}

impl View for ProcessDirectory {
    type V = Seq<ProcessRefV>;

    closed spec fn view(&self) -> Seq<ProcessRefV> {
        self.entries.deep_view()
    }
}

impl ProcessDirectory {
    /// An empty snapshot.
    pub fn new() -> (d: Self)
        ensures
            d@ == Seq::<ProcessRefV>::empty(),
    {
        let d = ProcessDirectory { entries: Vec::new() };
        proof {
            assert(d@ =~= Seq::<ProcessRefV>::empty());
        }
        d
    }

    /// Record one process in the snapshot.
    pub fn record(&mut self, pid: u32, name: String)
        ensures
            final(self)@ == old(self)@.push(ProcessRefV { pid, name: name@ }),
    {
        let ghost before = self@;
        let ghost entry = (ProcessRefV { pid, name: name@ });
        self.entries.push(ProcessRef { pid, name });
        proof {
            assert(self@ =~= before.push(entry));
        }
    }

    /// Resolve a process identifier to its recorded name; a miss resolves to
    /// the empty string.
    pub fn lookup(&self, pid: u32) -> (name: String)
        ensures
            name@ == lookup_spec(self@, pid),
    {
        let mut i: usize = 0;
        proof {
            assert(self@.skip(0) =~= self@);
        }
        while i < self.entries.len()
            invariant
                i <= self.entries.len(),
                lookup_spec(self@, pid) == lookup_spec(self@.skip(i as int), pid),
                forall|j: int| 0 <= j < i ==> self@[j].pid != pid,
            decreases self.entries.len() - i,
        {
            if self.entries[i].pid == pid {
                proof {
                    assert(self@.skip(i as int)[0] == self@[i as int]);
                }
                let name = self.entries[i].name.clone();
                return name;
            }
            proof {
                assert(self@.skip(i as int)[0] == self@[i as int]);
                assert(self@.skip(i as int).drop_first() =~= self@.skip(i + 1));
            }
            i = i + 1;
        }
        proof {
            assert(self@.skip(i as int).len() == 0);
        }
        String::new()
    }
}

/// A process identifier absent from the snapshot resolves to the empty name.
pub proof fn lemma_lookup_miss(entries: Seq<ProcessRefV>, pid: u32)
    requires
        forall|j: int| 0 <= j < entries.len() ==> entries[j].pid != pid,
    ensures
        lookup_spec(entries, pid) == Seq::<char>::empty(),
    decreases entries.len(),
{
    if entries.len() > 0 {
        lemma_lookup_miss(entries.drop_first(), pid);
    }
}

} // verus!
