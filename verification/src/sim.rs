use vstd::prelude::*;

use std::collections::HashMap;

use vstd::multiset::Multiset;

use crate::port::{OsPort, RawRead, RawWrite};
use crate::process::QUERY_RIGHTS;

verus! {

broadcast use vstd::std_specs::hash::group_hash_axioms;

/// One process visible to the simulated OS: its identifier and the full image
/// path its handle resolves to.
pub struct SimProcess {
    pub pid: u32,
    pub path: String,
}

/// A simulated OS boundary: a word-addressed memory image, a process table,
/// and switches that inject the failure modes a real OS exhibits (a failing
/// call, a partial copy). Every access is tallied so callers can observe how
/// often the boundary was crossed.
///
/// `SimOs` implements [`OsPort`] and is verified against its contract; it is
/// the in-library stand-in for the platform's process query surface.
pub struct SimOs {
    /// The target's memory: the word stored at each mapped address.
    pub cells: HashMap<u32, u32>,
    /// The processes enumeration reports.
    pub procs: Vec<SimProcess>,
    /// Every memory access reports failure with `os_code`.
    pub fail_access: bool,
    /// Opens that ask for more than query rights are refused.
    pub deny_elevated: bool,
    /// Every memory access reports success but with a wrong byte count.
    pub short_count: bool,
    /// The platform error code failing calls carry.
    pub os_code: u32,
    /// Observable tally of memory reads issued.
    pub reads: u64,
    /// Observable tally of memory writes issued.
    pub writes: u64,
    /// Observable tally of process enumerations issued.
    pub enums: u64,
    /// Observable tally of handle releases issued.
    pub closes: u64,
    /// Unbounded shadow of `reads`.
    pub read_tally: Ghost<nat>,
    /// Unbounded shadow of `writes`.
    pub write_tally: Ghost<nat>,
    /// Unbounded shadow of `enums`.
    pub enum_tally: Ghost<nat>,
    /// Unbounded shadow of `closes`.
    pub close_tally: Ghost<nat>,
    /// The handles handed out and not yet released.
    pub handle_log: Ghost<Multiset<u32>>,
}

impl SimOs {
    /// A simulated OS with the given memory image and process table, with no
    /// failure mode armed.
    pub fn new(cells: HashMap<u32, u32>, procs: Vec<SimProcess>) -> (r: SimOs)
        ensures
            r.mem() == cells@,
            r.read_calls() == 0,
            r.write_calls() == 0,
            r.enum_calls() == 0,
            !r.fail_access,
            !r.deny_elevated,
            !r.short_count,
            r.close_calls() == 0,
            r.open_handles() == Multiset::<u32>::empty(),
            r.reads == 0,
            r.writes == 0,
            r.enums == 0,
            r.closes == 0,
    {
        SimOs {
            cells,
            procs,
            fail_access: false,
            deny_elevated: false,
            short_count: false,
            os_code: 5,
            reads: 0,
            writes: 0,
            enums: 0,
            closes: 0,
            read_tally: Ghost(0),
            write_tally: Ghost(0),
            enum_tally: Ghost(0),
            close_tally: Ghost(0),
            handle_log: Ghost(Multiset::empty()),
        }
    }

    /// A byte count that never equals the requested one, used when
    /// `short_count` is armed.
    fn mismatched_count(len: u32) -> (r: u32)
        ensures
            r != len,
    {
        if len == 0 {
            1
        } else {
            0
        }
    }
}

impl OsPort for SimOs {
    open spec fn mem(&self) -> Map<u32, u32> {
        self.cells@
    }

    open spec fn read_calls(&self) -> nat {
        self.read_tally@
    }

    open spec fn write_calls(&self) -> nat {
        self.write_tally@
    }

    open spec fn enum_calls(&self) -> nat {
        self.enum_tally@
    }

    open spec fn close_calls(&self) -> nat {
        self.close_tally@
    }

    open spec fn open_handles(&self) -> Multiset<u32> {
        self.handle_log@
    }

    open spec fn proc_pids(&self) -> Seq<u32> {
        self.procs@.map(|i: int, p: SimProcess| p.pid)
    }

    fn read_mem(&mut self, handle: u32, addr: u32, len: u32) -> (r: RawRead)
        ensures
            old(self).reads < u64::MAX ==> final(self).reads == old(self).reads + 1,
            final(self).writes == old(self).writes,
            final(self).enums == old(self).enums,
    {
        proof {
            self.read_tally@ = self.read_tally@ + 1;
        }
        if self.reads < u64::MAX {
            self.reads = self.reads + 1;
        }
        if self.fail_access {
            return RawRead { status: false, err_code: self.os_code, byte_count: 0, value: 0 };
        }
        match self.cells.get(&addr) {
            Some(v) => {
                let count = if self.short_count {
                    Self::mismatched_count(len)
                } else {
                    len
                };
                RawRead { status: true, err_code: 0, byte_count: count, value: *v }
            },
            None => RawRead { status: false, err_code: self.os_code, byte_count: 0, value: 0 },
        }
    }

    fn write_mem(&mut self, handle: u32, addr: u32, value: u32, len: u32) -> (r: RawWrite)
        ensures
            old(self).writes < u64::MAX ==> final(self).writes == old(self).writes + 1,
            final(self).reads == old(self).reads,
            final(self).enums == old(self).enums,
    {
        proof {
            self.write_tally@ = self.write_tally@ + 1;
        }
        if self.writes < u64::MAX {
            self.writes = self.writes + 1;
        }
        if self.fail_access {
            return RawWrite { status: false, err_code: self.os_code, byte_count: 0 };
        }
        if self.short_count {
            return RawWrite { status: true, err_code: 0, byte_count: Self::mismatched_count(len) };
        }
        self.cells.insert(addr, value);
        RawWrite { status: true, err_code: 0, byte_count: len }
    }

    fn enum_pids(&mut self) -> (r: Vec<u32>)
        ensures
            old(self).enums < u64::MAX ==> final(self).enums == old(self).enums + 1,
            final(self).procs@ == old(self).procs@,
            r@.len() == old(self).procs@.len(),
            forall|i: int| 0 <= i < r@.len() ==> r@[i] == old(self).procs@[i].pid,
    {
        proof {
            self.enum_tally@ = self.enum_tally@ + 1;
        }
        if self.enums < u64::MAX {
            self.enums = self.enums + 1;
        }
        let mut pids: Vec<u32> = Vec::new();
        let mut i: usize = 0;
        while i < self.procs.len()
            invariant
                i <= self.procs@.len(),
                pids@.len() == i,
                forall|j: int| 0 <= j < i ==> pids@[j] == self.procs@[j].pid,
            decreases self.procs@.len() - i,
        {
            pids.push(self.procs[i].pid);
            i = i + 1;
        }
        proof {
            assert(pids@ =~= self.procs@.map(|k: int, p: SimProcess| p.pid));
        }
        pids
    }

    fn open_process(&mut self, pid: u32, access: u32) -> (h: u32) {
        if self.fail_access {
            return 0;
        }
        if self.deny_elevated && access != QUERY_RIGHTS {
            return 0;
        }
        let mut i: usize = 0;
        while i < self.procs.len()
            invariant
                i <= self.procs@.len(),
                *self == *old(self),
            decreases self.procs@.len() - i,
        {
            if self.procs[i].pid == pid {
                if pid != 0 {
                    proof {
                        self.handle_log@ = self.handle_log@.insert(pid);
                    }
                    return pid;
                }
                return 0;
            }
            i = i + 1;
        }
        0
    }

    fn close_handle(&mut self, handle: u32)
        ensures
            old(self).closes < u64::MAX ==> final(self).closes == old(self).closes + 1,
            final(self).reads == old(self).reads,
            final(self).writes == old(self).writes,
            final(self).enums == old(self).enums,
    {
        proof {
            self.close_tally@ = self.close_tally@ + 1;
            self.handle_log@ = self.handle_log@.remove(handle);
        }
        if self.closes < u64::MAX {
            self.closes = self.closes + 1;
        }
    }

    fn image_path(&mut self, handle: u32) -> (r: Option<String>) {
        let mut i: usize = 0;
        while i < self.procs.len()
            decreases self.procs@.len() - i,
        {
            if self.procs[i].pid == handle {
                return Some(self.procs[i].path.clone());
            }
            i = i + 1;
        }
        None
    }
}

} // verus!
