use vstd::prelude::*;

use vstd::multiset::Multiset;
use vstd::string::StrSliceExecFns;

use crate::errors::AccessError;
use crate::port::OsPort;

verus! {

broadcast use vstd::multiset::group_multiset_axioms;

/// Introspection rights: query the process and read its memory.
pub const PROCESS_QUERY_INFORMATION: u32 = 0x0400;

/// Right to operate on the target's virtual memory.
pub const PROCESS_VM_OPERATION: u32 = 0x0008;

/// Right to read the target's virtual memory.
pub const PROCESS_VM_READ: u32 = 0x0010;

/// Right to write the target's virtual memory.
pub const PROCESS_VM_WRITE: u32 = 0x0020;

/// Rights of a transient probe handle: query and read only.
pub const QUERY_RIGHTS: u32 = PROCESS_QUERY_INFORMATION | PROCESS_VM_READ;

/// Rights of an elevated handle: query, read, operate and write.
pub const ELEVATED_RIGHTS: u32 = PROCESS_QUERY_INFORMATION | PROCESS_VM_READ
    | PROCESS_VM_OPERATION | PROCESS_VM_WRITE;

/// The capability level a process record's handle was opened with. A record
/// starts with no handle, holds a query-and-read handle after discovery, and
/// a full read/write/operation handle after elevation.
#[derive(Clone, Copy, Debug, PartialEq, Eq, Structural)]
pub enum AccessLevel {
    NoHandle,
    QueryOnly,
    Elevated,
}

/// True for the characters that separate directories in an image path.
pub open spec fn is_path_sep(c: char) -> bool {
    c == '\\' || c == '/'
}

/// The file name of a path: the suffix that follows the last path separator,
/// or the whole path when it has none.
pub open spec fn spec_file_name(s: Seq<char>) -> Seq<char>
    decreases s.len(),
{
    if s.len() == 0 {
        Seq::empty()
    } else if is_path_sep(s.last()) {
        Seq::empty()
    } else {
        spec_file_name(s.drop_last()).push(s.last())
    }
}

/// Character-exact string comparison.
pub fn str_eq(a: &str, b: &str) -> (r: bool)
    ensures
        r == (a@ == b@),
{
    let a_len = a.unicode_len();
    let b_len = b.unicode_len();
    if a_len != b_len {
        return false;
    }
    let mut i: usize = 0;
    while i < a_len
        invariant
            i <= a_len,
            a_len == a@.len(),
            a_len == b@.len(),
            forall|j: int| 0 <= j < i ==> a@[j] == b@[j],
        decreases a_len - i,
    {
        if a.get_char(i) != b.get_char(i) {
            return false;
        }
        i = i + 1;
    }
    proof {
        assert(a@ =~= b@);
    }
    true
}

/// Strip any directory prefix from an image path, leaving the executable
/// file name. Case is preserved exactly as the OS reported it.
pub fn file_name_of(path: &str) -> (r: String)
    ensures
        r@ == spec_file_name(path@),
{
    let n = path.unicode_len();
    let mut cut: usize = 0;
    let mut i: usize = 0;
    while i < n
        invariant
            cut <= i <= n,
            n == path@.len(),
            spec_file_name(path@.subrange(0, i as int)) == path@.subrange(cut as int, i as int),
        decreases n - i,
    {
        let c = path.get_char(i);
        proof {
            assert(path@.subrange(0, i + 1 as int).drop_last() =~= path@.subrange(0, i as int));
            assert(path@.subrange(0, i + 1 as int).last() == path@[i as int]);
        }
        if c == '\\' || c == '/' {
            cut = i + 1;
            proof {
                assert(spec_file_name(path@.subrange(0, i + 1 as int)) =~= path@.subrange(
                    cut as int,
                    i + 1 as int,
                ));
            }
        } else {
            proof {
                assert(spec_file_name(path@.subrange(0, i + 1 as int)) =~= path@.subrange(
                    cut as int,
                    i + 1 as int,
                ));
            }
        }
        i = i + 1;
    }
    proof {
        assert(path@.subrange(0, n as int) =~= path@);
    }
    let tail = path.substring_char(cut, n);
    tail.to_owned()
}

/// The record name for what the OS reported of a process: the path-stripped
/// executable file name, or an empty name when the process could not be
/// named at all.
pub fn resolve_image_name(path: Option<String>) -> (r: String)
    ensures
        path matches Some(p) ==> r@ == spec_file_name(p@),
        path is None ==> r@ == Seq::<char>::empty(),
{
    match path {
        Some(p) => file_name_of(p.as_str()),
        None => String::new(),
    }
}

/// One OS process as the directory sees it: its identifier, its resolved
/// executable file name, the handle the record currently owns (`0` when
/// absent) and the capability level that handle was opened with.
#[derive(Debug)]
pub struct ProcessItem {
    pub pid: u32,
    pub name: String,
    pub handle: u32,
    pub level: AccessLevel,
}

impl ProcessItem {
    /// A record never stores the OS invalid-handle sentinel as a live handle:
    /// the handle is `0` exactly when no capability is held.
    pub open spec fn wf(&self) -> bool {
        (self.handle == 0) <==> (self.level is NoHandle)
    }

    /// A field-exact copy of the record.
    pub fn duplicate(&self) -> (r: ProcessItem)
        ensures
            r == *self,
    {
        ProcessItem {
            pid: self.pid,
            name: self.name.clone(),
            handle: self.handle,
            level: self.level,
        }
    }

    /// Open process `pid` transiently with query-and-read rights and resolve
    /// its executable file name. Fails with `OpenProcessFailed` exactly when
    /// the OS hands back the invalid-handle sentinel; a process that cannot
    /// be named yields a record with an empty name.
    pub fn from_pid<P: OsPort>(port: &mut P, pid: u32) -> (r: Result<ProcessItem, AccessError>)
        ensures
            final(port).mem() == old(port).mem(),
            final(port).read_calls() == old(port).read_calls(),
            final(port).write_calls() == old(port).write_calls(),
            final(port).enum_calls() == old(port).enum_calls(),
            final(port).close_calls() == old(port).close_calls(),
            final(port).proc_pids() == old(port).proc_pids(),
            r matches Ok(p) ==> p.wf() && p.pid == pid && p.level is QueryOnly && p.handle != 0,
            r matches Ok(p) ==> final(port).open_handles() == old(port).open_handles().insert(
                p.handle,
            ),
            r matches Err(e) ==> e == (AccessError::OpenProcessFailed { pid })
                && final(port).open_handles() == old(port).open_handles(),
    {
        let handle = port.open_process(pid, QUERY_RIGHTS);
        if handle == 0 {
            return Err(AccessError::OpenProcessFailed { pid });
        }
        let name = resolve_image_name(port.image_path(handle));
        Ok(ProcessItem { pid, name, handle, level: AccessLevel::QueryOnly })
    }

    /// Release the record's handle, if any, and mark the record handle-absent.
    /// Safe to call on an already-closed record. A record with a live handle
    /// issues exactly one OS release, for that handle; a closed record
    /// issues none.
    pub fn close<P: OsPort>(&mut self, port: &mut P)
        ensures
            final(port).mem() == old(port).mem(),
            final(port).read_calls() == old(port).read_calls(),
            final(port).write_calls() == old(port).write_calls(),
            final(port).enum_calls() == old(port).enum_calls(),
            final(port).proc_pids() == old(port).proc_pids(),
            old(self).handle != 0 ==> final(port).close_calls() == old(port).close_calls() + 1
                && final(port).open_handles() == old(port).open_handles().remove(
                old(self).handle,
            ),
            old(self).handle == 0 ==> final(port).close_calls() == old(port).close_calls()
                && final(port).open_handles() == old(port).open_handles(),
            final(self).pid == old(self).pid,
            final(self).name == old(self).name,
            final(self).handle == 0,
            final(self).level is NoHandle,
            final(self).wf(),
    {
        if self.handle != 0 {
            port.close_handle(self.handle);
        }
        self.handle = 0;
        self.level = AccessLevel::NoHandle;
    }

    /// Elevate the record to full read/write/operation rights ("injection").
    ///
    /// Idempotent: an already-elevated record is left untouched and no OS
    /// call is made. Otherwise a new handle is opened with elevated rights;
    /// it replaces any prior handle, which is released. A failed elevation
    /// surfaces as `OpenProcessFailed` and leaves the record handle-absent.
    pub fn inject<P: OsPort>(&mut self, port: &mut P) -> (r: Result<(), AccessError>)
        requires
            old(self).wf(),
        ensures
            final(port).mem() == old(port).mem(),
            final(port).read_calls() == old(port).read_calls(),
            final(port).write_calls() == old(port).write_calls(),
            final(port).enum_calls() == old(port).enum_calls(),
            final(self).pid == old(self).pid,
            final(self).name == old(self).name,
            old(self).level is Elevated ==> (r matches Ok(_)) && *final(self) == *old(self)
                && final(port).close_calls() == old(port).close_calls()
                && final(port).open_handles() == old(port).open_handles(),
            !(old(self).level is Elevated) && old(self).handle != 0 ==> final(port).close_calls()
                == old(port).close_calls() + 1,
            !(old(self).level is Elevated) && old(self).handle == 0 ==> final(port).close_calls()
                == old(port).close_calls(),
            r matches Ok(_) ==> final(self).level is Elevated && final(self).handle != 0
                && final(self).wf(),
            (r matches Ok(_) && !(old(self).level is Elevated) && old(self).handle == 0) ==> final(port).open_handles() == old(port).open_handles().insert(final(self).handle),
            (r matches Ok(_) && !(old(self).level is Elevated) && old(self).handle != 0) ==> final(port).open_handles() == old(port).open_handles().insert(final(self).handle).remove(
                old(self).handle,
            ),
            r matches Err(e) ==> e == (AccessError::OpenProcessFailed { pid: old(self).pid })
                && final(self).handle == 0 && final(self).level is NoHandle && final(self).wf(),
            (r matches Err(_) && old(self).handle != 0) ==> final(port).open_handles() == old(port).open_handles().remove(old(self).handle),
            (r matches Err(_) && old(self).handle == 0) ==> final(port).open_handles() == old(port).open_handles(),
    {
        if matches!(self.level, AccessLevel::Elevated) {
            return Ok(());
        }
        let handle = port.open_process(self.pid, ELEVATED_RIGHTS);
        if self.handle != 0 {
            port.close_handle(self.handle);
        }
        if handle == 0 {
            self.handle = 0;
            self.level = AccessLevel::NoHandle;
            Err(AccessError::OpenProcessFailed { pid: self.pid })
        } else {
            self.handle = handle;
            self.level = AccessLevel::Elevated;
            Ok(())
        }
    }
}

/// The process directory: enumerates the processes the OS reports and finds
/// the target among them.
#[derive(Debug)]
pub struct ProcessManager {}

impl Default for ProcessManager {
    fn default() -> (r: ProcessManager)
        ensures
            r == (ProcessManager {  }),
    {
        ProcessManager {  }
    }
}

impl ProcessManager {
    /// List every process the OS reports that can be opened and named.
    ///
    /// Each listed process is probed transiently at query rights and its probe
    /// handle is closed again before the record is returned: no returned
    /// record holds a handle. A process that cannot be opened or named is
    /// silently skipped; a failed enumeration yields an empty list.
    pub fn get_process_list<P: OsPort>(&self, port: &mut P) -> (r: Vec<ProcessItem>)
        ensures
            final(port).mem() == old(port).mem(),
            final(port).read_calls() == old(port).read_calls(),
            final(port).write_calls() == old(port).write_calls(),
            final(port).enum_calls() == old(port).enum_calls() + 1,
            final(port).open_handles() == old(port).open_handles(),
            forall|i: int| 0 <= i < r@.len() ==> final(port).proc_pids().contains(
                (#[trigger] r@[i]).pid,
            ),
            forall|i: int| 0 <= i < r@.len() ==> {
                &&& (#[trigger] r@[i]).wf()
                &&& r@[i].handle == 0
                &&& r@[i].level is NoHandle
                &&& r@[i].pid != 0
                &&& r@[i].name@.len() > 0
            },
    {
        let pids = port.enum_pids();
        let mut list: Vec<ProcessItem> = Vec::new();
        let mut i: usize = 0;
        while i < pids.len()
            invariant
                i <= pids@.len(),
                port.mem() == old(port).mem(),
                port.read_calls() == old(port).read_calls(),
                port.write_calls() == old(port).write_calls(),
                port.enum_calls() == old(port).enum_calls() + 1,
                port.open_handles() == old(port).open_handles(),
                port.proc_pids() == old(port).proc_pids(),
                pids@ == port.proc_pids(),
                forall|k: int| 0 <= k < list@.len() ==> port.proc_pids().contains(
                    (#[trigger] list@[k]).pid,
                ),
                forall|k: int| 0 <= k < list@.len() ==> {
                    &&& (#[trigger] list@[k]).wf()
                    &&& list@[k].handle == 0
                    &&& list@[k].level is NoHandle
                    &&& list@[k].pid != 0
                    &&& list@[k].name@.len() > 0
                },
            decreases pids@.len() - i,
        {
            let pid = pids[i];
            if pid != 0 {
                match ProcessItem::from_pid(port, pid) {
                    Ok(mut p) => {
                        let ghost before_probe = old(port).open_handles();
                        let ghost probe_handle = p.handle;
                        p.close(port);
                        proof {
                            assert(port.open_handles() =~= before_probe);
                        }
                        if p.name.as_str().unicode_len() > 0 {
                            proof {
                                assert(port.proc_pids()[i as int] == pid);
                            }
                            list.push(p);
                        }
                    },
                    Err(_) => {},
                }
            }
            i = i + 1;
        }
        list
    }

    /// Find the target game process: the first enumerated process whose
    /// executable file name equals the expected target name.
    pub fn find_game_process<P: OsPort>(&self, port: &mut P) -> (r: Option<ProcessItem>)
        ensures
            final(port).mem() == old(port).mem(),
            final(port).read_calls() == old(port).read_calls(),
            final(port).write_calls() == old(port).write_calls(),
            final(port).enum_calls() == old(port).enum_calls() + 1,
            final(port).open_handles() == old(port).open_handles(),
            r matches Some(p) ==> p.wf() && p.handle == 0 && p.level is NoHandle && p.name@
                == spec_target_process_name(),
    {
        let list = self.get_process_list(port);
        find_by_name(&list, target_process_name())
    }
}

/// The first record in `list` whose name equals `target`, if any.
pub fn find_by_name(list: &Vec<ProcessItem>, target: &str) -> (r: Option<ProcessItem>)
    ensures
        r matches Some(p) ==> p.name@ == target@ && exists|i: int|
            0 <= i < list@.len() && p == list@[i] && (forall|j: int|
                0 <= j < i ==> (#[trigger] list@[j]).name@ != target@),
        r is None ==> forall|i: int| 0 <= i < list@.len() ==> (#[trigger] list@[i]).name@
            != target@,
{
    let mut i: usize = 0;
    while i < list.len()
        invariant
            i <= list@.len(),
            forall|j: int| 0 <= j < i ==> (#[trigger] list@[j]).name@ != target@,
        decreases list@.len() - i,
    {
        if str_eq(list[i].name.as_str(), target) {
            let found = list[i].duplicate();
            proof {
                assert(found == list@[i as int] && (forall|j: int|
                    0 <= j < i ==> (#[trigger] list@[j]).name@ != target@));
            }
            return Some(found);
        }
        i = i + 1;
    }
    None
}

/// The executable file name of the one game build this trainer targets.
pub open spec fn spec_target_process_name() -> Seq<char> {
    "age2x.exe"@
}

/// Executable counterpart of [`spec_target_process_name`].
pub fn target_process_name() -> (r: &'static str)
    ensures
        r@ == spec_target_process_name(),
{
    "age2x.exe"
}

} // verus!
