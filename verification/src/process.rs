//! Target-process descriptors and the filtering that the process picker
//! applies: system services under the 64-bit system directory are hidden
//! (WoW64 processes stay), and processes sharing a name are collapsed to the
//! instance with the lowest parent pid.

use vstd::prelude::*;

verus! {

/// Instruction-set architecture of a running process.
#[derive(Clone, Copy, Debug, PartialEq, Eq, Structural)]
pub enum ProcessArch {
    X86,
    X64,
    Other,
}

/// Read-only snapshot of a target process, supplied by the external
/// process enumerator.
#[derive(Debug)]
pub struct ProcessDescriptor {
    pub pid: u32,
    pub ppid: u32,
    pub arch: ProcessArch,
    /// Bit width of the process, 32 or 64.
    pub bits: u32,
    pub start_time: u64,
    /// Path of the process image on disk.
    pub path: String,
    pub name: String,
}

impl ProcessDescriptor {
    /// An equal copy of the descriptor.
    pub fn duplicate(&self) -> (r: ProcessDescriptor)
        ensures
            r == *self,
    {
        ProcessDescriptor {
            pid: self.pid,
            ppid: self.ppid,
            arch: self.arch,
            bits: self.bits,
            start_time: self.start_time,
            path: self.path.clone(),
            name: self.name.clone(),
        }
    }
}

/// `pre` is a prefix of `s`.
pub open spec fn starts_with(s: Seq<char>, pre: Seq<char>) -> bool {
    pre.len() <= s.len() && s.subrange(0, pre.len() as int) == pre
}

/// Character-wise prefix test.
pub fn str_starts_with(s: &str, pre: &str) -> (r: bool)
    ensures
        r == starts_with(s@, pre@),
{
    let n: usize = s.unicode_len();
    let m: usize = pre.unicode_len();
    if m > n {
        return false;
    }
    let mut i: usize = 0;
    while i < m
        invariant
            0 <= i <= m,
            m <= n,
            n == s@.len(),
            m == pre@.len(),
            forall|w: int| 0 <= w < i ==> s@[w] == pre@[w],
        decreases m - i,
    {
        if s.get_char(i) != pre.get_char(i) {
            assert(s@.subrange(0, m as int)[i as int] != pre@[i as int]);
            return false;
        }
        i = i + 1;
    }
    assert(s@.subrange(0, m as int) =~= pre@);
    true
}

/// Whether the picker keeps a process: its image is not under the 64-bit
/// system directory, unless it is a WoW64 process under `SysWOW64`.
pub open spec fn keeps(p: ProcessDescriptor, sys32: Seq<char>, wow64: Seq<char>) -> bool {
    !starts_with(p.path@, sys32) || starts_with(p.path@, wow64)
}

/// One step of name collapsing: a process either replaces the first
/// same-named entry when its parent pid is strictly lower, or is appended
/// when its name is new.
pub open spec fn upsert_spec(l: Seq<ProcessDescriptor>, p: ProcessDescriptor) -> Seq<
    ProcessDescriptor,
> {
    match find_name_pos(l, p.name@, 0) {
        None => l.push(p),
        Some(t) => if p.ppid < l[t].ppid {
            l.update(t, p)
        } else {
            l
        },
    }
}

/// The first position in `l` at or after `i` bearing `name`.
pub open spec fn find_name_pos(l: Seq<ProcessDescriptor>, name: Seq<char>, i: int) -> Option<int>
    decreases l.len() - i,
{
    if i < 0 || i >= l.len() {
        None
    } else if l[i].name@ == name {
        Some(i)
    } else {
        find_name_pos(l, name, i + 1)
    }
}

/// The picker's view of a process list: kept processes in first-seen name
/// order, each name collapsed to its lowest-parent-pid instance (first seen
/// wins ties).
pub open spec fn filtered_spec(
    l: Seq<ProcessDescriptor>,
    sys32: Seq<char>,
    wow64: Seq<char>,
) -> Seq<ProcessDescriptor>
    decreases l.len(),
{
    if l.len() == 0 {
        Seq::empty()
    } else {
        let prev = filtered_spec(l.drop_last(), sys32, wow64);
        if keeps(l.last(), sys32, wow64) {
            upsert_spec(prev, l.last())
        } else {
            prev
        }
    }
}

/// Collapses `p` into `out` by name, keeping the lower parent pid.
fn upsert_process(out: &mut Vec<ProcessDescriptor>, p: &ProcessDescriptor)
    ensures
        final(out)@ == upsert_spec(old(out)@, *p),
{
    let n: usize = out.len();
    let mut t: usize = 0;
    while t < n
        invariant
            0 <= t <= n,
            n == out@.len(),
            out@ == old(out)@,
            find_name_pos(old(out)@, p.name@, 0) == find_name_pos(old(out)@, p.name@, t as int),
        decreases n - t,
    {
        if out[t].name == p.name {
            assert(find_name_pos(old(out)@, p.name@, t as int) == Some(t as int));
            if p.ppid < out[t].ppid {
                out[t] = p.duplicate();
                assert(out@ =~= old(out)@.update(t as int, *p));
            }
            return ;
        }
        assert(find_name_pos(old(out)@, p.name@, t as int) == find_name_pos(
            old(out)@,
            p.name@,
            t as int + 1,
        ));
        t = t + 1;
    }
    out.push(p.duplicate());
}

/// Filters the process list for the picker: drops processes whose image
/// lives under `sys32_dir` (keeping those under `syswow64_dir`), and
/// collapses processes sharing a name to the instance with the lowest
/// parent pid.
pub fn filter_system_services_and_daemon_processes(
    processes: &Vec<ProcessDescriptor>,
    sys32_dir: &str,
    syswow64_dir: &str,
) -> (r: Vec<ProcessDescriptor>)
    ensures
        r@ == filtered_spec(processes@, sys32_dir@, syswow64_dir@),
{
    let ghost s32 = sys32_dir@;
    let ghost w64 = syswow64_dir@;
    let mut out: Vec<ProcessDescriptor> = Vec::new();
    let n: usize = processes.len();
    let mut j: usize = 0;
    while j < n
        invariant
            0 <= j <= n,
            n == processes@.len(),
            s32 == sys32_dir@,
            w64 == syswow64_dir@,
            out@ == filtered_spec(processes@.subrange(0, j as int), s32, w64),
        decreases n - j,
    {
        proof {
            let pre = processes@.subrange(0, j as int + 1);
            assert(pre.drop_last() =~= processes@.subrange(0, j as int));
            assert(pre.last() == processes@[j as int]);
        }
        let p = &processes[j];
        let kept: bool = !str_starts_with(p.path.as_str(), sys32_dir) || str_starts_with(
            p.path.as_str(),
            syswow64_dir,
        );
        if kept {
            upsert_process(&mut out, p);
        }
        j = j + 1;
    }
    proof {
        assert(processes@.subrange(0, n as int) =~= processes@);
    }
    out
}

/// No two entries of the filtered list share a name.
pub proof fn lemma_filtered_names_unique(
    l: Seq<ProcessDescriptor>,
    sys32: Seq<char>,
    wow64: Seq<char>,
)
    ensures
        forall|k1: int, k2: int|
            #![trigger filtered_spec(l, sys32, wow64)[k1], filtered_spec(l, sys32, wow64)[k2]]
            0 <= k1 < k2 < filtered_spec(l, sys32, wow64).len() ==> filtered_spec(
                l,
                sys32,
                wow64,
            )[k1].name@ != filtered_spec(l, sys32, wow64)[k2].name@,
    decreases l.len(),
{
    if l.len() > 0 {
        lemma_filtered_names_unique(l.drop_last(), sys32, wow64);
        let prev = filtered_spec(l.drop_last(), sys32, wow64);
        let p = l.last();
        if keeps(p, sys32, wow64) {
            match find_name_pos(prev, p.name@, 0) {
                None => {
                    lemma_find_name_pos_none(prev, p.name@, 0);
                },
                Some(t) => {
                    lemma_find_name_pos_found(prev, p.name@, 0, t);
                },
            }
        }
    }
}

/// A failed name search means no entry bears the name.
proof fn lemma_find_name_pos_none(l: Seq<ProcessDescriptor>, name: Seq<char>, i: int)
    requires
        0 <= i,
        find_name_pos(l, name, i) is None,
    ensures
        forall|k: int| i <= k < l.len() ==> #[trigger] l[k].name@ != name,
    decreases l.len() - i,
{
    if i < l.len() {
        lemma_find_name_pos_none(l, name, i + 1);
    }
}

/// A successful name search returns a position bearing the name.
proof fn lemma_find_name_pos_found(l: Seq<ProcessDescriptor>, name: Seq<char>, i: int, t: int)
    requires
        find_name_pos(l, name, i) == Some(t),
        0 <= i,
    ensures
        i <= t < l.len(),
        l[t].name@ == name,
    decreases l.len() - i,
{
    if i < l.len() && l[i].name@ != name {
        lemma_find_name_pos_found(l, name, i + 1, t);
    }
}

} // verus!
