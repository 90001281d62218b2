//! The candidate-library list: a flat sequence of `DllInfo` records keyed by
//! a 1-based display slot. The list rejects duplicate paths, removes by
//! slot with renumbering, toggles a record's switch, and clears.

use vstd::prelude::*;

verus! {

/// Descriptor of one candidate library.
#[derive(Debug)]
pub struct DllInfo {
    /// Whether the library is selected for injection.
    pub switch: bool,
    /// Basename, for display.
    pub dll_name: String,
    /// Absolute path of the image on disk.
    pub dll_path: String,
    /// Display label of the image's architecture.
    pub dll_arch: String,
    /// 1-based display slot.
    pub index: usize,
}

impl DllInfo {
    pub fn new(switch: bool, dll_name: String, dll_path: String, dll_arch: String, index: usize) -> (r:
        Self)
        ensures
            r == (DllInfo { switch, dll_name, dll_path, dll_arch, index }),
    {
        DllInfo { switch, dll_name, dll_path, dll_arch, index }
    }
}

impl Default for DllInfo {
    /// A placeholder record: every text field reads "undefined", slot 0, off.
    fn default() -> (r: Self)
        ensures
            !r.switch,
            r.dll_name@ == "undefined"@,
            r.dll_path@ == "undefined"@,
            r.dll_arch@ == "undefined"@,
            r.index == 0,
    {
        DllInfo {
            switch: false,
            dll_name: "undefined".to_owned(),
            dll_path: "undefined".to_owned(),
            dll_arch: "undefined".to_owned(),
            index: 0,
        }
    }
}

/// Some record of `l` bears the path `p`.
pub open spec fn has_path(l: Seq<DllInfo>, p: Seq<char>) -> bool {
    exists|j: int| 0 <= j < l.len() && l[j].dll_path@ == p
}

/// `l` without the records whose slot is `k`.
pub open spec fn without_index(l: Seq<DllInfo>, k: usize) -> Seq<DllInfo> {
    l.filter(|d: DllInfo| d.index != k)
}

/// `l` with slots renumbered 1, 2, ... in order.
pub open spec fn reindexed(l: Seq<DllInfo>) -> Seq<DllInfo> {
    Seq::new(
        l.len(),
        |i: int|
            DllInfo {
                switch: l[i].switch,
                dll_name: l[i].dll_name,
                dll_path: l[i].dll_path,
                dll_arch: l[i].dll_arch,
                index: (i + 1) as usize,
            },
    )
}

/// A record pushed onto the list makes its path present, so a second
/// addition of the same path is rejected as a duplicate.
pub proof fn lemma_push_makes_path_present(l: Seq<DllInfo>, d: DllInfo)
    ensures
        has_path(l.push(d), d.dll_path@),
{
    assert(l.push(d)[l.len() as int] == d);
}

/// Appends a record for a new library unless one with the same path is
/// already listed; reports whether it was added. The new record is off by
/// default and takes the next free slot.
pub fn add_dll(list: &mut Vec<DllInfo>, dll_name: String, dll_path: String, dll_arch: String) -> (added:
    bool)
    requires
        old(list)@.len() < usize::MAX,
    ensures
        added == !has_path(old(list)@, dll_path@),
        added ==> final(list)@ == old(list)@.push(
            DllInfo {
                switch: false,
                dll_name,
                dll_path,
                dll_arch,
                index: (old(list)@.len() + 1) as usize,
            },
        ),
        !added ==> final(list)@ == old(list)@,
{
    let n: usize = list.len();
    let mut j: usize = 0;
    while j < n
        invariant
            0 <= j <= n,
            n == list@.len(),
            list@ == old(list)@,
            forall|w: int| 0 <= w < j ==> list@[w].dll_path@ != dll_path@,
        decreases n - j,
    {
        if list[j].dll_path == dll_path {
            assert(has_path(old(list)@, dll_path@));
            return false;
        }
        j = j + 1;
    }
    assert(!has_path(old(list)@, dll_path@));
    let slot: usize = n + 1;
    list.push(DllInfo::new(false, dll_name, dll_path, dll_arch, slot));
    true
}

/// Removes the record in the selected slot, clears the selection, and
/// renumbers the remaining records 1, 2, ... in their kept order. Without a
/// selection nothing changes.
pub fn remove_selected_dll(list: &mut Vec<DllInfo>, selected_row: &mut Option<usize>)
    ensures
        match *old(selected_row) {
            Some(k) => {
                &&& final(list)@ == reindexed(without_index(old(list)@, k))
                &&& *final(selected_row) is None
            },
            None => {
                &&& final(list)@ == old(list)@
                &&& *final(selected_row) == *old(selected_row)
            },
        },
{
    let sel: Option<usize> = *selected_row;
    let k: usize = match sel {
        None => {
            return ;
        },
        Some(k) => k,
    };
    let ghost orig = list@;
    let ghost pred = |d: DllInfo| d.index != k;
    let mut j: usize = 0;
    let ghost mut m: int = 0;
    while j < list.len()
        invariant
            0 <= m <= orig.len(),
            j as int == without_index(orig.subrange(0, m), k).len(),
            list@ == without_index(orig.subrange(0, m), k) + orig.subrange(m, orig.len() as int),
            j <= list@.len(),
        decreases orig.len() - m,
    {
        proof {
            reveal_with_fuel(Seq::filter, 2);
            assert(list@[j as int] == orig[m]);
            assert(orig.subrange(0, m + 1).drop_last() =~= orig.subrange(0, m));
            assert(orig.subrange(0, m + 1).last() == orig[m]);
        }
        if list[j].index == k {
            list.remove(j);
            proof {
                assert(list@ =~= without_index(orig.subrange(0, m + 1), k) + orig.subrange(
                    m + 1,
                    orig.len() as int,
                ));
                m = m + 1;
            }
        } else {
            proof {
                assert(without_index(orig.subrange(0, m + 1), k) =~= without_index(
                    orig.subrange(0, m),
                    k,
                ).push(orig[m]));
                assert(list@ =~= without_index(orig.subrange(0, m + 1), k) + orig.subrange(
                    m + 1,
                    orig.len() as int,
                ));
                m = m + 1;
            }
            j = j + 1;
        }
    }
    proof {
        reveal_with_fuel(Seq::filter, 2);
        assert(orig.subrange(0, orig.len() as int) =~= orig);
        assert(list@ =~= without_index(orig, k));
    }
    let ghost kept = list@;
    let n: usize = list.len();
    let mut i: usize = 0;
    while i < n
        invariant
            0 <= i <= n,
            n == list@.len(),
            kept.len() == n,
            forall|w: int| 0 <= w < i ==> list@[w] == reindexed(kept)[w],
            forall|w: int| i <= w < n ==> list@[w] == kept[w],
        decreases n - i,
    {
        list[i].index = i + 1;
        i = i + 1;
    }
    assert(list@ =~= reindexed(kept));
    *selected_row = None;
}

/// Empties the list and clears the selection.
pub fn clear_all_dlls(list: &mut Vec<DllInfo>, selected_row: &mut Option<usize>)
    ensures
        final(list)@ == Seq::<DllInfo>::empty(),
        *final(selected_row) is None,
{
    list.clear();
    *selected_row = None;
    proof {
        assert(list@ =~= Seq::<DllInfo>::empty());
    }
}

/// The first position in `l` at or after `i` whose record sits in slot `k`.
pub open spec fn find_slot(l: Seq<DllInfo>, k: usize, i: int) -> Option<int>
    decreases l.len() - i,
{
    if i < 0 || i >= l.len() {
        None
    } else if l[i].index == k {
        Some(i)
    } else {
        find_slot(l, k, i + 1)
    }
}

/// Toggles the switch of the first record in the selected slot; everything
/// else, including the selection, stays as it is. Without a selection, or
/// with a slot no record bears, nothing changes.
pub fn enable_disable_dll(list: &mut Vec<DllInfo>, selected_row: &Option<usize>)
    ensures
        match *selected_row {
            Some(k) => match find_slot(old(list)@, k, 0) {
                Some(j) => final(list)@ == old(list)@.update(
                    j,
                    DllInfo {
                        switch: !old(list)@[j].switch,
                        dll_name: old(list)@[j].dll_name,
                        dll_path: old(list)@[j].dll_path,
                        dll_arch: old(list)@[j].dll_arch,
                        index: old(list)@[j].index,
                    },
                ),
                None => final(list)@ == old(list)@,
            },
            None => final(list)@ == old(list)@,
        },
{
    let sel: Option<usize> = *selected_row;
    let k: usize = match sel {
        None => {
            return ;
        },
        Some(k) => k,
    };
    let n: usize = list.len();
    let mut j: usize = 0;
    while j < n
        invariant
            *selected_row == Some(k),
            0 <= j <= n,
            n == list@.len(),
            list@ == old(list)@,
            find_slot(old(list)@, k, 0) == find_slot(old(list)@, k, j as int),
        decreases n - j,
    {
        if list[j].index == k {
            assert(find_slot(old(list)@, k, j as int) == Some(j as int));
            let cur: bool = list[j].switch;
            list[j].switch = !cur;
            proof {
                let upd = DllInfo {
                    switch: !old(list)@[j as int].switch,
                    dll_name: old(list)@[j as int].dll_name,
                    dll_path: old(list)@[j as int].dll_path,
                    dll_arch: old(list)@[j as int].dll_arch,
                    index: old(list)@[j as int].index,
                };
                assert(list@ =~= old(list)@.update(j as int, upd));
            }
            return ;
        }
        assert(find_slot(old(list)@, k, j as int) == find_slot(old(list)@, k, j as int + 1));
        j = j + 1;
    }
}

} // verus!
