//! Selection preservation by identity.
//!
//! Each of the three lists keeps at most one selected index. When a list is
//! replaced by a fresh snapshot, the previous selection is re-found by its
//! identity key (session name, window index, pane id): if the key still
//! appears, the selection moves to its first new position; if it is gone,
//! the selection falls back to index 0; if the new list is empty, the
//! selection is cleared.

use vstd::prelude::*;

use crate::model::TmuxPane;
use crate::model::TmuxSession;
use crate::model::TmuxWindow;

verus! {

/// A selected index is valid for its list: in bounds when present, and absent
/// exactly on an empty list.
pub open spec fn sel_in_bounds(len: nat, sel: Option<usize>) -> bool {
    match sel {
        Some(i) => i < len,
        None => len == 0,
    }
}

/// `sel` is the selection that a refresh with identity keys `keys` and
/// previous key `prev` must produce: cleared on an empty list, else the first
/// position of `prev` when it still appears, else index 0.
pub open spec fn selection_resolved<K>(keys: Seq<K>, prev: Option<K>, sel: Option<usize>) -> bool {
    if keys.len() == 0 {
        sel is None
    } else {
        match prev {
            Option::None => sel == Some(0usize),
            Option::Some(k) => {
                if keys.contains(k) {
                    &&& sel matches Some(i)
                    &&& i < keys.len()
                    &&& keys[i as int] == k
                    &&& forall|j: int| 0 <= j < i ==> keys[j] != k
                } else {
                    sel == Some(0usize)
                }
            },
        }
    }
}

/// The key the resolved selection points at, if any.
pub open spec fn key_at<K>(keys: Seq<K>, sel: Option<usize>) -> Option<K> {
    match sel {
        Some(i) => if i < keys.len() {
            Some(keys[i as int])
        } else {
            Option::<K>::None
        },
        None => Option::<K>::None,
    }
}

/// A resolved selection is always a valid index.
pub proof fn lemma_resolved_in_bounds<K>(keys: Seq<K>, prev: Option<K>, sel: Option<usize>)
    requires
        selection_resolved(keys, prev, sel),
    ensures
        sel_in_bounds(keys.len(), sel),
{
}

/// Resolving is idempotent: refreshing again with the same keys, keyed by the
/// identity the first refresh selected, selects the same index. Two refreshes
/// in a row with no intervening external change therefore agree.
pub proof fn lemma_resolution_idempotent<K>(
    keys: Seq<K>,
    prev: Option<K>,
    sel1: Option<usize>,
    sel2: Option<usize>,
)
    requires
        selection_resolved(keys, prev, sel1),
        selection_resolved(keys, key_at(keys, sel1), sel2),
    ensures
        sel2 == sel1,
{
    if keys.len() == 0 {
    } else {
        let i1 = sel1->0;
        let k1 = keys[i1 as int];
        assert(keys.contains(k1));
        let i2 = sel2->0;
        if i2 < i1 {
            assert(keys[i2 as int] != k1);
        } else if i1 < i2 {
            assert(keys[i1 as int] != k1);
        }
    }
}

/// First position of `name` in `list`'s session names, if the name appears.
fn find_session_by_name(list: &Vec<TmuxSession>, name: &String) -> (r: Option<usize>)
    ensures
        match r {
            Some(i) => {
                &&& i < list@.len()
                &&& list@[i as int].name@ == name@
                &&& forall|j: int| 0 <= j < i ==> list@[j].name@ != name@
            },
            None => forall|j: int| 0 <= j < list@.len() ==> list@[j].name@ != name@,
        },
{
    let n = list.len();
    let mut i: usize = 0;
    while i < n
        invariant
            n == list@.len(),
            i <= n,
            forall|j: int| 0 <= j < i ==> list@[j].name@ != name@,
        decreases n - i,
    {
        if list[i].name.eq(name) {
            return Some(i);
        }
        i = i + 1;
    }
    None
}

/// First position of the window whose `index` field equals `index`.
fn find_window_by_index(list: &Vec<TmuxWindow>, index: u32) -> (r: Option<usize>)
    ensures
        match r {
            Some(i) => {
                &&& i < list@.len()
                &&& list@[i as int].index == index
                &&& forall|j: int| 0 <= j < i ==> list@[j].index != index
            },
            None => forall|j: int| 0 <= j < list@.len() ==> list@[j].index != index,
        },
{
    let n = list.len();
    let mut i: usize = 0;
    while i < n
        invariant
            n == list@.len(),
            i <= n,
            forall|j: int| 0 <= j < i ==> list@[j].index != index,
        decreases n - i,
    {
        if list[i].index == index {
            return Some(i);
        }
        i = i + 1;
    }
    None
}

/// First position of the pane whose `id` field equals `id`.
fn find_pane_by_id(list: &Vec<TmuxPane>, id: &String) -> (r: Option<usize>)
    ensures
        match r {
            Some(i) => {
                &&& i < list@.len()
                &&& list@[i as int].id@ == id@
                &&& forall|j: int| 0 <= j < i ==> list@[j].id@ != id@
            },
            None => forall|j: int| 0 <= j < list@.len() ==> list@[j].id@ != id@,
        },
{
    let n = list.len();
    let mut i: usize = 0;
    while i < n
        invariant
            n == list@.len(),
            i <= n,
            forall|j: int| 0 <= j < i ==> list@[j].id@ != id@,
        decreases n - i,
    {
        if list[i].id.eq(id) {
            return Some(i);
        }
        i = i + 1;
    }
    None
}

/// The identity keys of a session list: its names, as character sequences.
pub open spec fn session_keys(list: Seq<TmuxSession>) -> Seq<Seq<char>> {
    list.map_values(|s: TmuxSession| s.name@)
}

/// The identity keys of a window list: its window indices.
pub open spec fn window_keys(list: Seq<TmuxWindow>) -> Seq<u32> {
    list.map_values(|w: TmuxWindow| w.index)
}

/// The identity keys of a pane list: its pane ids, as character sequences.
pub open spec fn pane_keys(list: Seq<TmuxPane>) -> Seq<Seq<char>> {
    list.map_values(|p: TmuxPane| p.id@)
}

/// View of an optional owned name as an optional identity key.
pub open spec fn opt_str_key(prev: Option<String>) -> Option<Seq<char>> {
    match prev {
        Some(s) => Some(s@),
        None => Option::<Seq<char>>::None,
    }
}

/// Resolve the selection for a freshly fetched session list.
pub fn resolve_session_selection(list: &Vec<TmuxSession>, prev: &Option<String>) -> (sel: Option<
    usize,
>)
    ensures
        selection_resolved(session_keys(list@), opt_str_key(*prev), sel),
{
    if list.len() == 0 {
        return None;
    }
    match prev {
        Some(name) => {
            let found = find_session_by_name(list, name);
            match found {
                Some(i) => {
                    assert(session_keys(list@).contains(name@)) by {
                        assert(session_keys(list@)[i as int] == name@);
                    }
                    Some(i)
                },
                None => {
                    assert(!session_keys(list@).contains(name@)) by {
                        assert(forall|j: int|
                            0 <= j < list@.len() ==> session_keys(list@)[j] != name@);
                    }
                    Some(0)
                },
            }
        },
        None => Some(0),
    }
}

/// Resolve the selection for a freshly fetched window list.
pub fn resolve_window_selection(list: &Vec<TmuxWindow>, prev: Option<u32>) -> (sel: Option<usize>)
    ensures
        selection_resolved(window_keys(list@), prev, sel),
{
    if list.len() == 0 {
        return None;
    }
    match prev {
        Some(index) => {
            let found = find_window_by_index(list, index);
            match found {
                Some(i) => {
                    assert(window_keys(list@).contains(index)) by {
                        assert(window_keys(list@)[i as int] == index);
                    }
                    Some(i)
                },
                None => {
                    assert(!window_keys(list@).contains(index)) by {
                        assert(forall|j: int|
                            0 <= j < list@.len() ==> window_keys(list@)[j] != index);
                    }
                    Some(0)
                },
            }
        },
        None => Some(0),
    }
}

/// Resolve the selection for a freshly fetched pane list.
pub fn resolve_pane_selection(list: &Vec<TmuxPane>, prev: &Option<String>) -> (sel: Option<usize>)
    ensures
        selection_resolved(pane_keys(list@), opt_str_key(*prev), sel),
{
    if list.len() == 0 {
        return None;
    }
    match prev {
        Some(id) => {
            let found = find_pane_by_id(list, id);
            match found {
                Some(i) => {
                    assert(pane_keys(list@).contains(id@)) by {
                        assert(pane_keys(list@)[i as int] == id@);
                    }
                    Some(i)
                },
                None => {
                    assert(!pane_keys(list@).contains(id@)) by {
                        assert(forall|j: int| 0 <= j < list@.len() ==> pane_keys(list@)[j] != id@);
                    }
                    Some(0)
                },
            }
        },
        None => Some(0),
    }
}

} // verus!
