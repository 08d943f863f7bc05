//! Native handles and the identity map that ties each of them to the stable
//! logical identifier the application chose for the object.

use vstd::prelude::*;

verus! {

/// Kind tag of the custom handle that a timer tick names.
pub const TIMER_HANDLE_KIND: u64 = 1;

/// An opaque native reference, held as its address or number.
#[derive(Clone, Copy, Debug, PartialEq, Eq, Structural)]
pub enum AnyHandle {
    Hwnd(usize),
    Hmenu(usize),
    /// A menu item: its parent menu and its command identifier.
    MenuItem(usize, u32),
    Hfont(usize),
    Hicon(usize),
    /// An embedding-defined handle: a kind tag and a number.
    Custom(u64, usize),
}

/// What a logical identifier names in the registry.
#[derive(Clone, Copy, Debug, PartialEq, Eq, Structural)]
pub enum ObjectKind {
    Value,
    Control,
    Resource,
}

/// One known object: its logical identifier and, unless it is a plain value,
/// the native handle that backs it.
#[derive(Clone, Copy, Debug, PartialEq, Eq, Structural)]
pub struct Entry {
    pub id: u64,
    pub kind: ObjectKind,
    pub handle: Option<AnyHandle>,
}

/// Whether some entry carries logical identifier `id`.
pub open spec fn has_id(s: Seq<Entry>, id: u64) -> bool {
    exists|i: int| 0 <= i < s.len() && (#[trigger] s[i]).id == id
}

/// Whether some entry is backed by handle `h`.
pub open spec fn has_handle(s: Seq<Entry>, h: AnyHandle) -> bool {
    exists|i: int| 0 <= i < s.len() && (#[trigger] s[i]).handle == Some(h)
}

/// The logical identifier that handle `h` resolves to, if any.
pub open spec fn id_of(s: Seq<Entry>, h: AnyHandle) -> Option<u64> {
    if has_handle(s, h) {
        Some(s[choose|i: int| 0 <= i < s.len() && (#[trigger] s[i]).handle == Some(h)].id)
    } else {
        None
    }
}

/// The entry carrying logical identifier `id` (meaningful when there is one).
pub open spec fn entry_of(s: Seq<Entry>, id: u64) -> Entry {
    s[choose|i: int| 0 <= i < s.len() && (#[trigger] s[i]).id == id]
}

/// The handle that logical identifier `id` resolves to, if any.
pub open spec fn handle_of(s: Seq<Entry>, id: u64) -> Option<AnyHandle> {
    if has_id(s, id) {
        entry_of(s, id).handle
    } else {
        None
    }
}

/// Identifiers are unique, and so are the handles present.
pub open spec fn entries_wf(s: Seq<Entry>) -> bool {
    &&& forall|i: int, j: int| 0 <= i < s.len() && 0 <= j < s.len() && i != j
        ==> (#[trigger] s[i]).id != (#[trigger] s[j]).id
    &&& forall|i: int, j: int| 0 <= i < s.len() && 0 <= j < s.len() && i != j
        && (#[trigger] s[i]).handle is Some ==> s[i].handle != (#[trigger] s[j]).handle
}

/// The entries left once the one carrying `id` is taken out.
pub open spec fn without_id(s: Seq<Entry>, id: u64) -> Seq<Entry> {
    s.filter(|e: Entry| e.id != id)
}

/// Bidirectional map between native handles and logical identifiers.
pub struct IdentityMap {
    pub entries: Vec<Entry>,
}

impl IdentityMap {
    pub open spec fn wf(&self) -> bool {
        entries_wf(self.entries@)
    }

    pub fn new() -> (r: IdentityMap)
        ensures
            r.wf(),
            r.entries@ == Seq::<Entry>::empty(),
    {
        IdentityMap { entries: Vec::new() }
    }

    /// Position of the entry carrying `id`.
    fn find_id(&self, id: u64) -> (r: Option<usize>)
        requires
            self.wf(),
        ensures
            r is None <==> !has_id(self.entries@, id),
            r matches Some(i) ==> i < self.entries@.len() && self.entries@[i as int].id == id,
    {
        let mut i: usize = 0;
        while i < self.entries.len()
            invariant
                i <= self.entries@.len(),
                forall|k: int| 0 <= k < i ==> (#[trigger] self.entries@[k]).id != id,
            decreases self.entries@.len() - i,
        {
            if self.entries[i].id == id {
                return Some(i);
            }
            i = i + 1;
        }
        None
    }

    /// Position of the entry backed by `h`.
    fn find_handle(&self, h: AnyHandle) -> (r: Option<usize>)
        requires
            self.wf(),
        ensures
            r is None <==> !has_handle(self.entries@, h),
            r matches Some(i) ==> i < self.entries@.len() && self.entries@[i as int].handle
                == Some(h),
    {
        let mut i: usize = 0;
        while i < self.entries.len()
            invariant
                i <= self.entries@.len(),
                forall|k: int| 0 <= k < i ==> (#[trigger] self.entries@[k]).handle != Some(h),
            decreases self.entries@.len() - i,
        {
            if self.entries[i].handle == Some(h) {
                return Some(i);
            }
            i = i + 1;
        }
        None
    }

    /// Whether logical identifier `id` is known.
    pub fn contains_id(&self, id: u64) -> (r: bool)
        requires
            self.wf(),
        ensures
            r == has_id(self.entries@, id),
    {
        self.find_id(id).is_some()
    }

    /// Whether native handle `h` belongs to a known object.
    pub fn contains_handle(&self, h: AnyHandle) -> (r: bool)
        requires
            self.wf(),
        ensures
            r == has_handle(self.entries@, h),
    {
        self.find_handle(h).is_some()
    }

    /// The logical identifier that `h` resolves to.
    pub fn id_from_handle(&self, h: AnyHandle) -> (r: Option<u64>)
        requires
            self.wf(),
        ensures
            r == id_of(self.entries@, h),
    {
        match self.find_handle(h) {
            Some(i) => {
                proof {
                    let s = self.entries@;
                    let j = choose|j: int| 0 <= j < s.len() && (#[trigger] s[j]).handle == Some(h);
                    assert(s[i as int].handle is Some);
                    assert(j == i as int);
                }
                Some(self.entries[i].id)
            },
            None => None,
        }
    }

    /// The handle that `id` resolves to; `None` for an unknown identifier
    /// and for a plain value.
    pub fn handle_from_id(&self, id: u64) -> (r: Option<AnyHandle>)
        requires
            self.wf(),
        ensures
            r == handle_of(self.entries@, id),
    {
        match self.find_id(id) {
            Some(i) => {
                proof {
                    let s = self.entries@;
                    let j = choose|j: int| 0 <= j < s.len() && (#[trigger] s[j]).id == id;
                    assert(j == i as int);
                }
                self.entries[i].handle
            },
            None => None,
        }
    }

    /// Adds `e`, unless its identifier or its handle is already taken.
    pub fn insert(&mut self, e: Entry) -> (r: bool)
        requires
            old(self).wf(),
        ensures
            final(self).wf(),
            r == (!has_id(old(self).entries@, e.id) && !(e.handle matches Some(h) && has_handle(
                old(self).entries@,
                h,
            ))),
            r ==> final(self).entries@ == old(self).entries@.push(e),
            !r ==> final(self).entries@ == old(self).entries@,
    {
        if self.contains_id(e.id) {
            return false;
        }
        match e.handle {
            Some(h) => {
                if self.contains_handle(h) {
                    return false;
                }
            },
            None => {},
        }
        self.entries.push(e);
        true
    }

    /// Takes out the entry carrying `id`, and returns it.
    pub fn remove(&mut self, id: u64) -> (r: Option<Entry>)
        requires
            old(self).wf(),
        ensures
            final(self).wf(),
            r is None <==> !has_id(old(self).entries@, id),
            r matches Some(e) ==> e.id == id && e == entry_of(old(self).entries@, id),
            final(self).entries@ == without_id(old(self).entries@, id),
            r is None ==> final(self).entries@ == old(self).entries@,
    {
        match self.find_id(id) {
            Some(i) => {
                let ghost s = self.entries@;
                proof {
                    let j = choose|j: int| 0 <= j < s.len() && (#[trigger] s[j]).id == id;
                    assert(j == i as int);
                    lemma_without_id_at(s, i as int);
                }
                let e = self.entries.remove(i);
                Some(e)
            },
            None => {
                proof {
                    lemma_without_absent_id(self.entries@, id);
                }
                None
            },
        }
    }
}

/// In a well-formed map, the entry backed by a handle is the one it resolves to.
pub proof fn lemma_id_of_at(s: Seq<Entry>, i: int)
    requires
        entries_wf(s),
        0 <= i < s.len(),
        s[i].handle is Some,
    ensures
        id_of(s, s[i].handle->0) == Some(s[i].id),
        has_id(s, s[i].id),
{
    let h = s[i].handle->0;
    let j = choose|j: int| 0 <= j < s.len() && (#[trigger] s[j]).handle == Some(h);
    assert(j == i);
}

/// In a well-formed map, an identifier resolves to the handle of its entry.
pub proof fn lemma_handle_of_at(s: Seq<Entry>, i: int)
    requires
        entries_wf(s),
        0 <= i < s.len(),
    ensures
        handle_of(s, s[i].id) == s[i].handle,
        entry_of(s, s[i].id) == s[i],
        has_id(s, s[i].id),
{
    let j = choose|j: int| 0 <= j < s.len() && (#[trigger] s[j]).id == s[i].id;
    assert(j == i);
}

/// Filtering out an identifier that no entry carries changes nothing.
pub proof fn lemma_without_absent_id(s: Seq<Entry>, id: u64)
    requires
        !has_id(s, id),
    ensures
        without_id(s, id) == s,
    decreases s.len(),
{
    reveal(Seq::filter);
    if s.len() > 0 {
        assert(s.drop_last().len() < s.len());
        assert forall|i: int| 0 <= i < s.drop_last().len() implies (#[trigger] s.drop_last()[i]).id
            != id by {
            assert(s[i].id != id);
        }
        lemma_without_absent_id(s.drop_last(), id);
        assert(s[s.len() - 1].id != id);
        assert(s.drop_last().push(s.last()) =~= s);
    }
}

/// With unique identifiers, filtering one out removes exactly its position.
pub proof fn lemma_without_id_at(s: Seq<Entry>, i: int)
    requires
        entries_wf(s),
        0 <= i < s.len(),
    ensures
        without_id(s, s[i].id) == s.remove(i),
        entries_wf(s.remove(i)),
    decreases s.len(),
{
    let id = s[i].id;
    reveal(Seq::filter);
    if i == s.len() - 1 {
        assert forall|k: int| 0 <= k < s.drop_last().len() implies (#[trigger] s.drop_last()[k]).id
            != id by {
            assert(s[k].id != s[i].id);
        }
        lemma_without_absent_id(s.drop_last(), id);
        assert(s.remove(i) =~= s.drop_last());
    } else {
        let t = s.drop_last();
        assert(entries_wf(t)) by {
            assert forall|a: int, b: int| 0 <= a < t.len() && 0 <= b < t.len() && a != b
                implies (#[trigger] t[a]).id != (#[trigger] t[b]).id by {
                assert(t[a] == s[a] && t[b] == s[b]);
            }
            assert forall|a: int, b: int| 0 <= a < t.len() && 0 <= b < t.len() && a != b && (
            #[trigger] t[a]).handle is Some implies t[a].handle != (#[trigger] t[b]).handle by {
                assert(t[a] == s[a] && t[b] == s[b]);
            }
        }
        assert(t[i] == s[i]);
        lemma_without_id_at(t, i);
        assert(s.last().id != id);
        assert(s.remove(i) =~= t.remove(i).push(s.last()));
    }
    let r = s.remove(i);
    assert forall|a: int, b: int| 0 <= a < r.len() && 0 <= b < r.len() && a != b implies (
    #[trigger] r[a]).id != (#[trigger] r[b]).id by {
        let a2 = if a < i { a } else { a + 1 };
        let b2 = if b < i { b } else { b + 1 };
        assert(r[a] == s[a2] && r[b] == s[b2]);
    }
    assert forall|a: int, b: int| 0 <= a < r.len() && 0 <= b < r.len() && a != b && (
    #[trigger] r[a]).handle is Some implies r[a].handle != (#[trigger] r[b]).handle by {
        let a2 = if a < i { a } else { a + 1 };
        let b2 = if b < i { b } else { b + 1 };
        assert(r[a] == s[a2] && r[b] == s[b2]);
    }
}

} // verus!
