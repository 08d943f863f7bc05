//! Tracks which windows carry the dispatcher's subclass layer. The native
//! side installs or removes the layer when, and only when, these functions say
//! so; a window therefore never carries the layer twice.

use vstd::prelude::*;

verus! {

/// The set of windows whose messages reach the dispatcher.
pub struct SubclassTracker {
    pub hooked: Vec<usize>,
}

impl View for SubclassTracker {
    type V = Set<usize>;

    open spec fn view(&self) -> Set<usize> {
        self.hooked@.to_set()
    }
}

impl SubclassTracker {
    /// No window is listed twice.
    pub open spec fn wf(&self) -> bool {
        self.hooked@.no_duplicates()
    }

    pub fn new() -> (r: SubclassTracker)
        ensures
            r.wf(),
            r@ == Set::<usize>::empty(),
    {
        let r = SubclassTracker { hooked: Vec::new() };
        assert(r@ =~= Set::<usize>::empty());
        r
    }

    fn position(&self, hwnd: usize) -> (r: Option<usize>)
        ensures
            r is None <==> !self@.contains(hwnd),
            r matches Some(i) ==> i < self.hooked@.len() && self.hooked@[i as int] == hwnd,
    {
        let mut i: usize = 0;
        while i < self.hooked.len()
            invariant
                i <= self.hooked@.len(),
                forall|k: int| 0 <= k < i ==> self.hooked@[k] != hwnd,
            decreases self.hooked@.len() - i,
        {
            if self.hooked[i] == hwnd {
                return Some(i);
            }
            i = i + 1;
        }
        proof {
            assert(!self.hooked@.contains(hwnd));
        }
        None
    }

    /// Whether `hwnd` carries the dispatcher's layer.
    pub fn is_hooked(&self, hwnd: usize) -> (r: bool)
        ensures
            r == self@.contains(hwnd),
    {
        self.position(hwnd).is_some()
    }

    /// Records `hwnd` as hooked; `true` when it was not already, which is
    /// when the native layer must be installed.
    pub fn set_window_subclass(&mut self, hwnd: usize) -> (r: bool)
        requires
            old(self).wf(),
        ensures
            final(self).wf(),
            final(self)@ == old(self)@.insert(hwnd),
            r == !old(self)@.contains(hwnd),
    {
        if self.is_hooked(hwnd) {
            proof {
                assert(self@.insert(hwnd) =~= self@);
            }
            return false;
        }
        let ghost s = self.hooked@;
        self.hooked.push(hwnd);
        proof {
            assert(s.push(hwnd).to_set() =~= s.to_set().insert(hwnd)) by {
                assert forall|x: usize| s.push(hwnd).contains(x) <==> (s.contains(x) || x == hwnd) by {
                    if s.contains(x) {
                        let k = choose|k: int| 0 <= k < s.len() && s[k] == x;
                        assert(s.push(hwnd)[k] == x);
                    }
                    if x == hwnd {
                        assert(s.push(hwnd)[s.len() as int] == x);
                    }
                    if s.push(hwnd).contains(x) && x != hwnd {
                        let k = choose|k: int| 0 <= k < s.len() + 1 && s.push(hwnd)[k] == x;
                        assert(s[k] == x);
                    }
                }
            }
        }
        true
    }

    /// Forgets `hwnd`; `true` when it was hooked, which is when the native
    /// layer must be removed.
    pub fn get_window_subclass(&mut self, hwnd: usize) -> (r: bool)
        requires
            old(self).wf(),
        ensures
            final(self).wf(),
            final(self)@ == old(self)@.remove(hwnd),
            r == old(self)@.contains(hwnd),
    {
        match self.position(hwnd) {
            Some(i) => {
                let ghost s = self.hooked@;
                self.hooked.remove(i);
                proof {
                    let t = s.remove(i as int);
                    assert(t.no_duplicates()) by {
                        assert forall|a: int, b: int| 0 <= a < t.len() && 0 <= b < t.len() && a != b
                            implies t[a] != t[b] by {
                            let a2 = if a < i { a } else { a + 1 };
                            let b2 = if b < i { b } else { b + 1 };
                            assert(t[a] == s[a2] && t[b] == s[b2]);
                        }
                    }
                    assert(t.to_set() =~= s.to_set().remove(hwnd)) by {
                        assert forall|x: usize| t.contains(x) <==> (s.contains(x) && x != hwnd) by {
                            if t.contains(x) {
                                let k = choose|k: int| 0 <= k < t.len() && t[k] == x;
                                let k2 = if k < i { k } else { k + 1 };
                                assert(s[k2] == x);
                                assert(k2 != i);
                            }
                            if s.contains(x) && x != hwnd {
                                let k = choose|k: int| 0 <= k < s.len() && s[k] == x;
                                assert(k != i);
                                let k2 = if k < i { k } else { k - 1 };
                                assert(t[k2] == x);
                            }
                        }
                    }
                }
                true
            },
            None => {
                proof {
                    assert(self@.remove(hwnd) =~= self@);
                }
                false
            },
        }
    }
}

/// Hooks the dispatcher onto window `handle`; `true` when the native layer
/// must be installed now, `false` when the window already carries it.
pub fn hook_window_events(tracker: &mut SubclassTracker, handle: usize) -> (r: bool)
    requires
        old(tracker).wf(),
    ensures
        final(tracker).wf(),
        final(tracker)@ == old(tracker)@.insert(handle),
        r == !old(tracker)@.contains(handle),
{
    tracker.set_window_subclass(handle)
}

/// Unhooks the dispatcher from window `handle`; `true` when the native layer
/// must be removed now, `false` when the window did not carry it.
pub fn unhook_window_events(tracker: &mut SubclassTracker, handle: usize) -> (r: bool)
    requires
        old(tracker).wf(),
    ensures
        final(tracker).wf(),
        final(tracker)@ == old(tracker)@.remove(handle),
        r == old(tracker)@.contains(handle),
{
    tracker.get_window_subclass(handle)
}

} // verus!
