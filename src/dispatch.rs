//! The dispatcher: turns one native message into the callback invocations it
//! causes. Typed events come first: for each bound event that listens to the
//! selector, the classifier names the object, the identity map resolves it,
//! and the extractor builds the payload; a miss at any step skips the binding.
//! Then, unless the message is in the private band, the callbacks bound to
//! `Any` on the receiving window get the raw message. The message is always
//! forwarded to default processing afterwards.

use vstd::prelude::*;

use crate::defs::{NWG_CUSTOM_MAX, NWG_CUSTOM_MIN};
use crate::events::{
    classify, extract, run_classifier, run_extractor, Classifier, Event, EventArgs, EventView,
    Extractor, NativeMessage,
};
use crate::events::selects;
use crate::handles::{has_id, id_of, without_id, AnyHandle, Entry};
use crate::hooks::SubclassTracker;
use crate::registry::{Binding, Firing, Registry, RegistryView};

verus! {

/// Whether `msg` lies in the band of identifiers reserved for this library.
pub open spec fn in_private_band(msg: u32) -> bool {
    NWG_CUSTOM_MIN <= msg <= NWG_CUSTOM_MAX
}

/// The invocation of binding `b` by a message that its event listens to,
/// through classifier `c` and extractor `x`.
pub open spec fn classified_firing(
    v: RegistryView,
    m: NativeMessage,
    b: Binding,
    x: Extractor,
    c: Classifier,
) -> Option<Firing> {
    match classify(c, m) {
        Some(h) => if id_of(v.entries, h) == Some(b.id) {
            match extract(x, m) {
                Some(a) => Some(Firing { callback: b.callback, id: b.id, args: a }),
                None => None,
            }
        } else {
            None
        },
        None => None,
    }
}

/// The invocation of binding `b` as a typed event of message `m`.
pub open spec fn typed_firing(v: RegistryView, m: NativeMessage, b: Binding) -> Option<Firing> {
    match b.event@ {
        EventView::Any => None,
        EventView::Single(s, x, c) => if s == m.msg {
            classified_firing(v, m, b, x, c)
        } else {
            None
        },
        EventView::Group(sels, x, c) => if sels.contains(m.msg) {
            classified_firing(v, m, b, x, c)
        } else {
            None
        },
    }
}

/// The invocation of binding `b` as a raw passthrough of message `m`.
pub open spec fn raw_firing(v: RegistryView, m: NativeMessage, b: Binding) -> Option<Firing> {
    if b.event@ is Any && !in_private_band(m.msg) && id_of(v.entries, AnyHandle::Hwnd(m.hwnd))
        == Some(b.id) {
        Some(Firing { callback: b.callback, id: b.id, args: EventArgs::Raw(m.msg, m.w, m.l) })
    } else {
        None
    }
}

pub open spec fn typed_map(v: RegistryView, m: NativeMessage) -> spec_fn(Binding) -> Option<
    Firing,
> {
    |b: Binding| typed_firing(v, m, b)
}

pub open spec fn raw_map(v: RegistryView, m: NativeMessage) -> spec_fn(Binding) -> Option<
    Firing,
> {
    |b: Binding| raw_firing(v, m, b)
}

/// The typed invocations message `m` causes, in registration order.
pub open spec fn typed_firings(v: RegistryView, m: NativeMessage) -> Seq<Firing> {
    v.bindings.filter_map(typed_map(v, m))
}

/// The raw passthrough invocations message `m` causes, in registration order.
pub open spec fn raw_firings(v: RegistryView, m: NativeMessage) -> Seq<Firing> {
    v.bindings.filter_map(raw_map(v, m))
}

/// The typed and raw invocations message `m` causes when the windows in
/// `hooked` carry the dispatcher: none for a window that does not.
pub open spec fn delivered(hooked: Set<usize>, v: RegistryView, m: NativeMessage) -> (
    Seq<Firing>,
    Seq<Firing>,
) {
    if hooked.contains(m.hwnd) {
        (typed_firings(v, m), raw_firings(v, m))
    } else {
        (Seq::empty(), Seq::empty())
    }
}

/// What one message causes: the typed invocations, then the raw ones, and
/// whether the message goes on to default processing (it always does).
#[derive(Debug)]
pub struct Dispatch {
    pub typed: Vec<Firing>,
    pub raw: Vec<Firing>,
    pub forward: bool,
}

fn fire_classified(reg: &Registry, m: &NativeMessage, b: &Binding, x: Extractor, c: Classifier) -> (r:
    Option<Firing>)
    requires
        reg.wf(),
    ensures
        r == classified_firing(reg@, *m, *b, x, c),
{
    let h = match run_classifier(c, m) {
        Some(h) => h,
        None => return None,
    };
    match reg.inner_id_from_handle(h) {
        Some(id) => if id != b.id {
            return None;
        },
        None => return None,
    }
    match run_extractor(x, m) {
        Some(a) => Some(Firing { callback: b.callback, id: b.id, args: a }),
        None => None,
    }
}

fn fire_typed(reg: &Registry, m: &NativeMessage, b: &Binding) -> (r: Option<Firing>)
    requires
        reg.wf(),
    ensures
        r == typed_firing(reg@, *m, *b),
{
    match &b.event {
        Event::Any => None,
        Event::Single(s, x, c) => if *s == m.msg {
            fire_classified(reg, m, b, *x, *c)
        } else {
            None
        },
        Event::Group(_, x, c) => if b.event.selects(m.msg) {
            fire_classified(reg, m, b, *x, *c)
        } else {
            None
        },
    }
}

/// The invocations that message `m` causes in registry `reg`.
pub fn dispatch(reg: &Registry, m: &NativeMessage) -> (d: Dispatch)
    requires
        reg.wf(),
    ensures
        d.typed@ == typed_firings(reg@, *m),
        d.raw@ == raw_firings(reg@, *m),
        d.forward,
{
    let ghost s = reg@.bindings;
    let ghost ft = typed_map(reg@, *m);
    let ghost fr = raw_map(reg@, *m);
    let passthrough = !(NWG_CUSTOM_MIN <= m.msg && m.msg <= NWG_CUSTOM_MAX);
    let window_id = if passthrough {
        reg.inner_id_from_handle(AnyHandle::Hwnd(m.hwnd))
    } else {
        None
    };
    let mut typed: Vec<Firing> = Vec::new();
    let mut raw: Vec<Firing> = Vec::new();
    let mut i: usize = 0;
    assert(s.take(0).filter_map(ft) =~= Seq::<Firing>::empty());
    assert(s.take(0).filter_map(fr) =~= Seq::<Firing>::empty());
    while i < reg.bindings.len()
        invariant
            reg.wf(),
            i <= s.len(),
            s == reg.bindings@,
            ft == typed_map(reg@, *m),
            fr == raw_map(reg@, *m),
            passthrough == !in_private_band(m.msg),
            passthrough ==> window_id == id_of(reg@.entries, AnyHandle::Hwnd(m.hwnd)),
            !passthrough ==> window_id is None,
            typed@ == s.take(i as int).filter_map(ft),
            raw@ == s.take(i as int).filter_map(fr),
        decreases s.len() - i,
    {
        proof {
            s.lemma_filter_map_take_succ(ft, i as int);
            s.lemma_filter_map_take_succ(fr, i as int);
        }
        let b = &reg.bindings[i];
        match fire_typed(reg, m, b) {
            Some(f) => typed.push(f),
            None => {},
        }
        match (&b.event, window_id) {
            (Event::Any, Some(id)) => if id == b.id {
                raw.push(Firing { callback: b.callback, id, args: EventArgs::Raw(m.msg, m.w, m.l) });
            },
            _ => {},
        }
        i = i + 1;
        proof {
            assert(typed@ =~= s.take(i as int).filter_map(ft));
            assert(raw@ =~= s.take(i as int).filter_map(fr));
        }
    }
    assert(s.take(s.len() as int) =~= s);
    Dispatch { typed, raw, forward: true }
}

/// The dispatcher's entry point on a window: messages reach it only while
/// the window is hooked; the message is forwarded to default processing
/// either way.
pub fn process_events(tracker: &SubclassTracker, reg: &Registry, m: &NativeMessage) -> (d: Dispatch)
    requires
        reg.wf(),
    ensures
        (d.typed@, d.raw@) == delivered(tracker@, reg@, *m),
        d.forward,
{
    if tracker.is_hooked(m.hwnd) {
        dispatch(reg, m)
    } else {
        let d = Dispatch { typed: Vec::new(), raw: Vec::new(), forward: true };
        assert(d.typed@ =~= Seq::<Firing>::empty());
        assert(d.raw@ =~= Seq::<Firing>::empty());
        d
    }
}

/// Every element of `s.filter_map(f)` is some `f(s[i])`.
pub proof fn lemma_filter_map_from(s: Seq<Binding>, f: spec_fn(Binding) -> Option<Firing>, k: int)
    requires
        0 <= k < s.filter_map(f).len(),
    ensures
        exists|i: int| 0 <= i < s.len() && f(s[i]) == Some(#[trigger] s.filter_map(f)[k]),
    decreases s.len(),
{
    let rest = s.drop_last();
    match f(s.last()) {
        Some(x) => {
            if k == rest.filter_map(f).len() {
                assert(f(s[s.len() - 1]) == Some(s.filter_map(f)[k]));
            } else {
                lemma_filter_map_from(rest, f, k);
                let i = choose|i: int| 0 <= i < rest.len() && f(rest[i]) == Some(
                    #[trigger] rest.filter_map(f)[k],
                );
                assert(s[i] == rest[i]);
                assert(s.filter_map(f)[k] == rest.filter_map(f)[k]);
            }
        },
        None => {
            lemma_filter_map_from(rest, f, k);
            let i = choose|i: int| 0 <= i < rest.len() && f(rest[i]) == Some(
                #[trigger] rest.filter_map(f)[k],
            );
            assert(s[i] == rest[i]);
        },
    }
}

/// A map that gives nothing on every element gives an empty sequence.
pub proof fn lemma_filter_map_nothing(s: Seq<Binding>, f: spec_fn(Binding) -> Option<Firing>)
    requires
        forall|i: int| 0 <= i < s.len() ==> f(#[trigger] s[i]) is None,
    ensures
        s.filter_map(f).len() == 0,
    decreases s.len(),
{
    if s.len() > 0 {
        let rest = s.drop_last();
        assert forall|i: int| 0 <= i < rest.len() implies f(#[trigger] rest[i]) is None by {
            assert(rest[i] == s[i]);
        }
        lemma_filter_map_nothing(rest, f);
        assert(f(s[s.len() - 1]) is None);
    }
}

/// A message whose selector no bound event listens to fires no typed event
/// (and, as `dispatch` states, is still forwarded to default processing).
pub proof fn lemma_unselected_message_fires_nothing(v: RegistryView, m: NativeMessage)
    requires
        forall|i: int| 0 <= i < v.bindings.len() ==> !selects((#[trigger] v.bindings[i]).event@, m.msg)
            || v.bindings[i].event@ is Any,
    ensures
        typed_firings(v, m).len() == 0,
{
    let f = typed_map(v, m);
    assert forall|i: int| 0 <= i < v.bindings.len() implies f(#[trigger] v.bindings[i]) is None by {
        let b = v.bindings[i];
        assert(!selects(b.event@, m.msg) || b.event@ is Any);
    }
    lemma_filter_map_nothing(v.bindings, f);
}

/// Message `m2` is message `m1` with another selector.
pub open spec fn same_but_selector(m1: NativeMessage, m2: NativeMessage) -> bool {
    m2 == NativeMessage { msg: m2.msg, ..m1 }
}

/// A group event fires a binding alike whichever of its selectors arrived:
/// the same callback on the same object, with the payload its extractor
/// builds from the message that actually came.
pub proof fn lemma_group_binding_fires_alike(
    v: RegistryView,
    m1: NativeMessage,
    m2: NativeMessage,
    b: Binding,
)
    requires
        same_but_selector(m1, m2),
        b.event@ is Group,
        b.event@->Group_0.contains(m1.msg),
        b.event@->Group_0.contains(m2.msg),
    ensures
        typed_firing(v, m1, b) is Some <==> typed_firing(v, m2, b) is Some,
        typed_firing(v, m1, b) matches Some(f1) ==> typed_firing(v, m2, b) matches Some(f2)
            && f1.callback == f2.callback && f1.id == f2.id && Some(f1.args) == extract(
            b.event@->Group_1,
            m1,
        ) && Some(f2.args) == extract(b.event@->Group_1, m2),
{
    lemma_selector_blind(m1, m2);
}

/// Classifiers never read the selector, and whether an extractor succeeds
/// does not depend on it either.
proof fn lemma_selector_blind(m1: NativeMessage, m2: NativeMessage)
    requires
        same_but_selector(m1, m2),
    ensures
        forall|c: Classifier| classify(c, m1) == classify(c, m2),
        forall|x: Extractor| (extract(x, m1) is Some) == (extract(x, m2) is Some),
{
}

/// A registry in which every bound event treats two selectors alike (as a
/// group event over both does) fires the same callbacks on the same objects,
/// in the same order, whichever of the two arrived.
pub proof fn lemma_group_fires_same_callbacks(v: RegistryView, m1: NativeMessage, m2: NativeMessage)
    requires
        same_but_selector(m1, m2),
        forall|i: int| 0 <= i < v.bindings.len() ==> selects((#[trigger] v.bindings[i]).event@, m1.msg)
            == selects(v.bindings[i].event@, m2.msg),
    ensures
        typed_firings(v, m1).len() == typed_firings(v, m2).len(),
        forall|k: int| 0 <= k < typed_firings(v, m1).len() ==> (#[trigger] typed_firings(v, m1)[k]).callback
            == typed_firings(v, m2)[k].callback && typed_firings(v, m1)[k].id == typed_firings(
            v,
            m2,
        )[k].id,
{
    lemma_selector_blind(m1, m2);
    lemma_same_callbacks_prefix(v, m1, m2, v.bindings);
}

proof fn lemma_same_callbacks_prefix(
    v: RegistryView,
    m1: NativeMessage,
    m2: NativeMessage,
    s: Seq<Binding>,
)
    requires
        same_but_selector(m1, m2),
        forall|c: Classifier| classify(c, m1) == classify(c, m2),
        forall|x: Extractor| (extract(x, m1) is Some) == (extract(x, m2) is Some),
        forall|i: int| 0 <= i < s.len() ==> selects((#[trigger] s[i]).event@, m1.msg) == selects(
            s[i].event@,
            m2.msg,
        ),
    ensures
        s.filter_map(typed_map(v, m1)).len() == s.filter_map(typed_map(v, m2)).len(),
        forall|k: int| 0 <= k < s.filter_map(typed_map(v, m1)).len() ==> (#[trigger] s.filter_map(
            typed_map(v, m1),
        )[k]).callback == s.filter_map(typed_map(v, m2))[k].callback && s.filter_map(
            typed_map(v, m1),
        )[k].id == s.filter_map(typed_map(v, m2))[k].id,
    decreases s.len(),
{
    if s.len() > 0 {
        let rest = s.drop_last();
        assert forall|i: int| 0 <= i < rest.len() implies selects(
            (#[trigger] rest[i]).event@,
            m1.msg,
        ) == selects(rest[i].event@, m2.msg) by {
            assert(rest[i] == s[i]);
        }
        lemma_same_callbacks_prefix(v, m1, m2, rest);
        let b = s.last();
        assert(selects(s[s.len() - 1].event@, m1.msg) == selects(s[s.len() - 1].event@, m2.msg));
        let f1 = typed_firing(v, m1, b);
        let f2 = typed_firing(v, m2, b);
        assert(f1 is Some <==> f2 is Some);
        assert(f1 matches Some(a) ==> f2 matches Some(c) && a.callback == c.callback && a.id == c.id);
    }
}

/// Every invocation the dispatcher makes names an object the identity map
/// knows: an identifier no longer in the map fires none of its callbacks,
/// whatever message arrives for its former handle.
pub proof fn lemma_forgotten_id_never_fires(v: RegistryView, m: NativeMessage, id: u64)
    requires
        !has_id(v.entries, id),
    ensures
        forall|k: int| 0 <= k < typed_firings(v, m).len() ==> (#[trigger] typed_firings(v, m)[k]).id
            != id,
        forall|k: int| 0 <= k < raw_firings(v, m).len() ==> (#[trigger] raw_firings(v, m)[k]).id
            != id,
{
    assert forall|k: int| 0 <= k < typed_firings(v, m).len() implies (#[trigger] typed_firings(
        v,
        m,
    )[k]).id != id by {
        lemma_filter_map_from(v.bindings, typed_map(v, m), k);
        let i = choose|i: int| 0 <= i < v.bindings.len() && typed_map(v, m)(v.bindings[i]) == Some(
            #[trigger] v.bindings.filter_map(typed_map(v, m))[k],
        );
        let b = v.bindings[i];
        let (x, c) = match b.event@ {
            EventView::Single(_, x, c) => (x, c),
            EventView::Group(_, x, c) => (x, c),
            EventView::Any => (Extractor::NoArgs, Classifier::Window),
        };
        let h = classify(c, m)->Some_0;
        lemma_resolved_is_known(v.entries, h);
    }
    assert forall|k: int| 0 <= k < raw_firings(v, m).len() implies (#[trigger] raw_firings(
        v,
        m,
    )[k]).id != id by {
        lemma_filter_map_from(v.bindings, raw_map(v, m), k);
        lemma_resolved_is_known(v.entries, AnyHandle::Hwnd(m.hwnd));
    }
}

/// A handle resolves only to an identifier the map holds.
proof fn lemma_resolved_is_known(s: Seq<Entry>, h: AnyHandle)
    ensures
        id_of(s, h) matches Some(x) ==> has_id(s, x),
{
    if id_of(s, h) is Some {
        let i = choose|i: int| 0 <= i < s.len() && (#[trigger] s[i]).handle == Some(h);
        assert(s[i].id == id_of(s, h)->Some_0);
    }
}

/// Taking an identifier out of the identity map leaves no entry for it.
pub proof fn lemma_removed_id_unknown(s: Seq<Entry>, id: u64)
    ensures
        !has_id(without_id(s, id), id),
{
    let t = without_id(s, id);
    if has_id(t, id) {
        let i = choose|i: int| 0 <= i < t.len() && (#[trigger] t[i]).id == id;
        s.lemma_filter_pred(|e: Entry| e.id != id, i);
    }
}

/// Once an identifier is taken out of the identity map, no message fires any
/// callback on it, even while its bindings are still registered.
pub proof fn lemma_removed_id_never_fires(v: RegistryView, m: NativeMessage, id: u64)
    ensures
        ({
            let w = RegistryView { entries: without_id(v.entries, id), ..v };
            &&& forall|k: int| 0 <= k < typed_firings(w, m).len() ==> (#[trigger] typed_firings(
                w,
                m,
            )[k]).id != id
            &&& forall|k: int| 0 <= k < raw_firings(w, m).len() ==> (#[trigger] raw_firings(
                w,
                m,
            )[k]).id != id
        }),
{
    lemma_removed_id_unknown(v.entries, id);
    lemma_forgotten_id_never_fires(RegistryView { entries: without_id(v.entries, id), ..v }, m, id);
}

/// Hooking a window twice installs one dispatcher layer: the second hook
/// finds it there. Unhooking once then removes it, after which no message to
/// that window fires any callback.
pub proof fn lemma_hook_twice_unhook_once(hooked: Set<usize>, hwnd: usize, v: RegistryView, m: NativeMessage)
    requires
        m.hwnd == hwnd,
    ensures
        hooked.insert(hwnd).insert(hwnd) == hooked.insert(hwnd),
        hooked.insert(hwnd).contains(hwnd),
        delivered(hooked.insert(hwnd).insert(hwnd), v, m) == (typed_firings(v, m), raw_firings(v, m)),
        delivered(hooked.insert(hwnd).insert(hwnd).remove(hwnd), v, m) == (
            Seq::<Firing>::empty(),
            Seq::<Firing>::empty(),
        ),
{
    assert(hooked.insert(hwnd).insert(hwnd) =~= hooked.insert(hwnd));
}

} // verus!
