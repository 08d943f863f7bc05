//! The part of the Control Registry that the dispatch core and the command
//! queue work against: the handle identity map, the callbacks bound to
//! (logical identifier, event) pairs in registration order, and the commands
//! that change them.

use vstd::prelude::*;

use crate::error::Error;
use crate::events::{Event, EventArgs, EventView};
use crate::handles::{
    entry_of, handle_of, has_handle, has_id, id_of, without_id, AnyHandle, Entry,
    IdentityMap, ObjectKind,
};

verus! {

/// A callback, named by `callback`, bound to `event` on the object `id`.
#[derive(Debug)]
pub struct Binding {
    pub id: u64,
    pub event: Event,
    pub callback: u64,
}

/// One callback invocation to run: the callback, the object that raised the
/// event, and the payload.
#[derive(Clone, Copy, Debug, PartialEq, Eq, Structural)]
pub struct Firing {
    pub callback: u64,
    pub id: u64,
    pub args: EventArgs,
}

/// A deferred operation on the registry.
#[derive(Debug)]
pub enum Command {
    /// Registers a plain application value under `id`.
    PackUserValue { id: u64 },
    /// Registers the control backed by `handle` under `id`.
    PackControl { id: u64, handle: AnyHandle },
    /// Registers the resource backed by `handle` under `id`.
    PackResource { id: u64, handle: AnyHandle },
    /// Forgets the object `id` and every callback bound to it.
    Unpack { id: u64 },
    /// Binds `callback` to `event` on object `id`.
    Bind { id: u64, event: Event, callback: u64 },
    /// Removes the binding of `callback` to `event` on object `id`.
    Unbind { id: u64, event: Event, callback: u64 },
    /// Raises `event` on object `id` with payload `args`.
    Trigger { id: u64, event: Event, args: EventArgs },
}

/// The mathematical value of a [`Registry`].
pub struct RegistryView {
    pub entries: Seq<Entry>,
    pub bindings: Seq<Binding>,
    /// Callback invocations raised by triggers, not yet taken by the caller.
    pub fired: Seq<Firing>,
    /// Objects forgotten by unpacking, whose native side is still to be released.
    pub released: Seq<Entry>,
}

pub struct Registry {
    pub objects: IdentityMap,
    pub bindings: Vec<Binding>,
    pub fired: Vec<Firing>,
    pub released: Vec<Entry>,
}

impl View for Registry {
    type V = RegistryView;

    open spec fn view(&self) -> RegistryView {
        RegistryView {
            entries: self.objects.entries@,
            bindings: self.bindings@,
            fired: self.fired@,
            released: self.released@,
        }
    }
}

/// Whether `b` is taken out when removing the bindings of `id` (all of them
/// when `target` is `None`, else only those of that event and callback).
pub open spec fn removes(b: Binding, id: u64, target: Option<(EventView, u64)>) -> bool {
    b.id == id && match target {
        Some((e, cb)) => b.event@ == e && b.callback == cb,
        None => true,
    }
}

pub open spec fn kept_by(id: u64, target: Option<(EventView, u64)>) -> spec_fn(Binding) -> bool {
    |b: Binding| !removes(b, id, target)
}

/// The invocation that raising event `e` on `id` with `args` makes of binding `b`.
pub open spec fn trigger_firing(b: Binding, id: u64, e: EventView, args: EventArgs) -> Option<
    Firing,
> {
    if b.id == id && b.event@ == e {
        Some(Firing { callback: b.callback, id, args })
    } else {
        None
    }
}

pub open spec fn trigger_map(id: u64, e: EventView, args: EventArgs) -> spec_fn(Binding) -> Option<
    Firing,
> {
    |b: Binding| trigger_firing(b, id, e, args)
}

/// Whether a binding of `callback` to `e` on `id` exists.
pub open spec fn is_bound(s: Seq<Binding>, id: u64, e: EventView, callback: u64) -> bool {
    exists|i: int| 0 <= i < s.len() && removes(#[trigger] s[i], id, Some((e, callback)))
}

/// Registering entry `e`.
pub open spec fn pack(v: RegistryView, e: Entry) -> Result<RegistryView, Error> {
    if has_id(v.entries, e.id) {
        Err(Error::KeyExists)
    } else if e.handle matches Some(h) && has_handle(v.entries, h) {
        Err(Error::HandleInUse)
    } else {
        Ok(RegistryView { entries: v.entries.push(e), ..v })
    }
}

/// What executing command `c` does to registry `v`: the new registry, or the
/// error, in which case the registry is left as it was.
pub open spec fn apply(v: RegistryView, c: Command) -> Result<RegistryView, Error> {
    match c {
        Command::PackUserValue { id } => pack(v, Entry { id, kind: ObjectKind::Value, handle: None }),
        Command::PackControl { id, handle } => pack(
            v,
            Entry { id, kind: ObjectKind::Control, handle: Some(handle) },
        ),
        Command::PackResource { id, handle } => pack(
            v,
            Entry { id, kind: ObjectKind::Resource, handle: Some(handle) },
        ),
        Command::Unpack { id } => if !has_id(v.entries, id) {
            Err(Error::KeyNotFound)
        } else {
            Ok(
                RegistryView {
                    entries: without_id(v.entries, id),
                    bindings: v.bindings.filter(kept_by(id, None)),
                    fired: v.fired,
                    released: v.released.push(entry_of(v.entries, id)),
                },
            )
        },
        Command::Bind { id, event, callback } => if !has_id(v.entries, id) {
            Err(Error::KeyNotFound)
        } else {
            Ok(RegistryView { bindings: v.bindings.push(Binding { id, event, callback }), ..v })
        },
        Command::Unbind { id, event, callback } => if !has_id(v.entries, id) {
            Err(Error::KeyNotFound)
        } else if !is_bound(v.bindings, id, event@, callback) {
            Err(Error::CallbackNotFound)
        } else {
            Ok(
                RegistryView {
                    bindings: v.bindings.filter(kept_by(id, Some((event@, callback)))),
                    ..v
                },
            )
        },
        Command::Trigger { id, event, args } => if !has_id(v.entries, id) {
            Err(Error::KeyNotFound)
        } else {
            Ok(
                RegistryView {
                    fired: v.fired + v.bindings.filter_map(trigger_map(id, event@, args)),
                    ..v
                },
            )
        },
    }
}

/// The handle behind object `id`: `KeyNotFound` for an unknown identifier,
/// `BadResource` for a plain value, which has none.
pub open spec fn lookup_handle(s: Seq<Entry>, id: u64) -> Result<AnyHandle, Error> {
    if !has_id(s, id) {
        Err(Error::KeyNotFound)
    } else {
        match handle_of(s, id) {
            Some(h) => Ok(h),
            None => Err(Error::BadResource),
        }
    }
}

/// What a method reports, given what executing its command does.
pub open spec fn executed(old: RegistryView, new: RegistryView, r: Result<(), Error>, outcome: Result<
    RegistryView,
    Error,
>) -> bool {
    match outcome {
        Ok(v) => r is Ok && new == v,
        Err(e) => r == Err::<(), Error>(e) && new == old,
    }
}

pub open spec fn target_view(event: Option<&Event>, callback: u64) -> Option<(EventView, u64)> {
    match event {
        Some(e) => Some((e@, callback)),
        None => None,
    }
}

impl Registry {
    pub open spec fn wf(&self) -> bool {
        self.objects.wf()
    }

    pub fn new() -> (r: Registry)
        ensures
            r.wf(),
            r@.entries == Seq::<Entry>::empty(),
            r@.bindings == Seq::<Binding>::empty(),
            r@.fired == Seq::<Firing>::empty(),
            r@.released == Seq::<Entry>::empty(),
    {
        Registry {
            objects: IdentityMap::new(),
            bindings: Vec::new(),
            fired: Vec::new(),
            released: Vec::new(),
        }
    }

    /// The logical identifier that handle `h` resolves to.
    pub fn inner_id_from_handle(&self, h: AnyHandle) -> (r: Option<u64>)
        requires
            self.wf(),
        ensures
            r == id_of(self@.entries, h),
    {
        self.objects.id_from_handle(h)
    }

    /// Whether handle `h` belongs to a known object.
    pub fn has_handle(&self, h: AnyHandle) -> (r: bool)
        requires
            self.wf(),
        ensures
            r == has_handle(self@.entries, h),
    {
        self.objects.contains_handle(h)
    }

    /// Whether `id` names a known object.
    pub fn has_id(&self, id: u64) -> (r: bool)
        requires
            self.wf(),
        ensures
            r == has_id(self@.entries, id),
    {
        self.objects.contains_id(id)
    }

    /// The handle behind object `id`.
    pub fn handle_of(&self, id: u64) -> (r: Result<AnyHandle, Error>)
        requires
            self.wf(),
        ensures
            r == lookup_handle(self@.entries, id),
    {
        if !self.objects.contains_id(id) {
            return Err(Error::KeyNotFound);
        }
        match self.objects.handle_from_id(id) {
            Some(h) => Ok(h),
            None => Err(Error::BadResource),
        }
    }

    fn pack(&mut self, e: Entry) -> (r: Result<(), Error>)
        requires
            old(self).wf(),
        ensures
            final(self).wf(),
            executed(old(self)@, final(self)@, r, pack(old(self)@, e)),
    {
        if self.objects.contains_id(e.id) {
            return Err(Error::KeyExists);
        }
        if self.objects.insert(e) {
            Ok(())
        } else {
            Err(Error::HandleInUse)
        }
    }

    /// Registers a plain application value under `id`.
    pub fn pack_user_value(&mut self, id: u64) -> (r: Result<(), Error>)
        requires
            old(self).wf(),
        ensures
            final(self).wf(),
            executed(old(self)@, final(self)@, r, apply(old(self)@, Command::PackUserValue { id })),
    {
        self.pack(Entry { id, kind: ObjectKind::Value, handle: None })
    }

    /// Registers the control backed by `handle` under `id`.
    pub fn pack_control(&mut self, id: u64, handle: AnyHandle) -> (r: Result<(), Error>)
        requires
            old(self).wf(),
        ensures
            final(self).wf(),
            executed(
                old(self)@,
                final(self)@,
                r,
                apply(old(self)@, Command::PackControl { id, handle }),
            ),
    {
        self.pack(Entry { id, kind: ObjectKind::Control, handle: Some(handle) })
    }

    /// Registers the resource backed by `handle` under `id`.
    pub fn pack_resource(&mut self, id: u64, handle: AnyHandle) -> (r: Result<(), Error>)
        requires
            old(self).wf(),
        ensures
            final(self).wf(),
            executed(
                old(self)@,
                final(self)@,
                r,
                apply(old(self)@, Command::PackResource { id, handle }),
            ),
    {
        self.pack(Entry { id, kind: ObjectKind::Resource, handle: Some(handle) })
    }

    /// Takes out the bindings of `id` (those of `event` and `callback` only,
    /// when `event` is given), keeping the others in order.
    fn remove_bindings(&mut self, id: u64, event: Option<&Event>, callback: u64)
        requires
            old(self).wf(),
        ensures
            final(self).wf(),
            final(self)@ == (RegistryView {
                bindings: old(self)@.bindings.filter(kept_by(id, target_view(event, callback))),
                ..old(self)@
            }),
    {
        let ghost pred = kept_by(id, target_view(event, callback));
        let mut rest: Vec<Binding> = Vec::new();
        std::mem::swap(&mut rest, &mut self.bindings);
        let ghost orig = rest@;
        let ghost mut k: int = 0;
        assert(orig.take(0).filter(pred) =~= Seq::<Binding>::empty()) by {
            reveal(Seq::filter);
        }
        while rest.len() > 0
            invariant
                0 <= k <= orig.len(),
                rest@ == orig.skip(k),
                self.bindings@ == orig.take(k).filter(pred),
                self.objects == old(self).objects,
                self.fired == old(self).fired,
                self.released == old(self).released,
                orig == old(self)@.bindings,
                pred == kept_by(id, target_view(event, callback)),
            decreases rest@.len(),
        {
            let b = rest.remove(0);
            let drop = b.id == id && match event {
                Some(e) => b.event == *e && b.callback == callback,
                None => true,
            };
            proof {
                assert(b == orig[k]);
                assert(orig.take(k + 1).drop_last() =~= orig.take(k));
                assert(orig.take(k + 1).last() == orig[k]);
                reveal(Seq::filter);
                assert(drop == removes(b, id, target_view(event, callback)));
            }
            if !drop {
                self.bindings.push(b);
            }
            proof {
                k = k + 1;
                assert(rest@ =~= orig.skip(k));
            }
        }
        assert(orig.take(k) =~= orig);
    }

    /// Forgets object `id` and every callback bound to it; its entry is queued
    /// for the caller to release the native side.
    pub fn unpack(&mut self, id: u64) -> (r: Result<(), Error>)
        requires
            old(self).wf(),
        ensures
            final(self).wf(),
            executed(old(self)@, final(self)@, r, apply(old(self)@, Command::Unpack { id })),
    {
        match self.objects.remove(id) {
            Some(e) => {
                self.released.push(e);
                self.remove_bindings(id, None, 0);
                Ok(())
            },
            None => Err(Error::KeyNotFound),
        }
    }

    /// Binds `callback` to `event` on object `id`, after the callbacks already
    /// bound there.
    pub fn bind(&mut self, id: u64, event: Event, callback: u64) -> (r: Result<(), Error>)
        requires
            old(self).wf(),
        ensures
            final(self).wf(),
            executed(
                old(self)@,
                final(self)@,
                r,
                apply(old(self)@, Command::Bind { id, event, callback }),
            ),
    {
        if !self.objects.contains_id(id) {
            return Err(Error::KeyNotFound);
        }
        self.bindings.push(Binding { id, event, callback });
        Ok(())
    }

    fn find_binding(&self, id: u64, event: &Event, callback: u64) -> (r: bool)
        ensures
            r == is_bound(self@.bindings, id, event@, callback),
    {
        let mut i: usize = 0;
        while i < self.bindings.len()
            invariant
                i <= self.bindings@.len(),
                forall|k: int| 0 <= k < i ==> !removes(
                    #[trigger] self.bindings@[k],
                    id,
                    Some((event@, callback)),
                ),
            decreases self.bindings@.len() - i,
        {
            let b = &self.bindings[i];
            if b.id == id && b.event == *event && b.callback == callback {
                assert(removes(self.bindings@[i as int], id, Some((event@, callback))));
                return true;
            }
            i = i + 1;
        }
        false
    }

    /// Removes the binding of `callback` to `event` on object `id`.
    pub fn unbind(&mut self, id: u64, event: Event, callback: u64) -> (r: Result<(), Error>)
        requires
            old(self).wf(),
        ensures
            final(self).wf(),
            executed(
                old(self)@,
                final(self)@,
                r,
                apply(old(self)@, Command::Unbind { id, event, callback }),
            ),
    {
        if !self.objects.contains_id(id) {
            return Err(Error::KeyNotFound);
        }
        if !self.find_binding(id, &event, callback) {
            return Err(Error::CallbackNotFound);
        }
        self.remove_bindings(id, Some(&event), callback);
        Ok(())
    }

    /// Raises `event` on object `id`: every callback bound to that pair is
    /// queued, in registration order, with payload `args`.
    pub fn trigger(&mut self, id: u64, event: Event, args: EventArgs) -> (r: Result<(), Error>)
        requires
            old(self).wf(),
        ensures
            final(self).wf(),
            executed(
                old(self)@,
                final(self)@,
                r,
                apply(old(self)@, Command::Trigger { id, event, args }),
            ),
    {
        if !self.objects.contains_id(id) {
            return Err(Error::KeyNotFound);
        }
        let ghost f = trigger_map(id, event@, args);
        let ghost s = self.bindings@;
        let mut i: usize = 0;
        assert(s.take(0).filter_map(f) =~= Seq::<Firing>::empty());
        while i < self.bindings.len()
            invariant
                i <= s.len(),
                s == self.bindings@,
                s == old(self)@.bindings,
                f == trigger_map(id, event@, args),
                self.objects == old(self).objects,
                self.released == old(self).released,
                self.fired@ == old(self)@.fired + s.take(i as int).filter_map(f),
            decreases s.len() - i,
        {
            proof {
                s.lemma_filter_map_take_succ(f, i as int);
            }
            let b = &self.bindings[i];
            if b.id == id && b.event == event {
                self.fired.push(Firing { callback: b.callback, id, args });
            }
            i = i + 1;
            proof {
                assert(self.fired@ =~= old(self)@.fired + s.take(i as int).filter_map(f));
            }
        }
        assert(s.take(s.len() as int) =~= s);
        Ok(())
    }

    /// Executes command `c`.
    pub fn execute(&mut self, c: Command) -> (r: Result<(), Error>)
        requires
            old(self).wf(),
        ensures
            final(self).wf(),
            executed(old(self)@, final(self)@, r, apply(old(self)@, c)),
    {
        match c {
            Command::PackUserValue { id } => self.pack_user_value(id),
            Command::PackControl { id, handle } => self.pack_control(id, handle),
            Command::PackResource { id, handle } => self.pack_resource(id, handle),
            Command::Unpack { id } => self.unpack(id),
            Command::Bind { id, event, callback } => self.bind(id, event, callback),
            Command::Unbind { id, event, callback } => self.unbind(id, event, callback),
            Command::Trigger { id, event, args } => self.trigger(id, event, args),
        }
    }

    /// Hands over the invocations raised by triggers, in order.
    pub fn take_fired(&mut self) -> (r: Vec<Firing>)
        requires
            old(self).wf(),
        ensures
            final(self).wf(),
            r@ == old(self)@.fired,
            final(self)@ == (RegistryView { fired: Seq::<Firing>::empty(), ..old(self)@ }),
    {
        let mut r: Vec<Firing> = Vec::new();
        std::mem::swap(&mut r, &mut self.fired);
        r
    }

    /// Hands over the entries forgotten by unpacking, in order.
    pub fn take_released(&mut self) -> (r: Vec<Entry>)
        requires
            old(self).wf(),
        ensures
            final(self).wf(),
            r@ == old(self)@.released,
            final(self)@ == (RegistryView { released: Seq::<Entry>::empty(), ..old(self)@ }),
    {
        let mut r: Vec<Entry> = Vec::new();
        std::mem::swap(&mut r, &mut self.released);
        r
    }
}

} // verus!
