//! The command queue of one registry. Commands are posted in order and run
//! later by `commit`, which stops at the first failing command and leaves the
//! ones after it queued for the next `commit`.

use std::collections::VecDeque;

use vstd::prelude::*;

use crate::error::{Error, SystemError};
use crate::registry::{apply, Binding, Command, Registry, RegistryView};
use crate::events::Event;
use crate::handles::has_id;

verus! {

/// Prefix of the window class name of every message-only window.
pub const MESSAGE_HANDLE_CLASS_NAME: &'static str = "NWG_MESSAGE";

/// The window class name for the registries whose identifier type is
/// described by `discriminant`: registries of different identifier types get
/// different classes, so a command never reaches another type's procedure.
pub fn class_name(discriminant: &str) -> (r: String)
    ensures
        r@ == MESSAGE_HANDLE_CLASS_NAME@ + "-"@ + discriminant@,
{
    let prefix = String::from_str(MESSAGE_HANDLE_CLASS_NAME);
    let dashed = prefix.concat("-");
    dashed.concat(discriminant)
}

/// Running the queued commands `cmds` against `v` in order, stopping at the
/// first that fails: the registry after the run, the commands still queued,
/// and the error of the failing command, if one failed.
pub open spec fn run(v: RegistryView, cmds: Seq<Command>) -> (RegistryView, Seq<Command>, Option<
    Error,
>)
    decreases cmds.len(),
{
    if cmds.len() == 0 {
        (v, cmds, None)
    } else {
        match apply(v, cmds[0]) {
            Ok(v2) => run(v2, cmds.drop_first()),
            Err(e) => (v, cmds.drop_first(), Some(e)),
        }
    }
}

/// The command queue of one registry, tied to its message-only window.
pub struct MessageHandler {
    hwnd: usize,
    pending: VecDeque<Command>,
}

impl MessageHandler {
    /// The commands waiting, oldest first.
    pub closed spec fn queued(&self) -> Seq<Command> {
        self.pending@
    }

    /// The message-only window the commands travel through.
    pub closed spec fn window(&self) -> usize {
        self.hwnd
    }

    pub fn hwnd(&self) -> (r: usize)
        ensures
            r == self.window(),
    {
        self.hwnd
    }

    /// A handler on the message-only window the native side created, or the
    /// system error if it could not create one.
    pub fn new(window: Result<usize, SystemError>) -> (r: Result<MessageHandler, Error>)
        ensures
            window matches Ok(h) ==> r matches Ok(mh) && mh.window() == h && mh.queued().len() == 0,
            window matches Err(e) ==> r == Err::<MessageHandler, Error>(Error::System(e)),
    {
        match window {
            Ok(h) => Ok(MessageHandler { hwnd: h, pending: VecDeque::new() }),
            Err(e) => Err(Error::System(e)),
        }
    }

    /// The number of commands waiting.
    pub fn pending_len(&self) -> (r: usize)
        ensures
            r == self.queued().len(),
    {
        self.pending.len()
    }

    /// Queues `cmd` after the commands already waiting; nothing runs now.
    pub fn post(&mut self, cmd: Command)
        ensures
            final(self).queued() == old(self).queued().push(cmd),
            final(self).window() == old(self).window(),
    {
        self.pending.push_back(cmd);
    }

    /// Runs the waiting commands in post order against `reg`. `Ok` when all
    /// of them succeeded; otherwise the error of the first that failed, the
    /// commands before it done, and the ones after it still queued.
    pub fn commit(&mut self, reg: &mut Registry) -> (r: Result<(), Error>)
        requires
            old(reg).wf(),
        ensures
            final(reg).wf(),
            final(reg)@ == run(old(reg)@, old(self).queued()).0,
            final(self).queued() == run(old(reg)@, old(self).queued()).1,
            r matches Ok(_) <==> run(old(reg)@, old(self).queued()).2 is None,
            r matches Err(e) ==> run(old(reg)@, old(self).queued()).2 == Some(e),
            final(self).window() == old(self).window(),
    {
        let ghost total = run(reg@, self.pending@);
        loop
            invariant
                reg.wf(),
                total == run(old(reg)@, old(self).pending@),
                run(reg@, self.pending@) == total,
                self.hwnd == old(self).hwnd,
            decreases self.pending@.len(),
        {
            let ghost before = self.pending@;
            match self.pending.pop_front() {
                None => {
                    assert(before.len() == 0);
                    return Ok(());
                },
                Some(cmd) => {
                    assert(before[0] == cmd);
                    assert(self.pending@ =~= before.drop_first());
                    match reg.execute(cmd) {
                        Ok(()) => {},
                        Err(e) => {
                            return Err(e);
                        },
                    }
                },
            }
        }
    }

    /// Tears the queue down, dropping the commands still waiting, and hands
    /// back the message-only window for the native side to destroy.
    pub fn free(self) -> (r: usize)
        ensures
            r == self.window(),
    {
        self.hwnd
    }
}

/// Running one command is applying it: a posted bind, committed, adds exactly
/// the binding that was posted and leaves nothing queued.
pub proof fn lemma_post_commit_bind(v: RegistryView, id: u64, event: Event, callback: u64)
    requires
        has_id(v.entries, id),
    ensures
        run(v, seq![Command::Bind { id, event, callback }]) == (
            RegistryView { bindings: v.bindings.push(Binding { id, event, callback }), ..v },
            Seq::<Command>::empty(),
            None::<Error>,
        ),
{
    let s = seq![Command::Bind { id, event, callback }];
    let v2 = RegistryView { bindings: v.bindings.push(Binding { id, event, callback }), ..v };
    assert(s.drop_first() =~= Seq::<Command>::empty());
    assert(apply(v, s[0]) == Ok::<RegistryView, Error>(v2));
    assert(run(v2, s.drop_first()) == (v2, s.drop_first(), None::<Error>));
}

/// Commands run in post order: when the earlier ones all succeed, the later
/// ones run against the registry they left.
pub proof fn lemma_run_in_post_order(v: RegistryView, s1: Seq<Command>, s2: Seq<Command>)
    requires
        run(v, s1).2 is None,
    ensures
        run(v, s1 + s2) == run(run(v, s1).0, s2),
    decreases s1.len(),
{
    if s1.len() > 0 {
        assert((s1 + s2)[0] == s1[0]);
        assert((s1 + s2).drop_first() =~= s1.drop_first() + s2);
        match apply(v, s1[0]) {
            Ok(v2) => {
                lemma_run_in_post_order(v2, s1.drop_first(), s2);
            },
            Err(_) => {},
        }
    } else {
        assert(s1 + s2 =~= s2);
    }
}

/// When every command succeeds, all of them run and none stays queued.
pub proof fn lemma_run_drains_all(v: RegistryView, s: Seq<Command>)
    requires
        run(v, s).2 is None,
    ensures
        run(v, s).1.len() == 0,
    decreases s.len(),
{
    if s.len() > 0 {
        match apply(v, s[0]) {
            Ok(v2) => lemma_run_drains_all(v2, s.drop_first()),
            Err(_) => {},
        }
    }
}

/// When the commands before position `k` succeed and the one at `k` fails,
/// the run keeps the effects of the first `k`, reports the error of the one at
/// `k`, and leaves the commands after it queued.
pub proof fn lemma_run_stops_at_failure(v: RegistryView, s: Seq<Command>, k: int)
    requires
        0 <= k < s.len(),
        run(v, s.take(k)).2 is None,
        apply(run(v, s.take(k)).0, s[k]) is Err,
    ensures
        run(v, s) == (
            run(v, s.take(k)).0,
            s.skip(k + 1),
            Some(apply(run(v, s.take(k)).0, s[k])->Err_0),
        ),
{
    let tail = s.skip(k);
    assert(s =~= s.take(k) + tail);
    lemma_run_in_post_order(v, s.take(k), tail);
    assert(tail[0] == s[k]);
    assert(tail.drop_first() =~= s.skip(k + 1));
}

} // verus!
