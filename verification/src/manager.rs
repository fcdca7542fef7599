//! The script manager: the single point of mutable state for which script
//! instance, if any, is active.
//!
//! The manager serializes start, stop and replace requests; the host holds
//! one lock around the manager, so its methods observe one operation at a
//! time. A ghost history records every spawn and join of a script's
//! execution thread, and the manager's invariant keeps that history
//! well-formed: a spawn happens only once everything spawned before has
//! been joined. The laws at the bottom state what follows for every
//! reachable history: at most one execution thread is alive at any
//! instant, each start is preceded by a fully joined prior instance, and
//! of two stop requests in turn only the first performs a teardown.

use vstd::prelude::*;
use std::sync::Arc;
use crossbeam::channel::{Receiver, Sender};
use crate::channel::{channel_recv, channel_reply};
use crate::event::LuaEvent;
use crate::instance::{arc_clone, LuaInstance, ScriptOutcome, ScriptSources};
use crate::text::{join_failed_message, join_failed_msg};

verus! {

/// One lifecycle event of a script's execution thread, as the manager's
/// ghost history records it: the thread of the identified instance
/// started, or was joined after finishing or reacting to cancellation.
pub ghost enum LifeEvent {
    Spawn(nat),
    Join(nat),
}

/// The instance whose execution thread the trace leaves alive: the last
/// event decides, since a well-formed trace joins each spawn before the
/// next spawn.
pub open spec fn live_after(t: Seq<LifeEvent>) -> Option<nat> {
    if t.len() == 0 {
        None
    } else {
        match t.last() {
            LifeEvent::Spawn(i) => Some(i),
            LifeEvent::Join(_) => None,
        }
    }
}

pub open spec fn spawned_in(t: Seq<LifeEvent>, id: nat) -> bool {
    exists|k: int| 0 <= k < t.len() && t[k] == LifeEvent::Spawn(id)
}

pub open spec fn joined_in(t: Seq<LifeEvent>, id: nat) -> bool {
    exists|k: int| 0 <= k < t.len() && t[k] == LifeEvent::Join(id)
}

/// An execution thread is alive once spawned and until joined.
pub open spec fn alive_in(t: Seq<LifeEvent>, id: nat) -> bool {
    spawned_in(t, id) && !joined_in(t, id)
}

/// A well-formed lifecycle history: a thread is spawned only when no
/// thread is alive and under a fresh identity, and a join names exactly
/// the thread that is alive.
pub open spec fn trace_ok(t: Seq<LifeEvent>) -> bool
    decreases t.len(),
{
    if t.len() == 0 {
        true
    } else {
        let p = t.drop_last();
        trace_ok(p) && match t.last() {
            LifeEvent::Spawn(i) => live_after(p) is None && !spawned_in(p, i),
            LifeEvent::Join(i) => live_after(p) == Some(i),
        }
    }
}

proof fn lemma_push_mem(t: Seq<LifeEvent>, e: LifeEvent)
    ensures
        forall|id: nat| spawned_in(t.push(e), id) <==> (spawned_in(t, id) || e == LifeEvent::Spawn(
            id,
        )),
        forall|id: nat| joined_in(t.push(e), id) <==> (joined_in(t, id) || e == LifeEvent::Join(
            id,
        )),
{
    assert forall|id: nat|
        spawned_in(t.push(e), id) <==> (spawned_in(t, id) || e == LifeEvent::Spawn(id)) by {
        if spawned_in(t, id) {
            let k = choose|k: int| 0 <= k < t.len() && t[k] == LifeEvent::Spawn(id);
            assert(t.push(e)[k] == LifeEvent::Spawn(id));
        }
        if e == LifeEvent::Spawn(id) {
            assert(t.push(e)[t.len() as int] == e);
        }
        if spawned_in(t.push(e), id) {
            let k = choose|k: int| 0 <= k < t.push(e).len() && t.push(e)[k] == LifeEvent::Spawn(
                id,
            );
            if k < t.len() {
                assert(t[k] == LifeEvent::Spawn(id));
            }
        }
    }
    assert forall|id: nat|
        joined_in(t.push(e), id) <==> (joined_in(t, id) || e == LifeEvent::Join(id)) by {
        if joined_in(t, id) {
            let k = choose|k: int| 0 <= k < t.len() && t[k] == LifeEvent::Join(id);
            assert(t.push(e)[k] == LifeEvent::Join(id));
        }
        if e == LifeEvent::Join(id) {
            assert(t.push(e)[t.len() as int] == e);
        }
        if joined_in(t.push(e), id) {
            let k = choose|k: int| 0 <= k < t.push(e).len() && t.push(e)[k] == LifeEvent::Join(id);
            if k < t.len() {
                assert(t[k] == LifeEvent::Join(id));
            }
        }
    }
}

/// In a well-formed history a join can only name something spawned.
proof fn lemma_joined_implies_spawned(t: Seq<LifeEvent>)
    requires
        trace_ok(t),
    ensures
        forall|id: nat| joined_in(t, id) ==> spawned_in(t, id),
    decreases t.len(),
{
    if t.len() > 0 {
        let p = t.drop_last();
        let e = t.last();
        lemma_joined_implies_spawned(p);
        assert(p.push(e) =~= t);
        lemma_push_mem(p, e);
        assert forall|id: nat| joined_in(t, id) implies spawned_in(t, id) by {
            if joined_in(p, id) {
                assert(spawned_in(p, id));
                assert(spawned_in(p.push(e), id));
            } else {
                // the push lemma leaves only e == Join(id); the joined
                // thread is the live one, so p's last event is its spawn
                assert(e == LifeEvent::Join(id));
                assert(live_after(p) == Some(id));
                assert(p.last() == LifeEvent::Spawn(id));
                assert(p[p.len() - 1] == LifeEvent::Spawn(id));
                assert(spawned_in(p, id));
                assert(spawned_in(p.push(e), id));
            }
        }
    }
}

/// In a well-formed history, a thread is alive exactly when it is the one
/// the trace leaves live.
proof fn lemma_alive_iff_live(t: Seq<LifeEvent>)
    requires
        trace_ok(t),
    ensures
        forall|id: nat| alive_in(t, id) <==> live_after(t) == Some(id),
    decreases t.len(),
{
    if t.len() == 0 {
        assert forall|id: nat| !alive_in(t, id) by {
            assert(!spawned_in(t, id));
        }
    } else {
        let p = t.drop_last();
        let e = t.last();
        lemma_alive_iff_live(p);
        lemma_joined_implies_spawned(p);
        assert(p.push(e) =~= t);
        lemma_push_mem(p, e);
        match e {
            LifeEvent::Spawn(j) => {
                // nothing is alive in p, and j is fresh in p
                assert forall|id: nat| alive_in(t, id) <==> live_after(t) == Some(id) by {
                    assert(live_after(t) == Some(j));
                    if id == j {
                        assert(spawned_in(p.push(e), j));
                        if joined_in(p, j) {
                            assert(spawned_in(p, j));
                            assert(false);
                        }
                        assert(!joined_in(p.push(e), j));
                        assert(alive_in(t, j));
                    } else {
                        if alive_in(t, id) {
                            assert(spawned_in(p, id) && !joined_in(p, id));
                            assert(alive_in(p, id));
                            assert(live_after(p) == Some(id));
                            assert(false);
                        }
                    }
                }
            },
            LifeEvent::Join(j) => {
                assert(live_after(p) == Some(j));
                assert forall|id: nat| alive_in(t, id) <==> live_after(t) == Some(id) by {
                    assert(live_after(t) is None);
                    if alive_in(t, id) {
                        assert(!joined_in(p.push(e), id));
                        assert(id != j);
                        assert(spawned_in(p, id) && !joined_in(p, id));
                        assert(alive_in(p, id));
                        assert(live_after(p) == Some(id));
                        assert(false);
                    }
                }
            },
        }
    }
}

/// Well-formedness covers every prefix: what held while the history was
/// being written holds of each of its instants.
pub proof fn lemma_trace_ok_prefix(t: Seq<LifeEvent>, k: int)
    requires
        trace_ok(t),
        0 <= k <= t.len(),
    ensures
        trace_ok(t.take(k)),
    decreases t.len(),
{
    if k == t.len() {
        assert(t.take(k) =~= t);
    } else {
        assert(t.drop_last().take(k) =~= t.take(k));
        lemma_trace_ok_prefix(t.drop_last(), k);
    }
}

/// At most one script instance's execution thread is alive at any
/// instant: two identities alive in the same well-formed history are the
/// same identity. Applied to a prefix (`lemma_trace_ok_prefix`), this
/// covers every instant of an execution.
pub proof fn lemma_at_most_one_alive(t: Seq<LifeEvent>, a: nat, b: nat)
    requires
        trace_ok(t),
        alive_in(t, a),
        alive_in(t, b),
    ensures
        a == b,
{
    lemma_alive_iff_live(t);
}

/// At most one execution thread is alive at any instant of a well-formed
/// history: however the history continues, two identities alive after the
/// same prefix are the same identity.
pub proof fn lemma_at_most_one_alive_at_every_instant(t: Seq<LifeEvent>, k: int, a: nat, b: nat)
    requires
        trace_ok(t),
        0 <= k <= t.len(),
        alive_in(t.take(k), a),
        alive_in(t.take(k), b),
    ensures
        a == b,
{
    lemma_trace_ok_prefix(t, k);
    lemma_at_most_one_alive(t.take(k), a, b);
}

/// Each start is preceded by a fully joined prior instance: at the
/// instant of any spawn, everything spawned before has been joined — so a
/// replacement's commands can never interleave with its predecessor's.
pub proof fn lemma_spawn_sees_all_joined(t: Seq<LifeEvent>, k: int)
    requires
        trace_ok(t),
        0 <= k < t.len(),
        t[k] matches LifeEvent::Spawn(_),
    ensures
        forall|id: nat| spawned_in(t.take(k), id) ==> joined_in(t.take(k), id),
{
    lemma_trace_ok_prefix(t, k + 1);
    lemma_trace_ok_prefix(t, k);
    let tk1 = t.take(k + 1);
    assert(tk1.drop_last() =~= t.take(k));
    assert(tk1.last() == t[k]);
    assert(live_after(t.take(k)) is None);
    lemma_alive_iff_live(t.take(k));
    assert forall|id: nat| spawned_in(t.take(k), id) implies joined_in(t.take(k), id) by {
        if !joined_in(t.take(k), id) {
            assert(alive_in(t.take(k), id));
            assert(live_after(t.take(k)) == Some(id));
        }
    }
}

/// What one stop request does to the recorded history and the active
/// slot: a teardown of the active instance, or nothing.
pub open spec fn stop_transition(t: Seq<LifeEvent>, slot: Option<nat>) -> (Seq<LifeEvent>, Option<
    nat,
>) {
    match slot {
        Some(i) => (t.push(LifeEvent::Join(i)), None),
        None => (t, None),
    }
}

/// Of two stop requests in turn — as two racing callers are serialized by
/// the manager's lock — exactly one performs the join and teardown; the
/// second observes an empty slot and leaves the history untouched.
pub proof fn lemma_second_stop_is_noop(t: Seq<LifeEvent>, slot: Option<nat>)
    ensures
        ({
            let (t1, s1) = stop_transition(t, slot);
            let (t2, s2) = stop_transition(t1, s1);
            &&& t2 == t1
            &&& s2 is None
            &&& (slot is Some ==> t1.len() == t.len() + 1)
            &&& (slot is None ==> t1 == t)
        }),
{
}

/// The selection rule after one menu pick: nothing recognized deselects;
/// picking the active script again deselects it; picking another script
/// selects it.
pub open spec fn selection_after(clicked: Option<Seq<char>>, active: Option<Seq<char>>) -> Option<
    Seq<char>,
> {
    match clicked {
        None => None,
        Some(c) => if active == Some(c) {
            None
        } else {
            Some(c)
        },
    }
}

/// The next active selection after a menu pick: re-selecting the active
/// script deselects it — the caller then stops it — and selecting another
/// replaces it.
pub fn next_selection(clicked: Option<&String>, active: &Option<String>) -> (r: Option<String>)
    ensures
        (match r {
            None => None,
            Some(n) => Some(n@),
        }) == selection_after(
            match clicked {
                None => None,
                Some(c) => Some(c@),
            },
            match active {
                None => None,
                Some(a) => Some(a@),
            },
        ),
{
    match clicked {
        None => None,
        Some(c) => match active {
            Some(a) => if a.eq(c) {
                None
            } else {
                Some(c.clone())
            },
            None => Some(c.clone()),
        },
    }
}

/// The active script: the shared instance handle (the execution thread
/// holds the other reference), the channel on which that thread reports
/// its outcome when it ends — receiving on it is the join — and the
/// instance's ghost identity in the lifecycle history.
pub struct ActiveScript {
    pub instance: Arc<LuaInstance>,
    pub done: Receiver<ScriptOutcome>,
    pub id: Ghost<nat>,
}

/// The single point of mutable state for the active script. The host
/// wraps it in one lock; each method is one atomic slot operation.
pub struct LuaManager {
    current: Option<ActiveScript>,
    hist: Ghost<Seq<LifeEvent>>,
    next_id: Ghost<nat>,
}

impl LuaManager {
    /// The recorded lifecycle history of every instance this manager has
    /// started.
    pub closed spec fn history(&self) -> Seq<LifeEvent> {
        self.hist@
    }

    /// The identity of the active instance, if one is installed.
    pub closed spec fn active_id(&self) -> Option<nat> {
        match self.current {
            Some(a) => Some(a.id@),
            None => None,
        }
    }

    /// The manager's invariant: the history is well-formed, the slot holds
    /// exactly the instance the history leaves alive, and identities are
    /// never reused.
    pub closed spec fn inv(&self) -> bool {
        &&& trace_ok(self.hist@)
        &&& live_after(self.hist@) == self.active_id()
        &&& forall|i: nat| spawned_in(self.hist@, i) ==> i < self.next_id@
    }

    /// A manager with an empty slot and an empty history.
    pub fn new() -> (m: LuaManager)
        ensures
            m.inv(),
            m.active_id() is None,
            m.history() == Seq::<LifeEvent>::empty(),
    {
        let m = LuaManager { current: None, hist: Ghost(Seq::empty()), next_id: Ghost(0) };
        proof {
            assert(m.hist@.len() == 0);
        }
        m
    }

    /// Whether a script instance is currently installed.
    pub fn is_active(&self) -> (b: bool)
        ensures
            b == (self.active_id() is Some),
    {
        self.current.is_some()
    }

    /// Stops the current instance, if any: raises its cancellation flag,
    /// joins its execution thread — blocking until the running script
    /// observes cancellation or finishes — and clears the slot. With no
    /// active instance this is a no-op returning success. It fails only
    /// when the execution thread cannot be joined, and the slot is
    /// cleared regardless.
    pub fn stop_current(&mut self) -> (r: Result<(), String>)
        requires
            old(self).inv(),
        ensures
            final(self).inv(),
            final(self).active_id() is None,
            (final(self).history(), final(self).active_id()) == stop_transition(
                old(self).history(),
                old(self).active_id(),
            ),
            old(self).active_id() is None ==> r is Ok && *final(self) == *old(self),
            r matches Err(m) ==> m@ == join_failed_msg() && old(self).active_id() is Some,
    {
        match self.current.take() {
            None => Ok(()),
            Some(active) => {
                let ghost i = active.id@;
                let _ = active.instance.stop();
                let joined = channel_recv(&active.done);
                proof {
                    let newh = self.hist@.push(LifeEvent::Join(i));
                    lemma_push_mem(self.hist@, LifeEvent::Join(i));
                    assert(newh.drop_last() =~= self.hist@);
                    assert forall|x: nat| spawned_in(newh, x) implies x < self.next_id@ by {
                        assert(spawned_in(self.hist@, x));
                    }
                }
                self.hist = Ghost(self.hist@.push(LifeEvent::Join(i)));
                match joined {
                    Ok(_outcome) => Ok(()),
                    Err(()) => Err(join_failed_message()),
                }
            },
        }
    }

    /// Starts the script built from the given sources: stops the current
    /// instance (if any) synchronously, constructs a new instance —
    /// `spawn_worker` receives the new worker channel's receiving end —
    /// hands the instance to `spawn_executor` together with the channel on
    /// which its execution thread must report its outcome, and installs it
    /// as current. On any construction failure the slot is left empty and
    /// the error is returned; a failure of the execution itself is
    /// reported later, on the execution thread, never here.
    pub fn execute_from_file<W, E>(
        &mut self,
        sources: &ScriptSources,
        spawn_worker: W,
        spawn_executor: E,
    ) -> (r: Result<(), String>) where
        W: FnOnce(Receiver<LuaEvent>),
        E: FnOnce(Arc<LuaInstance>, Sender<ScriptOutcome>),

        requires
            old(self).inv(),
            forall|rx: Receiver<LuaEvent>| #[trigger] spawn_worker.requires((rx,)),
            forall|inst: Arc<LuaInstance>, tx: Sender<ScriptOutcome>|
                #[trigger] spawn_executor.requires((inst, tx)),
        ensures
            final(self).inv(),
            ({
                let (stopped, _) = stop_transition(old(self).history(), old(self).active_id());
                match r {
                    Ok(()) => final(self).active_id() matches Some(j) && final(self).history()
                        == stopped.push(LifeEvent::Spawn(j)) && !spawned_in(stopped, j),
                    Err(_) => final(self).active_id() is None && final(self).history() == stopped,
                }
            }),
    {
        self.stop_current()?;
        let instance = match LuaInstance::create_from_file(sources, spawn_worker) {
            Ok(i) => i,
            Err(m) => {
                return Err(m);
            },
        };
        let inst = Arc::new(instance);
        let inst_for_thread = arc_clone(&inst);
        let (tx, rx) = channel_reply::<ScriptOutcome>();
        spawn_executor(inst_for_thread, tx);
        let ghost j = self.next_id@;
        proof {
            let newh = self.hist@.push(LifeEvent::Spawn(j));
            lemma_push_mem(self.hist@, LifeEvent::Spawn(j));
            assert(newh.drop_last() =~= self.hist@);
            assert forall|x: nat| spawned_in(newh, x) implies x < j + 1 by {
                if x != j {
                    assert(spawned_in(self.hist@, x));
                }
            }
        }
        self.current = Some(ActiveScript { instance: inst, done: rx, id: Ghost(j) });
        self.hist = Ghost(self.hist@.push(LifeEvent::Spawn(j)));
        self.next_id = Ghost(j + 1);
        Ok(())
    }
}

} // verus!
