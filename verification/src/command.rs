//! The deferred command buffer: entity and component mutations queued by
//! systems while they iterate, applied atomically at the tick's single
//! synchronization point. Until that point the queued mutations are
//! invisible to every storage; the fold specifications here say exactly
//! what each storage and the entity arena hold afterwards.

use vstd::prelude::*;

use crate::component::{Collider, Display, Lifetime, Player, Spinner, Transform, Velocity};
use crate::entity::Entity;

verus! {

/// One queued mutation.
#[derive(Clone, Copy, Debug, PartialEq, Eq, Structural)]
pub enum Command {
    InsertTransform(Entity, Transform),
    InsertVelocity(Entity, Velocity),
    InsertDisplay(Entity, Display),
    InsertPlayer(Entity, Player),
    InsertCollider(Entity, Collider),
    InsertLifetime(Entity, Lifetime),
    InsertSpinner(Entity, Spinner),
    DeleteEntity(Entity),
}

impl Command {
    /// Whatever component payload the command carries is well formed, so
    /// applying the buffer keeps the world's components well formed.
    pub open spec fn wf(self) -> bool {
        match self {
            Command::InsertTransform(_, t) => t.wf(),
            Command::InsertVelocity(_, v) => v.wf(),
            Command::InsertDisplay(_, _) => true,
            Command::InsertPlayer(_, p) => p.wf(),
            Command::InsertCollider(_, c) => c.wf(),
            Command::InsertLifetime(_, l) => l.wf(),
            Command::InsertSpinner(_, s) => s.wf(),
            Command::DeleteEntity(_) => true,
        }
    }
}

/// The queue of deferred mutations, in the order they were requested.
pub struct CommandBuffer {
    cmds: Vec<Command>,
}

impl CommandBuffer {
    /// The queued commands, oldest first.
    pub closed spec fn spec_commands(self) -> Seq<Command> {
        self.cmds@
    }

    /// An empty buffer.
    pub fn new() -> (r: CommandBuffer)
        ensures
            r.spec_commands() == Seq::<Command>::empty(),
    {
        let r = CommandBuffer { cmds: Vec::new() };
        proof {
            assert(r.spec_commands() =~= Seq::<Command>::empty());
        }
        r
    }

    /// Queue one mutation. Nothing but the queue changes; the mutation
    /// stays invisible to every storage until the synchronization point.
    pub fn push(&mut self, c: Command)
        ensures
            final(self).spec_commands() == old(self).spec_commands().push(c),
    {
        self.cmds.push(c);
    }

    /// How many mutations are queued.
    pub fn len(&self) -> (n: usize)
        ensures
            n == self.spec_commands().len(),
    {
        self.cmds.len()
    }

    /// The `i`-th queued mutation.
    pub fn get(&self, i: usize) -> (c: Command)
        requires
            i < self.spec_commands().len(),
        ensures
            c == self.spec_commands()[i as int],
    {
        self.cmds[i]
    }

    /// Discard every queued mutation.
    pub fn clear(&mut self)
        ensures
            final(self).spec_commands() == Seq::<Command>::empty(),
    {
        self.cmds = Vec::new();
        proof {
            assert(self.spec_commands() =~= Seq::<Command>::empty());
        }
    }
}

/// The component carried by `c` for the storage selected by `proj`, if any.
/// The `proj` argument is one of the `proj_*` functions below.
pub open spec fn proj_transform(c: Command) -> Option<(Entity, Transform)> {
    match c {
        Command::InsertTransform(e, t) => Some((e, t)),
        _ => None,
    }
}

pub open spec fn proj_velocity(c: Command) -> Option<(Entity, Velocity)> {
    match c {
        Command::InsertVelocity(e, v) => Some((e, v)),
        _ => None,
    }
}

pub open spec fn proj_display(c: Command) -> Option<(Entity, Display)> {
    match c {
        Command::InsertDisplay(e, d) => Some((e, d)),
        _ => None,
    }
}

pub open spec fn proj_player(c: Command) -> Option<(Entity, Player)> {
    match c {
        Command::InsertPlayer(e, p) => Some((e, p)),
        _ => None,
    }
}

pub open spec fn proj_collider(c: Command) -> Option<(Entity, Collider)> {
    match c {
        Command::InsertCollider(e, co) => Some((e, co)),
        _ => None,
    }
}

pub open spec fn proj_lifetime(c: Command) -> Option<(Entity, Lifetime)> {
    match c {
        Command::InsertLifetime(e, l) => Some((e, l)),
        _ => None,
    }
}

pub open spec fn proj_spinner(c: Command) -> Option<(Entity, Spinner)> {
    match c {
        Command::InsertSpinner(e, s) => Some((e, s)),
        _ => None,
    }
}

/// Whether `e` is live after the commands run against an initial liveness
/// predicate `live0`: live at the start and never deleted by the commands.
pub open spec fn live_after(live0: spec_fn(Entity) -> bool, cmds: Seq<Command>, e: Entity) -> bool
    decreases cmds.len(),
{
    if cmds.len() == 0 {
        live0(e)
    } else {
        live_after(live0, cmds.drop_last(), e) && cmds.last() != Command::DeleteEntity(e)
    }
}

/// The component `e` holds in one storage after the commands run: starting
/// from `get0`, each insert for a then-live `e` overwrites, and a delete of
/// a then-live `e` clears; commands aimed at dead identifiers are skipped.
pub open spec fn component_after<C>(
    get0: spec_fn(Entity) -> Option<C>,
    live0: spec_fn(Entity) -> bool,
    proj: spec_fn(Command) -> Option<(Entity, C)>,
    cmds: Seq<Command>,
    e: Entity,
) -> Option<C>
    decreases cmds.len(),
{
    if cmds.len() == 0 {
        get0(e)
    } else {
        let prev = component_after(get0, live0, proj, cmds.drop_last(), e);
        let live_before = live_after(live0, cmds.drop_last(), e);
        if cmds.last() == Command::DeleteEntity(e) {
            if live_before {
                None
            } else {
                prev
            }
        } else {
            match proj(cmds.last()) {
                Some((e2, c)) => if e2 == e && live_before {
                    Some(c)
                } else {
                    prev
                },
                None => prev,
            }
        }
    }
}

/// A queued deletion always takes effect: an entity deleted anywhere in
/// the command sequence is not live after it runs.
pub proof fn lemma_delete_queued_kills(
    live0: spec_fn(Entity) -> bool,
    cmds: Seq<Command>,
    j: int,
    e: Entity,
)
    requires
        0 <= j < cmds.len(),
        cmds[j] == Command::DeleteEntity(e),
    ensures
        !live_after(live0, cmds, e),
    decreases cmds.len(),
{
    if j == cmds.len() - 1 {
        assert(cmds.last() == Command::DeleteEntity(e));
    } else {
        assert(cmds.drop_last()[j] == cmds[j]);
        lemma_delete_queued_kills(live0, cmds.drop_last(), j, e);
    }
}

/// The synchronization guarantee for a queued insert: if `e` is live at the
/// start and no command deletes it, then after the commands run the storage
/// holds exactly the payload of the last insert aimed at `e` — the queued
/// component is fully present at the synchronization point.
pub proof fn lemma_last_insert_applied<C>(
    get0: spec_fn(Entity) -> Option<C>,
    live0: spec_fn(Entity) -> bool,
    proj: spec_fn(Command) -> Option<(Entity, C)>,
    cmds: Seq<Command>,
    k: int,
    e: Entity,
    c: C,
)
    requires
        live0(e),
        forall|j: int| 0 <= j < cmds.len() ==> cmds[j] != Command::DeleteEntity(e),
        0 <= k < cmds.len(),
        proj(cmds[k]) == Some((e, c)),
        forall|j: int|
            k < j < cmds.len() ==> match proj(#[trigger] cmds[j]) {
                Some((e2, _)) => e2 != e,
                None => true,
            },
    ensures
        component_after(get0, live0, proj, cmds, e) == Some(c),
    decreases cmds.len(),
{
    lemma_never_deleted_live(live0, cmds, e);
    if k == cmds.len() - 1 {
        lemma_never_deleted_live(live0, cmds.drop_last(), e);
        assert(forall|j: int|
            0 <= j < cmds.drop_last().len() ==> cmds.drop_last()[j] == cmds[j]);
        assert(cmds.last() == cmds[k]);
    } else {
        assert(forall|j: int|
            0 <= j < cmds.drop_last().len() ==> cmds.drop_last()[j] == cmds[j]);
        lemma_last_insert_applied(get0, live0, proj, cmds.drop_last(), k, e, c);
    }
}

/// An entity that no command deletes stays live exactly when it started
/// live.
pub proof fn lemma_never_deleted_live(
    live0: spec_fn(Entity) -> bool,
    cmds: Seq<Command>,
    e: Entity,
)
    requires
        forall|j: int| 0 <= j < cmds.len() ==> cmds[j] != Command::DeleteEntity(e),
    ensures
        live_after(live0, cmds, e) == live0(e),
    decreases cmds.len(),
{
    if cmds.len() > 0 {
        assert(forall|j: int|
            0 <= j < cmds.drop_last().len() ==> cmds.drop_last()[j] == cmds[j]);
        lemma_never_deleted_live(live0, cmds.drop_last(), e);
        assert(cmds.last() == cmds[cmds.len() - 1]);
    }
}

} // verus!
