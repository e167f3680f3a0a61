//! The dispatcher: static scheduling of the per-tick systems. Each system
//! is declared once, with the systems it must follow and the set of
//! resources and component types it reads and writes. Building the
//! dispatcher validates that every dependency was declared earlier and
//! assigns each system a stage such that a system runs strictly after its
//! dependencies and after every earlier system whose access set conflicts
//! with its own; systems sharing a stage have compatible access sets
//! (read/read only), so a parallel runner would be race-free. Execution
//! is in declaration order, which by construction respects the stages.

use vstd::prelude::*;

verus! {

/// Access-set bit for the transform storage.
pub const ACCESS_TRANSFORM: u32 = 1;

/// Access-set bit for the velocity storage.
pub const ACCESS_VELOCITY: u32 = 2;

/// Access-set bit for the display storage.
pub const ACCESS_DISPLAY: u32 = 4;

/// Access-set bit for the player storage.
pub const ACCESS_PLAYER: u32 = 8;

/// Access-set bit for the collider storage.
pub const ACCESS_COLLIDER: u32 = 16;

/// Access-set bit for the lifetime storage.
pub const ACCESS_LIFETIME: u32 = 32;

/// Access-set bit for the spinner storage.
pub const ACCESS_SPINNER: u32 = 64;

/// Access-set bit for the entity arena and the deferred buffer.
pub const ACCESS_ENTITIES: u32 = 128;

/// Access-set bit for the game-state resource.
pub const ACCESS_GAME_STATE: u32 = 256;

/// Access-set bit for the renderer-facing scene state.
pub const ACCESS_SCENE_STATE: u32 = 512;

/// Access-set bit for the tick-duration resource.
pub const ACCESS_DELTA_TIME: u32 = 1024;

/// Access-set bit for the window-size resource.
pub const ACCESS_WINDOW_SIZE: u32 = 2048;

/// Access-set bit for the keyboard event log.
pub const ACCESS_KEYBOARD_EVENTS: u32 = 4096;

/// Access-set bit for the window event log.
pub const ACCESS_WINDOW_EVENTS: u32 = 8192;

/// What a system touches: one bit per resource or component type, read
/// and write sets kept apart so read/read sharing is visible.
#[derive(Clone, Copy, Debug, PartialEq, Eq, Structural)]
pub struct AccessSet {
    pub reads: u32,
    pub writes: u32,
}

/// Two access sets conflict when either writes something the other reads
/// or writes; read/read overlap is compatible.
pub open spec fn spec_conflicts(a: AccessSet, b: AccessSet) -> bool {
    (a.writes & (b.reads | b.writes)) != 0 || (b.writes & (a.reads | a.writes)) != 0
}

/// Whether two access sets conflict.
pub fn conflicts(a: AccessSet, b: AccessSet) -> (r: bool)
    ensures
        r == spec_conflicts(a, b),
{
    (a.writes & (b.reads | b.writes)) != 0 || (b.writes & (a.reads | a.writes)) != 0
}

/// The names of the schedulable systems.
#[derive(Clone, Copy, Debug, PartialEq, Eq, Structural)]
pub enum SystemId {
    GameManager,
    AsteroidSpawner,
    PlayerMovement,
    PlayerCollision,
    VelocityApplicator,
    PlayerBoundsEnforcer,
    EntityLifetime,
    RepairPackManager,
    EntitySpinner,
    ParticleSpawner,
    BackgroundAnimator,
    Render,
}

/// One system's declaration: its name, the names of the systems it must
/// run after, and its access set.
pub struct SystemDecl {
    pub id: SystemId,
    pub deps: Vec<SystemId>,
    pub access: AccessSet,
}

/// Declaration `i` names declaration `j` as a dependency.
pub open spec fn spec_dep_on(decls: Seq<SystemDecl>, i: int, j: int) -> bool {
    exists|k: int| 0 <= k < decls[i].deps@.len() && decls[i].deps@[k] == decls[j].id
}

/// Every dependency of every declaration names some earlier declaration.
pub open spec fn spec_decls_valid(decls: Seq<SystemDecl>) -> bool {
    forall|i: int, k: int|
        0 <= i < decls.len() && 0 <= k < decls[i].deps@.len() ==> exists|j: int|
            0 <= j < i && decls[j].id == #[trigger] decls[i].deps@[k]
}

/// A dependency was declared that no earlier system carries.
#[derive(Clone, Copy, Debug, PartialEq, Eq, Structural)]
pub enum DispatchError {
    UnknownDependency,
}

/// The built schedule: the declarations in execution order and a stage
/// number per declaration.
pub struct Dispatcher {
    decls: Vec<SystemDecl>,
    stages: Vec<usize>,
}

impl Dispatcher {
    /// The declarations, in execution order.
    pub closed spec fn spec_decls(self) -> Seq<SystemDecl> {
        self.decls@
    }

    /// The stage assigned to declaration `i`.
    pub closed spec fn spec_stage(self, i: int) -> int {
        self.stages@[i] as int
    }

    /// How many stage entries exist (one per declaration once built).
    pub closed spec fn spec_stage_count(self) -> nat {
        self.stages@.len()
    }

    /// The schedule's guarantees: one stage per declaration; a system's
    /// stage lies strictly after the stage of every dependency and of
    /// every earlier conflicting system; and two distinct systems on the
    /// same stage never conflict, so running a stage in parallel would be
    /// race-free.
    pub open spec fn wf(self) -> bool {
        &&& self.spec_decls().len() == self.spec_stage_count()
        &&& forall|i: int, j: int|
            #![trigger self.spec_stage(i), self.spec_stage(j)]
            0 <= j < i < self.spec_decls().len() && (spec_dep_on(self.spec_decls(), i, j)
                || spec_conflicts(
                self.spec_decls()[i].access,
                self.spec_decls()[j].access,
            )) ==> self.spec_stage(j) < self.spec_stage(i)
        &&& forall|i: int, j: int|
            #![trigger self.spec_stage(i), self.spec_stage(j)]
            0 <= j < i < self.spec_decls().len() && self.spec_stage(i) == self.spec_stage(j)
                ==> !spec_conflicts(
                self.spec_decls()[i].access,
                self.spec_decls()[j].access,
            )
    }

    /// How many systems are scheduled.
    pub fn len(&self) -> (n: usize)
        ensures
            n == self.spec_decls().len(),
    {
        self.decls.len()
    }

    /// The name of the `i`-th system in execution order.
    pub fn id_at(&self, i: usize) -> (id: SystemId)
        requires
            i < self.spec_decls().len(),
        ensures
            id == self.spec_decls()[i as int].id,
    {
        self.decls[i].id
    }

    /// The stage of the `i`-th system.
    pub fn stage_at(&self, i: usize) -> (s: usize)
        requires
            i < self.spec_decls().len(),
            self.wf(),
        ensures
            s == self.spec_stage(i as int),
    {
        self.stages[i]
    }

    /// Build the schedule from the declarations, in declaration order.
    /// This succeeds exactly when every declared dependency names an
    /// earlier declaration; each system is then placed one stage after
    /// the latest of its dependencies and of the earlier systems whose
    /// access sets conflict with its own.
    pub fn build(decls: Vec<SystemDecl>) -> (r: Result<Dispatcher, DispatchError>)
        ensures
            match r {
                Ok(d) => d.spec_decls() == decls@ && d.wf() && spec_decls_valid(decls@),
                Err(_) => !spec_decls_valid(decls@),
            },
    {
        let n = decls.len();
        let mut stages: Vec<usize> = Vec::new();
        let mut i: usize = 0;
        while i < n
            invariant
                n == decls@.len(),
                0 <= i <= n,
                stages@.len() == i,
                forall|x: int| 0 <= x < i ==> #[trigger] stages@[x] <= x,
                forall|x: int, y: int|
                    #![trigger stages@[x], stages@[y]]
                    0 <= y < x < i && (spec_dep_on(decls@, x, y) || spec_conflicts(
                        decls@[x].access,
                        decls@[y].access,
                    )) ==> stages@[y] < stages@[x],
                forall|x: int, k: int|
                    0 <= x < i && 0 <= k < decls@[x].deps@.len() ==> exists|j: int|
                        0 <= j < x && decls@[j].id == #[trigger] decls@[x].deps@[k],
            decreases n - i,
        {
            // Every dependency must name an earlier declaration.
            let nd = decls[i].deps.len();
            let mut k: usize = 0;
            while k < nd
                invariant
                    n == decls@.len(),
                    0 <= i < n,
                    nd == decls@[i as int].deps@.len(),
                    0 <= k <= nd,
                    forall|k2: int|
                        0 <= k2 < k ==> exists|j: int|
                            0 <= j < i && decls@[j].id == #[trigger] decls@[i as int].deps@[k2],
                decreases nd - k,
            {
                let dep = decls[i].deps[k];
                let mut found = false;
                let mut j: usize = 0;
                while j < i
                    invariant
                        n == decls@.len(),
                        0 <= i < n,
                        0 <= j <= i,
                        dep == decls@[i as int].deps@[k as int],
                        found == exists|j2: int| 0 <= j2 < j && decls@[j2].id == dep,
                    decreases i - j,
                {
                    if decls[j].id == dep {
                        found = true;
                    }
                    j = j + 1;
                }
                if !found {
                    proof {
                        assert(!spec_decls_valid(decls@));
                    }
                    return Err(DispatchError::UnknownDependency);
                }
                k = k + 1;
            }

            // Place the system after its dependencies and conflicts.
            let mut stage: usize = 0;
            let mut j: usize = 0;
            while j < i
                invariant
                    n == decls@.len(),
                    0 <= i < n,
                    0 <= j <= i,
                    stages@.len() == i,
                    forall|x: int| 0 <= x < i ==> #[trigger] stages@[x] <= x,
                    stage <= i,
                    forall|y: int|
                        #![trigger stages@[y]]
                        0 <= y < j && (spec_dep_on(decls@, i as int, y) || spec_conflicts(
                            decls@[i as int].access,
                            decls@[y].access,
                        )) ==> stages@[y] < stage,
                decreases i - j,
            {
                let mut is_dep = false;
                let ndj = decls[i].deps.len();
                let mut k2: usize = 0;
                while k2 < ndj
                    invariant
                        n == decls@.len(),
                        0 <= i < n,
                        0 <= j < i,
                        ndj == decls@[i as int].deps@.len(),
                        0 <= k2 <= ndj,
                        is_dep == exists|k3: int|
                            0 <= k3 < k2 && decls@[i as int].deps@[k3] == decls@[j as int].id,
                    decreases ndj - k2,
                {
                    if decls[i].deps[k2] == decls[j].id {
                        is_dep = true;
                    }
                    k2 = k2 + 1;
                }
                proof {
                    if is_dep {
                        let k3 = choose|k3: int|
                            0 <= k3 < ndj && decls@[i as int].deps@[k3] == decls@[j as int].id;
                        assert(spec_dep_on(decls@, i as int, j as int));
                    } else if spec_dep_on(decls@, i as int, j as int) {
                        let k3 = choose|k3: int|
                            0 <= k3 < decls@[i as int].deps@.len() && decls@[i as int].deps@[k3]
                                == decls@[j as int].id;
                        assert(0 <= k3 < ndj && decls@[i as int].deps@[k3]
                            == decls@[j as int].id);
                        assert(false);
                    }
                    assert(is_dep == spec_dep_on(decls@, i as int, j as int));
                }
                let was_stage: usize = stage;
                if is_dep || conflicts(decls[i].access, decls[j].access) {
                    let candidate = stages[j] + 1;
                    if candidate > stage {
                        stage = candidate;
                    }
                }
                proof {
                    assert forall|y: int|
                        0 <= y < j + 1 && (spec_dep_on(decls@, i as int, y) || spec_conflicts(
                            decls@[i as int].access,
                            decls@[y].access,
                        )) implies stages@[y] < stage by {
                        if y < j {
                            assert(stages@[y] < was_stage);
                        }
                    }
                }
                j = j + 1;
            }
            let ghost stages_before = stages@;
            stages.push(stage);
            proof {
                assert forall|x: int, y: int|
                    #![trigger stages@[x], stages@[y]]
                    0 <= y < x < i + 1 && (spec_dep_on(decls@, x, y) || spec_conflicts(
                        decls@[x].access,
                        decls@[y].access,
                    )) implies stages@[y] < stages@[x] by {
                    if x < i {
                        assert(stages_before[y] < stages_before[x]);
                    } else {
                        assert(stages@[x] == stage);
                    }
                }
            }
            i = i + 1;
        }
        let d = Dispatcher { decls, stages };
        proof {
            assert forall|x: int, y: int|
                0 <= y < x < d.spec_decls().len() && d.spec_stage(x) == d.spec_stage(y)
                    implies !spec_conflicts(
                d.spec_decls()[x].access,
                d.spec_decls()[y].access,
            ) by {
                if spec_conflicts(d.spec_decls()[x].access, d.spec_decls()[y].access) {
                    assert(d.spec_stage(y) < d.spec_stage(x));
                }
            }
        }
        Ok(d)
    }
}

} // verus!
