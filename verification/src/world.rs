//! The orchestrator: owns the entity table, the registered per-entity
//! rules, the registered per-frame rules, and the two scoring channels.
//!
//! One frame runs every per-frame rule once, in registration order, and
//! then every per-entity rule against every entity, both in registration
//! order.  The exact effect of a frame is the [`frame`] function over a
//! [`FrameState`] snapshot; [`World::process`] is proved to realise it.

use vstd::prelude::*;

use crate::channel::ScoreChannel;
use crate::components::Components;
use crate::globalsystems::BotInputSystem;
use crate::globalsystems::GlobalSystem;
use crate::globalsystems::InputState;
use crate::globalsystems::KeyboardInputSystem;
use crate::globalsystems::ScoreUpdateSystem;
use crate::systems::EdgeCollisionSystem;
use crate::systems::MovementSystem;
use crate::systems::PaddleCollisionSystem;
use crate::systems::ScoreCollisionSystem;
use crate::systems::System;

verus! {

/// One registered per-entity rule.
#[derive(Clone, Copy)]
pub enum SystemReg {
    Movement(MovementSystem),
    EdgeCollision(EdgeCollisionSystem),
    ScoreCollision(ScoreCollisionSystem),
    PaddleCollision(PaddleCollisionSystem),
}

impl System for SystemReg {
    open spec fn s_valid(&self, n: int) -> bool {
        match *self {
            SystemReg::Movement(s) => s.s_valid(n),
            SystemReg::EdgeCollision(s) => s.s_valid(n),
            SystemReg::ScoreCollision(s) => s.s_valid(n),
            SystemReg::PaddleCollision(s) => s.s_valid(n),
        }
    }

    open spec fn sys_step(
        &self,
        entities: Seq<Components>,
        i: int,
        left: Seq<u64>,
        right: Seq<u64>,
    ) -> (Seq<Components>, Seq<u64>, Seq<u64>) {
        match *self {
            SystemReg::Movement(s) => s.sys_step(entities, i, left, right),
            SystemReg::EdgeCollision(s) => s.sys_step(entities, i, left, right),
            SystemReg::ScoreCollision(s) => s.sys_step(entities, i, left, right),
            SystemReg::PaddleCollision(s) => s.sys_step(entities, i, left, right),
        }
    }

    fn process(
        &self,
        entities: &mut Vec<Components>,
        i: usize,
        left: &mut ScoreChannel,
        right: &mut ScoreChannel,
    ) {
        match self {
            SystemReg::Movement(s) => s.process(entities, i, left, right),
            SystemReg::EdgeCollision(s) => s.process(entities, i, left, right),
            SystemReg::ScoreCollision(s) => s.process(entities, i, left, right),
            SystemReg::PaddleCollision(s) => s.process(entities, i, left, right),
        }
    }
}

/// One registered per-frame rule, with its internal state.
#[derive(Clone, Copy)]
pub enum GlobalSystemReg {
    Keyboard(KeyboardInputSystem),
    Bot(BotInputSystem),
    ScoreUpdate(ScoreUpdateSystem),
}

impl GlobalSystem for GlobalSystemReg {
    open spec fn g_valid(&self, n: int) -> bool {
        match *self {
            GlobalSystemReg::Keyboard(g) => g.g_valid(n),
            GlobalSystemReg::Bot(g) => g.g_valid(n),
            GlobalSystemReg::ScoreUpdate(g) => g.g_valid(n),
        }
    }

    open spec fn g_step(
        &self,
        input: InputState,
        entities: Seq<Components>,
        left: Seq<u64>,
        right: Seq<u64>,
    ) -> (Self, Seq<Components>, Seq<u64>, Seq<u64>) {
        match *self {
            GlobalSystemReg::Keyboard(g) => {
                let stepped = g.g_step(input, entities, left, right);
                (GlobalSystemReg::Keyboard(stepped.0), stepped.1, stepped.2, stepped.3)
            },
            GlobalSystemReg::Bot(g) => {
                let stepped = g.g_step(input, entities, left, right);
                (GlobalSystemReg::Bot(stepped.0), stepped.1, stepped.2, stepped.3)
            },
            GlobalSystemReg::ScoreUpdate(g) => {
                let stepped = g.g_step(input, entities, left, right);
                (GlobalSystemReg::ScoreUpdate(stepped.0), stepped.1, stepped.2, stepped.3)
            },
        }
    }

    fn process(
        &mut self,
        input: InputState,
        entities: &mut Vec<Components>,
        left: &mut ScoreChannel,
        right: &mut ScoreChannel,
    ) {
        match self {
            GlobalSystemReg::Keyboard(g) => g.process(input, entities, left, right),
            GlobalSystemReg::Bot(g) => g.process(input, entities, left, right),
            GlobalSystemReg::ScoreUpdate(g) => g.process(input, entities, left, right),
        }
    }
}

/// A snapshot of the mutable per-frame state: the per-frame rules with
/// their internal state, the entity table, and the two channels.
#[verifier::ext_equal]
pub struct FrameState {
    pub globals: Seq<GlobalSystemReg>,
    pub entities: Seq<Components>,
    pub left: Seq<u64>,
    pub right: Seq<u64>,
}

/// The state after the first `k` per-frame rules have run.
pub open spec fn global_pass(st: FrameState, input: InputState, k: int) -> FrameState
    decreases k,
{
    if k <= 0 {
        st
    } else {
        let prev = global_pass(st, input, k - 1);
        let stepped = prev.globals[k - 1].g_step(input, prev.entities, prev.left, prev.right);
        FrameState {
            globals: prev.globals.update(k - 1, stepped.0),
            entities: stepped.1,
            left: stepped.2,
            right: stepped.3,
        }
    }
}

/// The state after one per-entity rule has visited the first `i`
/// entities.
pub open spec fn entity_pass(st: FrameState, sys: SystemReg, i: int) -> FrameState
    decreases i,
{
    if i <= 0 {
        st
    } else {
        let prev = entity_pass(st, sys, i - 1);
        let stepped = sys.sys_step(prev.entities, i - 1, prev.left, prev.right);
        FrameState { entities: stepped.0, left: stepped.1, right: stepped.2, ..prev }
    }
}

/// The state after the first `j` per-entity rules have each visited the
/// whole entity table.
pub open spec fn system_pass(st: FrameState, systems: Seq<SystemReg>, j: int) -> FrameState
    decreases j,
{
    if j <= 0 {
        st
    } else {
        let prev = system_pass(st, systems, j - 1);
        entity_pass(prev, systems[j - 1], prev.entities.len() as int)
    }
}

/// One whole frame: every per-frame rule once, in registration order,
/// then every per-entity rule over every entity, in registration order.
pub open spec fn frame(st: FrameState, systems: Seq<SystemReg>, input: InputState) -> FrameState {
    let mid = global_pass(st, input, st.globals.len() as int);
    system_pass(mid, systems, systems.len() as int)
}

/// The orchestrator.  The entity and rule lists are filled once, at
/// start-up, and fixed afterwards; [`World::process`] advances one frame.
pub struct World {
    pub entities: Vec<Components>,
    pub systems: Vec<SystemReg>,
    pub global_systems: Vec<GlobalSystemReg>,
    pub left_channel: ScoreChannel,
    pub right_channel: ScoreChannel,
}

impl World {
    /// The snapshot a frame acts on.
    pub open spec fn state(self) -> FrameState {
        FrameState {
            globals: self.global_systems@,
            entities: self.entities@,
            left: self.left_channel@,
            right: self.right_channel@,
        }
    }

    /// Every entity is well formed and every registered rule points
    /// inside the entity table.
    pub open spec fn wf(self) -> bool {
        &&& forall|j: int|
            0 <= j < self.entities@.len() ==> (#[trigger] self.entities@[j]).wf()
        &&& forall|j: int|
            0 <= j < self.systems@.len() ==> (#[trigger] self.systems@[j]).s_valid(
                self.entities@.len() as int,
            )
        &&& forall|j: int|
            0 <= j < self.global_systems@.len() ==> (#[trigger] self.global_systems@[j]).g_valid(
                self.entities@.len() as int,
            )
    }

    /// An empty world: no entities, no rules, nothing pending.
    pub fn new() -> (w: World)
        ensures
            w.entities@ == Seq::<Components>::empty(),
            w.systems@ == Seq::<SystemReg>::empty(),
            w.global_systems@ == Seq::<GlobalSystemReg>::empty(),
            w.left_channel@ == Seq::<u64>::empty(),
            w.right_channel@ == Seq::<u64>::empty(),
            w.wf(),
    {
        World {
            entities: Vec::new(),
            systems: Vec::new(),
            global_systems: Vec::new(),
            left_channel: ScoreChannel::new(),
            right_channel: ScoreChannel::new(),
        }
    }

    /// Advance the simulation by one frame under the given input.
    pub fn process(&mut self, input: InputState)
        requires
            old(self).wf(),
        ensures
            final(self).wf(),
            final(self).systems@ == old(self).systems@,
            final(self).state() == frame(old(self).state(), old(self).systems@, input),
    {
        let ghost st0 = self.state();
        let n_globals = self.global_systems.len();
        let mut k: usize = 0;
        while k < n_globals
            invariant
                k <= n_globals,
                self.global_systems@.len() == n_globals,
                self.systems@ == old(self).systems@,
                self.entities@.len() == old(self).entities@.len(),
                st0 == old(self).state(),
                self.wf(),
                self.state() == global_pass(st0, input, k as int),
            decreases n_globals - k,
        {
            let mut g = self.global_systems[k];
            g.process(input, &mut self.entities, &mut self.left_channel, &mut self.right_channel);
            self.global_systems[k] = g;
            proof {
                assert(self.state() =~= global_pass(st0, input, k as int + 1));
            }
            k = k + 1;
        }
        let ghost mid = self.state();
        proof {
            assert(mid == global_pass(st0, input, st0.globals.len() as int));
        }
        let n_systems = self.systems.len();
        let mut j: usize = 0;
        while j < n_systems
            invariant
                j <= n_systems,
                self.systems@.len() == n_systems,
                self.systems@ == old(self).systems@,
                self.entities@.len() == old(self).entities@.len(),
                self.wf(),
                self.state() == system_pass(mid, old(self).systems@, j as int),
                mid == global_pass(st0, input, st0.globals.len() as int),
                st0 == old(self).state(),
                mid.entities.len() == old(self).entities@.len(),
            decreases n_systems - j,
        {
            let sys = self.systems[j];
            let ghost stj = self.state();
            let n_entities = self.entities.len();
            let mut i: usize = 0;
            while i < n_entities
                invariant
                    i <= n_entities,
                    self.entities@.len() == n_entities,
                    self.systems@ == old(self).systems@,
                    self.global_systems@ == stj.globals,
                    self.wf(),
                    sys == old(self).systems@[j as int],
                    j < old(self).systems@.len(),
                    sys.s_valid(n_entities as int),
                    self.state() == entity_pass(stj, sys, i as int),
                    stj == system_pass(mid, old(self).systems@, j as int),
                decreases n_entities - i,
            {
                sys.process(
                    &mut self.entities,
                    i,
                    &mut self.left_channel,
                    &mut self.right_channel,
                );
                proof {
                    assert(self.state() =~= entity_pass(stj, sys, i as int + 1));
                }
                i = i + 1;
            }
            proof {
                assert(self.state() =~= system_pass(mid, old(self).systems@, j as int + 1));
            }
            j = j + 1;
        }
        proof {
            assert(self.state() =~= frame(old(self).state(), old(self).systems@, input));
        }
    }
}

} // verus!
