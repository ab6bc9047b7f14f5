//! The decisions of the driving loop.
//!
//! The loop around an [`Engine`] waits for what the last [`Action`] named, and
//! hands the [`Event`] that came first to [`Engine::step`]. The engine decides
//! what the event does to the candidate tables, whether a unit is created, and
//! what the loop waits for next. Waiting, publishing and sleeping are the
//! loop's part.

use crate::creator::{Config, Creator, CreatorView};
use crate::nodes::{empty_table, filled, quorum_threshold, NodeIndex};
use crate::units::{hashes_all, hashes_to, identity_bytes, HashT, PreUnit, Round};
use core::time::Duration;
use vstd::prelude::*;

verus! {

/// Where the driving loop stands.
#[derive(Clone, Copy, Debug, PartialEq, Eq, Structural)]
pub enum Phase {
    /// Running, and ready for the next recorded unit.
    Running,
    /// Running, and resting after a unit that was created on a quorum. No
    /// input is taken until the rest is over.
    Pausing,
    /// Stopped for good.
    Terminated,
}

/// What can happen to a waiting loop.
#[derive(Clone, Copy, Debug)]
pub enum Event<H> {
    /// The inbound stream delivered a unit that the DAG holds.
    Unit { round: Round, creator: NodeIndex, hash: H },
    /// The pause after a created unit is over.
    LagElapsed,
    /// The exit signal fired.
    Exit,
    /// The inbound stream ended.
    InputClosed,
}

/// What the loop does next.
#[derive(Clone, Debug, PartialEq, Eq)]
pub enum Action<H> {
    /// Wait for the next unit of the inbound stream, or for the exit signal.
    AwaitInput,
    /// Publish the unit. Then wait until the pause is over, or for the exit
    /// signal.
    Emit(PreUnit<H>),
    /// Go on waiting until the pause is over, or for the exit signal. An event
    /// that was answered so was not taken.
    AwaitLag,
    /// Leave the loop.
    Stop,
}

/// What a created unit holds before it is hashed.
pub struct Produced<H> {
    pub creator: nat,
    pub round: nat,
    pub parents: Seq<Option<H>>,
}

/// An [`Action`] as contracts see it: without the hash of an emitted unit.
pub enum Reply<H> {
    AwaitInput,
    Emit(Produced<H>),
    AwaitLag,
    Stop,
}

impl<H> Action<H> {
    /// The action without the hash of its unit.
    pub open spec fn reply(self) -> Reply<H> {
        match self {
            Action::AwaitInput => Reply::AwaitInput,
            Action::Emit(unit) => Reply::Emit(
                Produced {
                    creator: unit@.creator.0 as nat,
                    round: unit@.round as nat,
                    parents: unit@.parents,
                },
            ),
            Action::AwaitLag => Reply::AwaitLag,
            Action::Stop => Reply::Stop,
        }
    }
}

/// The state of an [`Engine`] as contracts see it.
pub struct EngineView<H> {
    pub creator: CreatorView<H>,
    pub phase: Phase,
}

impl<H> EngineView<H> {
    /// The candidate tables are well formed.
    pub open spec fn wf(self) -> bool {
        self.creator.wf()
    }

    /// The state of an engine that was just started: the unit of round zero is
    /// out, and the loop waits for input.
    pub open spec fn launched(node_ix: nat, n_members: nat, create_lag: Duration) -> Self {
        EngineView {
            creator: CreatorView::<H>::initial(node_ix, n_members, create_lag).create_unit(),
            phase: Phase::Running,
        }
    }

    /// Whether `event` is one that the engine can take: a unit that a running
    /// engine records names a member of the population.
    pub open spec fn admits(self, event: Event<H>) -> bool {
        match event {
            Event::Unit { round, creator, hash } => self.phase == Phase::Running
                && !self.creator.is_stale(round as nat) ==> creator.0 < self.creator.n_members,
            _ => true,
        }
    }

    /// The candidate tables after `event`, before any unit is created on them.
    pub open spec fn recorded(self, event: Event<H>) -> CreatorView<H> {
        match event {
            Event::Unit { round, creator, hash } if self.phase == Phase::Running => {
                self.creator.add_unit(round as nat, creator.0 as nat, hash)
            },
            _ => self.creator,
        }
    }

    /// Whether `event` makes the engine create a unit: it is running, the
    /// event is a unit, and with that unit recorded the creator is ready.
    pub open spec fn produces(self, event: Event<H>) -> bool {
        &&& self.phase == Phase::Running
        &&& event is Unit
        &&& self.recorded(event).check_ready()
    }

    /// The unit that `event` makes the engine create, where it creates one.
    pub open spec fn product(self, event: Event<H>) -> Produced<H> {
        let recorded = self.recorded(event);
        Produced {
            creator: recorded.node_ix,
            round: recorded.current_round,
            parents: recorded.parents(),
        }
    }

    /// The state after `event`.
    pub open spec fn step(self, event: Event<H>) -> Self {
        match self.phase {
            Phase::Terminated => self,
            Phase::Pausing => match event {
                Event::Exit | Event::InputClosed => EngineView { phase: Phase::Terminated, ..self },
                Event::LagElapsed => EngineView { phase: Phase::Running, ..self },
                Event::Unit { .. } => self,
            },
            Phase::Running => match event {
                Event::Exit | Event::InputClosed => EngineView { phase: Phase::Terminated, ..self },
                Event::LagElapsed => self,
                Event::Unit { .. } => if self.produces(event) {
                    EngineView { creator: self.recorded(event).create_unit(), phase: Phase::Pausing }
                } else {
                    EngineView { creator: self.recorded(event), phase: Phase::Running }
                },
            },
        }
    }

    /// The answer to `event`.
    pub open spec fn reply(self, event: Event<H>) -> Reply<H> {
        if self.produces(event) {
            Reply::Emit(self.product(event))
        } else {
            match self.step(event).phase {
                Phase::Running => Reply::AwaitInput,
                Phase::Pausing => Reply::AwaitLag,
                Phase::Terminated => Reply::Stop,
            }
        }
    }
}

impl<H> Produced<H> {
    /// Whether the unit stands on a quorum in a population of `n_members`:
    /// it has a slot for every member, more than two thirds of the slots are
    /// filled, and the slot of its own creator is one of them.
    pub open spec fn on_quorum(self, n_members: nat) -> bool {
        &&& self.parents.len() == n_members
        &&& filled(self.parents) > quorum_threshold(n_members)
        &&& self.creator < n_members
        &&& self.parents[self.creator as int] is Some
    }
}

impl<H> EngineView<H> {
    /// The state after a sequence of events, the first one first.
    pub open spec fn run(self, events: Seq<Event<H>>) -> Self
        decreases events.len(),
    {
        if events.len() == 0 {
            self
        } else {
            self.run(events.drop_last()).step(events.last())
        }
    }

    /// Whether the engine can take each of `events` in the state in which the
    /// event meets it.
    pub open spec fn admits_all(self, events: Seq<Event<H>>) -> bool
        decreases events.len(),
    {
        events.len() == 0 || {
            &&& self.admits_all(events.drop_last())
            &&& self.run(events.drop_last()).admits(events.last())
        }
    }

    /// The units that a sequence of events makes the engine create, in the
    /// order in which it creates them.
    pub open spec fn produced(self, events: Seq<Event<H>>) -> Seq<Produced<H>>
        decreases events.len(),
    {
        if events.len() == 0 {
            Seq::empty()
        } else {
            let before = self.run(events.drop_last());
            if before.produces(events.last()) {
                self.produced(events.drop_last()).push(before.product(events.last()))
            } else {
                self.produced(events.drop_last())
            }
        }
    }

    /// A step keeps the state well formed. It creates at most one unit, and
    /// the current round goes up by one exactly when it creates one.
    pub proof fn lemma_step(self, event: Event<H>)
        requires
            self.wf(),
            self.admits(event),
        ensures
            self.step(event).wf(),
            self.step(event).creator.current_round == self.creator.current_round + if self.produces(
                event,
            ) {
                1nat
            } else {
                0nat
            },
            self.step(event).creator.n_members == self.creator.n_members,
            self.step(event).creator.node_ix == self.creator.node_ix,
    {
        match event {
            Event::Unit { round, creator, hash } => {
                if self.phase == Phase::Running {
                    self.creator.lemma_add_unit_wf(round as nat, creator.0 as nat, hash);
                    self.recorded(event).lemma_create_unit_wf();
                }
            },
            _ => {},
        }
    }

    /// A run of admitted events keeps the state well formed.
    pub proof fn lemma_run(self, events: Seq<Event<H>>)
        requires
            self.wf(),
            self.admits_all(events),
        ensures
            self.run(events).wf(),
            self.run(events).creator.n_members == self.creator.n_members,
            self.run(events).creator.node_ix == self.creator.node_ix,
        decreases events.len(),
    {
        if events.len() > 0 {
            self.lemma_run(events.drop_last());
            self.run(events.drop_last()).lemma_step(events.last());
        }
    }

    /// No unit is created before the creator is ready for it. A unit of a
    /// round above zero is therefore created on a quorum of parents, and it is
    /// the unit of the current round.
    pub proof fn law_unit_waits_for_quorum(self, event: Event<H>)
        requires
            self.wf(),
            self.admits(event),
            self.produces(event),
        ensures
            self.recorded(event).check_ready(),
            self.product(event).creator == self.creator.node_ix,
            self.product(event).round == self.creator.current_round,
            self.product(event).round > 0 ==> self.product(event).on_quorum(
                self.creator.n_members,
            ),
    {
        match event {
            Event::Unit { round, creator, hash } => {
                self.creator.lemma_add_unit_wf(round as nat, creator.0 as nat, hash);
            },
            _ => {},
        }
    }

    /// The units of a run come in the order of their rounds and skip none:
    /// the first is the unit of the round that was current at the start, and
    /// every next one is the unit of the next round. The current round has
    /// gone up by the number of units. Every unit of a round above zero stands
    /// on a quorum.
    pub proof fn law_rounds_in_order(self, events: Seq<Event<H>>)
        requires
            self.wf(),
            self.admits_all(events),
        ensures
            self.run(events).creator.current_round == self.creator.current_round
                + self.produced(events).len(),
            forall|i: int|
                0 <= i < self.produced(events).len() ==> (#[trigger] self.produced(
                    events,
                )[i]).round == self.creator.current_round + i,
            forall|i: int|
                0 <= i < self.produced(events).len() && (#[trigger] self.produced(
                    events,
                )[i]).round > 0 ==> self.produced(events)[i].on_quorum(self.creator.n_members),
        decreases events.len(),
    {
        if events.len() > 0 {
            let before = self.run(events.drop_last());
            self.law_rounds_in_order(events.drop_last());
            self.lemma_run(events.drop_last());
            before.lemma_step(events.last());
            if before.produces(events.last()) {
                before.law_unit_waits_for_quorum(events.last());
            }
        }
    }

    /// An engine that was started has created as many units as its current
    /// round says, whatever events it has taken since.
    pub proof fn law_round_is_number_of_units(
        node_ix: nat,
        n_members: nat,
        create_lag: Duration,
        events: Seq<Event<H>>,
    )
        requires
            node_ix < n_members,
            Self::launched(node_ix, n_members, create_lag).admits_all(events),
        ensures
            Self::launched(node_ix, n_members, create_lag).run(events).creator.current_round == 1
                + Self::launched(node_ix, n_members, create_lag).produced(events).len(),
    {
        let first = CreatorView::<H>::initial(node_ix, n_members, create_lag);
        assert(first.wf());
        first.lemma_create_unit_wf();
        Self::launched(node_ix, n_members, create_lag).law_rounds_in_order(events);
    }

    /// A stopped engine stays as it is and creates nothing, whatever events
    /// come.
    pub proof fn law_stopped_engine_is_inert(self, events: Seq<Event<H>>)
        requires
            self.phase == Phase::Terminated,
        ensures
            self.run(events) == self,
            self.produced(events).len() == 0,
        decreases events.len(),
    {
        if events.len() > 0 {
            self.law_stopped_engine_is_inert(events.drop_last());
        }
    }

    /// The exit signal stops the engine at once: it creates no unit and
    /// changes no table, and no event after it does.
    pub proof fn law_exit_ends_creation(self, later: Seq<Event<H>>)
        ensures
            !self.produces(Event::Exit),
            self.step(Event::Exit).phase == Phase::Terminated,
            self.step(Event::Exit).creator == self.creator,
            self.step(Event::Exit).run(later) == self.step(Event::Exit),
            self.step(Event::Exit).produced(later).len() == 0,
    {
        self.step(Event::Exit).law_stopped_engine_is_inert(later);
    }

    /// A step that creates a unit leaves the engine pausing, and a pausing
    /// engine neither records nor creates a unit. So after a created unit no
    /// further unit is created before the pause is over.
    pub proof fn law_pause_follows_unit(self, event: Event<H>, later: Seq<Event<H>>)
        requires
            self.produces(event),
            forall|i: int| 0 <= i < later.len() ==> !(#[trigger] later[i] is LagElapsed),
        ensures
            self.step(event).phase == Phase::Pausing,
            self.step(event).run(later).phase != Phase::Running,
            self.step(event).run(later).creator == self.step(event).creator,
            self.step(event).produced(later).len() == 0,
        decreases later.len(),
    {
        if later.len() > 0 {
            self.law_pause_follows_unit(event, later.drop_last());
        }
    }
}

/// The creator of one node together with the phase of its driving loop.
pub struct Engine<H, F> {
    creator: Creator<H, F>,
    phase: Phase,
}

impl<H, F> View for Engine<H, F> {
    type V = EngineView<H>;

    closed spec fn view(&self) -> EngineView<H> {
        EngineView { creator: self.creator@, phase: self.phase }
    }
}

impl<H: HashT, F: Fn(&[u8]) -> H> Engine<H, F> {
    /// The function that gives a new unit its hash.
    pub closed spec fn hashing(&self) -> F {
        self.creator.hashing()
    }

    /// The creator inside is well formed.
    pub closed spec fn wf(&self) -> bool {
        self.creator.wf()
    }

    /// A well-formed engine has a well-formed view and a total hash function.
    pub proof fn lemma_wf(&self)
        requires
            self.wf(),
        ensures
            self@.wf(),
            hashes_all(self.hashing()),
    {
        self.creator.lemma_wf();
    }

    /// Starts the engine of a node. The unit of round zero is created at
    /// once, on no parents, and the loop then waits for input.
    pub fn start(conf: Config, hashing: F) -> (started: (Self, PreUnit<H>))
        requires
            conf.node_ix.0 < conf.n_members.0,
            hashes_all(hashing),
        ensures
            started.0.wf(),
            started.0@ == EngineView::<H>::launched(
                conf.node_ix.0 as nat,
                conf.n_members.0 as nat,
                conf.create_lag,
            ),
            started.0.hashing() == hashing,
            started.1@.creator == conf.node_ix,
            started.1@.round == 0,
            started.1@.parents == empty_table::<H>(conf.n_members.0 as nat),
            hashes_to(
                hashing,
                identity_bytes(started.1@.creator, started.1@.round, started.1@.parents),
                started.1@.hash,
            ),
    {
        let mut creator: Creator<H, F> = Creator::new(conf, hashing);
        let unit: PreUnit<H> = creator.create_unit();
        (Engine { creator, phase: Phase::Running }, unit)
    }

    /// Whether the engine can take `event` now. It can take every event but a
    /// unit that it would record for a node outside the population.
    pub fn admits(&self, event: &Event<H>) -> (ok: bool)
        ensures
            ok == self@.admits(*event),
    {
        match event {
            Event::Unit { round, creator, hash } => {
                !(self.phase == Phase::Running) || self.creator.is_stale(*round) || creator.0
                    < self.creator.n_members().0
            },
            _ => true,
        }
    }

    /// Takes one event and says what the loop does next.
    ///
    /// A running engine records a delivered unit and, if the creator is ready
    /// then, creates the next unit and starts to pause. A pausing engine takes
    /// no unit. The exit signal and the end of the inbound stream stop the
    /// engine, and a stopped engine stays as it is whatever comes.
    pub fn step(&mut self, event: Event<H>) -> (action: Action<H>)
        requires
            old(self).wf(),
            old(self)@.admits(event),
        ensures
            final(self).wf(),
            final(self)@ == old(self)@.step(event),
            final(self).hashing() == old(self).hashing(),
            action.reply() == old(self)@.reply(event),
            action matches Action::Emit(unit) ==> hashes_to(
                old(self).hashing(),
                identity_bytes(unit@.creator, unit@.round, unit@.parents),
                unit@.hash,
            ),
    {
        match self.phase {
            Phase::Terminated => Action::Stop,
            Phase::Pausing => match event {
                Event::Exit | Event::InputClosed => {
                    self.phase = Phase::Terminated;
                    Action::Stop
                },
                Event::LagElapsed => {
                    self.phase = Phase::Running;
                    Action::AwaitInput
                },
                Event::Unit { .. } => Action::AwaitLag,
            },
            Phase::Running => match event {
                Event::Exit | Event::InputClosed => {
                    self.phase = Phase::Terminated;
                    Action::Stop
                },
                Event::LagElapsed => Action::AwaitInput,
                Event::Unit { round, creator, hash } => {
                    self.creator.add_unit(round, creator, hash);
                    if self.creator.check_ready() {
                        let unit: PreUnit<H> = self.creator.create_unit();
                        self.phase = Phase::Pausing;
                        Action::Emit(unit)
                    } else {
                        Action::AwaitInput
                    }
                },
            },
        }
    }

    /// Where the driving loop stands.
    pub fn phase(&self) -> (phase: Phase)
        ensures
            phase == self@.phase,
    {
        self.phase
    }

    /// The candidate tables of the node.
    pub fn creator(&self) -> (creator: &Creator<H, F>)
        ensures
            creator@ == self@.creator,
            creator.hashing() == self.hashing(),
            self.wf() ==> creator.wf(),
    {
        &self.creator
    }

    /// How long the loop waits after it has published a unit.
    pub fn create_lag(&self) -> (create_lag: Duration)
        ensures
            create_lag == self@.creator.create_lag,
    {
        self.creator.create_lag()
    }
}

} // verus!
