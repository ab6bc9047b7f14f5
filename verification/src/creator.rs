//! The candidate tables of a node and the operations on them.
//!
//! For every round the creator keeps a table with one slot per node. A slot
//! holds the hash of the first unit that was recorded for that node and round.
//! The creator's own next unit belongs to `current_round`; its parents are the
//! table of the round before.

use crate::nodes::{empty_table, filled, quorum_threshold, NodeCount, NodeIndex, NodeMap};
use crate::nodes::{lemma_filled_after_fill, lemma_filled_below_len, lemma_filled_empty};
use crate::units::{hashes_all, hashes_to, identity_bytes, HashT, PreUnit, Round};
use core::time::Duration;
use vstd::prelude::*;

verus! {

/// What a creator is made with.
pub struct Config {
    /// The index of the local node in the population.
    pub node_ix: NodeIndex,
    /// The size of the population.
    pub n_members: NodeCount,
    /// How long the node rests after it has created a unit on a quorum.
    pub create_lag: Duration,
}

/// The state of a [`Creator`] as contracts see it.
pub struct CreatorView<H> {
    /// The index of the local node.
    pub node_ix: nat,
    /// The size of the population.
    pub n_members: nat,
    /// The pause after a unit created on a quorum.
    pub create_lag: Duration,
    /// The round of the next unit that the node creates, which is also the
    /// number of units it has created.
    pub current_round: nat,
    /// The candidate table of each round that has one, by round.
    pub candidates: Seq<Seq<Option<H>>>,
}

impl<H> CreatorView<H> {
    /// The local node is a member, there is a table for every round up to the
    /// current one, and every table has one slot per member.
    pub open spec fn wf(self) -> bool {
        &&& self.node_ix < self.n_members
        &&& self.current_round < self.candidates.len()
        &&& forall|r: int|
            0 <= r < self.candidates.len() ==> (#[trigger] self.candidates[r]).len()
                == self.n_members
    }

    /// The state of a new creator: round zero, and an empty table for it.
    pub open spec fn initial(node_ix: nat, n_members: nat, create_lag: Duration) -> Self {
        CreatorView {
            node_ix,
            n_members,
            create_lag,
            current_round: 0,
            candidates: seq![empty_table::<H>(n_members)],
        }
    }

    /// The state in which `round` has a table: where it had none, `round` and
    /// every round below it that had none get an empty one.
    pub open spec fn init_round(self, round: nat) -> Self {
        if round < self.candidates.len() {
            self
        } else {
            CreatorView {
                candidates: self.candidates + Seq::new(
                    (round + 1 - self.candidates.len()) as nat,
                    |i: int| empty_table::<H>(self.n_members),
                ),
                ..self
            }
        }
    }

    /// Whether a unit of `round` is too old to become a parent of any unit that
    /// the node has yet to create.
    pub open spec fn is_stale(self, round: nat) -> bool {
        round + 1 < self.current_round
    }

    /// The state after the unit `hash` of node `pid` and `round` was recorded.
    /// A stale unit changes nothing. Otherwise `round` has a table afterwards,
    /// and the slot of `pid` in it holds `hash` unless it was filled before.
    pub open spec fn add_unit(self, round: nat, pid: nat, hash: H) -> Self {
        if self.is_stale(round) {
            self
        } else {
            let grown = self.init_round(round);
            let table = grown.candidates[round as int];
            if table[pid as int] is None {
                CreatorView {
                    candidates: grown.candidates.update(
                        round as int,
                        table.update(pid as int, Some(hash)),
                    ),
                    ..grown
                }
            } else {
                grown
            }
        }
    }

    /// The number of nodes with a recorded unit in `round`.
    pub open spec fn n_candidates(self, round: nat) -> nat {
        filled(self.candidates[round as int])
    }

    /// Whether the next unit can be created: always in round zero; in a later
    /// round once the round before holds units of a quorum of nodes, the local
    /// node among them.
    pub open spec fn check_ready(self) -> bool {
        self.current_round == 0 || {
            &&& self.n_candidates((self.current_round - 1) as nat) > quorum_threshold(
                self.n_members,
            )
            &&& self.candidates[self.current_round - 1][self.node_ix as int] is Some
        }
    }

    /// The parents of the next unit: none in round zero, and in a later round
    /// the table of the round before as it stands.
    pub open spec fn parents(self) -> Seq<Option<H>> {
        if self.current_round == 0 {
            empty_table::<H>(self.n_members)
        } else {
            self.candidates[self.current_round - 1]
        }
    }

    /// The state after the next unit was created: the round has gone up by one
    /// and has a table.
    pub open spec fn create_unit(self) -> Self {
        CreatorView { current_round: self.current_round + 1, ..self }.init_round(
            self.current_round + 1,
        )
    }
}

/// One operation on the candidate tables.
pub enum Operation<H> {
    /// A unit is recorded.
    AddUnit { round: nat, pid: nat, hash: H },
    /// Readiness is tested.
    CheckReady,
    /// The next unit is created.
    CreateUnit,
}

/// How many units a sequence of operations creates.
pub open spec fn units_created<H>(ops: Seq<Operation<H>>) -> nat
    decreases ops.len(),
{
    if ops.len() == 0 {
        0
    } else {
        units_created(ops.drop_last()) + if ops.last() is CreateUnit {
            1nat
        } else {
            0nat
        }
    }
}

impl<H> CreatorView<H> {
    /// The state after one operation.
    pub open spec fn apply(self, op: Operation<H>) -> Self {
        match op {
            Operation::AddUnit { round, pid, hash } => self.add_unit(round, pid, hash),
            Operation::CheckReady => self,
            Operation::CreateUnit => self.create_unit(),
        }
    }

    /// The state after a sequence of operations, the first one first.
    pub open spec fn apply_all(self, ops: Seq<Operation<H>>) -> Self
        decreases ops.len(),
    {
        if ops.len() == 0 {
            self
        } else {
            self.apply_all(ops.drop_last()).apply(ops.last())
        }
    }

    /// Giving a round its table keeps the state well formed, keeps every table
    /// that was there, and makes every new table empty.
    pub proof fn lemma_init_round(self, round: nat)
        requires
            self.wf(),
        ensures
            self.init_round(round).wf(),
            self.init_round(round).candidates.len() > round,
            self.init_round(round).candidates.len() >= self.candidates.len(),
            self.init_round(round).current_round == self.current_round,
            forall|r: int|
                0 <= r < self.candidates.len() ==> (#[trigger] self.init_round(
                    round,
                ).candidates[r]) == self.candidates[r],
            forall|r: int|
                self.candidates.len() <= r < self.init_round(round).candidates.len() ==> (
                #[trigger] self.init_round(round).candidates[r]) == empty_table::<H>(
                    self.n_members,
                ),
    {
    }

    /// Giving a round its table a second time changes nothing.
    pub proof fn law_init_round_idempotent(self, round: nat)
        ensures
            self.init_round(round).init_round(round) == self.init_round(round),
    {
    }

    /// Recording a unit keeps the state well formed.
    pub proof fn lemma_add_unit_wf(self, round: nat, pid: nat, hash: H)
        requires
            self.wf(),
            !self.is_stale(round) ==> pid < self.n_members,
        ensures
            self.add_unit(round, pid, hash).wf(),
            self.add_unit(round, pid, hash).current_round == self.current_round,
    {
        self.lemma_init_round(round);
    }

    /// Creating a unit keeps the state well formed.
    pub proof fn lemma_create_unit_wf(self)
        requires
            self.wf(),
        ensures
            self.create_unit().wf(),
            self.create_unit().current_round == self.current_round + 1,
    {
        let moved = CreatorView { current_round: self.current_round + 1, ..self };
        assert(moved.init_round(self.current_round + 1).candidates.len() > self.current_round + 1);
        assert forall|r: int| 0 <= r < self.create_unit().candidates.len() implies (
        #[trigger] self.create_unit().candidates[r]).len() == self.n_members by {
            if r < self.candidates.len() {
                assert(self.create_unit().candidates[r] == self.candidates[r]);
            }
        }
    }

    /// After a unit that is not stale was recorded, the slot of its node and
    /// round is filled: with what it held before, or else with the unit.
    pub proof fn lemma_add_unit_fills(self, round: nat, pid: nat, hash: H)
        requires
            self.wf(),
            !self.is_stale(round),
            pid < self.n_members,
        ensures
            round < self.add_unit(round, pid, hash).candidates.len(),
            self.add_unit(round, pid, hash).candidates[round as int][pid as int] == (if round
                < self.candidates.len() && self.candidates[round as int][pid as int] is Some {
                self.candidates[round as int][pid as int]
            } else {
                Some(hash)
            }),
    {
        self.lemma_init_round(round);
    }

    /// Recording the same unit twice leaves the tables, and with them every
    /// count, as recording it once does.
    pub proof fn law_add_unit_idempotent(self, round: nat, pid: nat, hash: H)
        requires
            self.wf(),
            pid < self.n_members,
        ensures
            self.add_unit(round, pid, hash).add_unit(round, pid, hash) == self.add_unit(
                round,
                pid,
                hash,
            ),
    {
        self.law_first_unit_stays(round, pid, hash, hash);
    }

    /// Of two units recorded for one node and round, the first stays: the
    /// second changes nothing.
    pub proof fn law_first_unit_stays(self, round: nat, pid: nat, first: H, second: H)
        requires
            self.wf(),
            pid < self.n_members,
        ensures
            self.add_unit(round, pid, first).add_unit(round, pid, second) == self.add_unit(
                round,
                pid,
                first,
            ),
    {
        if !self.is_stale(round) {
            self.lemma_init_round(round);
            self.lemma_add_unit_wf(round, pid, first);
            self.lemma_add_unit_fills(round, pid, first);
        }
    }

    /// A filled slot keeps what it holds, whatever unit is recorded later.
    pub proof fn law_filled_slot_is_kept(
        self,
        at_round: nat,
        at_pid: nat,
        round: nat,
        pid: nat,
        hash: H,
    )
        requires
            self.wf(),
            at_round < self.candidates.len(),
            at_pid < self.n_members,
            self.candidates[at_round as int][at_pid as int] is Some,
            !self.is_stale(round) ==> pid < self.n_members,
        ensures
            self.add_unit(round, pid, hash).candidates[at_round as int][at_pid as int]
                == self.candidates[at_round as int][at_pid as int],
            self.create_unit().candidates[at_round as int][at_pid as int]
                == self.candidates[at_round as int][at_pid as int],
    {
        self.lemma_init_round(round);
        self.lemma_init_round(self.current_round + 1);
        let moved = CreatorView { current_round: self.current_round + 1, ..self };
        assert(moved.init_round(self.current_round + 1).candidates[at_round as int]
            == self.init_round(self.current_round + 1).candidates[at_round as int]);
    }

    /// A stale unit changes neither a table nor a count.
    pub proof fn law_stale_unit_changes_nothing(self, round: nat, pid: nat, hash: H)
        requires
            self.is_stale(round),
        ensures
            self.add_unit(round, pid, hash) == self,
    {
    }

    /// A unit that is stale stays stale whatever is recorded or created later.
    pub proof fn law_stale_stays_stale(self, stale_round: nat, op: Operation<H>)
        requires
            self.is_stale(stale_round),
        ensures
            self.apply(op).is_stale(stale_round),
    {
    }

    /// The current round moves only when a unit is created, and then by one.
    pub proof fn law_round_counts_created_units(self, ops: Seq<Operation<H>>)
        ensures
            self.apply_all(ops).current_round == self.current_round + units_created(ops),
        decreases ops.len(),
    {
        if ops.len() > 0 {
            self.law_round_counts_created_units(ops.drop_last());
        }
    }

    /// A new creator has created as many units as its current round says,
    /// whatever was done with it since.
    pub proof fn law_round_is_number_of_units(
        node_ix: nat,
        n_members: nat,
        create_lag: Duration,
        ops: Seq<Operation<H>>,
    )
        ensures
            Self::initial(node_ix, n_members, create_lag).apply_all(ops).current_round
                == units_created(ops),
    {
        Self::initial(node_ix, n_members, create_lag).law_round_counts_created_units(ops);
    }

    /// A unit that is created when the creator is ready, in a round above
    /// zero, has a parent from a quorum of nodes, the local node among them.
    pub proof fn law_ready_gives_quorum(self)
        requires
            self.wf(),
            self.check_ready(),
            self.current_round > 0,
        ensures
            self.parents().len() == self.n_members,
            filled(self.parents()) > quorum_threshold(self.n_members),
            self.parents()[self.node_ix as int] is Some,
    {
    }

    /// The unit of round zero has no parent.
    pub proof fn law_first_unit_has_no_parent(node_ix: nat, n_members: nat, create_lag: Duration)
        ensures
            Self::initial(node_ix, n_members, create_lag).check_ready(),
            Self::initial(node_ix, n_members, create_lag).current_round == 0,
            Self::initial(node_ix, n_members, create_lag).parents() == empty_table::<H>(
                n_members,
            ),
            filled(Self::initial(node_ix, n_members, create_lag).parents()) == 0,
    {
        lemma_filled_empty::<H>(n_members);
    }
}

/// The bookkeeping of one node: what it knows of every round's units, and which
/// round its own next unit belongs to.
pub struct Creator<H, F> {
    node_ix: NodeIndex,
    n_members: NodeCount,
    current_round: Round,
    candidates_by_round: Vec<NodeMap<Option<H>>>,
    n_candidates_by_round: Vec<NodeCount>,
    hashing: F,
    create_lag: Duration,
}

impl<H, F> View for Creator<H, F> {
    type V = CreatorView<H>;

    closed spec fn view(&self) -> CreatorView<H> {
        CreatorView {
            node_ix: self.node_ix.0 as nat,
            n_members: self.n_members.0 as nat,
            create_lag: self.create_lag,
            current_round: self.current_round as nat,
            candidates: Seq::new(
                self.candidates_by_round@.len(),
                |r: int| self.candidates_by_round@[r]@,
            ),
        }
    }
}

impl<H: HashT, F: Fn(&[u8]) -> H> Creator<H, F> {
    /// The function that gives a new unit its hash.
    pub closed spec fn hashing(&self) -> F {
        self.hashing
    }

    /// The state is well formed, every round's count is the number of filled
    /// slots of its table, and the hash function takes every byte string.
    pub closed spec fn wf(&self) -> bool {
        &&& self.node_ix.0 < self.n_members.0
        &&& self.current_round < self.candidates_by_round@.len()
        &&& self.n_candidates_by_round@.len() == self.candidates_by_round@.len()
        &&& forall|r: int|
            0 <= r < self.candidates_by_round@.len() ==> {
                &&& (#[trigger] self.candidates_by_round@[r])@.len() == self.n_members.0
                &&& self.n_candidates_by_round@[r].0 == filled(self.candidates_by_round@[r]@)
            }
        &&& hashes_all(self.hashing)
    }

    /// A well-formed creator has a well-formed view and a total hash function.
    pub proof fn lemma_wf(&self)
        requires
            self.wf(),
        ensures
            self@.wf(),
            hashes_all(self.hashing()),
    {
        assert forall|r: int| 0 <= r < self@.candidates.len() implies (#[trigger] self@.candidates[r]).len()
            == self@.n_members by {
            assert(self.candidates_by_round@[r]@.len() == self.n_members.0);
        }
    }

    /// A creator in round zero that knows no unit.
    pub fn new(conf: Config, hashing: F) -> (creator: Self)
        requires
            conf.node_ix.0 < conf.n_members.0,
            hashes_all(hashing),
        ensures
            creator.wf(),
            creator@ == CreatorView::<H>::initial(
                conf.node_ix.0 as nat,
                conf.n_members.0 as nat,
                conf.create_lag,
            ),
            creator.hashing() == hashing,
    {
        let mut candidates_by_round: Vec<NodeMap<Option<H>>> = Vec::new();
        candidates_by_round.push(NodeMap::new_with_len(conf.n_members));
        let mut n_candidates_by_round: Vec<NodeCount> = Vec::new();
        n_candidates_by_round.push(NodeCount(0));
        let creator = Creator {
            node_ix: conf.node_ix,
            n_members: conf.n_members,
            current_round: 0,
            candidates_by_round,
            n_candidates_by_round,
            hashing,
            create_lag: conf.create_lag,
        };
        proof {
            lemma_filled_empty::<H>(conf.n_members.0 as nat);
            assert(creator@.candidates =~= seq![empty_table::<H>(conf.n_members.0 as nat)]);
        }
        creator
    }

    /// Gives `round` a table, and every round below it that has none.
    pub fn init_round(&mut self, round: Round)
        requires
            old(self).wf(),
        ensures
            final(self).wf(),
            final(self)@ == old(self)@.init_round(round as nat),
            final(self)@.candidates.len() > round,
            final(self).hashing() == old(self).hashing(),
    {
        let ghost start: CreatorView<H> = self@;
        while self.candidates_by_round.len() <= round
            invariant
                self.wf(),
                self.hashing() == old(self).hashing(),
                start == old(self)@,
                start.candidates.len() <= self@.candidates.len(),
                self@.candidates.len() == start.candidates.len() || self@.candidates.len() <= round
                    + 1,
                self@ == (CreatorView {
                    candidates: start.candidates + Seq::new(
                        (self@.candidates.len() - start.candidates.len()) as nat,
                        |i: int| empty_table::<H>(start.n_members),
                    ),
                    ..start
                }),
            decreases round + 1 - self.candidates_by_round.len(),
        {
            let ghost before: CreatorView<H> = self@;
            self.candidates_by_round.push(NodeMap::new_with_len(self.n_members));
            self.n_candidates_by_round.push(NodeCount(0));
            proof {
                lemma_filled_empty::<H>(start.n_members);
                assert(self@.candidates =~= before.candidates.push(
                    empty_table::<H>(start.n_members),
                ));
                assert(self@.candidates =~= start.candidates + Seq::new(
                    (self@.candidates.len() - start.candidates.len()) as nat,
                    |i: int| empty_table::<H>(start.n_members),
                ));
            }
        }
        proof {
            assert(self@.candidates =~= start.init_round(round as nat).candidates);
        }
    }

    /// Whether a unit of `round` is too old to be recorded.
    pub fn is_stale(&self, round: Round) -> (stale: bool)
        ensures
            stale == self@.is_stale(round as nat),
    {
        round < self.current_round && self.current_round - round > 1
    }

    /// Records the unit `hash` of node `pid` and `round`. A stale unit is
    /// dropped. Of two units of one node and round the first one stays.
    pub fn add_unit(&mut self, round: Round, pid: NodeIndex, hash: H)
        requires
            old(self).wf(),
            !old(self)@.is_stale(round as nat) ==> pid.0 < old(self)@.n_members,
        ensures
            final(self).wf(),
            final(self)@ == old(self)@.add_unit(round as nat, pid.0 as nat, hash),
            final(self).hashing() == old(self).hashing(),
    {
        if self.is_stale(round) {
            return ;
        }
        self.init_round(round);
        let ghost grown: CreatorView<H> = self@;
        let ghost table: Seq<Option<H>> = self.candidates_by_round@[round as int]@;
        if self.candidates_by_round[round].get(pid).is_none() {
            proof {
                lemma_filled_below_len(table, pid.0 as int);
                lemma_filled_after_fill(table, pid.0 as int, hash);
            }
            let ghost tables: Seq<NodeMap<Option<H>>> = self.candidates_by_round@;
            self.candidates_by_round[round].set(pid, Some(hash));
            let count: usize = self.n_candidates_by_round[round].0;
            self.n_candidates_by_round[round] = NodeCount(count + 1);
            proof {
                assert forall|r: int| 0 <= r < self.candidates_by_round@.len() implies {
                    &&& (#[trigger] self.candidates_by_round@[r])@.len() == self.n_members.0
                    &&& self.n_candidates_by_round@[r].0 == filled(self.candidates_by_round@[r]@)
                } by {
                    if r != round {
                        assert(self.candidates_by_round@[r] == tables[r]);
                    }
                }
                assert(self@.candidates =~= grown.candidates.update(
                    round as int,
                    table.update(pid.0 as int, Some(hash)),
                ));
            }
        }
    }

    /// Whether the next unit can be created now.
    pub fn check_ready(&self) -> (ready: bool)
        requires
            self.wf(),
        ensures
            ready == self@.check_ready(),
    {
        if self.current_round == 0 {
            return true;
        }
        let prev_round: Round = self.current_round - 1;
        assert(self.candidates_by_round@[prev_round as int]@ == self@.candidates[prev_round as int]);
        self.n_candidates_by_round[prev_round].is_quorum_of(self.n_members)
            && self.candidates_by_round[prev_round].get(self.node_ix).is_some()
    }

    /// Creates the unit of the current round and moves on to the next round.
    /// The unit's parents are a copy of the table of the round before.
    pub fn create_unit(&mut self) -> (unit: PreUnit<H>)
        requires
            old(self).wf(),
        ensures
            final(self).wf(),
            final(self)@ == old(self)@.create_unit(),
            final(self).hashing() == old(self).hashing(),
            unit@.creator.0 == old(self)@.node_ix,
            unit@.round == old(self)@.current_round,
            unit@.parents == old(self)@.parents(),
            hashes_to(
                old(self).hashing(),
                identity_bytes(unit@.creator, unit@.round, unit@.parents),
                unit@.hash,
            ),
    {
        let round: Round = self.current_round;
        assert(round < self.candidates_by_round.len());
        let parents: NodeMap<Option<H>> = if round == 0 {
            NodeMap::new_with_len(self.n_members)
        } else {
            self.candidates_by_round[round - 1].duplicate()
        };
        let unit: PreUnit<H> = PreUnit::new_from_parents(
            self.node_ix,
            round,
            parents,
            &self.hashing,
        );
        self.init_round(round + 1);
        self.current_round = round + 1;
        unit
    }

    /// The index of the local node.
    pub fn node_ix(&self) -> (node_ix: NodeIndex)
        ensures
            node_ix.0 == self@.node_ix,
    {
        self.node_ix
    }

    /// The size of the population.
    pub fn n_members(&self) -> (n_members: NodeCount)
        ensures
            n_members.0 == self@.n_members,
    {
        self.n_members
    }

    /// The pause after a unit created on a quorum.
    pub fn create_lag(&self) -> (create_lag: Duration)
        ensures
            create_lag == self@.create_lag,
    {
        self.create_lag
    }

    /// The round of the next unit that the node creates.
    pub fn current_round(&self) -> (round: Round)
        ensures
            round == self@.current_round,
    {
        self.current_round
    }

    /// The number of rounds that have a table.
    pub fn n_rounds(&self) -> (n_rounds: usize)
        ensures
            n_rounds == self@.candidates.len(),
    {
        self.candidates_by_round.len()
    }

    /// The table of `round`, if the round has one.
    pub fn candidates(&self, round: Round) -> (table: Option<&NodeMap<Option<H>>>)
        ensures
            match table {
                Some(slots) => round < self@.candidates.len() && slots@
                    == self@.candidates[round as int],
                None => round >= self@.candidates.len(),
            },
    {
        if round < self.candidates_by_round.len() {
            Some(&self.candidates_by_round[round])
        } else {
            None
        }
    }

    /// The number of nodes with a recorded unit in `round`, if the round has a
    /// table.
    pub fn n_candidates(&self, round: Round) -> (count: Option<NodeCount>)
        requires
            self.wf(),
        ensures
            match count {
                Some(n) => round < self@.candidates.len() && n.0 == self@.n_candidates(
                    round as nat,
                ),
                None => round >= self@.candidates.len(),
            },
    {
        if round < self.n_candidates_by_round.len() {
            assert(self.candidates_by_round@[round as int]@ == self@.candidates[round as int]);
            Some(self.n_candidates_by_round[round])
        } else {
            None
        }
    }
}

} // verus!
