//! The branch-and-bound solver: a tree of game snapshots explored with a
//! work queue, statistics folded bottom-up, and the best trajectory kept
//! for replay.
//!
//! The tree is an arena of nodes addressed by index: a parent is an
//! optional index, children are an index list, and every child index is
//! larger than its parent's, so the tree is acyclic by construction.

use vstd::prelude::*;
use std::collections::VecDeque;
use crate::decision::DecisionChoice;
use crate::game::{GameState, spec_score};
use crate::resolve::has_duplicate_usize;
use crate::rng::{DeterministicChaCha, shuffle_vec};
use crate::step::{GameStep, StepFailure};

verus! {

broadcast use vstd::std_specs::control_flow::spec_from_blanket_identity;

/// How many not-yet-dispatched children one work item claims at a time,
/// to throttle fan-out against the game's branching factor.
pub const PARTIAL_EXPAND_BATCH: usize = 3;

/// How many steps one branch may execute before it is abandoned as an
/// error; finished games stay far below this.
pub const BRANCH_STEP_BUDGET: u32 = 100000;

/// How deeply stacked decisions within one phase may nest.
pub const EXPAND_DEPTH: u32 = 64;

/// How many work items one solve may process.
pub const WORK_BUDGET: u64 = 10000000;

/// An unsigned sum, saturating at the machine limit.
pub open spec fn sat_add_usize(a: usize, b: usize) -> usize {
    if a + b > usize::MAX {
        usize::MAX
    } else {
        (a + b) as usize
    }
}

/// Counts of terminal outcomes, the score range seen, and the best
/// scoring decision path found so far.
pub struct BasicStatistics {
    pub victories: usize,
    pub defeats: usize,
    pub errors: usize,
    pub min_score: i16,
    pub max_score: i16,
    pub first_best_game: Vec<VecDeque<DecisionChoice>>,
}

/// The merge of two statistics: counts add (saturating), the score range
/// widens, and the best game follows the strictly better side — on a tie
/// the left side wins, which is the documented nondeterminism of
/// concurrent merges.
pub open spec fn merge_stats(a: BasicStatistics, b: BasicStatistics) -> BasicStatistics {
    BasicStatistics {
        victories: sat_add_usize(a.victories, b.victories),
        defeats: sat_add_usize(a.defeats, b.defeats),
        errors: sat_add_usize(a.errors, b.errors),
        min_score: if b.min_score < a.min_score {
            b.min_score
        } else {
            a.min_score
        },
        max_score: if b.max_score > a.max_score {
            b.max_score
        } else {
            a.max_score
        },
        first_best_game: if b.max_score > a.max_score && b.first_best_game.len() != 0 {
            b.first_best_game
        } else {
            a.first_best_game
        },
    }
}

/// Merging statistics is commutative in every count and in the score
/// range: totals do not depend on the order two branches report.
pub proof fn lemma_merge_commutative(a: BasicStatistics, b: BasicStatistics)
    ensures
        merge_stats(a, b).victories == merge_stats(b, a).victories,
        merge_stats(a, b).defeats == merge_stats(b, a).defeats,
        merge_stats(a, b).errors == merge_stats(b, a).errors,
        merge_stats(a, b).min_score == merge_stats(b, a).min_score,
        merge_stats(a, b).max_score == merge_stats(b, a).max_score,
{
}

/// Merging statistics is associative in every count and in the score
/// range: totals do not depend on how branches are grouped.
pub proof fn lemma_merge_associative(a: BasicStatistics, b: BasicStatistics, c: BasicStatistics)
    ensures
        merge_stats(merge_stats(a, b), c).victories == merge_stats(a, merge_stats(b, c)).victories,
        merge_stats(merge_stats(a, b), c).defeats == merge_stats(a, merge_stats(b, c)).defeats,
        merge_stats(merge_stats(a, b), c).errors == merge_stats(a, merge_stats(b, c)).errors,
        merge_stats(merge_stats(a, b), c).min_score == merge_stats(
            a,
            merge_stats(b, c),
        ).min_score,
        merge_stats(merge_stats(a, b), c).max_score == merge_stats(
            a,
            merge_stats(b, c),
        ).max_score,
{
}

/// A fresh statistics value is the identity of merging: folding it in
/// changes nothing, path included.
pub proof fn lemma_merge_identity(a: BasicStatistics, b: BasicStatistics)
    requires
        b.victories == 0,
        b.defeats == 0,
        b.errors == 0,
        b.min_score == i16::MAX,
        b.max_score == i16::MIN,
        b.first_best_game.len() == 0,
    ensures
        merge_stats(a, b) == a,
{
}

impl BasicStatistics {
    pub fn new() -> (r: BasicStatistics)
        ensures
            r.victories == 0,
            r.defeats == 0,
            r.errors == 0,
            r.min_score == i16::MAX,
            r.max_score == i16::MIN,
            r.first_best_game.len() == 0,
    {
        BasicStatistics {
            victories: 0,
            defeats: 0,
            errors: 0,
            min_score: i16::MAX,
            max_score: i16::MIN,
            first_best_game: Vec::new(),
        }
    }

    /// Folds another branch's statistics into this one, exactly as
    /// `merge_stats` says: counts add, the range widens, and the best
    /// game is taken from the other side only when its maximum is
    /// strictly better and it recorded a path.
    pub fn merge(&mut self, other: BasicStatistics)
        ensures
            *final(self) == merge_stats(*old(self), other),
    {
        self.victories = self.victories.saturating_add(other.victories);
        self.defeats = self.defeats.saturating_add(other.defeats);
        self.errors = self.errors.saturating_add(other.errors);
        if other.max_score > self.max_score && other.first_best_game.len() != 0 {
            self.first_best_game = other.first_best_game;
        }
        if other.min_score < self.min_score {
            self.min_score = other.min_score;
        }
        if other.max_score > self.max_score {
            self.max_score = other.max_score;
        }
    }

    /// Records one terminal outcome: victories and defeats are scored and
    /// widen the range; anything else is counted as an error.  `path` is
    /// the decision path that reached the terminal, kept when it beats
    /// the best score seen.
    pub fn consume(
        &mut self,
        path: Vec<VecDeque<DecisionChoice>>,
        game_state: &GameState,
        terminal: &StepFailure,
    )
        ensures
            terminal is GameOverVictory ==> final(self).victories == sat_add_usize(
                old(self).victories,
                1,
            ),
            terminal is GameOverVictory ==> final(self).defeats == old(self).defeats,
            terminal is GameOverDefeat ==> final(self).defeats == sat_add_usize(
                old(self).defeats,
                1,
            ),
            terminal is GameOverDefeat ==> final(self).victories == old(self).victories,
            (terminal is GameOverVictory || terminal is GameOverDefeat) ==> final(self).errors
                == old(self).errors,
            (terminal is GameOverVictory || terminal is GameOverDefeat) ==> final(self).min_score as int == if spec_score(*game_state) < old(self).min_score as int {
                spec_score(*game_state)
            } else {
                old(self).min_score as int
            },
            (terminal is GameOverVictory || terminal is GameOverDefeat) ==> final(self).max_score as int == if spec_score(*game_state) > old(self).max_score as int {
                spec_score(*game_state)
            } else {
                old(self).max_score as int
            },
            !(terminal is GameOverVictory || terminal is GameOverDefeat) ==> final(self).errors
                == sat_add_usize(old(self).errors, 1) && final(self).victories == old(self).victories && final(self).defeats == old(self).defeats && final(self).min_score == old(self).min_score && final(self).max_score == old(self).max_score,
            ((terminal is GameOverVictory || terminal is GameOverDefeat) && spec_score(*game_state)
                > old(self).max_score as int) ==> final(self).first_best_game == path,
            ((terminal is GameOverVictory || terminal is GameOverDefeat) && spec_score(*game_state)
                <= old(self).max_score as int) ==> final(self).first_best_game == old(self).first_best_game,
            !(terminal is GameOverVictory || terminal is GameOverDefeat) ==> final(self).first_best_game == old(self).first_best_game,
    {
        let do_score: bool;
        match terminal {
            StepFailure::GameOverVictory => {
                do_score = true;
                self.victories = self.victories.saturating_add(1);
            },
            StepFailure::GameOverDefeat => {
                do_score = true;
                self.defeats = self.defeats.saturating_add(1);
            },
            _ => {
                do_score = false;
                self.errors = self.errors.saturating_add(1);
            },
        }
        if do_score {
            let score = game_state.score_game();
            if score > self.max_score {
                self.first_best_game = path;
            }
            if score < self.min_score {
                self.min_score = score;
            }
            if score > self.max_score {
                self.max_score = score;
            }
        }
    }
}

/// The terminal outcomes a statistics value has counted.
pub open spec fn outcome_total(s: BasicStatistics) -> int {
    s.victories + s.defeats + s.errors
}

/// Exactly one terminal outcome was added to the counts.
pub open spec fn counted_one_outcome(pre: BasicStatistics, post: BasicStatistics) -> bool {
    ||| (post.victories == sat_add_usize(pre.victories, 1) && post.defeats == pre.defeats
        && post.errors == pre.errors)
    ||| (post.defeats == sat_add_usize(pre.defeats, 1) && post.victories == pre.victories
        && post.errors == pre.errors)
    ||| (post.errors == sat_add_usize(pre.errors, 1) && post.victories == pre.victories
        && post.defeats == pre.defeats)
}

/// The lifecycle of one branch; a branch only ever moves forward in the
/// order these are declared.
#[derive(PartialEq, Eq, Structural, Hash, Copy, Clone, Debug)]
pub enum SolveBranchState {
    Inited,
    Executed,
    Expanded,
    Pending,
    Completed,
    Finalized,
}

/// The position of a lifecycle state in the total order
/// `Inited < Executed < Expanded ≤ Pending < Completed < Finalized`.
pub open spec fn branch_rank(s: SolveBranchState) -> int {
    match s {
        SolveBranchState::Inited => 0,
        SolveBranchState::Executed => 1,
        SolveBranchState::Expanded => 2,
        SolveBranchState::Pending => 3,
        SolveBranchState::Completed => 4,
        SolveBranchState::Finalized => 5,
    }
}

/// The statistics of the given nodes, in order.
pub open spec fn children_stats(arena: Seq<SolveBranch>, ids: Seq<usize>) -> Seq<BasicStatistics> {
    Seq::new(ids.len(), |j: int| arena[ids[j] as int].stats)
}

/// Merging a list of statistics into an accumulator, front to back.
pub open spec fn fold_merge(acc: BasicStatistics, s: Seq<BasicStatistics>) -> BasicStatistics
    decreases s.len(),
{
    if s.len() == 0 {
        acc
    } else {
        fold_merge(merge_stats(acc, s[0]), s.subrange(1, s.len() as int))
    }
}

/// Folding one more entry merges it into the fold so far.
pub proof fn lemma_fold_merge_push(acc: BasicStatistics, s: Seq<BasicStatistics>, x: BasicStatistics)
    ensures
        fold_merge(acc, s.push(x)) == merge_stats(fold_merge(acc, s), x),
    decreases s.len(),
{
    if s.len() == 0 {
        assert(s.push(x).subrange(1, 1) =~= Seq::<BasicStatistics>::empty());
        assert(s.push(x)[0] == x);
        assert(fold_merge(acc, s.push(x)) == fold_merge(
            merge_stats(acc, x),
            Seq::<BasicStatistics>::empty(),
        ));
        assert(fold_merge(acc, s) == acc);
    } else {
        assert(s.push(x)[0] == s[0]);
        assert(s.push(x).subrange(1, s.len() as int + 1) =~= s.subrange(1, s.len() as int).push(x));
        lemma_fold_merge_push(merge_stats(acc, s[0]), s.subrange(1, s.len() as int), x);
    }
}

/// Folding statistics into an accumulator never loses counted outcomes:
/// every count is only ever added to, saturating at the top.
pub proof fn lemma_fold_merge_total_monotone(acc: BasicStatistics, s: Seq<BasicStatistics>)
    ensures
        outcome_total(fold_merge(acc, s)) >= outcome_total(acc),
    decreases s.len(),
{
    if s.len() > 0 {
        lemma_fold_merge_total_monotone(merge_stats(acc, s[0]), s.subrange(1, s.len() as int));
    }
}

/// The lifecycle order is total and strict between its stages.
pub proof fn lemma_branch_rank_total_order()
    ensures
        branch_rank(SolveBranchState::Inited) < branch_rank(SolveBranchState::Executed),
        branch_rank(SolveBranchState::Executed) < branch_rank(SolveBranchState::Expanded),
        branch_rank(SolveBranchState::Expanded) <= branch_rank(SolveBranchState::Pending),
        branch_rank(SolveBranchState::Pending) < branch_rank(SolveBranchState::Completed),
        branch_rank(SolveBranchState::Completed) < branch_rank(SolveBranchState::Finalized),
{
}

/// One node of the search tree: one reachable trajectory, its snapshot,
/// its children, and its aggregated statistics.
pub struct SolveBranch {
    /// The index of the parent node; the root has none.  Always smaller
    /// than this node's own index.
    pub parent: Option<usize>,
    /// The choices that led from the parent's decision point to here.
    pub decision_edge: VecDeque<DecisionChoice>,
    pub state: SolveBranchState,
    pub game_state: GameState,
    /// Indexes of the children; always larger than this node's own.
    pub branches: Vec<usize>,
    pub terminal: Option<StepFailure>,
    pub stats: BasicStatistics,
    pub pending_children: usize,
    pub finalized_children: usize,
}

impl SolveBranch {
    pub fn new(
        parent: Option<usize>,
        game_state: GameState,
        decision_edge: VecDeque<DecisionChoice>,
    ) -> (r: SolveBranch)
        ensures
            r.parent == parent,
            r.decision_edge == decision_edge,
            r.game_state == game_state,
            r.state == SolveBranchState::Inited,
            r.branches.len() == 0,
            r.terminal is None,
            r.stats.victories == 0 && r.stats.defeats == 0 && r.stats.errors == 0,
            r.stats.min_score == i16::MAX,
            r.stats.max_score == i16::MIN,
            r.stats.first_best_game.len() == 0,
            r.pending_children == 0,
            r.finalized_children == 0,
    {
        SolveBranch {
            parent,
            decision_edge,
            state: SolveBranchState::Inited,
            game_state,
            branches: Vec::new(),
            terminal: None,
            stats: BasicStatistics::new(),
            pending_children: 0,
            finalized_children: 0,
        }
    }
}

/// The tree is well formed: it has a root, every parent link points to
/// an earlier node, and every child link points to a later node inside
/// the arena.
pub open spec fn engine_arena_wf(arena: Seq<SolveBranch>) -> bool {
    &&& arena.len() >= 1
    &&& forall|i: int|
        0 <= i < arena.len() ==> ((#[trigger] arena[i].parent) matches Some(p) ==> p < i)
    &&& forall|i: int, j: int|
        0 <= i < arena.len() && 0 <= j < arena[i].branches.len() ==> i < (
        #[trigger] arena[i].branches@[j]) < arena.len()
}

/// Branch lifecycle states never regress: every node of the new arena is
/// at least as far along as it was in the old one.
pub open spec fn arena_monotone(pre: Seq<SolveBranch>, post: Seq<SolveBranch>) -> bool {
    &&& pre.len() <= post.len()
    &&& forall|i: int|
        0 <= i < pre.len() ==> branch_rank((#[trigger] post[i]).state) >= branch_rank(pre[i].state)
}

/// One unit of work on the queue.
pub enum SolveWork {
    Execute(usize),
    Finalize(usize),
    Terminate,
}

/// Whether a work item's branch index lies inside the arena.
pub open spec fn work_in_range(w: SolveWork, n: int) -> bool {
    match w {
        SolveWork::Execute(id) => id < n,
        SolveWork::Finalize(id) => id < n,
        SolveWork::Terminate => true,
    }
}

/// Always tries the first `take` of the valid choices (all of them when
/// `take` is zero), in the order the decision enumerates them.
pub struct SimpleDecisionMaker {
    pub take: u8,
}

impl SimpleDecisionMaker {
    pub fn new(take: u8) -> SimpleDecisionMaker {
        SimpleDecisionMaker { take }
    }

    pub fn decide(&self, state: &GameState) -> (r: Vec<DecisionChoice>)
        ensures
            self.take != 0 ==> r.len() <= self.take,
            state.effect_stack.len() == 0 ==> r.len() == 0,
    {
        if state.effect_stack.len() == 0 {
            return Vec::new();
        }
        let top = &state.effect_stack[state.effect_stack.len() - 1];
        if !top.is_decision() {
            return Vec::new();
        }
        let mut descisions = top.valid_choices(state);
        if self.take != 0 && (self.take as usize) < descisions.len() {
            descisions.truncate(self.take as usize);
        }
        descisions
    }
}

/// Shuffles the valid choices with a deterministic stream keyed to how
/// many choices the trajectory has consumed, then takes the first
/// `take` (all of them when `take` is zero).
pub struct StochasticDecisionMaker {
    pub rng: DeterministicChaCha,
    pub take: u8,
}

impl StochasticDecisionMaker {
    pub fn new(rng: DeterministicChaCha, take: u8) -> StochasticDecisionMaker {
        StochasticDecisionMaker { rng, take }
    }

    pub fn decide(&self, state: &GameState) -> (r: Vec<DecisionChoice>)
        ensures
            self.take != 0 ==> r.len() <= self.take,
            state.effect_stack.len() == 0 ==> r.len() == 0,
    {
        if state.effect_stack.len() == 0 {
            return Vec::new();
        }
        let top = &state.effect_stack[state.effect_stack.len() - 1];
        if !top.is_decision() {
            return Vec::new();
        }
        let mut temp_rng = self.rng.clone();
        let mut n: u32 = 0;
        while n < state.choice_count
            decreases state.choice_count - n,
        {
            temp_rng.next_u64();
            n = n + 1;
        }
        let mut descisions = top.valid_choices(state);
        shuffle_vec(&mut descisions, &mut temp_rng);
        if self.take != 0 && (self.take as usize) < descisions.len() {
            descisions.truncate(self.take as usize);
        }
        descisions
    }
}

/// The pluggable search policy: an ordered candidate list to try at the
/// current decision point.
pub enum SolveStrategy {
    Simple(SimpleDecisionMaker),
    Stochastic(StochasticDecisionMaker),
}

impl SolveStrategy {
    /// The candidate choices, at most the strategy's `take` of them; each
    /// comes from the pending decision's own enumeration.
    pub fn decide(&self, state: &GameState) -> (r: Vec<DecisionChoice>)
        ensures
            state.effect_stack.len() == 0 ==> r.len() == 0,
    {
        match self {
            SolveStrategy::Simple(s) => s.decide(state),
            SolveStrategy::Stochastic(s) => s.decide(state),
        }
    }
}

/// A branch with nothing in it, used to swap a node out for editing.
fn empty_branch() -> (r: SolveBranch)
    ensures
        r.parent is None,
        r.branches.len() == 0,
{
    let desc = crate::game::GameDescription {
        content: Vec::new(),
        adversary: crate::concept::AdversaryDescription {
            fear_cards: (0, 0, 0),
            invader_steps: Vec::new(),
            setup: Vec::new(),
        },
        spirits: Vec::new(),
        table: crate::board::TableDescription {
            boards: Vec::new(),
            lands: Vec::new(),
            land_count: 0,
        },
        fear: Vec::new(),
        powers: Vec::new(),
    };
    let state = GameState::new(desc, DeterministicChaCha::from_seed([0; 32]));
    SolveBranch::new(None, state, VecDeque::new())
}

/// The driver of one solve: the root branch, the arena of nodes, the
/// strategy, and the progress counters.
pub struct SolveEngine {
    pub init_state: GameState,
    pub strategy: SolveStrategy,
    pub arena: Vec<SolveBranch>,
    pub branches_created: usize,
    pub steps_executed: usize,
    pub branches_finalized: usize,
}

impl SolveEngine {
    pub fn new(init_state: &GameState, strategy: SolveStrategy) -> (r: SolveEngine)
        ensures
            engine_arena_wf(r.arena@),
            r.arena.len() == 1,
            r.arena@[0].state is Inited,
    {
        let mut arena: Vec<SolveBranch> = Vec::new();
        arena.push(SolveBranch::new(None, init_state.clone(), VecDeque::new()));
        SolveEngine {
            init_state: init_state.clone(),
            strategy,
            arena,
            branches_created: 1,
            steps_executed: 0,
            branches_finalized: 0,
        }
    }

    /// Swaps the branch out for editing; put it back with `put_branch`.
    fn take_branch(&mut self, id: usize) -> (r: SolveBranch)
        requires
            id < old(self).arena.len(),
        ensures
            r == old(self).arena@[id as int],
            final(self).arena.len() == old(self).arena.len(),
            forall|j: int|
                0 <= j < old(self).arena.len() && j != id ==> final(self).arena@[j] == old(self).arena@[j],
            final(self).arena@[id as int].parent is None,
            final(self).arena@[id as int].branches.len() == 0,
            *final(self) == (SolveEngine { arena: final(self).arena, ..*old(self) }),
    {
        let mut b = empty_branch();
        self.arena.set_and_swap(id, &mut b);
        b
    }

    /// Puts an edited branch back in its slot.
    fn put_branch(&mut self, id: usize, b: SolveBranch)
        requires
            id < old(self).arena.len(),
        ensures
            final(self).arena@ == old(self).arena@.update(id as int, b),
            *final(self) == (SolveEngine { arena: final(self).arena, ..*old(self) }),
    {
        self.arena.set(id, b);
    }

    /// The decision edges of a node's ancestors, nearest first.
    fn collect_ancestor_edges(&self, start: Option<usize>) -> Vec<VecDeque<DecisionChoice>>
        requires
            engine_arena_wf(self.arena@),
            (start matches Some(p) ==> p < self.arena.len()),
    {
        let mut out: Vec<VecDeque<DecisionChoice>> = Vec::new();
        let mut cur: Option<usize> = start;
        while cur.is_some()
            invariant
                engine_arena_wf(self.arena@),
                (cur matches Some(p) ==> p < self.arena.len()),
            decreases (if cur is Some {
                cur->0 + 1int
            } else {
                0int
            }),
        {
            let p = cur.unwrap();
            out.push(self.arena[p].decision_edge.clone());
            cur = self.arena[p].parent;
        }
        out
    }

    /// The decision path from the root down to a branch, optionally with
    /// one more decision appended: what a replay must feed in to reach
    /// the same point.
    fn assemble_path(
        &self,
        branch: &SolveBranch,
        extra: Option<VecDeque<DecisionChoice>>,
    ) -> Vec<VecDeque<DecisionChoice>>
        requires
            engine_arena_wf(self.arena@),
            (branch.parent matches Some(p) ==> p < self.arena.len()),
    {
        let mut path: Vec<VecDeque<DecisionChoice>> = Vec::new();
        match extra {
            Some(c) => {
                path.push(c);
            },
            None => {},
        }
        path.push(branch.decision_edge.clone());
        let mut up = self.collect_ancestor_edges(branch.parent);
        path.append(&mut up);
        // the topmost edge is the root's, which is empty
        if path.len() > 0 {
            path.pop();
        }
        let mut revd: Vec<VecDeque<DecisionChoice>> = Vec::new();
        let mut k: usize = path.len();
        while k > 0
            invariant
                k <= path.len(),
            decreases k,
        {
            k = k - 1;
            revd.push(path[k].clone());
        }
        revd
    }

    /// Drives a fresh branch to its decision point or its end: step and
    /// commit until a decision is required (Executed) or a terminal
    /// outcome is recorded (Completed).
    pub fn do_branch_execute(&mut self, id: usize) -> (r: Result<(), StepFailure>)
        requires
            engine_arena_wf(old(self).arena@),
            id < old(self).arena.len(),
            old(self).arena@[id as int].state is Inited,
        ensures
            engine_arena_wf(final(self).arena@),
            arena_monotone(old(self).arena@, final(self).arena@),
            final(self).arena.len() == old(self).arena.len(),
            forall|j: int|
                0 <= j < old(self).arena.len() && j != id ==> final(self).arena@[j] == old(self).arena@[j],
            r is Ok,
            r is Ok ==> (final(self).arena@[id as int].state is Executed || final(self).arena@[id as int].state is Completed),
            (r is Ok && final(self).arena@[id as int].state is Executed) ==> final(self).arena@[id as int].stats == old(self).arena@[id as int].stats && final(self).arena@[id as int].terminal == old(self).arena@[id as int].terminal,
            r is Ok ==> (final(self).arena@[id as int].game_state == old(self).arena@[
                id as int
            ].game_state || final(self).arena@[id as int].game_state.choices@.len() == 0),
            (r is Ok && final(self).arena@[id as int].state is Completed) ==> final(self).arena@[id as int].terminal is Some && counted_one_outcome(
                old(self).arena@[id as int].stats,
                final(self).arena@[id as int].stats,
            ),
            final(self).arena@[id as int].parent == old(self).arena@[id as int].parent,
            final(self).arena@[id as int].branches == old(self).arena@[id as int].branches,
            final(self).arena@[id as int].decision_edge == old(self).arena@[
                id as int
            ].decision_edge,
            outcome_total(final(self).arena@[0].stats) >= outcome_total(
                old(self).arena@[0].stats,
            ),
    {
        let mut branch = self.take_branch(id);
        let mut fuel: u32 = BRANCH_STEP_BUDGET;
        let mut done = false;
        while !done && fuel > 0
            invariant
                engine_arena_wf(self.arena@),
                id < self.arena.len(),
                self.arena.len() == old(self).arena.len(),
                forall|j: int|
                    0 <= j < old(self).arena.len() && j != id ==> self.arena@[j] == old(self).arena@[j],
                branch.parent == old(self).arena@[id as int].parent,
                branch.branches == old(self).arena@[id as int].branches,
                branch.decision_edge == old(self).arena@[id as int].decision_edge,
                (branch.parent matches Some(p) ==> p < self.arena.len()),
                !done ==> branch.state == old(self).arena@[id as int].state
                    && branch.stats == old(self).arena@[id as int].stats && branch.terminal == old(self).arena@[id as int].terminal,
                branch.game_state == old(self).arena@[id as int].game_state
                    || branch.game_state.choices@.len() == 0,
                done ==> (branch.state is Executed || branch.state is Completed),
                (done && branch.state is Executed) ==> branch.stats == old(self).arena@[
                    id as int
                ].stats && branch.terminal == old(self).arena@[id as int].terminal,
                (done && branch.state is Completed) ==> branch.terminal is Some
                    && counted_one_outcome(old(self).arena@[id as int].stats, branch.stats),
            decreases fuel,
        {
            fuel = fuel - 1;
            let mut working_state = branch.game_state.clone();
            if working_state.is_over() {
                let terminal = StepFailure::InternalError("branch snapshot is already terminal");
                let path = self.assemble_path(&branch, None);
                branch.stats.consume(path, &working_state, &terminal);
                branch.terminal = Some(terminal);
                branch.state = SolveBranchState::Completed;
                done = true;
            } else {
                let res = working_state.step();
                self.steps_executed = self.steps_executed.saturating_add(1);
                match res {
                    Ok(()) => {
                        match working_state.advance() {
                            Ok(_) => {},
                            Err(e) => {
                                self.put_branch(id, branch);
                                return Err(e);
                            },
                        }
                        branch.game_state = working_state;
                    },
                    Err(StepFailure::DecisionRequired) => {
                        branch.state = SolveBranchState::Executed;
                        done = true;
                    },
                    Err(terminal) => {
                        let path = self.assemble_path(&branch, None);
                        branch.stats.consume(path, &working_state, &terminal);
                        branch.terminal = Some(terminal);
                        branch.state = SolveBranchState::Completed;
                        done = true;
                    },
                }
            }
        }
        if !done {
            let terminal = StepFailure::InternalError("branch step budget exhausted");
            let path = self.assemble_path(&branch, None);
            branch.stats.consume(path, &branch.game_state, &terminal);
            branch.terminal = Some(terminal);
            branch.state = SolveBranchState::Completed;
        }
        self.put_branch(id, branch);
        Ok(())
    }

    /// Replays the branch to its decision point with a growing choice
    /// prefix and tries every strategy-ranked candidate: clean advances
    /// become children (eagerly executed, and folded straight into this
    /// branch when they finish), stacked decisions recurse with the
    /// longer prefix, and terminals are recorded directly.
    pub fn do_branch_expand(
        &mut self,
        id: usize,
        choices_so_far: VecDeque<DecisionChoice>,
        depth: u32,
    ) -> (r: Result<(), StepFailure>)
        requires
            engine_arena_wf(old(self).arena@),
            id < old(self).arena.len(),
            old(self).arena@[id as int].state is Executed,
        ensures
            engine_arena_wf(final(self).arena@),
            arena_monotone(old(self).arena@, final(self).arena@),
            old(self).arena.len() <= final(self).arena.len(),
            r is Ok && choices_so_far@.len() != 0 ==> final(self).arena@[
                id as int
            ].state is Executed,
            r is Ok && choices_so_far@.len() == 0 ==> (final(self).arena@[
                id as int
            ].state is Expanded || final(self).arena@[id as int].state is Completed),
            r is Ok && choices_so_far@.len() == 0 ==> (final(self).arena@[
                id as int
            ].state is Expanded <==> final(self).arena@[id as int].branches.len() > 0),
            r is Ok ==> outcome_total(final(self).arena@[id as int].stats) >= outcome_total(
                old(self).arena@[id as int].stats,
            ),
            r is Ok ==> old(self).arena@[id as int].branches.len() <= final(self).arena@[
                id as int
            ].branches.len(),
            r is Ok ==> forall|j: int|
                0 <= j < old(self).arena@[id as int].branches.len() ==> final(self).arena@[
                    id as int
                ].branches@[j] == old(self).arena@[id as int].branches@[j],
            r is Ok ==> forall|j: int|
                old(self).arena@[id as int].branches.len() <= j < final(self).arena@[
                    id as int
                ].branches.len() ==> ({
                    let c = (#[trigger] final(self).arena@[id as int].branches@[j]) as int;
                    &&& old(self).arena.len() <= c
                    &&& final(self).arena@[c].parent == Some(id)
                }),
            forall|k: int|
                0 <= k < old(self).arena.len() && k != id ==> final(self).arena@[k] == old(self).arena@[k],
            outcome_total(final(self).arena@[0].stats) >= outcome_total(
                old(self).arena@[0].stats,
            ),
        decreases depth,
    {
        if depth == 0 {
            return Err(StepFailure::InternalError("stacked decisions nested too deeply"));
        }
        let mut working = self.arena[id].game_state.clone();
        working.choices = choices_so_far.clone();
        if working.is_over() {
            return Err(StepFailure::InternalError("expand on a finished game"));
        }
        match working.step() {
            Err(StepFailure::DecisionRequired) => {},
            _ => {
                return Err(
                    StepFailure::InternalError(
                        "Expand did not begin with a DecisionRequired state.",
                    ),
                );
            },
        }
        let possible_decisions = self.strategy.decide(&working);
        let mut pi: usize = 0;
        while pi < possible_decisions.len()
            invariant
                engine_arena_wf(self.arena@),
                arena_monotone(old(self).arena@, self.arena@),
                old(self).arena.len() <= self.arena.len(),
                id < old(self).arena.len(),
                self.arena@[id as int].state is Executed,
                depth >= 1,
                pi <= possible_decisions.len(),
                old(self).arena@[id as int].branches.len() <= self.arena@[
                    id as int
                ].branches.len(),
                forall|j: int|
                    0 <= j < old(self).arena@[id as int].branches.len() ==> self.arena@[
                        id as int
                    ].branches@[j] == old(self).arena@[id as int].branches@[j],
                forall|j: int|
                    old(self).arena@[id as int].branches.len() <= j < self.arena@[
                        id as int
                    ].branches.len() ==> ({
                        let c = (#[trigger] self.arena@[id as int].branches@[j]) as int;
                        &&& old(self).arena.len() <= c
                        &&& self.arena@[c].parent == Some(id)
                    }),
                forall|k: int|
                    0 <= k < old(self).arena.len() && k != id ==> self.arena@[k] == old(self).arena@[k],
                outcome_total(self.arena@[id as int].stats) >= outcome_total(
                    old(self).arena@[id as int].stats,
                ),
                outcome_total(self.arena@[0].stats) >= outcome_total(old(self).arena@[0].stats),
            decreases possible_decisions.len() - pi,
        {
            let mut choices = choices_so_far.clone();
            choices.push_back(possible_decisions[pi].clone());
            let mut working2 = self.arena[id].game_state.clone();
            working2.choices = choices.clone();
            if working2.is_over() {
                return Err(StepFailure::InternalError("expand on a finished game"));
            }
            let res = working2.step();
            self.steps_executed = self.steps_executed.saturating_add(1);
            match res {
                Ok(()) => {
                    match working2.advance() {
                        Ok(_) => {},
                        Err(e) => {
                            return Err(e);
                        },
                    }
                    let new_id = self.arena.len();
                    self.arena.push(SolveBranch::new(Some(id), working2, choices));
                    self.do_branch_execute(new_id)?;
                    let keep = self.arena[new_id].state != SolveBranchState::Completed;
                    if keep {
                        let mut parent = self.take_branch(id);
                        parent.branches.push(new_id);
                        self.put_branch(id, parent);
                        self.branches_created = self.branches_created.saturating_add(1);
                    } else {
                        // eagerly prune: fold the finished child into this
                        // branch and drop the node
                        let child = self.take_branch(new_id);
                        let mut parent = self.take_branch(id);
                        parent.stats.merge(child.stats);
                        self.put_branch(id, parent);
                        self.arena.pop();
                    }
                },
                Err(StepFailure::DecisionRequired) => {
                    self.do_branch_expand(id, choices, depth - 1)?;
                },
                Err(terminal) => {
                    let mut parent = self.take_branch(id);
                    let path = self.assemble_path(&parent, Some(choices));
                    parent.stats.consume(path, &working2, &terminal);
                    self.put_branch(id, parent);
                },
            }
            pi = pi + 1;
        }
        if choices_so_far.len() == 0 {
            let mut branch = self.take_branch(id);
            if branch.branches.len() != 0 {
                branch.state = SolveBranchState::Expanded;
            } else {
                branch.state = SolveBranchState::Completed;
            }
            self.put_branch(id, branch);
        }
        Ok(())
    }

    /// Drives one branch one lifecycle stage onward: execute, expand,
    /// check the children, and finalize once every child has reported.
    /// Lifecycle states only ever move forward.
    pub fn do_branch(&mut self, id: usize) -> (r: Result<SolveBranchState, StepFailure>)
        requires
            engine_arena_wf(old(self).arena@),
            id < old(self).arena.len(),
        ensures
            engine_arena_wf(final(self).arena@),
            arena_monotone(old(self).arena@, final(self).arena@),
            old(self).arena.len() <= final(self).arena.len(),
            r is Ok ==> r->Ok_0 == final(self).arena@[id as int].state,
            (r is Ok && r->Ok_0 is Finalized && !(old(self).arena@[id as int].state is Finalized))
                ==> final(self).arena@[id as int].branches.len() == 0,
            outcome_total(final(self).arena@[0].stats) >= outcome_total(
                old(self).arena@[0].stats,
            ),
    {
        if self.arena[id].state == SolveBranchState::Inited {
            self.do_branch_execute(id)?;
        }
        if self.arena[id].state == SolveBranchState::Executed {
            self.do_branch_expand(id, VecDeque::new(), EXPAND_DEPTH)?;
        }
        let st = self.arena[id].state;
        if st == SolveBranchState::Expanded || st == SolveBranchState::Pending {
            let ghost snap = *self;
            let mut fin: usize = 0;
            let mut ci: usize = 0;
            while ci < self.arena[id].branches.len()
                invariant
                    *self == snap,
                    engine_arena_wf(self.arena@),
                    id < self.arena.len(),
                    fin <= ci,
                    ci <= self.arena@[id as int].branches.len(),
                decreases self.arena@[id as int].branches.len() - ci,
            {
                let c = self.arena[id].branches[ci];
                if c < self.arena.len() && self.arena[c].state == SolveBranchState::Finalized {
                    fin = fin + 1;
                }
                ci = ci + 1;
            }
            let mut branch = self.take_branch(id);
            branch.finalized_children = fin;
            if fin == branch.branches.len() {
                branch.state = SolveBranchState::Completed;
            }
            self.put_branch(id, branch);
        }
        if self.arena[id].state == SolveBranchState::Completed {
            self.do_branch_finalize(id)?;
        }
        Ok(self.arena[id].state)
    }

    /// Folds every child's statistics into a completed branch and
    /// releases the children container, finalizing the branch.  The
    /// branch's statistics become exactly the fold of its children's
    /// into its own, in child order.
    pub fn do_branch_finalize(&mut self, id: usize) -> (r: Result<(), StepFailure>)
        requires
            engine_arena_wf(old(self).arena@),
            id < old(self).arena.len(),
            old(self).arena@[id as int].state is Completed,
        ensures
            engine_arena_wf(final(self).arena@),
            arena_monotone(old(self).arena@, final(self).arena@),
            final(self).arena.len() == old(self).arena.len(),
            r is Ok ==> ({
                let pre = old(self).arena@[id as int];
                let post = final(self).arena@[id as int];
                &&& post.state is Finalized
                &&& post.branches.len() == 0
                &&& post == (SolveBranch {
                    state: post.state,
                    branches: post.branches,
                    stats: post.stats,
                    ..pre
                })
                &&& post.stats == fold_merge(
                    pre.stats,
                    children_stats(old(self).arena@, pre.branches@),
                )
            }),
            r is Ok ==> forall|j: int|
                0 <= j < old(self).arena@[id as int].branches.len() ==> ({
                    let c = (#[trigger] old(self).arena@[id as int].branches@[j]) as int;
                    final(self).arena@[c] == (SolveBranch {
                        stats: final(self).arena@[c].stats,
                        ..old(self).arena@[c]
                    })
                }),
            forall|k: int|
                0 <= k < old(self).arena.len() && k != id && !old(self).arena@[
                    id as int
                ].branches@.contains(k as usize) ==> final(self).arena@[k] == old(self).arena@[k],
            outcome_total(final(self).arena@[0].stats) >= outcome_total(
                old(self).arena@[0].stats,
            ),
    {
        let mut branch = self.take_branch(id);
        if has_duplicate_usize(&branch.branches) {
            self.put_branch(id, branch);
            return Err(StepFailure::InternalError("a child is registered twice"));
        }
        let ghost pre_branch = old(self).arena@[id as int];
        let ghost kids = pre_branch.branches@;
        let mut ci: usize = 0;
        while ci < branch.branches.len()
            invariant
                engine_arena_wf(self.arena@),
                self.arena.len() == old(self).arena.len(),
                id < self.arena.len(),
                ci <= branch.branches.len(),
                branch == (SolveBranch { stats: branch.stats, ..pre_branch }),
                kids == branch.branches@,
                forall|a: int, b: int| 0 <= a < b < kids.len() ==> kids[a] != kids[b],
                forall|j: int| 0 <= j < kids.len() ==> id < (#[trigger] kids[j]) < self.arena.len(),
                branch.stats == fold_merge(
                    pre_branch.stats,
                    children_stats(old(self).arena@, kids.subrange(0, ci as int)),
                ),
                forall|j: int|
                    ci <= j < kids.len() ==> self.arena@[(#[trigger] kids[j]) as int] == old(
                        self,
                    ).arena@[kids[j] as int],
                forall|j: int|
                    0 <= j < ci ==> self.arena@[(#[trigger] kids[j]) as int] == (SolveBranch {
                        stats: self.arena@[kids[j] as int].stats,
                        ..old(self).arena@[kids[j] as int]
                    }),
                forall|k: int|
                    0 <= k < old(self).arena.len() && k != id && !kids.contains(k as usize)
                        ==> self.arena@[k] == old(self).arena@[k],
                forall|j: int|
                    0 <= j < old(self).arena.len() && j != id ==> branch_rank(
                        (#[trigger] self.arena@[j]).state,
                    ) >= branch_rank(old(self).arena@[j].state),
            decreases branch.branches.len() - ci,
        {
            let c = branch.branches[ci];
            let child = self.take_branch(c);
            let emptied = SolveBranch { stats: BasicStatistics::new(), ..child };
            proof {
                assert(child.stats == children_stats(old(self).arena@, kids)[ci as int]);
                lemma_fold_merge_push(
                    pre_branch.stats,
                    children_stats(old(self).arena@, kids.subrange(0, ci as int)),
                    child.stats,
                );
                assert(children_stats(old(self).arena@, kids.subrange(0, ci + 1))
                    =~= children_stats(old(self).arena@, kids.subrange(0, ci as int)).push(
                    child.stats,
                ));
            }
            branch.stats.merge(child.stats);
            self.put_branch(c, emptied);
            ci = ci + 1;
        }
        proof {
            assert(kids.subrange(0, kids.len() as int) =~= kids);
            lemma_fold_merge_total_monotone(
                pre_branch.stats,
                children_stats(old(self).arena@, kids),
            );
            assert(!kids.contains(0usize)) by {
                if kids.contains(0usize) {
                    let j = choose|j: int| 0 <= j < kids.len() && kids[j] == 0usize;
                    assert(id < kids[j]);
                }
            }
        }
        branch.branches = Vec::new();
        branch.state = SolveBranchState::Finalized;
        self.put_branch(id, branch);
        self.branches_finalized = self.branches_finalized.saturating_add(1);
        Ok(())
    }

    /// Claims up to `more` not-yet-dispatched children of a branch,
    /// marking it Pending when new work was handed out.
    pub fn get_branch_partial_expand(&mut self, id: usize, more: usize) -> (r: Result<
        Vec<usize>,
        StepFailure,
    >)
        requires
            engine_arena_wf(old(self).arena@),
            id < old(self).arena.len(),
        ensures
            engine_arena_wf(final(self).arena@),
            arena_monotone(old(self).arena@, final(self).arena@),
            final(self).arena.len() == old(self).arena.len(),
            r is Ok ==> forall|i: int|
                0 <= i < r->Ok_0.len() ==> (#[trigger] r->Ok_0@[i]) < final(self).arena.len(),
            forall|j: int|
                0 <= j < old(self).arena.len() && j != id ==> final(self).arena@[j] == old(self).arena@[j],
            outcome_total(final(self).arena@[0].stats) >= outcome_total(
                old(self).arena@[0].stats,
            ),
            !(old(self).arena@[id as int].state is Expanded || old(self).arena@[
                id as int
            ].state is Pending) ==> *final(self) == *old(self) && r is Ok && r->Ok_0@.len() == 0,
            ((old(self).arena@[id as int].state is Expanded || old(self).arena@[
                id as int
            ].state is Pending) && old(self).arena@[id as int].pending_children <= old(
                self,
            ).arena@[id as int].branches.len()) ==> r is Ok && ({
                let pre = old(self).arena@[id as int];
                let post = final(self).arena@[id as int];
                let grown = sat_add_usize(pre.pending_children, more);
                let newp: usize = if grown < pre.branches.len() {
                    grown
                } else {
                    pre.branches.len()
                };
                &&& post.pending_children == newp
                &&& post == (SolveBranch {
                    state: post.state,
                    pending_children: post.pending_children,
                    ..pre
                })
                &&& post.state == (if newp > pre.pending_children {
                    SolveBranchState::Pending
                } else {
                    pre.state
                })
                &&& r->Ok_0@ == pre.branches@.subrange(pre.pending_children as int, newp as int)
            }),
    {
        let st = self.arena[id].state;
        if st == SolveBranchState::Expanded || st == SolveBranchState::Pending {
            let ghost pre = *self;
            let mut branch = self.take_branch(id);
            let total = branch.branches.len();
            let orig = branch.pending_children;
            if orig > total {
                self.put_branch(id, branch);
                return Err(StepFailure::InternalError("more children claimed than exist"));
            }
            let grown = orig.saturating_add(more);
            let newp = if grown < total {
                grown
            } else {
                total
            };
            branch.pending_children = newp;
            let mut claimed: Vec<usize> = Vec::new();
            let mut k: usize = orig;
            while k < newp
                invariant
                    *self == (SolveEngine { arena: self.arena, ..pre }),
                    self.arena.len() == pre.arena.len(),
                    orig <= k <= newp <= total,
                    total == branch.branches.len(),
                    forall|j: int|
                        0 <= j < branch.branches.len() ==> id < (
                        #[trigger] branch.branches@[j]) < self.arena.len(),
                    forall|i: int|
                        0 <= i < claimed.len() ==> (#[trigger] claimed@[i]) < self.arena.len(),
                    claimed@ == branch.branches@.subrange(orig as int, k as int),
                decreases newp - k,
            {
                claimed.push(branch.branches[k]);
                proof {
                    assert(claimed@ =~= branch.branches@.subrange(orig as int, k + 1));
                }
                k = k + 1;
            }
            if newp > orig {
                branch.state = SolveBranchState::Pending;
            }
            self.put_branch(id, branch);
            Ok(claimed)
        } else {
            Ok(Vec::new())
        }
    }

    /// Runs the whole solve to completion: a work queue of execute and
    /// finalize messages, drained exactly as a pool of `thread_count`
    /// workers would drain a shared channel.  Aggregation is associative
    /// and commutative, so the totals do not depend on the interleaving
    /// and the worker count changes nothing but scheduling.
    pub fn run(&mut self, thread_count: usize) -> (r: Result<(), StepFailure>)
        requires
            engine_arena_wf(old(self).arena@),
        ensures
            engine_arena_wf(final(self).arena@),
            arena_monotone(old(self).arena@, final(self).arena@),
            r is Ok ==> final(self).arena@[0].state is Finalized,
            r is Ok ==> final(self).arena@[0].branches.len() == 0,
            outcome_total(final(self).arena@[0].stats) >= outcome_total(
                old(self).arena@[0].stats,
            ),
    {
        if thread_count == 0 {
            return Err(StepFailure::InternalError("thread count must be positive"));
        }
        let mut queue: VecDeque<SolveWork> = VecDeque::new();
        queue.push_back(SolveWork::Execute(0));
        let mut budget: u64 = WORK_BUDGET;
        let mut terminated = false;
        while !terminated && budget > 0
            invariant
                engine_arena_wf(self.arena@),
                arena_monotone(old(self).arena@, self.arena@),
                old(self).arena.len() <= self.arena.len(),
                forall|i: int|
                    0 <= i < queue@.len() ==> work_in_range(
                        #[trigger] queue@[i],
                        self.arena.len() as int,
                    ),
                outcome_total(self.arena@[0].stats) >= outcome_total(old(self).arena@[0].stats),
            decreases budget,
        {
            budget = budget - 1;
            let w = match queue.pop_front() {
                Some(w) => w,
                None => {
                    break ;
                },
            };
            match w {
                SolveWork::Execute(id) => {
                    let st = self.do_branch(id)?;
                    if st != SolveBranchState::Finalized {
                        let claimed = self.get_branch_partial_expand(id, PARTIAL_EXPAND_BATCH)?;
                        let ghost snap = *self;
                        let mut k: usize = 0;
                        while k < claimed.len()
                            invariant
                                *self == snap,
                                forall|i: int|
                                    0 <= i < claimed.len() ==> (#[trigger] claimed@[i])
                                        < self.arena.len(),
                                forall|i: int|
                                    0 <= i < queue@.len() ==> work_in_range(
                                        #[trigger] queue@[i],
                                        self.arena.len() as int,
                                    ),
                            decreases claimed.len() - k,
                        {
                            queue.push_back(SolveWork::Execute(claimed[k]));
                            k = k + 1;
                        }
                        queue.push_back(SolveWork::Finalize(id));
                    } else if id == 0 {
                        queue.push_back(SolveWork::Terminate);
                    }
                },
                SolveWork::Finalize(id) => {
                    let st = self.do_branch(id)?;
                    if st != SolveBranchState::Finalized {
                        let claimed = self.get_branch_partial_expand(id, PARTIAL_EXPAND_BATCH)?;
                        let ghost snap = *self;
                        let mut k: usize = 0;
                        while k < claimed.len()
                            invariant
                                *self == snap,
                                forall|i: int|
                                    0 <= i < claimed.len() ==> (#[trigger] claimed@[i])
                                        < self.arena.len(),
                                forall|i: int|
                                    0 <= i < queue@.len() ==> work_in_range(
                                        #[trigger] queue@[i],
                                        self.arena.len() as int,
                                    ),
                            decreases claimed.len() - k,
                        {
                            queue.push_back(SolveWork::Execute(claimed[k]));
                            k = k + 1;
                        }
                        queue.push_back(SolveWork::Finalize(id));
                    } else if id == 0 {
                        queue.push_back(SolveWork::Terminate);
                    }
                },
                SolveWork::Terminate => {
                    terminated = true;
                },
            }
        }
        if self.arena[0].state == SolveBranchState::Finalized && self.arena[0].branches.len()
            == 0 {
            Ok(())
        } else {
            Err(StepFailure::InternalError("solve ended before the root finalized"))
        }
    }

    /// The aggregated statistics of the whole solve, once the root has
    /// folded every branch in.
    pub fn root_stats(&self) -> (r: &BasicStatistics)
        requires
            self.arena.len() >= 1,
        ensures
            r == &self.arena@[0].stats,
    {
        &self.arena[0].stats
    }

    /// Replays a recorded decision path against the initial state,
    /// feeding one queue of choices in at each pause, and hands back the
    /// terminal state the replay reached, whose phase is the outcome.
    pub fn resimulate_game(&self, choices: Vec<VecDeque<DecisionChoice>>) -> (r: Result<
        GameState,
        StepFailure,
    >)
        ensures
            r is Ok ==> (r->Ok_0.step is Victory || r->Ok_0.step is Defeat),
    {
        let mut current_state = self.init_state.clone();
        let mut idx: usize = 0;
        let mut pull_decision = false;
        let mut fuel: u32 = BRANCH_STEP_BUDGET;
        while fuel > 0
            invariant
                idx <= choices.len(),
            decreases fuel,
        {
            fuel = fuel - 1;
            let mut working_state = current_state.clone();
            if pull_decision {
                pull_decision = false;
                if idx >= choices.len() {
                    return Err(StepFailure::InternalError("replay ran out of choices"));
                }
                working_state.choices = choices[idx].clone();
                idx = idx + 1;
            }
            if working_state.is_over() {
                return Err(StepFailure::InternalError("replay stepped a finished game"));
            }
            match working_state.step() {
                Ok(()) => {
                    match working_state.advance() {
                        Ok(_) => {},
                        Err(e) => {
                            return Err(e);
                        },
                    }
                    current_state = working_state;
                },
                Err(StepFailure::DecisionRequired) => {
                    pull_decision = true;
                },
                Err(StepFailure::GameOverVictory) => {
                    return Ok(working_state);
                },
                Err(StepFailure::GameOverDefeat) => {
                    return Ok(working_state);
                },
                Err(fail) => {
                    return Err(fail);
                },
            }
        }
        Err(StepFailure::InternalError("replay step budget exhausted"))
    }

    /// The public entry point: solves the whole tree, then replays the
    /// best-found game as a check that the recorded path is clean.
    pub fn main(&mut self, thread_count: usize) -> (r: Result<(), StepFailure>)
        requires
            engine_arena_wf(old(self).arena@),
        ensures
            engine_arena_wf(final(self).arena@),
            r is Ok ==> final(self).arena@[0].state is Finalized,
            r is Ok ==> final(self).arena@[0].branches.len() == 0,
            outcome_total(final(self).arena@[0].stats) >= outcome_total(
                old(self).arena@[0].stats,
            ),
    {
        self.run(thread_count)?;
        let best = self.arena[0].stats.first_best_game.clone();
        self.resimulate_game(best)?;
        Ok(())
    }
}

} // verus!
