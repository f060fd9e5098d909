//! Decisions: effects that consume an externally supplied choice, and the
//! closed union of choice shapes the game can request.

use vstd::prelude::*;
use itertools::Itertools;
use crate::concept::PowerSpeed;
use crate::effect::{Effect, SubEffect};
use crate::game::GameState;
use crate::piece::PieceKind;
use crate::spirit::PresenceState;

verus! {

broadcast use vstd::std_specs::control_flow::spec_from_blanket_identity;

/// The closed union of choice shapes a decision can consume.
#[derive(Clone, PartialEq, Debug)]
pub enum DecisionChoice {
    /// An ordered pick of indexes.
    Sequence(Vec<usize>),
    /// A single pick among enumerated options.
    Choice(usize),
    /// A land target, with the land the power came from.
    TargetLand { target_land: u8, source_land: u8 },
    /// A spirit target.
    TargetSpirit { target_spirit: u8 },
    /// A presence placement.
    PlacePresence { spirit: u8, target_land: u8, source_presence: u8 },
    /// A damage allocation, one entry per piece in the land.
    Damage(Vec<u16>),
    /// A piece-move sequence: land to move to or from, kind of piece,
    /// index of the piece.
    PieceSequence(Vec<(u8, PieceKind, usize)>),
}

/// Allocates damage to the pieces with the given health values, spending
/// the damage on pieces in order of ascending health so that as many
/// pieces as possible are destroyed.
pub fn allocate_efficent_damage(damage: u16, targets: Vec<u8>) -> (r: Vec<u16>)
    ensures
        r.len() == targets.len(),
        forall|i: int| 0 <= i < r.len() ==> #[trigger] r@[i] <= targets@[i],
        damage_total(r@) <= damage,
        damage_total(r@) == (if damage as int <= health_total(targets@) {
            damage as int
        } else {
            health_total(targets@)
        }),
{
    let mut res: Vec<u16> = Vec::new();
    let mut i: usize = 0;
    while i < targets.len()
        invariant
            res.len() == i,
            i <= targets.len(),
            forall|j: int| 0 <= j < i ==> #[trigger] res@[j] == 0,
        decreases targets.len() - i,
    {
        res.push(0);
        i = i + 1;
    }
    proof {
        lemma_damage_total_zero(res@);
    }
    // Visit health values in ascending order; `done` marks spent targets.
    let mut done: Vec<bool> = Vec::new();
    let mut k: usize = 0;
    while k < targets.len()
        invariant
            done.len() == k,
            k <= targets.len(),
            forall|j: int| 0 <= j < done.len() ==> !(#[trigger] done@[j]),
        decreases targets.len() - k,
    {
        done.push(false);
        k = k + 1;
    }
    proof {
        lemma_count_done_zero(done@);
    }
    let mut damage_remaining = damage;
    let mut round: usize = 0;
    while round < targets.len()
        invariant
            res.len() == targets.len(),
            done.len() == targets.len(),
            round <= targets.len(),
            count_done(done@) == round,
            forall|j: int| 0 <= j < res.len() ==> #[trigger] res@[j] <= targets@[j],
            forall|j: int| 0 <= j < res.len() && !done@[j] ==> #[trigger] res@[j] == 0,
            damage_total(res@) + damage_remaining == damage,
            damage_remaining > 0 ==> forall|j: int|
                0 <= j < res.len() && done@[j] ==> #[trigger] res@[j] == targets@[j],
        decreases targets.len() - round,
    {
        // pick the smallest not-yet-done target
        let mut best: Option<usize> = None;
        let mut j: usize = 0;
        while j < targets.len()
            invariant
                done.len() == targets.len(),
                j <= targets.len(),
                best is Some ==> best->0 < targets.len() && !done@[best->0 as int],
                (exists|jj: int| 0 <= jj < j && !done@[jj]) ==> best is Some,
            decreases targets.len() - j,
        {
            if !done[j] {
                match best {
                    None => {
                        best = Some(j);
                    },
                    Some(b) => {
                        if targets[j] < targets[b] {
                            best = Some(j);
                        }
                    },
                }
            }
            j = j + 1;
        }
        match best {
            None => {
                proof {
                    lemma_count_done_bounds(done@);
                    assert(false);
                }
            },
            Some(b) => {
                let target = targets[b];
                let damage_done: u16 = if (target as u16) < damage_remaining {
                    target as u16
                } else {
                    damage_remaining
                };
                proof {
                    lemma_damage_total_update(res@, b as int, damage_done);
                    lemma_count_done_update(done@, b as int);
                }
                res.set(b, damage_done);
                damage_remaining = damage_remaining - damage_done;
                done.set(b, true);
            },
        }
        round = round + 1;
    }
    proof {
        if damage_remaining == 0 {
            lemma_damage_health_totals(res@, targets@);
        } else {
            lemma_count_done_bounds(done@);
            lemma_damage_health_totals(res@, targets@);
        }
    }
    res
}

/// The sum of a damage allocation.
pub open spec fn damage_total(s: Seq<u16>) -> int
    decreases s.len(),
{
    if s.len() == 0 {
        0
    } else {
        damage_total(s.drop_last()) + s.last()
    }
}

pub proof fn lemma_damage_total_zero(s: Seq<u16>)
    requires
        forall|j: int| 0 <= j < s.len() ==> #[trigger] s[j] == 0,
    ensures
        damage_total(s) == 0,
    decreases s.len(),
{
    if s.len() > 0 {
        lemma_damage_total_zero(s.drop_last());
    }
}

/// Raising one zero entry of an allocation raises the total by it.
pub proof fn lemma_damage_total_update(s: Seq<u16>, i: int, v: u16)
    requires
        0 <= i < s.len(),
        s[i] == 0,
    ensures
        damage_total(s.update(i, v)) == damage_total(s) + v,
    decreases s.len(),
{
    if s.len() > 0 {
        if i == s.len() - 1 {
            assert(s.update(i, v).drop_last() =~= s.drop_last());
        } else {
            assert(s.update(i, v).drop_last() =~= s.drop_last().update(i, v));
            lemma_damage_total_update(s.drop_last(), i, v);
        }
    }
}

/// The total of a prefix, extended by its next entry.
pub proof fn lemma_damage_total_step(s: Seq<u16>, i: int)
    requires
        0 <= i < s.len(),
    ensures
        damage_total(s.subrange(0, i + 1)) == damage_total(s.subrange(0, i)) + s[i],
{
    assert(s.subrange(0, i + 1).drop_last() =~= s.subrange(0, i));
    assert(s.subrange(0, i + 1).last() == s[i]);
}

/// No prefix exceeds the whole total.
pub proof fn lemma_damage_total_prefix(s: Seq<u16>, i: int)
    requires
        0 <= i <= s.len(),
    ensures
        damage_total(s.subrange(0, i)) <= damage_total(s),
    decreases s.len() - i,
{
    if i == s.len() {
        assert(s.subrange(0, i) =~= s);
    } else {
        lemma_damage_total_step(s, i);
        lemma_damage_total_prefix(s, i + 1);
    }
}

/// The total health of a row of pieces.
pub open spec fn health_total(s: Seq<u8>) -> int
    decreases s.len(),
{
    if s.len() == 0 {
        0
    } else {
        health_total(s.drop_last()) + s.last()
    }
}

/// An allocation bounded by the healths sums to at most their total, and
/// one equal to the healths sums to exactly it.
pub proof fn lemma_damage_health_totals(res: Seq<u16>, t: Seq<u8>)
    requires
        res.len() == t.len(),
        forall|j: int| 0 <= j < res.len() ==> #[trigger] res[j] <= t[j],
    ensures
        damage_total(res) <= health_total(t),
        (forall|j: int| 0 <= j < res.len() ==> #[trigger] res[j] == t[j]) ==> damage_total(res)
            == health_total(t),
    decreases res.len(),
{
    if res.len() > 0 {
        lemma_damage_health_totals(res.drop_last(), t.drop_last());
    }
}

/// How many entries of a mark row are set.
pub open spec fn count_done(s: Seq<bool>) -> int
    decreases s.len(),
{
    if s.len() == 0 {
        0
    } else {
        count_done(s.drop_last()) + if s.last() {
            1int
        } else {
            0int
        }
    }
}

pub proof fn lemma_count_done_zero(s: Seq<bool>)
    requires
        forall|j: int| 0 <= j < s.len() ==> !(#[trigger] s[j]),
    ensures
        count_done(s) == 0,
    decreases s.len(),
{
    if s.len() > 0 {
        lemma_count_done_zero(s.drop_last());
    }
}

pub proof fn lemma_count_done_update(s: Seq<bool>, i: int)
    requires
        0 <= i < s.len(),
        !s[i],
    ensures
        count_done(s.update(i, true)) == count_done(s) + 1,
    decreases s.len(),
{
    if s.len() > 0 {
        if i == s.len() - 1 {
            assert(s.update(i, true).drop_last() =~= s.drop_last());
        } else {
            assert(s.update(i, true).drop_last() =~= s.drop_last().update(i, true));
            lemma_count_done_update(s.drop_last(), i);
        }
    }
}

/// The mark count is bounded by the row; a full count marks every entry,
/// and a short count leaves one unmarked.
pub proof fn lemma_count_done_bounds(s: Seq<bool>)
    ensures
        0 <= count_done(s) <= s.len(),
        count_done(s) == s.len() ==> forall|j: int| 0 <= j < s.len() ==> s[j],
        count_done(s) < s.len() ==> exists|j: int| 0 <= j < s.len() && !s[j],
    decreases s.len(),
{
    if s.len() > 0 {
        lemma_count_done_bounds(s.drop_last());
        if count_done(s) == s.len() {
            assert(count_done(s.drop_last()) <= s.len() - 1);
            assert(s.last());
            assert(count_done(s.drop_last()) == s.drop_last().len());
            assert forall|j: int| 0 <= j < s.len() implies s[j] by {
                if j < s.len() - 1 {
                    assert(s.drop_last()[j]);
                }
            }
        }
        if count_done(s) < s.len() {
            if !s.last() {
                assert(!s[s.len() - 1]);
            } else {
                assert(count_done(s.drop_last()) < s.drop_last().len());
                let w = choose|j: int| 0 <= j < s.drop_last().len() && !s.drop_last()[j];
                assert(!s[w]);
            }
        }
    }
}

/// Chooses which cards a spirit plays this turn.
#[derive(Clone)]
pub struct CardPlaysDecision {
    pub spirit_index: u8,
}

/// Targets and resolves one pending power card.
#[derive(Clone)]
pub struct DoCardPlayDecision {
    pub spirit_index: u8,
    pub pending_index: usize,
}

/// Chooses the order the pending cards of one speed resolve in.
#[derive(Clone)]
pub struct DoCardPlaysDecision {
    pub power_speed: PowerSpeed,
}

/// Chooses the adjacent land a second blight cascades into.
#[derive(Clone)]
pub struct CascadeBlightDecision {
    pub src_land_index: u8,
}

/// Allocates damage among the dahan of a land.  With `efficent` set, the
/// allocation is computed rather than asked for.
#[derive(Clone)]
pub struct DoDamageToDahanDecision {
    pub land_index: u8,
    pub damage: u16,
    pub efficent: bool,
}

/// Allocates damage among the invaders of a land.
#[derive(Clone)]
pub struct DoDamageToInvadersDecision {
    pub land_index: u8,
    pub damage: u16,
}

/// Chooses which invaders of the allowed kinds are destroyed outright.
#[derive(Clone)]
pub struct DestroyInvadersDecision {
    pub land_index: u8,
    pub count: u8,
    pub kinds: crate::piece::InvaderMap<bool>,
}

/// One growth option: the effects it grants, in order.
#[derive(Clone)]
pub struct GrowthChoice {
    pub effects: Vec<GrowthEffect>,
}

/// One effect a growth option grants.
#[derive(Copy, Clone)]
pub enum GrowthEffect {
    ReclaimAll,
    GainPowerCard,
    GenerateEnergy(u8),
    AddPresence(u8),
}

/// Chooses `count` distinct growth options.
#[derive(Clone)]
pub struct ChooseGrowthDecision {
    pub spirit_index: u8,
    pub count: usize,
    pub choices: Vec<GrowthChoice>,
}

/// Drafts one of several drawn minor power cards.
#[derive(Clone)]
pub struct GainMinorPowerCardDecision {
    pub spirit_index: u8,
    pub draw_count: usize,
}

/// Drafts one of several drawn major power cards.
#[derive(Clone)]
pub struct GainMajorPowerCardDecision {
    pub spirit_index: u8,
    pub draw_count: usize,
}

/// Chooses between gaining a minor or a major power card.
#[derive(Clone)]
pub struct GainPowerCardDecision {
    pub spirit_index: u8,
}

/// Chooses which presence disc to place, and where.
#[derive(Clone)]
pub struct AddPresenceDecision {
    pub spirit_index: u8,
    pub distance: u8,
}

/// Chooses one of several sub-effects.
#[derive(Clone)]
pub struct ChooseEffectDecision {
    pub choices: Vec<SubEffect>,
}

/// Pushes pieces of the given kinds out of a land.
#[derive(Clone)]
pub struct PushDecision {
    pub land_index: u8,
    pub count: u8,
    pub kinds: Vec<PieceKind>,
    pub may: bool,
}

/// Gathers pieces of the given kinds into a land.
#[derive(Clone)]
pub struct GatherDecision {
    pub land_index: u8,
    pub count: u8,
    pub kinds: Vec<PieceKind>,
    pub may: bool,
}

/// The printed name of a piece kind.
pub open spec fn spec_piece_kind_name(pk: PieceKind) -> Seq<char> {
    match pk {
        PieceKind::Token(crate::piece::TokenKind::Blight) => "Blight"@,
        PieceKind::Token(crate::piece::TokenKind::Beast) => "Beast"@,
        PieceKind::Token(crate::piece::TokenKind::Wilds) => "Wilds"@,
        PieceKind::Token(crate::piece::TokenKind::Disease) => "Disease"@,
        PieceKind::Token(crate::piece::TokenKind::Strife) => "Strife"@,
        PieceKind::Token(crate::piece::TokenKind::Badlands) => "Badlands"@,
        PieceKind::Invader(crate::piece::InvaderKind::Explorer) => "Explorer"@,
        PieceKind::Invader(crate::piece::InvaderKind::Town) => "Town"@,
        PieceKind::Invader(crate::piece::InvaderKind::City) => "City"@,
        PieceKind::Dahan => "Dahan"@,
    }
}

pub fn piece_kind_name(pk: &PieceKind) -> (r: &'static str)
    ensures
        r@ == spec_piece_kind_name(*pk),
{
    match pk {
        PieceKind::Token(crate::piece::TokenKind::Blight) => "Blight",
        PieceKind::Token(crate::piece::TokenKind::Beast) => "Beast",
        PieceKind::Token(crate::piece::TokenKind::Wilds) => "Wilds",
        PieceKind::Token(crate::piece::TokenKind::Disease) => "Disease",
        PieceKind::Token(crate::piece::TokenKind::Strife) => "Strife",
        PieceKind::Token(crate::piece::TokenKind::Badlands) => "Badlands",
        PieceKind::Invader(crate::piece::InvaderKind::Explorer) => "Explorer",
        PieceKind::Invader(crate::piece::InvaderKind::Town) => "Town",
        PieceKind::Invader(crate::piece::InvaderKind::City) => "City",
        PieceKind::Dahan => "Dahan",
    }
}

/// The names of a list of piece kinds, joined with commas.
pub open spec fn spec_piece_kind_list(s: Seq<PieceKind>) -> Seq<char>
    decreases s.len(),
{
    if s.len() == 0 {
        Seq::<char>::empty()
    } else if s.len() == 1 {
        spec_piece_kind_name(s[0])
    } else {
        spec_piece_kind_list(s.drop_last()) + ","@ + spec_piece_kind_name(s.last())
    }
}

pub fn piece_kind_vec_to_string(pkl: &Vec<PieceKind>) -> (r: String)
    ensures
        r@ == spec_piece_kind_list(pkl@),
{
    let mut res = String::new();
    let mut i: usize = 0;
    proof {
        assert(pkl@.subrange(0, 0) =~= Seq::<PieceKind>::empty());
    }
    while i < pkl.len()
        invariant
            i <= pkl.len(),
            res@ == spec_piece_kind_list(pkl@.subrange(0, i as int)),
        decreases pkl.len() - i,
    {
        if i > 0 {
            res.append(",");
        }
        res.append(piece_kind_name(&pkl[i]));
        proof {
            assert(pkl@.subrange(0, i + 1).drop_last() =~= pkl@.subrange(0, i as int));
            assert(pkl@.subrange(0, i + 1).last() == pkl@[i as int]);
            if i == 0 {
                assert(res@ =~= spec_piece_kind_list(pkl@.subrange(0, i + 1)));
            }
        }
        i = i + 1;
    }
    proof {
        assert(pkl@.subrange(0, pkl.len() as int) =~= pkl@);
    }
    res
}

/// Relies on `Itertools::combinations`: every way to pick `k` of the
/// indexes `0..n`, each pick listed in increasing order.
#[verifier::external_body]
fn index_combinations(n: usize, k: usize) -> (r: Vec<Vec<usize>>)
    ensures
        forall|i: int| 0 <= i < r.len() ==> (#[trigger] r@[i]).len() == k,
        forall|i: int, j: int|
            0 <= i < r.len() && 0 <= j < r@[i].len() ==> (#[trigger] r@[i]@[j]) < n,
        forall|i: int, j1: int, j2: int|
            0 <= i < r.len() && 0 <= j1 < j2 < r@[i].len() ==> r@[i]@[j1] < r@[i]@[j2],
{
    (0..n).combinations(k).collect()
}

impl CardPlaysDecision {
    /// Every affordable set of cards the spirit could play, smallest
    /// sets first.
    pub fn valid_choices(&self, game: &GameState) -> Vec<DecisionChoice> {
        let mut out: Vec<DecisionChoice> = Vec::new();
        if (self.spirit_index as usize) >= game.spirits.len() {
            return out;
        }
        let si = self.spirit_index as usize;
        let hand_size = game.spirits[si].deck.hand.len();
        let plays = game.spirits[si].plays as usize;
        let energy = game.spirits[si].energy;
        let max_len = if hand_size < plays {
            hand_size
        } else {
            plays
        };
        let mut k: usize = 0;
        while k <= max_len
            invariant
                k <= max_len + 1,
                max_len <= 255,
                si < game.spirits.len(),
                hand_size == game.spirits@[si as int].deck.hand.len(),
            decreases max_len - k + 1,
        {
            let combos = index_combinations(hand_size, k);
            let mut ci: usize = 0;
            while ci < combos.len()
                invariant
                    si < game.spirits.len(),
                    hand_size == game.spirits@[si as int].deck.hand.len(),
                    forall|i: int, j: int|
                        0 <= i < combos.len() && 0 <= j < combos@[i].len() ==> (
                        #[trigger] combos@[i]@[j]) < hand_size,
                decreases combos.len() - ci,
            {
                let cards = &combos[ci];
                let mut cost: u32 = 0;
                let mut x: usize = 0;
                while x < cards.len()
                    invariant
                        si < game.spirits.len(),
                        hand_size == game.spirits@[si as int].deck.hand.len(),
                        forall|j: int| 0 <= j < cards.len() ==> (#[trigger] cards@[j]) < hand_size,
                    decreases cards.len() - x,
                {
                    let c = game.spirits[si].deck.hand[cards[x]].desc.cost;
                    cost = cost.saturating_add(c as u32);
                    x = x + 1;
                }
                if cost <= energy as u32 {
                    out.push(DecisionChoice::Sequence(cards.clone()));
                }
                ci = ci + 1;
            }
            k = k + 1;
        }
        out
    }
}

impl DoCardPlaysDecision {
    /// One single-card pick per pending card of this speed.
    pub fn valid_choices(&self, game: &GameState) -> (r: Vec<DecisionChoice>)
        ensures
            forall|i: int|
                0 <= i < r.len() ==> ((#[trigger] r@[i]) matches DecisionChoice::Sequence(s)
                    && s@.len() == 1 && s@[0] == i),
    {
        let pend_size = self.pending_size(game);
        let mut out: Vec<DecisionChoice> = Vec::new();
        let mut i: usize = 0;
        while i < pend_size
            invariant
                out.len() == i,
                forall|j: int|
                    0 <= j < i ==> ((#[trigger] out@[j]) matches DecisionChoice::Sequence(s)
                        && s@.len() == 1 && s@[0] == j),
            decreases pend_size - i,
        {
            let mut seq: Vec<usize> = Vec::new();
            seq.push(i);
            out.push(DecisionChoice::Sequence(seq));
            i = i + 1;
        }
        out
    }
}

impl DoCardPlayDecision {
    /// Every target the pending card may legally choose.
    pub fn valid_choices(&self, game: &GameState) -> Vec<DecisionChoice> {
        let mut out: Vec<DecisionChoice> = Vec::new();
        if (self.spirit_index as usize) >= game.spirits.len() {
            return out;
        }
        let si = self.spirit_index as usize;
        if self.pending_index >= game.spirits[si].deck.pending.len() {
            return out;
        }
        let card_desc = game.spirits[si].deck.pending[self.pending_index].desc;
        let targets = match self.get_valid_targets(game, &card_desc) {
            Ok(t) => t,
            Err(_) => {
                return out;
            },
        };
        let mut i: usize = 0;
        while i < targets.len()
            decreases targets.len() - i,
        {
            match targets[i] {
                crate::deck::power::PowerTarget::Spirit(index) => {
                    out.push(DecisionChoice::TargetSpirit { target_spirit: index });
                },
                crate::deck::power::PowerTarget::Land(index) => {
                    out.push(DecisionChoice::TargetLand { target_land: index, source_land: 0 });
                },
            }
            i = i + 1;
        }
        out
    }
}

/// The cascade choice list that an adjacency list gives rise to: its
/// in-play entries, in list order, each wrapped as a target-land choice.
/// Duplicate adjacency entries would appear as duplicate choices; the
/// board descriptions list each neighbour once.
pub open spec fn cascade_choice_seq(adj: Seq<u8>, game: GameState, src: u8) -> Seq<DecisionChoice>
    decreases adj.len(),
{
    if adj.len() == 0 {
        Seq::empty()
    } else {
        let rest = cascade_choice_seq(adj.drop_last(), game, src);
        let l = adj.last();
        if l < game.table.lands.len() && game.table.lands@[l as int].is_in_play {
            rest.push(DecisionChoice::TargetLand { target_land: l, source_land: src })
        } else {
            rest
        }
    }
}

impl CascadeBlightDecision {
    /// Decision well-formedness, shown as a contract: the choices offered
    /// are exactly the in-play adjacent lands, in adjacency-list order —
    /// so every choice is one `apply_effect` accepts, and every adjacent,
    /// in-play land is offered.
    pub fn valid_choices(&self, game: &GameState) -> (r: Vec<DecisionChoice>)
        ensures
            self.src_land_index < game.desc.table.lands.len() ==> r@ == cascade_choice_seq(
                game.desc.table.lands@[self.src_land_index as int].adjacent@,
                *game,
                self.src_land_index,
            ),
            self.src_land_index >= game.desc.table.lands.len() ==> r@ == Seq::<
                DecisionChoice,
            >::empty(),
            forall|i: int|
                0 <= i < r.len() ==> ((#[trigger] r@[i]) matches DecisionChoice::TargetLand {
                    target_land: l,
                    source_land: _,
                } && self.src_land_index < game.desc.table.lands.len()
                    && game.desc.table.lands@[self.src_land_index as int].adjacent@.contains(l)
                    && l < game.table.lands.len() && game.table.lands@[l as int].is_in_play),
            self.src_land_index < game.desc.table.lands.len() ==> forall|k: int|
                0 <= k < game.desc.table.lands@[self.src_land_index as int].adjacent@.len() && ({
                    let l = game.desc.table.lands@[self.src_land_index as int].adjacent@[k];
                    l < game.table.lands.len() && game.table.lands@[l as int].is_in_play
                }) ==> r@.contains(
                    DecisionChoice::TargetLand {
                        target_land: (#[trigger] game.desc.table.lands@[
                            self.src_land_index as int
                        ].adjacent@[k]),
                        source_land: self.src_land_index,
                    },
                ),
    {
        let mut out: Vec<DecisionChoice> = Vec::new();
        if (self.src_land_index as usize) >= game.desc.table.lands.len() {
            return out;
        }
        let adjacent = &game.desc.table.lands[self.src_land_index as usize].adjacent;
        let mut i: usize = 0;
        while i < adjacent.len()
            invariant
                i <= adjacent.len(),
                self.src_land_index < game.desc.table.lands.len(),
                adjacent@ == game.desc.table.lands@[self.src_land_index as int].adjacent@,
                forall|j: int|
                    0 <= j < out.len() ==> ((#[trigger] out@[j]) matches DecisionChoice::TargetLand {
                        target_land: l,
                        source_land: _,
                    } && self.src_land_index < game.desc.table.lands.len()
                        && game.desc.table.lands@[self.src_land_index as int].adjacent@.contains(l)
                        && l < game.table.lands.len() && game.table.lands@[l as int].is_in_play),
                forall|k: int|
                    0 <= k < i && ({
                        let l = adjacent@[k];
                        l < game.table.lands.len() && game.table.lands@[l as int].is_in_play
                    }) ==> out@.contains(
                        DecisionChoice::TargetLand {
                            target_land: (#[trigger] adjacent@[k]),
                            source_land: self.src_land_index,
                        },
                    ),
                out@ == cascade_choice_seq(
                    adjacent@.subrange(0, i as int),
                    *game,
                    self.src_land_index,
                ),
            decreases adjacent.len() - i,
        {
            let l = adjacent[i];
            let ghost out_before = out@;
            if (l as usize) < game.table.lands.len() && game.table.lands[l as usize].is_in_play {
                proof {
                    assert(game.desc.table.lands@[self.src_land_index as int].adjacent@.contains(
                        game.desc.table.lands@[self.src_land_index as int].adjacent@[i as int],
                    ));
                }
                out.push(
                    DecisionChoice::TargetLand {
                        target_land: l,
                        source_land: self.src_land_index,
                    },
                );
            }
            proof {
                assert(adjacent@.subrange(0, i + 1).drop_last() =~= adjacent@.subrange(0, i as int));
                assert(adjacent@.subrange(0, i + 1).last() == adjacent@[i as int]);
                assert forall|k: int|
                    0 <= k < i + 1 && ({
                        let lk = adjacent@[k];
                        lk < game.table.lands.len() && game.table.lands@[lk as int].is_in_play
                    }) implies out@.contains(
                    DecisionChoice::TargetLand {
                        target_land: adjacent@[k],
                        source_land: self.src_land_index,
                    },
                ) by {
                    if k < i {
                        let c = DecisionChoice::TargetLand {
                            target_land: adjacent@[k],
                            source_land: self.src_land_index,
                        };
                        let w = choose|w: int| 0 <= w < out_before.len() && out_before[w] == c;
                        assert(out@[w] == c);
                    } else {
                        assert(out@[out@.len() - 1] == DecisionChoice::TargetLand {
                            target_land: adjacent@[k],
                            source_land: self.src_land_index,
                        });
                    }
                }
            }
            i = i + 1;
        }
        proof {
            assert(adjacent@.subrange(0, adjacent.len() as int) =~= adjacent@);
        }
        out
    }
}

impl DoDamageToDahanDecision {
    /// The one allocation the solver tries: efficient damage, which the
    /// dahan can always absorb.
    pub fn valid_choices(&self, game: &GameState) -> Vec<DecisionChoice> {
        let mut out: Vec<DecisionChoice> = Vec::new();
        let land = match game.get_land(self.land_index) {
            Ok(l) => l,
            Err(_) => {
                return out;
            },
        };
        let mut targets: Vec<u8> = Vec::new();
        let mut i: usize = 0;
        while i < land.dahan.len()
            invariant
                self.land_index < game.table.lands.len(),
            decreases land.dahan.len() - i,
        {
            targets.push(land.dahan[i].health_cur);
            i = i + 1;
        }
        out.push(DecisionChoice::Damage(allocate_efficent_damage(self.damage, targets)));
        out
    }
}

impl DoDamageToInvadersDecision {
    /// The one allocation the solver tries: efficient damage, which the
    /// invaders can always absorb.
    pub fn valid_choices(&self, game: &GameState) -> Vec<DecisionChoice> {
        let mut out: Vec<DecisionChoice> = Vec::new();
        let land = match game.get_land(self.land_index) {
            Ok(l) => l,
            Err(_) => {
                return out;
            },
        };
        let mut targets: Vec<u8> = Vec::new();
        let mut i: usize = 0;
        while i < land.invaders.len()
            invariant
                self.land_index < game.table.lands.len(),
            decreases land.invaders.len() - i,
        {
            targets.push(land.invaders[i].health_cur);
            i = i + 1;
        }
        out.push(DecisionChoice::Damage(allocate_efficent_damage(self.damage, targets)));
        out
    }
}

impl DestroyInvadersDecision {
    /// One single-piece pick per invader of an allowed kind.
    pub fn valid_choices(&self, game: &GameState) -> Vec<DecisionChoice> {
        let mut out: Vec<DecisionChoice> = Vec::new();
        let land = match game.get_land(self.land_index) {
            Ok(l) => l,
            Err(_) => {
                return out;
            },
        };
        let mut i: usize = 0;
        while i < land.invaders.len()
            invariant
                self.land_index < game.table.lands.len(),
            decreases land.invaders.len() - i,
        {
            let kind = land.invaders[i].kind;
            if self.kinds.get(kind) {
                let mut seq: Vec<(u8, PieceKind, usize)> = Vec::new();
                seq.push((self.land_index, PieceKind::Invader(kind), i));
                out.push(DecisionChoice::PieceSequence(seq));
            }
            i = i + 1;
        }
        out
    }
}

impl ChooseGrowthDecision {
    /// One single-option pick per growth option.
    pub fn valid_choices(&self, game: &GameState) -> (r: Vec<DecisionChoice>)
        ensures
            r.len() == self.choices.len(),
            forall|i: int|
                0 <= i < r.len() ==> ((#[trigger] r@[i]) matches DecisionChoice::Sequence(s)
                    && s@.len() == 1 && s@[0] == i),
    {
        let mut out: Vec<DecisionChoice> = Vec::new();
        let mut i: usize = 0;
        while i < self.choices.len()
            invariant
                out.len() == i,
                i <= self.choices.len(),
                forall|j: int|
                    0 <= j < i ==> ((#[trigger] out@[j]) matches DecisionChoice::Sequence(s)
                        && s@.len() == 1 && s@[0] == j),
            decreases self.choices.len() - i,
        {
            let mut seq: Vec<usize> = Vec::new();
            seq.push(i);
            out.push(DecisionChoice::Sequence(seq));
            i = i + 1;
        }
        out
    }
}

impl GainMinorPowerCardDecision {
    /// One pick per drawn card.
    pub fn valid_choices(&self, game: &GameState) -> (r: Vec<DecisionChoice>)
        ensures
            r.len() == self.draw_count,
            forall|i: int| 0 <= i < r.len() ==> (#[trigger] r@[i]) == DecisionChoice::Choice(i as usize),
    {
        let mut out: Vec<DecisionChoice> = Vec::new();
        let mut i: usize = 0;
        while i < self.draw_count
            invariant
                out.len() == i,
                i <= self.draw_count,
                forall|j: int| 0 <= j < i ==> (#[trigger] out@[j]) == DecisionChoice::Choice(j as usize),
            decreases self.draw_count - i,
        {
            out.push(DecisionChoice::Choice(i));
            i = i + 1;
        }
        out
    }
}

impl GainMajorPowerCardDecision {
    /// One pick per drawn card.
    pub fn valid_choices(&self, game: &GameState) -> (r: Vec<DecisionChoice>)
        ensures
            r.len() == self.draw_count,
            forall|i: int| 0 <= i < r.len() ==> (#[trigger] r@[i]) == DecisionChoice::Choice(i as usize),
    {
        let mut out: Vec<DecisionChoice> = Vec::new();
        let mut i: usize = 0;
        while i < self.draw_count
            invariant
                out.len() == i,
                i <= self.draw_count,
                forall|j: int| 0 <= j < i ==> (#[trigger] out@[j]) == DecisionChoice::Choice(j as usize),
            decreases self.draw_count - i,
        {
            out.push(DecisionChoice::Choice(i));
            i = i + 1;
        }
        out
    }
}

impl GainPowerCardDecision {
    /// Decision well-formedness, shown as a contract: both offered picks
    /// are among the two that `apply_effect` accepts.
    pub fn valid_choices(&self, game: &GameState) -> (r: Vec<DecisionChoice>)
        ensures
            forall|i: int|
                0 <= i < r.len() ==> ((#[trigger] r@[i]) matches DecisionChoice::Choice(c) && c
                    < 2),
    {
        let mut out: Vec<DecisionChoice> = Vec::new();
        out.push(DecisionChoice::Choice(0));
        out.push(DecisionChoice::Choice(1));
        out
    }
}

impl AddPresenceDecision {
    /// Every presence disc the spirit may take off its tracks.
    pub fn valid_choices(&self, game: &GameState) -> Vec<DecisionChoice> {
        let mut out: Vec<DecisionChoice> = Vec::new();
        if (self.spirit_index as usize) >= game.spirits.len() {
            return out;
        }
        if (self.spirit_index as usize) >= game.desc.spirits.len() {
            return out;
        }
        let si = self.spirit_index as usize;
        let mut p: usize = 0;
        while p < 13
            invariant
                si < game.spirits.len(),
                si < game.desc.spirits.len(),
                p <= 13,
            decreases 13 - p,
        {
            match game.spirits[si].presence[p] {
                PresenceState::OnTrack(pot) => {
                    if (pot as usize) < 13 {
                        let may = game.desc.spirits[si].may_place_presence(
                            &game.spirits[si].presence,
                            pot as usize,
                        );
                        match may {
                            Ok(true) => {
                                out.push(
                                    DecisionChoice::PlacePresence {
                                        spirit: self.spirit_index,
                                        target_land: 1,
                                        source_presence: pot,
                                    },
                                );
                            },
                            _ => {},
                        }
                    }
                },
                _ => {},
            }
            p = p + 1;
        }
        out
    }
}

impl ChooseEffectDecision {
    /// Exactly one pick per offered sub-effect, in order.
    pub fn valid_choices(&self, game: &GameState) -> (r: Vec<DecisionChoice>)
        ensures
            r.len() == self.choices.len(),
            forall|i: int| 0 <= i < r.len() ==> (#[trigger] r@[i]) == DecisionChoice::Choice(i as usize),
    {
        let mut out: Vec<DecisionChoice> = Vec::new();
        let mut i: usize = 0;
        while i < self.choices.len()
            invariant
                out.len() == i,
                i <= self.choices.len(),
                forall|j: int| 0 <= j < i ==> (#[trigger] out@[j]) == DecisionChoice::Choice(j as usize),
            decreases self.choices.len() - i,
        {
            out.push(DecisionChoice::Choice(i));
            i = i + 1;
        }
        out
    }
}

impl PushDecision {
    /// The one move the solver tries: pushing nothing, which a `may`
    /// push always accepts.
    pub fn valid_choices(&self, game: &GameState) -> (r: Vec<DecisionChoice>)
        ensures
            r.len() == 1,
            (r@[0] matches DecisionChoice::PieceSequence(s) && s@.len() == 0),
    {
        let mut out: Vec<DecisionChoice> = Vec::new();
        out.push(DecisionChoice::PieceSequence(Vec::new()));
        out
    }
}

impl GatherDecision {
    /// The one move the solver tries: gathering nothing, which a `may`
    /// gather always accepts.
    pub fn valid_choices(&self, game: &GameState) -> (r: Vec<DecisionChoice>)
        ensures
            r.len() == 1,
            (r@[0] matches DecisionChoice::PieceSequence(s) && s@.len() == 0),
    {
        let mut out: Vec<DecisionChoice> = Vec::new();
        out.push(DecisionChoice::PieceSequence(Vec::new()));
        out
    }
}

impl Effect {
    /// The ordered choices the decision on top of the effect stack can
    /// take; empty for an effect that is no decision.
    pub fn valid_choices(&self, game: &GameState) -> Vec<DecisionChoice> {
        match self {
            Effect::CardPlaysDecision(d) => d.valid_choices(game),
            Effect::DoCardPlayDecision(d) => d.valid_choices(game),
            Effect::DoCardPlaysDecision(d) => d.valid_choices(game),
            Effect::CascadeBlightDecision(d) => d.valid_choices(game),
            Effect::DoDamageToDahanDecision(d) => d.valid_choices(game),
            Effect::DoDamageToInvadersDecision(d) => d.valid_choices(game),
            Effect::DestroyInvadersDecision(d) => d.valid_choices(game),
            Effect::ChooseGrowthDecision(d) => d.valid_choices(game),
            Effect::GainMinorPowerCardDecision(d) => d.valid_choices(game),
            Effect::GainMajorPowerCardDecision(d) => d.valid_choices(game),
            Effect::GainPowerCardDecision(d) => d.valid_choices(game),
            Effect::AddPresenceDecision(d) => d.valid_choices(game),
            Effect::ChooseEffectDecision(d) => d.valid_choices(game),
            Effect::PushDecision(d) => d.valid_choices(game),
            Effect::GatherDecision(d) => d.valid_choices(game),
            _ => Vec::new(),
        }
    }
}


} // verus!
