//! The effect interpreter: applying an effect pushes it onto the effect
//! stack, runs its mutation — which may pose decisions and recurse into
//! sub-effects — and pops it again.  A decision that finds the choice
//! queue empty unwinds the whole step with `DecisionRequired`, leaving the
//! stack in place so the solver can inspect the pending decision.

use vstd::prelude::*;
use crate::decision::{
    AddPresenceDecision, CardPlaysDecision, CascadeBlightDecision, ChooseEffectDecision,
    ChooseGrowthDecision, DecisionChoice, DestroyInvadersDecision, DoCardPlayDecision,
    DoCardPlaysDecision, DoDamageToDahanDecision, DoDamageToInvadersDecision, GrowthChoice,
    GrowthEffect, GainMajorPowerCardDecision, GainMinorPowerCardDecision, GainPowerCardDecision,
    GatherDecision, PushDecision, allocate_efficent_damage, damage_total,
    lemma_damage_total_prefix, lemma_damage_total_step,
};
use crate::deck::power::{
    PowerCardDescription, PowerEffect, PowerTarget, PowerTargetFilter, PowerUsage,
    SpiritPowerDeck, eval_land_filter, eval_spirit_filter,
};
use crate::default_adversary::invader_deck_setup_standard;
use crate::effect::{
    AddBlightEffect, AddDahanEffect, AddInvaderEffect, AddPresenceEffect,
    AdversarySetupStandardEffect, BuildEffect,
    DoDahanAttackEffect, DoDamageToEachInvaderEffect, DoDamageToLandEffect, DoInvaderAttackEffect,
    Effect, ExploreEffect, GenerateEnergyEffect, GenerateFearEffect, MayPlaySlowsAsFastsEffect,
    NotImplementedEffect, PersistDefenseEffect, RavageEffect, ReclaimAllEffect, RemoveBlightEffect,
    RemoveDahanEffect, RemoveInvaderEffect, SubEffect,
};
use crate::board::{LandState, contains_u8, invader_count_spec};
use crate::concept::LandKind;
use crate::game::{GameState, effect_core, effect_frame, power_usage_matches};
use crate::piece::{Dahan, Invader, InvaderKind, PieceKind, TokenKind};
use crate::spirit::{PresenceState, SpiritState};
use crate::step::{StepFailure, no_choice_rejection};

verus! {

broadcast use vstd::std_specs::control_flow::spec_from_blanket_identity;

/// Whether a list of indexes holds the given one.
pub fn seq_contains_usize(v: &Vec<usize>, x: usize) -> (r: bool)
    ensures
        r == v@.contains(x),
{
    let mut i: usize = 0;
    while i < v.len()
        invariant
            0 <= i <= v.len(),
            forall|j: int| 0 <= j < i ==> v@[j] != x,
        decreases v.len() - i,
    {
        if v[i] == x {
            return true;
        }
        i = i + 1;
    }
    false
}

/// Whether any index appears twice; a clean list is pairwise distinct.
pub fn has_duplicate_usize(v: &Vec<usize>) -> (r: bool)
    ensures
        !r ==> forall|a: int, b: int| 0 <= a < b < v.len() ==> v@[a] != v@[b],
{
    let mut i: usize = 0;
    while i < v.len()
        invariant
            i <= v.len(),
            forall|a: int, b: int| 0 <= a < b < v.len() && a < i ==> v@[a] != v@[b],
        decreases v.len() - i,
    {
        let mut j: usize = i + 1;
        while j < v.len()
            invariant
                i < j <= v.len(),
                forall|b: int| i < b < j ==> v@[i as int] != v@[b],
            decreases v.len() - j,
        {
            if v[i] == v[j] {
                return true;
            }
            j = j + 1;
        }
        i = i + 1;
    }
    false
}

/// Whether any piece-move entry appears twice.
pub fn has_duplicate_piece(v: &Vec<(u8, PieceKind, usize)>) -> bool {
    let mut i: usize = 0;
    while i < v.len()
        decreases v.len() - i,
    {
        let mut j: usize = i + 1;
        while j < v.len()
            invariant
                i < v.len(),
            decreases v.len() - j,
        {
            let a = v[i];
            let b = v[j];
            if a.0 == b.0 && a.1 == b.1 && a.2 == b.2 {
                return true;
            }
            j = j + 1;
        }
        i = i + 1;
    }
    false
}

/// Whether a target list holds the given target.
pub fn contains_power_target(v: &Vec<PowerTarget>, x: PowerTarget) -> (r: bool)
    ensures
        r == v@.contains(x),
{
    let mut i: usize = 0;
    while i < v.len()
        invariant
            0 <= i <= v.len(),
            forall|j: int| 0 <= j < i ==> v@[j] != x,
        decreases v.len() - i,
    {
        if v[i] == x {
            return true;
        }
        i = i + 1;
    }
    false
}

/// A damage allocation that a land's dahan can absorb.
pub open spec fn layout_fits_dahan(layout: Seq<u16>, dahan: Seq<Dahan>, damage: u16) -> bool {
    &&& layout.len() == dahan.len()
    &&& forall|j: int| 0 <= j < layout.len() ==> #[trigger] layout[j] <= dahan[j].health_cur
    &&& damage_total(layout) <= damage
}

/// A damage allocation that a land's invaders can absorb.
pub open spec fn layout_fits_invaders(layout: Seq<u16>, invaders: Seq<Invader>, damage: u16) -> bool {
    &&& layout.len() == invaders.len()
    &&& forall|j: int| 0 <= j < layout.len() ==> #[trigger] layout[j] <= invaders[j].health_cur
    &&& damage_total(layout) <= damage
}

/// How many entries of an allocation exactly reach their piece's health,
/// destroying it.
pub open spec fn zeroed_dahan(layout: Seq<u16>, dahan: Seq<Dahan>) -> int
    decreases layout.len(),
{
    if layout.len() == 0 || dahan.len() == 0 {
        0
    } else {
        zeroed_dahan(layout.drop_last(), dahan.drop_last()) + if layout.last()
            == dahan.last().health_cur {
            1int
        } else {
            0int
        }
    }
}

/// How many entries of an allocation exactly reach their invader's
/// health, destroying it.
pub open spec fn zeroed_invaders(layout: Seq<u16>, invaders: Seq<Invader>) -> int
    decreases layout.len(),
{
    if layout.len() == 0 || invaders.len() == 0 {
        0
    } else {
        zeroed_invaders(layout.drop_last(), invaders.drop_last()) + if layout.last()
            == invaders.last().health_cur {
            1int
        } else {
            0int
        }
    }
}

/// A row of strictly increasing indexes below `n` leaves room beneath it:
/// the entry at `j` is below `n` less the entries above it.
proof fn lemma_increasing_bound(s: Seq<usize>, n: int)
    requires
        forall|a: int, b: int| 0 <= a < b < s.len() ==> s[a] < s[b],
        forall|j: int| 0 <= j < s.len() ==> (#[trigger] s[j]) < n,
    ensures
        forall|j: int| 0 <= j < s.len() ==> (#[trigger] s[j]) < n - (s.len() - 1 - j),
    decreases s.len(),
{
    if s.len() > 0 {
        assert forall|j: int| 0 <= j < s.drop_last().len() implies (#[trigger] s.drop_last()[j])
            < n - 1 by {
            assert(s[j] < s[s.len() - 1]);
        }
        lemma_increasing_bound(s.drop_last(), n - 1);
        assert forall|j: int| 0 <= j < s.len() implies (#[trigger] s[j]) < n - (s.len() - 1
            - j) by {
            if j < s.len() - 1 {
                assert(s.drop_last()[j] < s[s.len() - 1]);
                assert(s.drop_last()[j] < (n - 1) - (s.drop_last().len() - 1 - j));
            }
        }
    }
}

/// Only the table changed between the two states, and within it only the
/// given land's slot.
pub open spec fn only_land_changed(pre: GameState, post: GameState, idx: u8) -> bool {
    &&& idx < pre.table.lands.len()
    &&& post == (GameState { table: post.table, ..pre })
    &&& post.table.lands@ == pre.table.lands@.update(idx as int, post.table.lands@[idx as int])
}

/// Only the spirits changed between the two states, and within them only
/// the given spirit's slot.
pub open spec fn only_spirit_changed(pre: GameState, post: GameState, idx: u8) -> bool {
    &&& idx < pre.spirits.len()
    &&& post == (GameState { spirits: post.spirits, ..pre })
    &&& post.spirits@ == pre.spirits@.update(idx as int, post.spirits@[idx as int])
}

/// An unsigned sum capped at the byte limit.
pub open spec fn sat_add_u8(a: u8, b: u8) -> int {
    if a + b > 255 {
        255
    } else {
        a + b
    }
}

/// An unsigned sum capped at the word limit.
pub open spec fn sat_add_u16(a: u16, b: u16) -> int {
    if a + b > 65535 {
        65535
    } else {
        a + b
    }
}

impl GameState {
    /// Applies one effect.  On success the effect stack is exactly as
    /// before, and the game state is the one the effect's own
    /// `apply_effect` left — its functional contract carries over, as the
    /// forwarded clauses for two of the variants show.  On failure the
    /// effect itself is recorded on the stack at the frame position where
    /// it was applied, below whatever its nested effects recorded — so on
    /// `DecisionRequired` the pending decision sits on top and the
    /// failing chain reads bottom-up.  `fuel` bounds the nesting depth.
    pub fn do_effect(&mut self, effect: Effect, fuel: u32) -> (r: Result<(), StepFailure>)
        ensures
            effect_core(*old(self), *final(self), r),
            (old(self).choices@.len() == 0 && power_usage_matches(*old(self), effect))
                ==> no_choice_rejection(r),
            effect.spec_never_rejects() ==> no_choice_rejection(r),
            r is Err ==> final(self).effect_stack@.len() > old(self).effect_stack@.len(),
            r is Err ==> final(self).effect_stack@[old(self).effect_stack@.len() as int] == effect,
            effect matches Effect::AddDahanEffect(x) ==> ({
                &&& (fuel >= 1 ==> (r is Ok) == (x.land_index < old(self).table.lands.len()))
                &&& (r is Ok ==> only_land_changed(*old(self), *final(self), x.land_index))
                &&& (r is Ok ==> ({
                    let pre = old(self).table.lands@[x.land_index as int];
                    let post = final(self).table.lands@[x.land_index as int];
                    &&& post == (LandState { dahan: post.dahan, ..pre })
                    &&& post.dahan@.len() == pre.dahan@.len() + x.count
                }))
            }),
            effect matches Effect::GenerateEnergyEffect(x) ==> ({
                &&& (fuel >= 1 ==> (r is Ok) == (x.spirit_index < old(self).spirits.len()))
                &&& (r is Ok ==> only_spirit_changed(*old(self), *final(self), x.spirit_index))
                &&& (r is Ok ==> ({
                    let pre = old(self).spirits@[x.spirit_index as int];
                    let post = final(self).spirits@[x.spirit_index as int];
                    &&& post == (SpiritState { energy: post.energy, ..pre })
                    &&& post.energy as int == sat_add_u8(pre.energy, x.energy)
                }))
            }),
        decreases fuel, 3int,
    {
        if fuel == 0 {
            self.effect_stack.push(effect);
            return Err(StepFailure::InternalError("effects nested too deeply"));
        }
        let pos = self.effect_stack.len();
        let r = match &effect {
            Effect::AddBlightEffect(x) => x.apply_effect(self, fuel),
            Effect::AddPresenceEffect(x) => x.apply_effect(self, fuel),
            Effect::AddInvaderEffect(x) => x.apply_effect(self, fuel),
            Effect::AddDahanEffect(x) => x.apply_effect(self, fuel),
            Effect::DoDamageToLandEffect(x) => x.apply_effect(self, fuel),
            Effect::DoInvaderAttackEffect(x) => x.apply_effect(self, fuel),
            Effect::DoDahanAttackEffect(x) => x.apply_effect(self, fuel),
            Effect::DoDamageToEachInvaderEffect(x) => x.apply_effect(self, fuel),
            Effect::GenerateFearEffect(x) => x.apply_effect(self, fuel),
            Effect::GenerateEnergyEffect(x) => x.apply_effect(self, fuel),
            Effect::ReclaimAllEffect(x) => x.apply_effect(self, fuel),
            Effect::ExploreEffect(x) => x.apply_effect(self, fuel),
            Effect::BuildEffect(x) => x.apply_effect(self, fuel),
            Effect::RavageEffect(x) => x.apply_effect(self, fuel),
            Effect::NotImplementedEffect(x) => x.apply_effect(self, fuel),
            Effect::PersistDefenseEffect(x) => x.apply_effect(self, fuel),
            Effect::RemoveBlightEffect(x) => x.apply_effect(self, fuel),
            Effect::RemoveDahanEffect(x) => x.apply_effect(self, fuel),
            Effect::RemoveInvaderEffect(x) => x.apply_effect(self, fuel),
            Effect::MayPlaySlowsAsFastsEffect(x) => x.apply_effect(self, fuel),
            Effect::AdversarySetupStandardEffect(x) => x.apply_effect(self, fuel),
            Effect::PowerCard(desc) => apply_power_effect(self, desc, fuel),
            Effect::CardPlaysDecision(x) => x.apply_effect(self, fuel),
            Effect::DoCardPlayDecision(x) => x.apply_effect(self, fuel),
            Effect::DoCardPlaysDecision(x) => x.apply_effect(self, fuel),
            Effect::CascadeBlightDecision(x) => x.apply_effect(self, fuel),
            Effect::DoDamageToDahanDecision(x) => x.apply_effect(self, fuel),
            Effect::DoDamageToInvadersDecision(x) => x.apply_effect(self, fuel),
            Effect::DestroyInvadersDecision(x) => x.apply_effect(self, fuel),
            Effect::ChooseGrowthDecision(x) => x.apply_effect(self, fuel),
            Effect::GainMinorPowerCardDecision(x) => x.apply_effect(self, fuel),
            Effect::GainMajorPowerCardDecision(x) => x.apply_effect(self, fuel),
            Effect::GainPowerCardDecision(x) => x.apply_effect(self, fuel),
            Effect::AddPresenceDecision(x) => x.apply_effect(self, fuel),
            Effect::ChooseEffectDecision(x) => x.apply_effect(self, fuel),
            Effect::PushDecision(x) => x.apply_effect(self, fuel),
            Effect::GatherDecision(x) => x.apply_effect(self, fuel),
        };
        match r {
            Ok(()) => Ok(()),
            Err(e) => {
                self.effect_stack.insert(pos, effect);
                Err(e)
            },
        }
    }
}

impl AddBlightEffect {
    /// With the blight card empty, the game is lost at once.  Otherwise
    /// one blight moves from the card to the land; in the plain case — a
    /// previously blight-free land — that is all that happens, and a
    /// cascade decision follows only when the land then holds more.
    pub fn apply_effect(&self, game: &mut GameState, fuel: u32) -> (r: Result<(), StepFailure>)
        requires
            fuel >= 1,
        ensures
            effect_frame(*old(game), *final(game), r),
            old(game).blight_remaining == 0 ==> r == Result::<(), StepFailure>::Err(
                StepFailure::GameOverDefeat,
            ) && final(game).step is Defeat,
            (old(game).blight_remaining > 0 && self.land_index < old(game).table.lands.len()
                && old(game).table.lands@[self.land_index as int].tokens.spec_get(
                TokenKind::Blight,
            ) == 0) ==> r is Ok && ({
                let pre = old(game).table.lands@[self.land_index as int];
                let post = final(game).table.lands@[self.land_index as int];
                &&& *final(game) == (GameState {
                    table: final(game).table,
                    blight_remaining: final(game).blight_remaining,
                    ..*old(game)
                })
                &&& final(game).blight_remaining == old(game).blight_remaining - 1
                &&& final(game).table.lands@ == old(game).table.lands@.update(
                    self.land_index as int,
                    post,
                )
                &&& post == (LandState { tokens: post.tokens, ..pre })
                &&& post.tokens.spec_get(TokenKind::Blight) == 1
                &&& forall|k: TokenKind|
                    k != TokenKind::Blight ==> post.tokens.spec_get(k) == pre.tokens.spec_get(k)
            }),
        decreases fuel, 1int,
    {
        if game.blight_remaining == 0 {
            return game.do_defeat("No blight is left.");
        }
        game.blight_remaining = game.blight_remaining - 1;
        let mut land = game.take_land(self.land_index)?;
        let b = land.tokens.get(TokenKind::Blight);
        land.tokens.set(TokenKind::Blight, b.saturating_add(1));
        let cascade = land.tokens.get(TokenKind::Blight) > 1;
        game.put_land(self.land_index, land);
        proof {
            assert(game.table.lands@ =~= old(game).table.lands@.update(
                self.land_index as int,
                game.table.lands@[self.land_index as int],
            ));
        }
        if cascade {
            game.do_effect(
                Effect::CascadeBlightDecision(
                    CascadeBlightDecision { src_land_index: self.land_index },
                ),
                fuel - 1,
            )?;
        }
        Ok(())
    }
}

impl AddPresenceEffect {
    pub fn apply_effect(&self, game: &mut GameState, fuel: u32) -> (r: Result<(), StepFailure>)
        requires
            fuel >= 1,
        ensures
            effect_frame(*old(game), *final(game), r),
            no_choice_rejection(r),
            (r is Ok) == (self.spirit_index < 6 && self.presence_index < 13 && self.spirit_index
                < old(game).spirits.len() && self.land_index < old(game).table.lands.len()),
            r is Ok ==> *final(game) == (GameState {
                table: final(game).table,
                spirits: final(game).spirits,
                ..*old(game)
            }),
            r is Ok ==> final(game).spirits@ == old(game).spirits@.update(
                self.spirit_index as int,
                final(game).spirits@[self.spirit_index as int],
            ),
            r is Ok ==> final(game).table.lands@ == old(game).table.lands@.update(
                self.land_index as int,
                final(game).table.lands@[self.land_index as int],
            ),
            r is Ok ==> ({
                let pre = old(game).spirits@[self.spirit_index as int];
                let post = final(game).spirits@[self.spirit_index as int];
                &&& post == (SpiritState { presence: post.presence, ..pre })
                &&& post.presence@ == pre.presence@.update(
                    self.presence_index as int,
                    PresenceState::OnBoard(self.land_index),
                )
            }),
            r is Ok ==> ({
                let pre = old(game).table.lands@[self.land_index as int];
                let post = final(game).table.lands@[self.land_index as int];
                &&& post == (LandState { presence: post.presence, ..pre })
                &&& post.presence.spec_get(self.spirit_index as int) == sat_add_u8(
                    pre.presence.spec_get(self.spirit_index as int),
                    1,
                )
                &&& forall|j: int|
                    0 <= j < 6 && j != self.spirit_index ==> post.presence.spec_get(j)
                        == pre.presence.spec_get(j)
            }),
        decreases fuel, 1int,
    {
        if self.spirit_index >= 6 {
            return Err(StepFailure::InternalError("spirit index out of range"));
        }
        if self.presence_index >= 13 {
            return Err(StepFailure::InternalError("presence index out of range"));
        }
        if (self.spirit_index as usize) >= game.spirits.len() {
            return Err(StepFailure::InternalError("spirit index out of range"));
        }
        if (self.land_index as usize) >= game.table.lands.len() {
            return Err(StepFailure::InternalError("land index out of range"));
        }
        let mut spirit = game.take_spirit(self.spirit_index)?;
        spirit.presence[self.presence_index as usize] = PresenceState::OnBoard(self.land_index);
        game.put_spirit(self.spirit_index, spirit);
        let mut land = game.take_land(self.land_index)?;
        let p = land.presence.get(self.spirit_index);
        land.presence.set(self.spirit_index, p.saturating_add(1));
        game.put_land(self.land_index, land);
        proof {
            assert(final(game).spirits@ =~= old(game).spirits@.update(
                self.spirit_index as int,
                final(game).spirits@[self.spirit_index as int],
            ));
            assert(final(game).table.lands@ =~= old(game).table.lands@.update(
                self.land_index as int,
                final(game).table.lands@[self.land_index as int],
            ));
        }
        Ok(())
    }
}

impl AddInvaderEffect {
    pub fn apply_effect(&self, game: &mut GameState, fuel: u32) -> (r: Result<(), StepFailure>)
        requires
            fuel >= 1,
        ensures
            effect_frame(*old(game), *final(game), r),
            no_choice_rejection(r),
            (r is Ok) == (self.land_index < old(game).table.lands.len()),
            r is Err ==> *final(game) == *old(game),
            r is Ok ==> only_land_changed(*old(game), *final(game), self.land_index),
            r is Ok ==> ({
                let pre = old(game).table.lands@[self.land_index as int];
                let post = final(game).table.lands@[self.land_index as int];
                &&& post == (LandState { invaders: post.invaders, ..pre })
                &&& post.invaders@.len() == pre.invaders@.len() + self.count
                &&& forall|j: int|
                    0 <= j < pre.invaders@.len() ==> post.invaders@[j] == pre.invaders@[j]
                &&& forall|j: int|
                    pre.invaders@.len() <= j < post.invaders@.len() ==> post.invaders@[j]
                        == (Invader {
                        kind: self.kind,
                        health_max: self.kind.spec_health(),
                        health_cur: self.kind.spec_health(),
                        attack: self.kind.spec_attack(),
                    })
            }),
        decreases fuel, 1int,
    {
        let mut land = game.take_land(self.land_index)?;
        let ghost g1 = *game;
        let ghost pre_land = old(game).table.lands@[self.land_index as int];
        let mut c: u8 = 0;
        while c < self.count
            invariant
                *game == g1,
                c <= self.count,
                land == (LandState { invaders: land.invaders, ..pre_land }),
                land.invaders@.len() == pre_land.invaders@.len() + c,
                forall|j: int|
                    0 <= j < pre_land.invaders@.len() ==> land.invaders@[j] == pre_land.invaders@[j],
                forall|j: int|
                    pre_land.invaders@.len() <= j < land.invaders@.len() ==> land.invaders@[j]
                        == (Invader {
                        kind: self.kind,
                        health_max: self.kind.spec_health(),
                        health_cur: self.kind.spec_health(),
                        attack: self.kind.spec_attack(),
                    }),
            decreases self.count - c,
        {
            land.invaders.push(Invader::new(self.kind));
            c = c + 1;
        }
        game.put_land(self.land_index, land);
        proof {
            assert(final(game).table.lands@ =~= old(game).table.lands@.update(
                self.land_index as int,
                final(game).table.lands@[self.land_index as int],
            ));
        }
        Ok(())
    }
}

impl AddDahanEffect {
    pub fn apply_effect(&self, game: &mut GameState, fuel: u32) -> (r: Result<(), StepFailure>)
        requires
            fuel >= 1,
        ensures
            effect_frame(*old(game), *final(game), r),
            no_choice_rejection(r),
            (r is Ok) == (self.land_index < old(game).table.lands.len()),
            r is Err ==> *final(game) == *old(game),
            r is Ok ==> only_land_changed(*old(game), *final(game), self.land_index),
            r is Ok ==> ({
                let pre = old(game).table.lands@[self.land_index as int];
                let post = final(game).table.lands@[self.land_index as int];
                &&& post == (LandState { dahan: post.dahan, ..pre })
                &&& post.dahan@.len() == pre.dahan@.len() + self.count
                &&& forall|j: int| 0 <= j < pre.dahan@.len() ==> post.dahan@[j] == pre.dahan@[j]
                &&& forall|j: int|
                    pre.dahan@.len() <= j < post.dahan@.len() ==> post.dahan@[j] == (Dahan {
                        health_max: 2,
                        health_cur: 2,
                        attack: 2,
                    })
            }),
        decreases fuel, 1int,
    {
        let mut land = game.take_land(self.land_index)?;
        let ghost g1 = *game;
        let ghost pre_land = old(game).table.lands@[self.land_index as int];
        let mut c: u8 = 0;
        while c < self.count
            invariant
                *game == g1,
                c <= self.count,
                land == (LandState { dahan: land.dahan, ..pre_land }),
                land.dahan@.len() == pre_land.dahan@.len() + c,
                forall|j: int| 0 <= j < pre_land.dahan@.len() ==> land.dahan@[j] == pre_land.dahan@[j],
                forall|j: int|
                    pre_land.dahan@.len() <= j < land.dahan@.len() ==> land.dahan@[j] == (Dahan {
                        health_max: 2,
                        health_cur: 2,
                        attack: 2,
                    }),
            decreases self.count - c,
        {
            land.dahan.push(Dahan::new());
            c = c + 1;
        }
        game.put_land(self.land_index, land);
        proof {
            assert(final(game).table.lands@ =~= old(game).table.lands@.update(
                self.land_index as int,
                final(game).table.lands@[self.land_index as int],
            ));
        }
        Ok(())
    }
}

impl DoDamageToLandEffect {
    pub fn apply_effect(&self, game: &mut GameState, fuel: u32) -> (r: Result<(), StepFailure>)
        requires
            fuel >= 1,
        ensures
            effect_frame(*old(game), *final(game), r),
            self.damage < 2 ==> r is Ok && *final(game) == *old(game),
        decreases fuel, 1int,
    {
        if self.damage >= 2 {
            game.do_effect(
                Effect::AddBlightEffect(AddBlightEffect { land_index: self.land_index }),
                fuel - 1,
            )?;
        }
        Ok(())
    }
}

impl DoInvaderAttackEffect {
    pub fn apply_effect(&self, game: &mut GameState, fuel: u32) -> (r: Result<(), StepFailure>)
        requires
            fuel >= 1,
        ensures
            effect_frame(*old(game), *final(game), r),
            (self.land_index < old(game).table.lands.len() && old(game).table.lands@[
                self.land_index as int
            ].invaders.len() == 0) ==> r is Ok && *final(game) == *old(game),
        decreases fuel, 1int,
    {
        let land = game.get_land(self.land_index)?;
        if land.invaders.len() == 0 {
            return Ok(());
        }
        let mut invader_damage: u16 = 0;
        let mut i: usize = 0;
        while i < game.table.lands[self.land_index as usize].invaders.len()
            invariant
                *game == *old(game),
                self.land_index < game.table.lands.len(),
            decreases game.table.lands@[self.land_index as int].invaders.len() - i,
        {
            invader_damage = invader_damage.saturating_add(
                game.table.lands[self.land_index as usize].invaders[i].attack,
            );
            i = i + 1;
        }
        let defense = game.table.lands[self.land_index as usize].defense;
        let invader_damage = if defense >= invader_damage {
            0
        } else {
            invader_damage - defense
        };
        game.do_effect(
            Effect::DoDamageToDahanDecision(
                DoDamageToDahanDecision {
                    land_index: self.land_index,
                    damage: invader_damage,
                    efficent: true,
                },
            ),
            fuel - 1,
        )?;
        game.do_effect(
            Effect::DoDamageToLandEffect(
                DoDamageToLandEffect { land_index: self.land_index, damage: invader_damage },
            ),
            fuel - 1,
        )?;
        Ok(())
    }
}

impl DoDahanAttackEffect {
    pub fn apply_effect(&self, game: &mut GameState, fuel: u32) -> (r: Result<(), StepFailure>)
        requires
            fuel >= 1,
        ensures
            effect_frame(*old(game), *final(game), r),
            (self.land_index < old(game).table.lands.len() && old(game).table.lands@[
                self.land_index as int
            ].dahan.len() == 0) ==> r is Ok && *final(game) == *old(game),
        decreases fuel, 1int,
    {
        let land = game.get_land(self.land_index)?;
        if land.dahan.len() == 0 {
            return Ok(());
        }
        let mut dahan_damage: u16 = 0;
        let mut i: usize = 0;
        while i < game.table.lands[self.land_index as usize].dahan.len()
            invariant
                *game == *old(game),
                self.land_index < game.table.lands.len(),
            decreases game.table.lands@[self.land_index as int].dahan.len() - i,
        {
            dahan_damage = dahan_damage.saturating_add(
                game.table.lands[self.land_index as usize].dahan[i].attack,
            );
            i = i + 1;
        }
        game.do_effect(
            Effect::DoDamageToInvadersDecision(
                DoDamageToInvadersDecision { land_index: self.land_index, damage: dahan_damage },
            ),
            fuel - 1,
        )?;
        Ok(())
    }
}

impl DoDamageToEachInvaderEffect {
    pub fn apply_effect(&self, game: &mut GameState, fuel: u32) -> (r: Result<(), StepFailure>)
        requires
            fuel >= 1,
        ensures
            effect_frame(*old(game), *final(game), r),
        decreases fuel, 1int,
    {
        let mut land = game.take_land(self.land_index)?;
        let mut destroyed: Vec<usize> = Vec::new();
        let mut i: usize = 0;
        while i < land.invaders.len()
            invariant
                game.step == old(game).step,
                game.desc == old(game).desc,
                game.effect_stack@ == old(game).effect_stack@,
                game.choices@.len() <= old(game).choices@.len(),
                game.choices@ == old(game).choices@,
                game.effect_stack@ == old(game).effect_stack@,
                game.table.lands.len() == old(game).table.lands.len(),
                self.land_index < game.table.lands.len(),
                i <= land.invaders.len(),
            decreases land.invaders.len() - i,
        {
            let inv = land.invaders[i];
            if self.kinds.get(inv.kind) {
                if self.damage >= inv.health_cur as u16 {
                    let mut inv2 = inv;
                    inv2.health_cur = 0;
                    land.invaders.set(i, inv2);
                    destroyed.push(i);
                } else {
                    let mut inv2 = inv;
                    inv2.health_cur = inv.health_cur - (self.damage as u8);
                    land.invaders.set(i, inv2);
                }
            }
            i = i + 1;
        }
        game.put_land(self.land_index, land);
        let mut k: usize = destroyed.len();
        while k > 0
            invariant
                fuel >= 1,
                k <= destroyed.len(),
                game.step == old(game).step,
                game.desc == old(game).desc,
                game.effect_stack@ == old(game).effect_stack@,
                game.choices@.len() <= old(game).choices@.len(),
            decreases k,
        {
            k = k - 1;
            game.do_effect(
                Effect::RemoveInvaderEffect(
                    RemoveInvaderEffect {
                        land_index: self.land_index,
                        invader_index: destroyed[k],
                        destroyed: true,
                    },
                ),
                fuel - 1,
            )?;
        }
        Ok(())
    }
}

impl GenerateFearEffect {
    pub fn apply_effect(&self, game: &mut GameState, fuel: u32) -> (r: Result<(), StepFailure>)
        requires
            fuel >= 1,
        ensures
            effect_frame(*old(game), *final(game), r),
            no_choice_rejection(r),
            r is Ok ==> final(game).fear_generated_total as int == sat_add_u8(
                old(game).fear_generated_total,
                self.fear,
            ),
            (r is Ok && self.land_index is Some) ==> ({
                let idx = self.land_index->0;
                let pre = old(game).table.lands@[idx as int];
                let post = final(game).table.lands@[idx as int];
                &&& idx < old(game).table.lands.len()
                &&& final(game).table.lands@ == old(game).table.lands@.update(
                    idx as int,
                    final(game).table.lands@[idx as int],
                )
                &&& post == (LandState {
                    fear_generated_here_this_round: post.fear_generated_here_this_round,
                    ..pre
                })
                &&& post.fear_generated_here_this_round as int == sat_add_u8(
                    pre.fear_generated_here_this_round,
                    self.fear,
                )
            }),
            (r is Ok && self.land_index is None) ==> final(game).table == old(game).table,
            (self.fear == 0 && self.land_index is None) ==> r is Ok && *final(game) == *old(game),
            r == Result::<(), StepFailure>::Err(StepFailure::GameOverVictory) ==> final(game).fear.draw.len() == 0,
            final(game).fear.draw.len() + final(game).fear.pending.len() == old(game).fear.draw.len() + old(game).fear.pending.len(),
            final(game).fear.draw.len() <= old(game).fear.draw.len(),
            final(game).fear.discard == old(game).fear.discard,
        decreases fuel, 1int,
    {
        if self.fear == 0 {
            match self.land_index {
                None => {
                    return Ok(());
                },
                Some(_) => {},
            }
        }
        let mut remaining_fear = self.fear;
        while remaining_fear > 0
            invariant
                game.step == old(game).step,
                game.desc == old(game).desc,
                game.effect_stack@ == old(game).effect_stack@,
                game.choices == old(game).choices,
                game.table == old(game).table,
                remaining_fear <= self.fear,
                game.fear.draw.len() + game.fear.pending.len() == old(game).fear.draw.len() + old(game).fear.pending.len(),
                game.fear.draw.len() <= old(game).fear.draw.len(),
                game.fear.discard == old(game).fear.discard,
                game.fear.tier2_count == old(game).fear.tier2_count,
                game.fear.tier3_count == old(game).fear.tier3_count,
                game.fear_generated_total as int == sat_add_u8(
                    old(game).fear_generated_total,
                    (self.fear - remaining_fear) as u8,
                ),
            decreases remaining_fear, game.fear.draw.len(),
        {
            let fear_to_move = if remaining_fear < game.fear_pool {
                remaining_fear
            } else {
                game.fear_pool
            };
            game.fear_generated = game.fear_generated.saturating_add(fear_to_move);
            game.fear_generated_total = game.fear_generated_total.saturating_add(fear_to_move);
            game.fear_pool = game.fear_pool - fear_to_move;
            remaining_fear = remaining_fear - fear_to_move;
            if game.fear_pool == 0 {
                match game.fear.draw_into_pending() {
                    Ok(()) => {},
                    Err(_) => {
                        return Err(StepFailure::InternalError("fear deck ran dry"));
                    },
                }
                game.fear_pool = game.fear_generated;
                game.fear_generated = 0;
                if game.fear.draw.len() == 0 {
                    game.do_victory("No fear cards remaining.")?;
                }
            }
        }
        match self.land_index {
            Some(land_index) => {
                let mut land = game.take_land(land_index)?;
                land.fear_generated_here_this_round =
                    land.fear_generated_here_this_round.saturating_add(self.fear);
                game.put_land(land_index, land);
            },
            None => {},
        }
        Ok(())
    }
}

impl GenerateEnergyEffect {
    pub fn apply_effect(&self, game: &mut GameState, fuel: u32) -> (r: Result<(), StepFailure>)
        requires
            fuel >= 1,
        ensures
            effect_frame(*old(game), *final(game), r),
            no_choice_rejection(r),
            (r is Ok) == (self.spirit_index < old(game).spirits.len()),
            r is Err ==> *final(game) == *old(game),
            r is Ok ==> only_spirit_changed(*old(game), *final(game), self.spirit_index),
            r is Ok ==> ({
                let pre = old(game).spirits@[self.spirit_index as int];
                let post = final(game).spirits@[self.spirit_index as int];
                &&& post == (SpiritState { energy: post.energy, ..pre })
                &&& post.energy as int == sat_add_u8(pre.energy, self.energy)
            }),
        decreases fuel, 1int,
    {
        let mut spirit = game.take_spirit(self.spirit_index)?;
        spirit.energy = spirit.energy.saturating_add(self.energy);
        game.put_spirit(self.spirit_index, spirit);
        proof {
            assert(final(game).spirits@ =~= old(game).spirits@.update(
                self.spirit_index as int,
                final(game).spirits@[self.spirit_index as int],
            ));
        }
        Ok(())
    }
}

impl ReclaimAllEffect {
    pub fn apply_effect(&self, game: &mut GameState, fuel: u32) -> (r: Result<(), StepFailure>)
        requires
            fuel >= 1,
        ensures
            effect_frame(*old(game), *final(game), r),
            no_choice_rejection(r),
            (r is Ok) == (self.spirit_index < old(game).spirits.len()),
            r is Err ==> *final(game) == *old(game),
            r is Ok ==> only_spirit_changed(*old(game), *final(game), self.spirit_index),
            r is Ok ==> ({
                let pre = old(game).spirits@[self.spirit_index as int];
                let post = final(game).spirits@[self.spirit_index as int];
                &&& post == (SpiritState { deck: post.deck, ..pre })
                &&& post.deck == (SpiritPowerDeck {
                    hand: post.deck.hand,
                    discard: post.deck.discard,
                    ..pre.deck
                })
                &&& post.deck.hand@ == pre.deck.hand@ + pre.deck.discard@
                &&& post.deck.discard@.len() == 0
            }),
        decreases fuel, 1int,
    {
        let mut spirit = game.take_spirit(self.spirit_index)?;
        spirit.deck.reclaim_discard_into_hand();
        game.put_spirit(self.spirit_index, spirit);
        proof {
            assert(final(game).spirits@ =~= old(game).spirits@.update(
                self.spirit_index as int,
                final(game).spirits@[self.spirit_index as int],
            ));
        }
        Ok(())
    }
}

/// Whether a land holds a building invader (a town or a city).
pub open spec fn land_has_building(g: GameState, ti: int) -> bool {
    exists|j: int|
        0 <= j < g.table.lands@[ti].invaders.len() && ((#[trigger] g.table.lands@[
            ti
        ].invaders@[j]).kind is Town || g.table.lands@[ti].invaders@[j].kind is City)
}

/// Whether an explore fires in the land: some land whose adjacency lists
/// it holds a building.
pub open spec fn explore_triggers(g: GameState, idx: u8) -> bool {
    exists|l: int|
        0 <= l < g.desc.table.lands.len() && (#[trigger] g.desc.table.lands@[
            l
        ]).adjacent@.contains(idx) && (g.desc.table.lands@[l].index_on_table as int)
            < g.table.lands.len() && land_has_building(
            g,
            g.desc.table.lands@[l].index_on_table as int,
        )
}

/// The kind of invader a build adds: a town unless towns already
/// outnumber cities in the land.
pub open spec fn build_kind(invaders: Seq<Invader>) -> InvaderKind {
    if invader_count_spec(invaders, InvaderKind::City) >= invader_count_spec(
        invaders,
        InvaderKind::Town,
    ) {
        InvaderKind::Town
    } else {
        InvaderKind::City
    }
}

impl ExploreEffect {
    /// Exactly one fresh explorer enters the land when a land adjacent to
    /// it holds a building; otherwise nothing happens.
    pub fn apply_effect(&self, game: &mut GameState, fuel: u32) -> (r: Result<(), StepFailure>)
        requires
            fuel >= 1,
        ensures
            effect_frame(*old(game), *final(game), r),
            no_choice_rejection(r),
            (fuel >= 2 && !explore_triggers(*old(game), self.land_index)) ==> r is Ok && *final(game) == *old(game),
            (fuel >= 2 && explore_triggers(*old(game), self.land_index)) ==> ((r is Ok) == (
            self.land_index < old(game).table.lands.len())),
            (r is Ok && explore_triggers(*old(game), self.land_index)) ==> only_land_changed(
                *old(game),
                *final(game),
                self.land_index,
            ) && ({
                let pre = old(game).table.lands@[self.land_index as int];
                let post = final(game).table.lands@[self.land_index as int];
                &&& post == (LandState { invaders: post.invaders, ..pre })
                &&& post.invaders@.len() == pre.invaders@.len() + 1
                &&& forall|j: int|
                    0 <= j < pre.invaders@.len() ==> post.invaders@[j] == pre.invaders@[j]
                &&& post.invaders@.last() == (Invader {
                    kind: InvaderKind::Explorer,
                    health_max: 1,
                    health_cur: 1,
                    attack: 1,
                })
            }),
        decreases fuel, 1int,
    {
        if fuel < 2 {
            return Err(StepFailure::InternalError("effects nested too deeply"));
        }
        let mut will_explore = false;
        let mut a: usize = 0;
        while a < game.desc.table.lands.len()
            invariant
                *game == *old(game),
                a <= game.desc.table.lands.len(),
                will_explore ==> explore_triggers(*old(game), self.land_index),
                !will_explore ==> forall|l: int|
                    0 <= l < a ==> !((#[trigger] game.desc.table.lands@[l]).adjacent@.contains(
                        self.land_index,
                    ) && (game.desc.table.lands@[l].index_on_table as int)
                        < game.table.lands.len() && land_has_building(
                        *game,
                        game.desc.table.lands@[l].index_on_table as int,
                    )),
            decreases game.desc.table.lands.len() - a,
        {
            if contains_u8(&game.desc.table.lands[a].adjacent, self.land_index) {
                let ti = game.desc.table.lands[a].index_on_table;
                if (ti as usize) < game.table.lands.len() {
                    let mut found = false;
                    let mut j: usize = 0;
                    while j < game.table.lands[ti as usize].invaders.len()
                        invariant
                            *game == *old(game),
                            (ti as usize) < game.table.lands.len(),
                            j <= game.table.lands@[ti as int].invaders.len(),
                            found ==> land_has_building(*game, ti as int),
                            !found ==> forall|q: int|
                                0 <= q < j ==> !((#[trigger] game.table.lands@[
                                    ti as int
                                ].invaders@[q]).kind is Town || game.table.lands@[
                                    ti as int
                                ].invaders@[q].kind is City),
                        decreases game.table.lands@[ti as int].invaders.len() - j,
                    {
                        if game.table.lands[ti as usize].invaders[j].is_building() {
                            found = true;
                        }
                        j = j + 1;
                    }
                    if found {
                        will_explore = true;
                        proof {
                            assert(game.desc.table.lands@[a as int].adjacent@.contains(
                                self.land_index,
                            ));
                        }
                    }
                }
            }
            a = a + 1;
        }
        if will_explore {
            let add = AddInvaderEffect {
                land_index: self.land_index,
                kind: InvaderKind::Explorer,
                count: 1,
            };
            match add.apply_effect(game, fuel - 1) {
                Ok(()) => {},
                Err(e) => {
                    return Err(e);
                },
            }
        }
        Ok(())
    }
}

impl BuildEffect {
    /// With invaders present, exactly one invader is added to the land: a
    /// town, unless its towns already outnumber its cities, then a city.
    /// An empty land is untouched.
    pub fn apply_effect(&self, game: &mut GameState, fuel: u32) -> (r: Result<(), StepFailure>)
        requires
            fuel >= 1,
        ensures
            effect_frame(*old(game), *final(game), r),
            no_choice_rejection(r),
            (fuel >= 2 && self.land_index < old(game).table.lands.len() && old(game).table.lands@[
                self.land_index as int
            ].invaders.len() == 0) ==> r is Ok && *final(game) == *old(game),
            (fuel >= 2 && self.land_index < old(game).table.lands.len() && old(game).table.lands@[
                self.land_index as int
            ].invaders.len() > 0) ==> r is Ok,
            (r is Ok && self.land_index < old(game).table.lands.len() && old(game).table.lands@[
                self.land_index as int
            ].invaders.len() > 0) ==> only_land_changed(*old(game), *final(game), self.land_index)
                && ({
                let pre = old(game).table.lands@[self.land_index as int];
                let post = final(game).table.lands@[self.land_index as int];
                let kind = build_kind(pre.invaders@);
                &&& post == (LandState { invaders: post.invaders, ..pre })
                &&& post.invaders@.len() == pre.invaders@.len() + 1
                &&& forall|j: int|
                    0 <= j < pre.invaders@.len() ==> post.invaders@[j] == pre.invaders@[j]
                &&& post.invaders@.last() == (Invader {
                    kind,
                    health_max: kind.spec_health(),
                    health_cur: kind.spec_health(),
                    attack: kind.spec_attack(),
                })
            }),
        decreases fuel, 1int,
    {
        if fuel < 2 {
            return Err(StepFailure::InternalError("effects nested too deeply"));
        }
        let land = game.get_land(self.land_index)?;
        if land.invaders.len() == 0 {
            return Ok(());
        }
        let mut building_type_distance: i128 = 0;
        let mut i: usize = 0;
        while i < game.table.lands[self.land_index as usize].invaders.len()
            invariant
                *game == *old(game),
                self.land_index < game.table.lands.len(),
                i <= game.table.lands@[self.land_index as int].invaders.len(),
                building_type_distance as int == invader_count_spec(
                    game.table.lands@[self.land_index as int].invaders@.subrange(0, i as int),
                    InvaderKind::City,
                ) - invader_count_spec(
                    game.table.lands@[self.land_index as int].invaders@.subrange(0, i as int),
                    InvaderKind::Town,
                ),
                -(i as int) <= building_type_distance as int <= i as int,
            decreases game.table.lands@[self.land_index as int].invaders.len() - i,
        {
            proof {
                let invs = game.table.lands@[self.land_index as int].invaders@;
                assert(invs.subrange(0, i + 1).drop_last() =~= invs.subrange(0, i as int));
                assert(invs.subrange(0, i + 1).last() == invs[i as int]);
            }
            match game.table.lands[self.land_index as usize].invaders[i].kind {
                InvaderKind::Town => {
                    building_type_distance = building_type_distance - 1;
                },
                InvaderKind::City => {
                    building_type_distance = building_type_distance + 1;
                },
                _ => {},
            }
            i = i + 1;
        }
        proof {
            let invs = game.table.lands@[self.land_index as int].invaders@;
            assert(invs.subrange(0, invs.len() as int) =~= invs);
        }
        let kind = if building_type_distance >= 0 {
            InvaderKind::Town
        } else {
            InvaderKind::City
        };
        let add = AddInvaderEffect { land_index: self.land_index, kind, count: 1 };
        match add.apply_effect(game, fuel - 1) {
            Ok(()) => {},
            Err(e) => {
                return Err(e);
            },
        }
        Ok(())
    }
}

impl RavageEffect {
    pub fn apply_effect(&self, game: &mut GameState, fuel: u32) -> (r: Result<(), StepFailure>)
        requires
            fuel >= 1,
        ensures
            effect_frame(*old(game), *final(game), r),
            (self.land_index < old(game).table.lands.len() && old(game).table.lands@[
                self.land_index as int
            ].invaders.len() == 0) ==> r is Ok && *final(game) == *old(game),
        decreases fuel, 1int,
    {
        let land = game.get_land(self.land_index)?;
        if land.invaders.len() != 0 {
            game.do_effect(
                Effect::DoInvaderAttackEffect(
                    DoInvaderAttackEffect { land_index: self.land_index },
                ),
                fuel - 1,
            )?;
            game.do_effect(
                Effect::DoDahanAttackEffect(DoDahanAttackEffect { land_index: self.land_index }),
                fuel - 1,
            )?;
        }
        Ok(())
    }
}

impl NotImplementedEffect {
    pub fn apply_effect(&self, game: &mut GameState, fuel: u32) -> (r: Result<(), StepFailure>)
        requires
            fuel >= 1,
        ensures
            effect_frame(*old(game), *final(game), r),
            no_choice_rejection(r),
            r is Ok,
            *final(game) == *old(game),
        decreases fuel, 1int,
    {
        Ok(())
    }
}

impl PersistDefenseEffect {
    pub fn apply_effect(&self, game: &mut GameState, fuel: u32) -> (r: Result<(), StepFailure>)
        requires
            fuel >= 1,
        ensures
            effect_frame(*old(game), *final(game), r),
            no_choice_rejection(r),
            (r is Ok) == (self.land_index < old(game).table.lands.len()),
            r is Err ==> *final(game) == *old(game),
            r is Ok ==> only_land_changed(*old(game), *final(game), self.land_index),
            r is Ok ==> ({
                let pre = old(game).table.lands@[self.land_index as int];
                let post = final(game).table.lands@[self.land_index as int];
                &&& post == (LandState { defense: post.defense, ..pre })
                &&& post.defense as int == sat_add_u16(pre.defense, self.defense)
            }),
        decreases fuel, 1int,
    {
        let mut land = game.take_land(self.land_index)?;
        land.defense = land.defense.saturating_add(self.defense);
        game.put_land(self.land_index, land);
        proof {
            assert(final(game).table.lands@ =~= old(game).table.lands@.update(
                self.land_index as int,
                final(game).table.lands@[self.land_index as int],
            ));
        }
        Ok(())
    }
}

impl RemoveBlightEffect {
    pub fn apply_effect(&self, game: &mut GameState, fuel: u32) -> (r: Result<(), StepFailure>)
        requires
            fuel >= 1,
        ensures
            effect_frame(*old(game), *final(game), r),
            no_choice_rejection(r),
            (r is Ok) == (self.land_index < old(game).table.lands.len()),
            r is Err ==> *final(game) == *old(game),
            r is Ok ==> *final(game) == (GameState {
                table: final(game).table,
                blight_remaining: final(game).blight_remaining,
                ..*old(game)
            }),
            r is Ok ==> final(game).table.lands@ == old(game).table.lands@.update(
                self.land_index as int,
                final(game).table.lands@[self.land_index as int],
            ),
            r is Ok ==> ({
                let pre = old(game).table.lands@[self.land_index as int];
                let post = final(game).table.lands@[self.land_index as int];
                let removed: u8 = if self.count < pre.tokens.spec_get(
                    crate::piece::TokenKind::Blight,
                ) {
                    self.count
                } else {
                    pre.tokens.spec_get(crate::piece::TokenKind::Blight)
                };
                &&& post == (LandState { tokens: post.tokens, ..pre })
                &&& post.tokens.spec_get(crate::piece::TokenKind::Blight) == pre.tokens.spec_get(
                    crate::piece::TokenKind::Blight,
                ) - removed
                &&& forall|k: TokenKind|
                    k != crate::piece::TokenKind::Blight ==> post.tokens.spec_get(k)
                        == pre.tokens.spec_get(k)
                &&& final(game).blight_remaining as int == sat_add_u8(
                    old(game).blight_remaining,
                    removed,
                )
            }),
        decreases fuel, 1int,
    {
        let mut land = game.take_land(self.land_index)?;
        let b = land.tokens.get(TokenKind::Blight);
        let blight_removed = if self.count < b {
            self.count
        } else {
            b
        };
        land.tokens.set(TokenKind::Blight, b - blight_removed);
        game.put_land(self.land_index, land);
        game.blight_remaining = game.blight_remaining.saturating_add(blight_removed);
        proof {
            assert(final(game).table.lands@ =~= old(game).table.lands@.update(
                self.land_index as int,
                final(game).table.lands@[self.land_index as int],
            ));
        }
        Ok(())
    }
}

impl RemoveDahanEffect {
    pub fn apply_effect(&self, game: &mut GameState, fuel: u32) -> (r: Result<(), StepFailure>)
        requires
            fuel >= 1,
        ensures
            effect_frame(*old(game), *final(game), r),
            no_choice_rejection(r),
            (r is Ok) == (self.land_index < old(game).table.lands.len() && self.dahan_index < old(game).table.lands@[self.land_index as int].dahan.len()),
            r is Err ==> *final(game) == *old(game),
            r is Ok ==> only_land_changed(*old(game), *final(game), self.land_index),
            r is Ok ==> ({
                let pre = old(game).table.lands@[self.land_index as int];
                let post = final(game).table.lands@[self.land_index as int];
                &&& post == (LandState { dahan: post.dahan, ..pre })
                &&& post.dahan@ == pre.dahan@.remove(self.dahan_index as int)
            }),
        decreases fuel, 1int,
    {
        if (self.land_index as usize) >= game.table.lands.len() {
            return Err(StepFailure::InternalError("land index out of range"));
        }
        if self.dahan_index >= game.table.lands[self.land_index as usize].dahan.len() {
            return Err(StepFailure::InternalError("dahan index out of range"));
        }
        let mut land = game.take_land(self.land_index)?;
        land.dahan.remove(self.dahan_index);
        game.put_land(self.land_index, land);
        proof {
            assert(final(game).table.lands@ =~= old(game).table.lands@.update(
                self.land_index as int,
                final(game).table.lands@[self.land_index as int],
            ));
        }
        Ok(())
    }
}

impl RemoveInvaderEffect {
    /// Removes the invader at the index; a destroyed town or city then
    /// generates its fear, which can end the game in victory.
    pub fn apply_effect(&self, game: &mut GameState, fuel: u32) -> (r: Result<(), StepFailure>)
        requires
            fuel >= 1,
        ensures
            effect_frame(*old(game), *final(game), r),
            no_choice_rejection(r),
            r is Ok ==> self.land_index < old(game).table.lands.len() && self.invader_index < old(game).table.lands@[self.land_index as int].invaders.len(),
            r is Ok ==> final(game).table.lands.len() == old(game).table.lands.len() && final(game).table.lands@[self.land_index as int].invaders@ == old(game).table.lands@[
                self.land_index as int
            ].invaders@.remove(self.invader_index as int),
        decreases fuel, 1int,
    {
        if fuel < 2 {
            return Err(StepFailure::InternalError("effects nested too deeply"));
        }
        if (self.land_index as usize) >= game.table.lands.len() {
            return Err(StepFailure::InternalError("land index out of range"));
        }
        if self.invader_index >= game.table.lands[self.land_index as usize].invaders.len() {
            return Err(StepFailure::InternalError("invader index out of range"));
        }
        let mut land = game.take_land(self.land_index)?;
        let removed = land.invaders.remove(self.invader_index);
        game.put_land(self.land_index, land);
        match removed.kind {
            InvaderKind::City => {
                let fear = GenerateFearEffect { fear: 2, land_index: Some(self.land_index) };
                match fear.apply_effect(game, fuel - 1) {
                    Ok(()) => {},
                    Err(e) => {
                        return Err(e);
                    },
                }
            },
            InvaderKind::Town => {
                let fear = GenerateFearEffect { fear: 1, land_index: Some(self.land_index) };
                match fear.apply_effect(game, fuel - 1) {
                    Ok(()) => {},
                    Err(e) => {
                        return Err(e);
                    },
                }
            },
            _ => {},
        }
        Ok(())
    }
}

impl MayPlaySlowsAsFastsEffect {
    pub fn apply_effect(&self, game: &mut GameState, fuel: u32) -> (r: Result<(), StepFailure>)
        requires
            fuel >= 1,
        ensures
            effect_frame(*old(game), *final(game), r),
            no_choice_rejection(r),
            (r is Ok) == (self.spirit_index < old(game).spirits.len()),
            r is Err ==> *final(game) == *old(game),
            r is Ok ==> only_spirit_changed(*old(game), *final(game), self.spirit_index),
            r is Ok ==> ({
                let pre = old(game).spirits@[self.spirit_index as int];
                let post = final(game).spirits@[self.spirit_index as int];
                &&& post == (SpiritState {
                    may_play_slows_as_fasts: post.may_play_slows_as_fasts,
                    ..pre
                })
                &&& post.may_play_slows_as_fasts as int == sat_add_u8(
                    pre.may_play_slows_as_fasts,
                    self.amount,
                )
            }),
        decreases fuel, 1int,
    {
        let mut spirit = game.take_spirit(self.spirit_index)?;
        spirit.may_play_slows_as_fasts = spirit.may_play_slows_as_fasts.saturating_add(
            self.amount,
        );
        game.put_spirit(self.spirit_index, spirit);
        proof {
            assert(final(game).spirits@ =~= old(game).spirits@.update(
                self.spirit_index as int,
                final(game).spirits@[self.spirit_index as int],
            ));
        }
        Ok(())
    }
}

impl AdversarySetupStandardEffect {
    pub fn apply_effect(&self, game: &mut GameState, fuel: u32) -> (r: Result<(), StepFailure>)
        requires
            fuel >= 1,
        ensures
            effect_frame(*old(game), *final(game), r),
            no_choice_rejection(r),
        decreases fuel, 1int,
    {
        invader_deck_setup_standard(game)
    }
}

/// Applies a damage allocation to the dahan of a land, destroying those
/// brought to zero.  A layout the dahan can absorb is never rejected.
fn damage_dahan_with_layout(
    game: &mut GameState,
    land_index: u8,
    damage: u16,
    layout: &Vec<u16>,
    fuel: u32,
) -> (r: Result<(), StepFailure>)
    requires
        fuel >= 1,
    ensures
        effect_core(*old(game), *final(game), r),
        (land_index < old(game).table.lands.len() && layout_fits_dahan(
            layout@,
            old(game).table.lands@[land_index as int].dahan@,
            damage,
        )) ==> no_choice_rejection(r),
        r is Ok ==> land_index < old(game).table.lands.len() && layout.len() == old(game).table.lands@[land_index as int].dahan.len(),
        r is Ok ==> final(game).table.lands@[land_index as int].dahan@.len() == old(game).table.lands@[land_index as int].dahan.len() - zeroed_dahan(
            layout@,
            old(game).table.lands@[land_index as int].dahan@,
        ),
        r is Ok ==> layout_fits_dahan(
            layout@,
            old(game).table.lands@[land_index as int].dahan@,
            damage,
        ),
    decreases fuel, 0int,
{
    if fuel < 2 {
        return Err(StepFailure::InternalError("effects nested too deeply"));
    }
    let ghost fits = land_index < old(game).table.lands.len() && layout_fits_dahan(
        layout@,
        old(game).table.lands@[land_index as int].dahan@,
        damage,
    );
    let mut land = game.take_land(land_index)?;
    let ghost dahan0 = land.dahan@;
    let n = land.dahan.len();
    if layout.len() != n {
        game.put_land(land_index, land);
        return Err(StepFailure::InternalError("damage allocation has the wrong length"));
    }
    let mut destroyed: Vec<usize> = Vec::new();
    let mut damage_remaining = damage;
    let mut i: usize = 0;
    while i < n
        invariant
            game.step == old(game).step,
            game.desc == old(game).desc,
            game.effect_stack@ == old(game).effect_stack@,
            game.choices@.len() <= old(game).choices@.len(),
            game.choices@ == old(game).choices@,
            game.effect_stack@ == old(game).effect_stack@,
            game.table.lands.len() == old(game).table.lands.len(),
            land_index < game.table.lands.len(),
            n == land.dahan.len(),
            n == layout.len(),
            i <= n,
            forall|j: int| i <= j < n ==> #[trigger] land.dahan@[j] == dahan0[j],
            forall|j: int| 0 <= j < i ==> #[trigger] layout@[j] <= dahan0[j].health_cur,
            dahan0.len() == n,
            land_index < old(game).table.lands.len(),
            dahan0 == old(game).table.lands@[land_index as int].dahan@,
            damage_remaining as int == damage - damage_total(layout@.subrange(0, i as int)),
            destroyed.len() == zeroed_dahan(
                layout@.subrange(0, i as int),
                dahan0.subrange(0, i as int),
            ),
            forall|a: int, b: int| 0 <= a < b < destroyed.len() ==> destroyed@[a] < destroyed@[b],
            forall|q: int| 0 <= q < destroyed.len() ==> (#[trigger] destroyed@[q]) < i,
            fits == (land_index < old(game).table.lands.len() && layout_fits_dahan(
                layout@,
                dahan0,
                damage,
            )),
        decreases n - i,
    {
        let damage_to_do: u16 = layout[i];
        if damage_to_do > land.dahan[i].health_cur as u16 {
            proof {
                if fits {
                    assert(layout@[i as int] <= dahan0[i as int].health_cur);
                    assert(false);
                }
            }
            game.put_land(land_index, land);
            return Err(StepFailure::RulesViolation("Cannot do more damage than current health."));
        }
        if damage_to_do > damage_remaining {
            proof {
                if fits {
                    lemma_damage_total_step(layout@, i as int);
                    lemma_damage_total_prefix(layout@, i + 1);
                    assert(false);
                }
            }
            game.put_land(land_index, land);
            return Err(
                StepFailure::RulesViolation("Cannot allocate more damage than is pending."),
            );
        }
        let mut d = land.dahan[i];
        d.health_cur = d.health_cur - (damage_to_do as u8);
        land.dahan.set(i, d);
        damage_remaining = damage_remaining - damage_to_do;
        proof {
            lemma_damage_total_step(layout@, i as int);
            assert(layout@.subrange(0, i + 1).drop_last() =~= layout@.subrange(0, i as int));
            assert(dahan0.subrange(0, i + 1).drop_last() =~= dahan0.subrange(0, i as int));
            assert(layout@.subrange(0, i + 1).last() == layout@[i as int]);
            assert(dahan0.subrange(0, i + 1).last() == dahan0[i as int]);
        }
        if d.health_cur == 0 {
            destroyed.push(i);
        }
        i = i + 1;
    }
    game.put_land(land_index, land);
    proof {
        assert(layout@.subrange(0, n as int) =~= layout@);
        assert(dahan0.subrange(0, n as int) =~= dahan0);
    }
    let ghost m = destroyed@.len();
    let mut k: usize = destroyed.len();
    while k > 0
        invariant
            fuel >= 2,
            k <= destroyed.len(),
            destroyed@.len() == m,
            game.step == old(game).step,
            game.desc == old(game).desc,
            game.effect_stack@ == old(game).effect_stack@,
            game.choices@.len() <= old(game).choices@.len(),
            land_index < game.table.lands.len(),
            game.table.lands.len() == old(game).table.lands.len(),
            n == old(game).table.lands@[land_index as int].dahan.len(),
            forall|a: int, b: int| 0 <= a < b < destroyed.len() ==> destroyed@[a] < destroyed@[b],
            forall|q: int| 0 <= q < destroyed.len() ==> (#[trigger] destroyed@[q]) < n,
            game.table.lands@[land_index as int].dahan@.len() == n - (m - k),
        decreases k,
    {
        k = k - 1;
        proof {
            lemma_increasing_bound(destroyed@, n as int);
        }
        let rd = RemoveDahanEffect { land_index, dahan_index: destroyed[k], destroyed: true };
        match rd.apply_effect(game, fuel - 1) {
            Ok(()) => {},
            Err(e) => {
                return Err(e);
            },
        }
    }
    Ok(())
}

/// Applies a damage allocation to the invaders of a land, destroying
/// those brought to zero.  A layout the invaders can absorb is never
/// rejected.
fn damage_invaders_with_layout(
    game: &mut GameState,
    land_index: u8,
    damage: u16,
    layout: &Vec<u16>,
    fuel: u32,
) -> (r: Result<(), StepFailure>)
    requires
        fuel >= 1,
    ensures
        effect_core(*old(game), *final(game), r),
        (land_index < old(game).table.lands.len() && layout_fits_invaders(
            layout@,
            old(game).table.lands@[land_index as int].invaders@,
            damage,
        )) ==> no_choice_rejection(r),
        r is Ok ==> land_index < old(game).table.lands.len() && layout.len() == old(game).table.lands@[land_index as int].invaders.len(),
        r is Ok ==> final(game).table.lands@[land_index as int].invaders@.len() == old(game).table.lands@[land_index as int].invaders.len() - zeroed_invaders(
            layout@,
            old(game).table.lands@[land_index as int].invaders@,
        ),
        r is Ok ==> layout_fits_invaders(
            layout@,
            old(game).table.lands@[land_index as int].invaders@,
            damage,
        ),
    decreases fuel, 0int,
{
    if fuel < 2 {
        return Err(StepFailure::InternalError("effects nested too deeply"));
    }
    let ghost fits = land_index < old(game).table.lands.len() && layout_fits_invaders(
        layout@,
        old(game).table.lands@[land_index as int].invaders@,
        damage,
    );
    let mut land = game.take_land(land_index)?;
    let ghost invaders0 = land.invaders@;
    let n = land.invaders.len();
    if layout.len() != n {
        game.put_land(land_index, land);
        return Err(StepFailure::InternalError("damage allocation has the wrong length"));
    }
    let mut destroyed: Vec<usize> = Vec::new();
    let mut damage_remaining = damage;
    let mut i: usize = 0;
    while i < n
        invariant
            game.step == old(game).step,
            game.desc == old(game).desc,
            game.effect_stack@ == old(game).effect_stack@,
            game.choices@.len() <= old(game).choices@.len(),
            game.choices@ == old(game).choices@,
            game.effect_stack@ == old(game).effect_stack@,
            game.table.lands.len() == old(game).table.lands.len(),
            land_index < game.table.lands.len(),
            n == land.invaders.len(),
            n == layout.len(),
            i <= n,
            forall|j: int| i <= j < n ==> #[trigger] land.invaders@[j] == invaders0[j],
            forall|j: int| 0 <= j < i ==> #[trigger] layout@[j] <= invaders0[j].health_cur,
            invaders0.len() == n,
            land_index < old(game).table.lands.len(),
            invaders0 == old(game).table.lands@[land_index as int].invaders@,
            damage_remaining as int == damage - damage_total(layout@.subrange(0, i as int)),
            destroyed.len() == zeroed_invaders(
                layout@.subrange(0, i as int),
                invaders0.subrange(0, i as int),
            ),
            forall|a: int, b: int| 0 <= a < b < destroyed.len() ==> destroyed@[a] < destroyed@[b],
            forall|q: int| 0 <= q < destroyed.len() ==> (#[trigger] destroyed@[q]) < i,
            fits == (land_index < old(game).table.lands.len() && layout_fits_invaders(
                layout@,
                invaders0,
                damage,
            )),
        decreases n - i,
    {
        let damage_to_do: u16 = layout[i];
        if damage_to_do > land.invaders[i].health_cur as u16 {
            proof {
                if fits {
                    assert(layout@[i as int] <= invaders0[i as int].health_cur);
                    assert(false);
                }
            }
            game.put_land(land_index, land);
            return Err(StepFailure::RulesViolation("Cannot do more damage than current health."));
        }
        if damage_to_do > damage_remaining {
            proof {
                if fits {
                    lemma_damage_total_step(layout@, i as int);
                    lemma_damage_total_prefix(layout@, i + 1);
                    assert(false);
                }
            }
            game.put_land(land_index, land);
            return Err(
                StepFailure::RulesViolation("Cannot allocate more damage than is pending."),
            );
        }
        let mut inv = land.invaders[i];
        inv.health_cur = inv.health_cur - (damage_to_do as u8);
        land.invaders.set(i, inv);
        damage_remaining = damage_remaining - damage_to_do;
        proof {
            lemma_damage_total_step(layout@, i as int);
            assert(layout@.subrange(0, i + 1).drop_last() =~= layout@.subrange(0, i as int));
            assert(invaders0.subrange(0, i + 1).drop_last() =~= invaders0.subrange(0, i as int));
            assert(layout@.subrange(0, i + 1).last() == layout@[i as int]);
            assert(invaders0.subrange(0, i + 1).last() == invaders0[i as int]);
        }
        if inv.health_cur == 0 {
            destroyed.push(i);
        }
        i = i + 1;
    }
    game.put_land(land_index, land);
    proof {
        assert(layout@.subrange(0, n as int) =~= layout@);
        assert(invaders0.subrange(0, n as int) =~= invaders0);
    }
    let ghost m = destroyed@.len();
    let mut k: usize = destroyed.len();
    while k > 0
        invariant
            fuel >= 2,
            k <= destroyed.len(),
            destroyed@.len() == m,
            game.step == old(game).step,
            game.desc == old(game).desc,
            game.effect_stack@ == old(game).effect_stack@,
            game.choices@.len() <= old(game).choices@.len(),
            land_index < game.table.lands.len(),
            game.table.lands.len() == old(game).table.lands.len(),
            n == old(game).table.lands@[land_index as int].invaders.len(),
            forall|a: int, b: int| 0 <= a < b < destroyed.len() ==> destroyed@[a] < destroyed@[b],
            forall|q: int| 0 <= q < destroyed.len() ==> (#[trigger] destroyed@[q]) < n,
            game.table.lands@[land_index as int].invaders@.len() == n - (m - k),
        decreases k,
    {
        k = k - 1;
        proof {
            lemma_increasing_bound(destroyed@, n as int);
        }
        let ri = RemoveInvaderEffect { land_index, invader_index: destroyed[k], destroyed: true };
        match ri.apply_effect(game, fuel - 1) {
            Ok(()) => {},
            Err(e) => {
                return Err(e);
            },
        }
    }
    Ok(())
}

/// Whether the queue holds exactly one cascade target that the rules
/// accept: a land adjacent to the source and in play.
pub open spec fn cascade_choice_ok(pre: GameState, src_land_index: u8) -> bool {
    &&& pre.choices@.len() == 1
    &&& pre.choices@[0] matches DecisionChoice::TargetLand { target_land: l, source_land: _ } && {
        &&& src_land_index < pre.desc.table.lands.len()
        &&& pre.desc.table.lands@[src_land_index as int].adjacent@.contains(l)
        &&& l < pre.table.lands.len()
        &&& pre.table.lands@[l as int].is_in_play
    }
}

/// Decision well-formedness for the cascade decision, as a law: any
/// element of what `valid_choices` returns — a target adjacent to the
/// source and in play — placed alone on the queue, satisfies the guard
/// under which `apply_effect` never rejects.
pub proof fn lemma_cascade_valid_choice_accepted(
    pre: GameState,
    src_land_index: u8,
    c: DecisionChoice,
)
    requires
        pre.choices@ =~= seq![c],
        (c matches DecisionChoice::TargetLand { target_land: l, source_land: _ }
            && src_land_index < pre.desc.table.lands.len()
            && pre.desc.table.lands@[src_land_index as int].adjacent@.contains(l)
            && l < pre.table.lands.len() && pre.table.lands@[l as int].is_in_play),
    ensures
        cascade_choice_ok(pre, src_land_index),
{
}

impl CascadeBlightDecision {
    /// Decision well-formedness, shown here as a contract: a queue holding
    /// one valid cascade target is never rejected.
    pub fn apply_effect(&self, game: &mut GameState, fuel: u32) -> (r: Result<(), StepFailure>)
        requires
            fuel >= 1,
        ensures
            effect_frame(*old(game), *final(game), r),
            cascade_choice_ok(*old(game), self.src_land_index) ==> no_choice_rejection(r),
        decreases fuel, 1int,
    {
        let c = game.consume_choice()?;
        let dst_land_index = match c {
            DecisionChoice::TargetLand { target_land, .. } => target_land,
            _ => {
                return Err(StepFailure::DecisionMismatch);
            },
        };
        let src_desc = game.get_land_desc(self.src_land_index)?;
        if !contains_u8(&src_desc.adjacent, dst_land_index) {
            return Err(
                StepFailure::RulesViolation(
                    "Cascade Blight: Destination land is not adjacent to source land!",
                ),
            );
        }
        let dst_land = game.get_land(dst_land_index)?;
        if !dst_land.is_in_play {
            return Err(
                StepFailure::RulesViolation(
                    "Cascade Blight: Blight must be placed on lands that are in play!",
                ),
            );
        }
        game.do_effect(
            Effect::AddBlightEffect(AddBlightEffect { land_index: dst_land_index }),
            fuel - 1,
        )?;
        Ok(())
    }
}

impl DoDamageToDahanDecision {
    /// Decision well-formedness, shown here as a contract: a queue holding
    /// one allocation the dahan can absorb is never rejected, and the
    /// computed efficient allocation never is either.
    pub fn apply_effect(&self, game: &mut GameState, fuel: u32) -> (r: Result<(), StepFailure>)
        requires
            fuel >= 1,
        ensures
            effect_frame(*old(game), *final(game), r),
            (!self.efficent && dahan_damage_choice_ok(*old(game), self.land_index, self.damage))
                ==> no_choice_rejection(r),
            (r is Ok && !self.efficent && self.land_index < old(game).table.lands.len() && old(game).table.lands@[self.land_index as int].dahan.len() > 0 && old(game).choices@.len()
                >= 1) ==> (old(game).choices@[0] matches DecisionChoice::Damage(layout) ==> final(game).table.lands@[self.land_index as int].dahan@.len() == old(game).table.lands@[
                self.land_index as int
            ].dahan.len() - zeroed_dahan(
                layout@,
                old(game).table.lands@[self.land_index as int].dahan@,
            ) && layout_fits_dahan(
                layout@,
                old(game).table.lands@[self.land_index as int].dahan@,
                self.damage,
            )),
        decreases fuel, 1int,
    {
        let land = game.get_land(self.land_index)?;
        let n = land.dahan.len();
        if n == 0 {
            return Ok(());
        }
        if self.efficent {
            let mut targets: Vec<u8> = Vec::new();
            let mut i: usize = 0;
            while i < n
                invariant
                    *game == *old(game),
                    self.land_index < game.table.lands.len(),
                    n == game.table.lands@[self.land_index as int].dahan.len(),
                    targets.len() == i,
                    i <= n,
                    forall|j: int|
                        0 <= j < i ==> #[trigger] targets@[j] == game.table.lands@[
                            self.land_index as int
                        ].dahan@[j].health_cur,
                decreases n - i,
            {
                targets.push(game.table.lands[self.land_index as usize].dahan[i].health_cur);
                i = i + 1;
            }
            let layout = allocate_efficent_damage(self.damage, targets);
            proof {
                assert(layout_fits_dahan(
                    layout@,
                    game.table.lands@[self.land_index as int].dahan@,
                    self.damage,
                ));
            }
            damage_dahan_with_layout(game, self.land_index, self.damage, &layout, fuel)
        } else {
            let c = game.consume_choice()?;
            let layout = match c {
                DecisionChoice::Damage(res) => res,
                _ => {
                    return Err(StepFailure::DecisionMismatch);
                },
            };
            damage_dahan_with_layout(game, self.land_index, self.damage, &layout, fuel)
        }
    }
}

/// Whether the queue's front is a damage allocation that the dahan of
/// the land can absorb; what follows it is for later decisions and does
/// not matter here, since nothing nested below consumes.
pub open spec fn dahan_damage_choice_ok(pre: GameState, land_index: u8, damage: u16) -> bool {
    &&& pre.choices@.len() >= 1
    &&& pre.choices@[0] matches DecisionChoice::Damage(layout) && {
        &&& land_index < pre.table.lands.len()
        &&& layout_fits_dahan(layout@, pre.table.lands@[land_index as int].dahan@, damage)
    }
}

/// Whether the queue's front is a damage allocation that the invaders of
/// the land can absorb; what follows it is for later decisions and does
/// not matter here, since nothing nested below consumes.
pub open spec fn invader_damage_choice_ok(pre: GameState, land_index: u8, damage: u16) -> bool {
    &&& pre.choices@.len() >= 1
    &&& pre.choices@[0] matches DecisionChoice::Damage(layout) && {
        &&& land_index < pre.table.lands.len()
        &&& layout_fits_invaders(layout@, pre.table.lands@[land_index as int].invaders@, damage)
    }
}

impl DoDamageToInvadersDecision {
    /// Decision well-formedness, shown here as a contract: a queue holding
    /// one allocation the invaders can absorb is never rejected.
    pub fn apply_effect(&self, game: &mut GameState, fuel: u32) -> (r: Result<(), StepFailure>)
        requires
            fuel >= 1,
        ensures
            effect_frame(*old(game), *final(game), r),
            invader_damage_choice_ok(*old(game), self.land_index, self.damage)
                ==> no_choice_rejection(r),
            (r is Ok && self.land_index < old(game).table.lands.len() && old(game).table.lands@[
                self.land_index as int
            ].invaders.len() > 0 && old(game).choices@.len() >= 1) ==> (old(game).choices@[0]
                matches DecisionChoice::Damage(layout) ==> final(game).table.lands@[
                self.land_index as int
            ].invaders@.len() == old(game).table.lands@[self.land_index as int].invaders.len()
                - zeroed_invaders(
                layout@,
                old(game).table.lands@[self.land_index as int].invaders@,
            ) && layout_fits_invaders(
                layout@,
                old(game).table.lands@[self.land_index as int].invaders@,
                self.damage,
            )),
        decreases fuel, 1int,
    {
        let land = game.get_land(self.land_index)?;
        if land.invaders.len() == 0 {
            return Ok(());
        }
        let c = game.consume_choice()?;
        let layout = match c {
            DecisionChoice::Damage(res) => res,
            _ => {
                return Err(StepFailure::DecisionMismatch);
            },
        };
        damage_invaders_with_layout(game, self.land_index, self.damage, &layout, fuel)
    }
}

impl DestroyInvadersDecision {
    pub fn apply_effect(&self, game: &mut GameState, fuel: u32) -> (r: Result<(), StepFailure>)
        requires
            fuel >= 1,
        ensures
            effect_frame(*old(game), *final(game), r),
        decreases fuel, 1int,
    {
        let land = game.get_land(self.land_index)?;
        let mut matching: usize = 0;
        let mut i: usize = 0;
        while i < game.table.lands[self.land_index as usize].invaders.len()
            invariant
                *game == *old(game),
                self.land_index < game.table.lands.len(),
                i <= game.table.lands@[self.land_index as int].invaders.len(),
                matching <= i,
            decreases game.table.lands@[self.land_index as int].invaders.len() - i,
        {
            if self.kinds.get(game.table.lands[self.land_index as usize].invaders[i].kind) {
                matching = matching + 1;
            }
            i = i + 1;
        }
        if matching == 0 {
            return Ok(());
        }
        let c = game.consume_choice()?;
        let sequence = match c {
            DecisionChoice::PieceSequence(res) => res,
            _ => {
                return Err(StepFailure::DecisionMismatch);
            },
        };
        let mut destroyed: Vec<usize> = Vec::new();
        let mut s: usize = 0;
        while s < sequence.len()
            invariant
                s <= sequence.len(),
                destroyed.len() == s,
                game.step == old(game).step,
                game.desc == old(game).desc,
                game.effect_stack@ == old(game).effect_stack@,
                game.choices@.len() <= old(game).choices@.len(),
            decreases sequence.len() - s,
        {
            let entry = sequence[s];
            let ik = match entry.1 {
                PieceKind::Invader(ik) => ik,
                _ => {
                    return Err(StepFailure::InternalError("can only destroy invaders"));
                },
            };
            if !self.kinds.get(ik) {
                return Err(StepFailure::InternalError("invader kind is not allowed by effect"));
            }
            let land = game.get_land(self.land_index)?;
            if entry.2 >= land.invaders.len() {
                return Err(StepFailure::InternalError("invader index out of range"));
            }
            if land.invaders[entry.2].kind != ik {
                return Err(StepFailure::InternalError("mismatched index and piece kind"));
            }
            destroyed.push(entry.2);
            s = s + 1;
        }
        let mut k: usize = destroyed.len();
        while k > 0
            invariant
                fuel >= 1,
                k <= destroyed.len(),
                game.step == old(game).step,
                game.desc == old(game).desc,
                game.effect_stack@ == old(game).effect_stack@,
                game.choices@.len() <= old(game).choices@.len(),
            decreases k,
        {
            k = k - 1;
            game.do_effect(
                Effect::RemoveInvaderEffect(
                    RemoveInvaderEffect {
                        land_index: self.land_index,
                        invader_index: destroyed[k],
                        destroyed: true,
                    },
                ),
                fuel - 1,
            )?;
        }
        Ok(())
    }
}

impl CardPlaysDecision {
    pub fn apply_effect(&self, game: &mut GameState, fuel: u32) -> (r: Result<(), StepFailure>)
        requires
            fuel >= 1,
        ensures
            effect_frame(*old(game), *final(game), r),
        decreases fuel, 1int,
    {
        let c = game.consume_choice()?;
        let choice = match c {
            DecisionChoice::Sequence(res) => res,
            _ => {
                return Err(StepFailure::DecisionMismatch);
            },
        };
        let hand_size = game.get_spirit(self.spirit_index)?.deck.hand.len();
        let mut i: usize = 0;
        while i < choice.len()
            invariant
                game.step == old(game).step,
                game.desc == old(game).desc,
                game.effect_stack@ == old(game).effect_stack@,
                game.choices@.len() <= old(game).choices@.len(),
                self.spirit_index < game.spirits.len(),
                hand_size == game.spirits@[self.spirit_index as int].deck.hand.len(),
                i <= choice.len(),
                forall|j: int| 0 <= j < i ==> #[trigger] choice@[j] < hand_size,
            decreases choice.len() - i,
        {
            if choice[i] >= hand_size {
                return Err(StepFailure::InternalError("choice out of range"));
            }
            i = i + 1;
        }
        if has_duplicate_usize(&choice) {
            return Err(StepFailure::InternalError("duplicate play choices!"));
        }
        let mut cost: u32 = 0;
        let mut i: usize = 0;
        while i < choice.len()
            invariant
                game.step == old(game).step,
                game.desc == old(game).desc,
                game.effect_stack@ == old(game).effect_stack@,
                game.choices@.len() <= old(game).choices@.len(),
                i <= choice.len(),
                self.spirit_index < game.spirits.len(),
                hand_size == game.spirits@[self.spirit_index as int].deck.hand.len(),
                forall|j: int| 0 <= j < choice.len() ==> #[trigger] choice@[j] < hand_size,
            decreases choice.len() - i,
        {
            let card_cost =
                game.spirits[self.spirit_index as usize].deck.hand[choice[i]].desc.cost;
            cost = cost.saturating_add(card_cost as u32);
            i = i + 1;
        }
        let energy = game.spirits[self.spirit_index as usize].energy;
        if cost > energy as u32 {
            return Err(StepFailure::RulesViolation("Cannot afford the chosen card plays."));
        }
        let mut spirit = game.take_spirit(self.spirit_index)?;
        spirit.energy = energy - (cost as u8);
        let mut idx: usize = spirit.deck.hand.len();
        while idx > 0
            invariant
                game.step == old(game).step,
                game.desc == old(game).desc,
                game.effect_stack@ == old(game).effect_stack@,
                game.choices@.len() <= old(game).choices@.len(),
                self.spirit_index < game.spirits.len(),
                idx <= spirit.deck.hand.len(),
            decreases idx,
        {
            idx = idx - 1;
            if seq_contains_usize(&choice, idx) {
                let card = spirit.deck.hand.remove(idx);
                spirit.deck.pending.push(card);
            }
        }
        game.put_spirit(self.spirit_index, spirit);
        Ok(())
    }
}

impl DoCardPlayDecision {
    /// The targets the card may legally choose, per its target filter.
    pub fn get_valid_targets(
        &self,
        game: &GameState,
        card_desc: &PowerCardDescription,
    ) -> (r: Result<Vec<PowerTarget>, StepFailure>)
        ensures
            r is Err ==> r->Err_0 is InternalError,
    {
        match card_desc.target_filter {
            PowerTargetFilter::Land { range: _, src: _, dst } => {
                let mut v: Vec<PowerTarget> = Vec::new();
                if game.table.lands.len() > 255 || game.desc.table.lands.len()
                    != game.table.lands.len() {
                    return Err(StepFailure::InternalError("table is malformed"));
                }
                let mut i: usize = 0;
                while i < game.table.lands.len()
                    invariant
                        i <= game.table.lands.len(),
                        game.table.lands.len() <= 255,
                        game.desc.table.lands.len() == game.table.lands.len(),
                    decreases game.table.lands.len() - i,
                {
                    if eval_land_filter(dst, &game.table.lands[i], &game.desc.table.lands[i]) {
                        v.push(PowerTarget::Land(i as u8));
                    }
                    i = i + 1;
                }
                Ok(v)
            },
            PowerTargetFilter::Spirit(f) => {
                let mut v: Vec<PowerTarget> = Vec::new();
                if game.spirits.len() > 255 {
                    return Err(StepFailure::InternalError("too many spirits"));
                }
                let mut i: usize = 0;
                while i < game.spirits.len()
                    invariant
                        i <= game.spirits.len(),
                        game.spirits.len() <= 255,
                    decreases game.spirits.len() - i,
                {
                    if eval_spirit_filter(f, &game.spirits[i]) {
                        v.push(PowerTarget::Spirit(i as u8));
                    }
                    i = i + 1;
                }
                Ok(v)
            },
        }
    }

    pub fn apply_effect(&self, game: &mut GameState, fuel: u32) -> (r: Result<(), StepFailure>)
        requires
            fuel >= 1,
        ensures
            effect_frame(*old(game), *final(game), r),
        decreases fuel, 1int,
    {
        let spirit = game.get_spirit(self.spirit_index)?;
        if self.pending_index >= spirit.deck.pending.len() {
            return Err(StepFailure::InternalError("pending card index out of range"));
        }
        let card_desc = spirit.deck.pending[self.pending_index].desc;
        let target: PowerTarget = match card_desc.target_filter {
            PowerTargetFilter::Land { .. } => {
                let c = game.consume_choice()?;
                match c {
                    DecisionChoice::TargetLand { target_land, .. } => PowerTarget::Land(
                        target_land,
                    ),
                    _ => {
                        return Err(StepFailure::DecisionMismatch);
                    },
                }
            },
            PowerTargetFilter::Spirit(_) => {
                let c = game.consume_choice()?;
                match c {
                    DecisionChoice::TargetSpirit { target_spirit } => PowerTarget::Spirit(
                        target_spirit,
                    ),
                    _ => {
                        return Err(StepFailure::DecisionMismatch);
                    },
                }
            },
        };
        let valid = self.get_valid_targets(game, &card_desc)?;
        if !contains_power_target(&valid, target) {
            return Err(StepFailure::RulesViolation("not given a valid target"));
        }
        match (card_desc.target_filter, target) {
            (PowerTargetFilter::Land { .. }, PowerTarget::Land(_)) => {},
            (PowerTargetFilter::Spirit(_), PowerTarget::Spirit(_)) => {},
            _ => {
                return Err(StepFailure::DecisionMismatch);
            },
        }
        game.power_usages.push(
            PowerUsage { target, using_spirit_index: self.spirit_index, src_land_index: None },
        );
        let r = game.do_effect(Effect::PowerCard(card_desc), fuel - 1);
        match r {
            Ok(()) => {
                game.power_usages.pop();
                Ok(())
            },
            Err(e) => Err(e),
        }
    }
}

impl DoCardPlaysDecision {
    /// How many pending cards of this decision's speed wait across all
    /// spirits.
    pub fn pending_size(&self, game: &GameState) -> usize {
        let mut total: usize = 0;
        let mut s: usize = 0;
        while s < game.spirits.len()
            invariant
                s <= game.spirits.len(),
            decreases game.spirits.len() - s,
        {
            let mut p: usize = 0;
            while p < game.spirits[s].deck.pending.len()
                invariant
                    s < game.spirits.len(),
                    p <= game.spirits@[s as int].deck.pending.len(),
                decreases game.spirits@[s as int].deck.pending.len() - p,
            {
                if game.spirits[s].deck.pending[p].desc.speed == self.power_speed {
                    total = total.saturating_add(1);
                }
                p = p + 1;
            }
            s = s + 1;
        }
        total
    }

    pub fn apply_effect(&self, game: &mut GameState, fuel: u32) -> (r: Result<(), StepFailure>)
        requires
            fuel >= 1,
        ensures
            effect_frame(*old(game), *final(game), r),
        decreases fuel, 1int,
    {
        let pend_size = self.pending_size(game);
        if pend_size == 0 {
            return Ok(());
        }
        let c = game.consume_choice()?;
        let choice = match c {
            DecisionChoice::Sequence(res) => res,
            _ => {
                return Err(StepFailure::DecisionMismatch);
            },
        };
        let mut i: usize = 0;
        while i < choice.len()
            invariant
                game.step == old(game).step,
                game.desc == old(game).desc,
                game.effect_stack@ == old(game).effect_stack@,
                game.choices@.len() <= old(game).choices@.len(),
                i <= choice.len(),
            decreases choice.len() - i,
        {
            if choice[i] >= pend_size {
                return Err(StepFailure::InternalError("choice out of range"));
            }
            i = i + 1;
        }
        if has_duplicate_usize(&choice) {
            return Err(StepFailure::InternalError("duplicate play choices!"));
        }
        let mut i: usize = 0;
        while i < choice.len()
            invariant
                fuel >= 1,
                old(game).choices@.len() > 0,
                i <= choice.len(),
                game.step == old(game).step,
                game.desc == old(game).desc,
                game.effect_stack@ == old(game).effect_stack@,
                game.choices@.len() <= old(game).choices@.len(),
            decreases choice.len() - i,
        {
            game.do_effect(
                Effect::DoCardPlayDecision(
                    DoCardPlayDecision { spirit_index: 0, pending_index: choice[i] },
                ),
                fuel - 1,
            )?;
            i = i + 1;
        }
        Ok(())
    }
}

impl ChooseGrowthDecision {
    pub fn apply_effect(&self, game: &mut GameState, fuel: u32) -> (r: Result<(), StepFailure>)
        requires
            fuel >= 1,
        ensures
            effect_frame(*old(game), *final(game), r),
        decreases fuel, 1int,
    {
        let c = game.consume_choice()?;
        let choice = match c {
            DecisionChoice::Sequence(res) => res,
            _ => {
                return Err(StepFailure::DecisionMismatch);
            },
        };
        if choice.len() != self.count {
            return Err(StepFailure::InternalError("must grow exact amount of times."));
        }
        let mut i: usize = 0;
        while i < choice.len()
            invariant
                game.step == old(game).step,
                game.desc == old(game).desc,
                game.effect_stack@ == old(game).effect_stack@,
                game.choices@.len() <= old(game).choices@.len(),
                i <= choice.len(),
                forall|j: int| 0 <= j < i ==> #[trigger] choice@[j] < self.choices.len(),
            decreases choice.len() - i,
        {
            if choice[i] >= self.choices.len() {
                return Err(StepFailure::InternalError("choice out of range"));
            }
            i = i + 1;
        }
        if has_duplicate_usize(&choice) {
            return Err(StepFailure::InternalError("duplicate growth choices!"));
        }
        let mut i: usize = 0;
        while i < choice.len()
            invariant
                fuel >= 1,
                old(game).choices@.len() > 0,
                i <= choice.len(),
                forall|j: int| 0 <= j < choice.len() ==> #[trigger] choice@[j] < self.choices.len(),
                game.step == old(game).step,
                game.desc == old(game).desc,
                game.effect_stack@ == old(game).effect_stack@,
                game.choices@.len() <= old(game).choices@.len(),
            decreases choice.len() - i,
        {
            run_growth_choice(game, &self.choices[choice[i]], self.spirit_index, fuel)?;
            i = i + 1;
        }
        Ok(())
    }
}

impl GainMinorPowerCardDecision {
    /// Minor power drafting is not written yet; the decision resolves as
    /// a placeholder and consumes nothing, so it never rejects.
    pub fn apply_effect(&self, game: &mut GameState, fuel: u32) -> (r: Result<(), StepFailure>)
        requires
            fuel >= 1,
        ensures
            effect_frame(*old(game), *final(game), r),
            no_choice_rejection(r),
        decreases fuel, 1int,
    {
        game.do_effect(
            Effect::NotImplementedEffect(
                NotImplementedEffect { what: "MINOR POWER DRAFTING, disabled" },
            ),
            fuel - 1,
        )
    }
}

impl GainMajorPowerCardDecision {
    /// Major power drafting is not written yet; the decision resolves as
    /// a placeholder and consumes nothing, so it never rejects.
    pub fn apply_effect(&self, game: &mut GameState, fuel: u32) -> (r: Result<(), StepFailure>)
        requires
            fuel >= 1,
        ensures
            effect_frame(*old(game), *final(game), r),
            no_choice_rejection(r),
        decreases fuel, 1int,
    {
        game.do_effect(
            Effect::NotImplementedEffect(
                NotImplementedEffect { what: "MAJOR POWER DRAFTING, no sacrifice, no major powers" },
            ),
            fuel - 1,
        )
    }
}

/// Whether the queue's front is one of the two offered picks; what
/// follows it does not matter here, since neither drafting placeholder
/// consumes.
pub open spec fn gain_power_choice_ok(pre: GameState) -> bool {
    &&& pre.choices@.len() >= 1
    &&& pre.choices@[0] matches DecisionChoice::Choice(c) && c < 2
}

impl GainPowerCardDecision {
    /// Decision well-formedness, shown here as a contract: a queue holding
    /// one of the two offered picks is never rejected.
    pub fn apply_effect(&self, game: &mut GameState, fuel: u32) -> (r: Result<(), StepFailure>)
        requires
            fuel >= 1,
        ensures
            effect_frame(*old(game), *final(game), r),
            gain_power_choice_ok(*old(game)) ==> no_choice_rejection(r),
        decreases fuel, 1int,
    {
        let c = game.consume_choice()?;
        let choice = match c {
            DecisionChoice::Choice(res) => res,
            _ => {
                return Err(StepFailure::DecisionMismatch);
            },
        };
        if choice == 0 {
            game.do_effect(
                Effect::GainMinorPowerCardDecision(
                    GainMinorPowerCardDecision { spirit_index: self.spirit_index, draw_count: 4 },
                ),
                fuel - 1,
            )?;
        } else if choice == 1 {
            game.do_effect(
                Effect::GainMajorPowerCardDecision(
                    GainMajorPowerCardDecision { spirit_index: self.spirit_index, draw_count: 4 },
                ),
                fuel - 1,
            )?;
        } else {
            return Err(StepFailure::InternalError("choice out of range"));
        }
        Ok(())
    }
}

impl AddPresenceDecision {
    /// The placement itself is unwritten content: a successful add
    /// consumes the placement choice and changes nothing else.
    pub fn apply_effect(&self, game: &mut GameState, fuel: u32) -> (r: Result<(), StepFailure>)
        requires
            fuel >= 1,
        ensures
            effect_frame(*old(game), *final(game), r),
            r is Ok ==> *final(game) == (GameState {
                choices: final(game).choices,
                choice_count: final(game).choice_count,
                ..*old(game)
            }),
        decreases fuel, 1int,
    {
        let c = game.consume_choice()?;
        match c {
            DecisionChoice::PlacePresence { .. } => Ok(()),
            _ => Err(StepFailure::DecisionMismatch),
        }
    }
}

impl ChooseEffectDecision {
    pub fn apply_effect(&self, game: &mut GameState, fuel: u32) -> (r: Result<(), StepFailure>)
        requires
            fuel >= 1,
        ensures
            effect_frame(*old(game), *final(game), r),
        decreases fuel, 1int,
    {
        let c = game.consume_choice()?;
        let choice = match c {
            DecisionChoice::Choice(res) => res,
            _ => {
                return Err(StepFailure::DecisionMismatch);
            },
        };
        if choice >= self.choices.len() {
            return Err(StepFailure::InternalError("choice out of range"));
        }
        run_sub_effect(game, &self.choices[choice], fuel)
    }
}

impl PushDecision {
    /// The move itself is unwritten content: a successful push validates
    /// the chosen sequence and consumes it, changing nothing else.
    pub fn apply_effect(&self, game: &mut GameState, fuel: u32) -> (r: Result<(), StepFailure>)
        requires
            fuel >= 1,
        ensures
            effect_frame(*old(game), *final(game), r),
            r is Ok ==> *final(game) == (GameState {
                choices: final(game).choices,
                choice_count: final(game).choice_count,
                ..*old(game)
            }),
        decreases fuel, 1int,
    {
        if (self.land_index as usize) >= game.table.lands.len() {
            return Err(StepFailure::InternalError("land index out of range"));
        }
        let mut total_source_count: usize = 0;
        let mut k: usize = 0;
        while k < self.kinds.len()
            invariant
                *game == *old(game),
                self.land_index < game.table.lands.len(),
                k <= self.kinds.len(),
            decreases self.kinds.len() - k,
        {
            let c = game.table.lands[self.land_index as usize].get_count(&self.kinds[k]);
            total_source_count = total_source_count.saturating_add(c);
            k = k + 1;
        }
        if total_source_count == 0 {
            return Ok(());
        }
        let c = game.consume_choice()?;
        let sequence = match c {
            DecisionChoice::PieceSequence(res) => res,
            _ => {
                return Err(StepFailure::DecisionMismatch);
            },
        };
        if sequence.len() > total_source_count {
            return Err(
                StepFailure::InternalError("attempting to push more pieces than valid sources."),
            );
        }
        let need = if total_source_count < self.count as usize {
            total_source_count
        } else {
            self.count as usize
        };
        if !self.may && sequence.len() != need {
            return Err(StepFailure::RulesViolation("Must push all valid sources."));
        }
        if has_duplicate_piece(&sequence) {
            return Err(StepFailure::InternalError("duplicate push sources!"));
        }
        let src_desc = game.get_land_desc(self.land_index)?;
        let mut i: usize = 0;
        while i < sequence.len()
            invariant
                old(game).choices@.len() > 0,
                i <= sequence.len(),
                self.land_index < game.table.lands.len(),
                game.step == old(game).step,
                game.desc == old(game).desc,
                game.effect_stack@ == old(game).effect_stack@,
                game.choices@.len() <= old(game).choices@.len(),
            decreases sequence.len() - i,
        {
            let entry = sequence[i];
            if !contains_u8(&src_desc.adjacent, entry.0) {
                return Err(StepFailure::RulesViolation("Can only push to adjacent lands."));
            }
            if entry.2 < game.table.lands[self.land_index as usize].get_count(&entry.1) {
                return Err(StepFailure::InternalError("push source index out of bounds."));
            }
            i = i + 1;
        }
        Ok(())
    }
}

impl GatherDecision {
    /// The move itself is unwritten content: a successful gather validates
    /// the chosen sequence and consumes it, changing nothing else.
    pub fn apply_effect(&self, game: &mut GameState, fuel: u32) -> (r: Result<(), StepFailure>)
        requires
            fuel >= 1,
        ensures
            effect_frame(*old(game), *final(game), r),
            r is Ok ==> *final(game) == (GameState {
                choices: final(game).choices,
                choice_count: final(game).choice_count,
                ..*old(game)
            }),
        decreases fuel, 1int,
    {
        let adj = game.get_adjacent_land_indexes(self.land_index)?;
        let mut total_target_count: usize = 0;
        let mut a: usize = 0;
        while a < adj.len()
            invariant
                *game == *old(game),
                a <= adj.len(),
            decreases adj.len() - a,
        {
            let li = adj[a];
            if (li as usize) >= game.table.lands.len() {
                return Err(StepFailure::InternalError("adjacent land index out of range"));
            }
            let mut k: usize = 0;
            while k < self.kinds.len()
                invariant
                    *game == *old(game),
                    (li as usize) < game.table.lands.len(),
                    k <= self.kinds.len(),
                decreases self.kinds.len() - k,
            {
                let c = game.table.lands[li as usize].get_count(&self.kinds[k]);
                total_target_count = total_target_count.saturating_add(c);
                k = k + 1;
            }
            a = a + 1;
        }
        if total_target_count == 0 {
            return Ok(());
        }
        let c = game.consume_choice()?;
        let sequence = match c {
            DecisionChoice::PieceSequence(res) => res,
            _ => {
                return Err(StepFailure::DecisionMismatch);
            },
        };
        if sequence.len() > total_target_count {
            return Err(
                StepFailure::InternalError("attempting to gather more pieces than valid sources."),
            );
        }
        let need = if total_target_count < self.count as usize {
            total_target_count
        } else {
            self.count as usize
        };
        if !self.may && sequence.len() != need {
            return Err(StepFailure::RulesViolation("Must gather all valid targets."));
        }
        if has_duplicate_piece(&sequence) {
            return Err(StepFailure::InternalError("duplicate gather targets!"));
        }
        let dst_desc = game.get_land_desc(self.land_index)?;
        let mut i: usize = 0;
        while i < sequence.len()
            invariant
                old(game).choices@.len() > 0,
                i <= sequence.len(),
                game.step == old(game).step,
                game.desc == old(game).desc,
                game.effect_stack@ == old(game).effect_stack@,
                game.choices@.len() <= old(game).choices@.len(),
            decreases sequence.len() - i,
        {
            let entry = sequence[i];
            if !contains_u8(&dst_desc.adjacent, entry.0) {
                return Err(StepFailure::RulesViolation("Can only gather from adjacent lands."));
            }
            if (entry.0 as usize) >= game.table.lands.len() {
                return Err(StepFailure::InternalError("gather source land out of range"));
            }
            if entry.2 < game.table.lands[entry.0 as usize].get_count(&entry.1) {
                return Err(StepFailure::InternalError("gather target index out of bounds."));
            }
            i = i + 1;
        }
        Ok(())
    }
}

/// Resolves a power card's behaviour against the power usage its play
/// put on the stack.
pub fn apply_power_effect(
    game: &mut GameState,
    desc: &PowerCardDescription,
    fuel: u32,
) -> (r: Result<(), StepFailure>)
    requires
        fuel >= 1,
    ensures
        effect_core(*old(game), *final(game), r),
        (old(game).choices@.len() == 0 && power_usage_matches(
            *old(game),
            Effect::PowerCard(*desc),
        )) ==> no_choice_rejection(r),
    decreases fuel, 0int,
{
    match desc.effect {
        PowerEffect::NotImplemented => {
            game.do_effect(
                Effect::NotImplementedEffect(NotImplementedEffect { what: desc.name }),
                fuel - 1,
            )
        },
        PowerEffect::BoonOfVigor => {
            let usage = game.get_power_usage()?;
            match usage.target {
                PowerTarget::Spirit(dst_spirit_index) => {
                    let energy: u8 = if dst_spirit_index == usage.using_spirit_index {
                        1
                    } else {
                        let spirit = game.get_spirit(dst_spirit_index)?;
                        if spirit.deck.pending.len() > 255 {
                            255
                        } else {
                            spirit.deck.pending.len() as u8
                        }
                    };
                    game.do_effect(
                        Effect::GenerateEnergyEffect(
                            GenerateEnergyEffect { spirit_index: dst_spirit_index, energy },
                        ),
                        fuel - 1,
                    )
                },
                _ => Err(StepFailure::RulesViolation("Power must target a spirit.")),
            }
        },
        PowerEffect::FlashFloods => {
            let usage = game.get_power_usage()?;
            match usage.target {
                PowerTarget::Land(land_index) => {
                    let land = game.get_land_desc(land_index)?;
                    let damage: u16 = if land.is_coastal {
                        2
                    } else {
                        1
                    };
                    game.do_effect(
                        Effect::DoDamageToInvadersDecision(
                            DoDamageToInvadersDecision { land_index, damage },
                        ),
                        fuel - 1,
                    )
                },
                _ => Err(StepFailure::RulesViolation("Power must target a land.")),
            }
        },
        PowerEffect::RiversBounty => {
            let usage = game.get_power_usage()?;
            let land_index = usage.target_land()?;
            let mut kinds: Vec<PieceKind> = Vec::new();
            kinds.push(PieceKind::Dahan);
            game.do_effect(
                Effect::GatherDecision(
                    GatherDecision { land_index, count: 2, kinds, may: true },
                ),
                fuel - 1,
            )?;
            let land = game.get_land(land_index)?;
            if land.dahan.len() >= 2 {
                game.do_effect(
                    Effect::AddDahanEffect(AddDahanEffect { land_index, count: 1 }),
                    fuel - 1,
                )?;
                game.do_effect(
                    Effect::GenerateEnergyEffect(
                        GenerateEnergyEffect {
                            spirit_index: usage.using_spirit_index,
                            energy: 1,
                        },
                    ),
                    fuel - 1,
                )?;
            }
            Ok(())
        },
        PowerEffect::WashAway => {
            let usage = game.get_power_usage()?;
            match usage.target {
                PowerTarget::Land(land_index) => {
                    let mut kinds: Vec<PieceKind> = Vec::new();
                    kinds.push(PieceKind::Invader(InvaderKind::Explorer));
                    kinds.push(PieceKind::Invader(InvaderKind::Town));
                    game.do_effect(
                        Effect::PushDecision(
                            PushDecision { land_index, count: 3, kinds, may: true },
                        ),
                        fuel - 1,
                    )
                },
                _ => Err(StepFailure::RulesViolation("Power must target a land.")),
            }
        },
        PowerEffect::HarbringersOfTheLightning => Ok(()),
        PowerEffect::LightningsBoon => Ok(()),
        PowerEffect::RagingStorm => Ok(()),
        PowerEffect::ShatterHomesteads => Ok(()),
        PowerEffect::CallToBloodshed => {
            let mut choices: Vec<SubEffect> = Vec::new();
            choices.push(SubEffect::BloodshedDamage);
            choices.push(SubEffect::BloodshedGather);
            game.do_effect(
                Effect::ChooseEffectDecision(ChooseEffectDecision { choices }),
                fuel - 1,
            )
        },
        PowerEffect::CallToMigrate => {
            let usage = game.get_power_usage()?;
            let land_index = usage.target_land()?;
            let mut gather_kinds: Vec<PieceKind> = Vec::new();
            gather_kinds.push(PieceKind::Dahan);
            game.do_effect(
                Effect::GatherDecision(
                    GatherDecision { land_index, count: 3, kinds: gather_kinds, may: true },
                ),
                fuel - 1,
            )?;
            let mut push_kinds: Vec<PieceKind> = Vec::new();
            push_kinds.push(PieceKind::Dahan);
            game.do_effect(
                Effect::PushDecision(
                    PushDecision { land_index, count: 3, kinds: push_kinds, may: true },
                ),
                fuel - 1,
            )?;
            Ok(())
        },
        PowerEffect::CallToTend => {
            let mut choices: Vec<SubEffect> = Vec::new();
            choices.push(SubEffect::TendRemoveBlight);
            choices.push(SubEffect::TendPush);
            game.do_effect(
                Effect::ChooseEffectDecision(ChooseEffectDecision { choices }),
                fuel - 1,
            )
        },
        PowerEffect::DarkAndTangledWoods => {
            let usage = game.get_power_usage()?;
            let land_index = usage.target_land()?;
            game.do_effect(
                Effect::GenerateFearEffect(
                    GenerateFearEffect { fear: 2, land_index: Some(land_index) },
                ),
                fuel - 1,
            )?;
            let land = game.get_land_desc(land_index)?;
            if land.kind == LandKind::Mountain || land.kind == LandKind::Jungle {
                game.do_effect(
                    Effect::PersistDefenseEffect(
                        PersistDefenseEffect { land_index, defense: 3 },
                    ),
                    fuel - 1,
                )?;
            }
            Ok(())
        },
        PowerEffect::DelusionsOfDanger => {
            let mut choices: Vec<SubEffect> = Vec::new();
            choices.push(SubEffect::DelusionsPushExplorer);
            choices.push(SubEffect::DelusionsFear);
            game.do_effect(
                Effect::ChooseEffectDecision(ChooseEffectDecision { choices }),
                fuel - 1,
            )
        },
        PowerEffect::DevouringAnts => {
            let usage = game.get_power_usage()?;
            let land_index = usage.target_land()?;
            game.do_effect(
                Effect::GenerateFearEffect(
                    GenerateFearEffect { fear: 1, land_index: Some(land_index) },
                ),
                fuel - 1,
            )?;
            let land = game.get_land_desc(land_index)?;
            let damage: u16 = if land.kind == LandKind::Jungle || land.kind == LandKind::Sands {
                2
            } else {
                1
            };
            game.do_effect(
                Effect::DoDamageToInvadersDecision(
                    DoDamageToInvadersDecision { land_index, damage },
                ),
                fuel - 1,
            )?;
            game.do_effect(
                Effect::NotImplementedEffect(
                    NotImplementedEffect { what: "Devouring Ants Destroy Dahan" },
                ),
                fuel - 1,
            )
        },
        PowerEffect::DriftDownIntoSlumber => {
            let usage = game.get_power_usage()?;
            let land_index = usage.target_land()?;
            let land = game.get_land_desc(land_index)?;
            let defense: u16 = if land.kind == LandKind::Jungle || land.kind == LandKind::Sands {
                4
            } else {
                1
            };
            game.do_effect(
                Effect::PersistDefenseEffect(PersistDefenseEffect { land_index, defense }),
                fuel - 1,
            )
        },
    }
}

/// Runs one atomic sub-effect.
pub fn run_sub_effect(game: &mut GameState, se: &SubEffect, fuel: u32) -> (r: Result<
    (),
    StepFailure,
>)
    requires
        fuel >= 1,
    ensures
        effect_core(*old(game), *final(game), r),
    decreases fuel, 0int,
{
    match se {
        SubEffect::NotImplemented(what) => {
            game.do_effect(
                Effect::NotImplementedEffect(NotImplementedEffect { what: *what }),
                fuel - 1,
            )
        },
        SubEffect::Victory(reason) => game.do_victory(*reason),
        SubEffect::Defeat(reason) => game.do_defeat(*reason),
        SubEffect::BloodshedDamage => {
            let usage = game.get_power_usage()?;
            let land_index = usage.target_land()?;
            let land = game.get_land(land_index)?;
            let damage: u16 = if land.dahan.len() > 65535 {
                65535
            } else {
                land.dahan.len() as u16
            };
            game.do_effect(
                Effect::DoDamageToInvadersDecision(
                    DoDamageToInvadersDecision { land_index, damage },
                ),
                fuel - 1,
            )
        },
        SubEffect::BloodshedGather => {
            let usage = game.get_power_usage()?;
            let land_index = usage.target_land()?;
            let mut kinds: Vec<PieceKind> = Vec::new();
            kinds.push(PieceKind::Dahan);
            game.do_effect(
                Effect::GatherDecision(
                    GatherDecision { land_index, count: 3, kinds, may: true },
                ),
                fuel - 1,
            )
        },
        SubEffect::TendRemoveBlight => {
            let usage = game.get_power_usage()?;
            let land_index = usage.target_land()?;
            game.do_effect(
                Effect::RemoveBlightEffect(RemoveBlightEffect { land_index, count: 1 }),
                fuel - 1,
            )
        },
        SubEffect::TendPush => {
            let usage = game.get_power_usage()?;
            let land_index = usage.target_land()?;
            let mut kinds: Vec<PieceKind> = Vec::new();
            kinds.push(PieceKind::Dahan);
            game.do_effect(
                Effect::PushDecision(PushDecision { land_index, count: 3, kinds, may: true }),
                fuel - 1,
            )
        },
        SubEffect::DelusionsPushExplorer => {
            let usage = game.get_power_usage()?;
            let land_index = usage.target_land()?;
            let mut kinds: Vec<PieceKind> = Vec::new();
            kinds.push(PieceKind::Invader(InvaderKind::Explorer));
            game.do_effect(
                Effect::PushDecision(PushDecision { land_index, count: 1, kinds, may: true }),
                fuel - 1,
            )
        },
        SubEffect::DelusionsFear => {
            let usage = game.get_power_usage()?;
            let land_index = usage.target_land()?;
            game.do_effect(
                Effect::GenerateFearEffect(
                    GenerateFearEffect { fear: 2, land_index: Some(land_index) },
                ),
                fuel - 1,
            )
        },
    }
}

/// Runs the effects one growth option grants, in order.
pub fn run_growth_choice(
    game: &mut GameState,
    growth: &GrowthChoice,
    spirit_index: u8,
    fuel: u32,
) -> (r: Result<(), StepFailure>)
    requires
        fuel >= 1,
    ensures
        effect_core(*old(game), *final(game), r),
        old(game).choices@.len() == 0 ==> no_choice_rejection(r),
    decreases fuel, 0int,
{
    let mut i: usize = 0;
    while i < growth.effects.len()
        invariant
            fuel >= 1,
            i <= growth.effects.len(),
            game.step == old(game).step,
            game.desc == old(game).desc,
            game.effect_stack@ == old(game).effect_stack@,
            game.choices@.len() <= old(game).choices@.len(),
        decreases growth.effects.len() - i,
    {
        match growth.effects[i] {
            GrowthEffect::ReclaimAll => {
                game.do_effect(
                    Effect::ReclaimAllEffect(ReclaimAllEffect { spirit_index }),
                    fuel - 1,
                )?;
            },
            GrowthEffect::GainPowerCard => {
                game.do_effect(
                    Effect::GainPowerCardDecision(GainPowerCardDecision { spirit_index }),
                    fuel - 1,
                )?;
            },
            GrowthEffect::GenerateEnergy(energy) => {
                game.do_effect(
                    Effect::GenerateEnergyEffect(GenerateEnergyEffect { spirit_index, energy }),
                    fuel - 1,
                )?;
            },
            GrowthEffect::AddPresence(distance) => {
                game.do_effect(
                    Effect::AddPresenceDecision(AddPresenceDecision { spirit_index, distance }),
                    fuel - 1,
                )?;
            },
        }
        i = i + 1;
    }
    Ok(())
}

} // verus!
