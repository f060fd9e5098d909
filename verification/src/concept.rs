//! Shared vocabulary of the game: action kinds, land kinds, terror levels,
//! power speeds, and the content / adversary collaborator interfaces.

use vstd::prelude::*;
use crate::board::BoardDescription;
use crate::deck::fear::FearCardDescription;
use crate::deck::power::PowerCardDescription;
use crate::effect::Effect;
use crate::spirit::SpiritDescription;

verus! {

/// What an invader action card slot does when it fires.
#[derive(PartialEq, Eq, Structural, Copy, Clone, Debug)]
pub enum InvaderActionKind {
    Ravage,
    Build,
    Explore,
}

/// The terrain of a land.
#[derive(PartialEq, Eq, Structural, Hash, Copy, Clone, Debug)]
pub enum LandKind {
    Ocean,
    Jungle,
    Mountain,
    Sands,
    Wetlands,
}

/// How far the fear deck has progressed.
#[derive(PartialEq, Eq, Structural, Hash, Copy, Clone, Debug)]
pub enum TerrorLevel {
    I,
    II,
    III,
}

/// Whether a power card resolves in the fast or the slow phase.
#[derive(PartialEq, Eq, Structural, Hash, Copy, Clone, Debug)]
pub enum PowerSpeed {
    Fast,
    Slow,
}

pub trait EventCardDescription {

}

/// An adversary, described by the data the step machine reads at its fixed
/// lifecycle points: the fear-card counts, the invader action sequence, and
/// the effects it runs during setup.  Setup effects follow the ordinary
/// effect/decision protocol, so an adversary may pose decisions of its own.
pub struct AdversaryDescription {
    pub fear_cards: (u8, u8, u8),
    pub invader_steps: Vec<InvaderActionKind>,
    pub setup: Vec<Effect>,
}

impl Clone for AdversaryDescription {
    fn clone(&self) -> (r: Self) {
        AdversaryDescription {
            fear_cards: (self.fear_cards.0, self.fear_cards.1, self.fear_cards.2),
            invader_steps: self.invader_steps.clone(),
            setup: self.setup.clone(),
        }
    }
}

/// A content pack: a closed bundle of spirits, boards, fear cards and power
/// cards that a game can be assembled from.
#[derive(Clone)]
pub enum ContentPack {
    Core(crate::content::CoreContent),
}

/// Relies on `str`'s `==` (`str::eq`): compares the character sequences.
#[verifier::external_body]
pub fn str_eq(a: &str, b: &str) -> (r: bool)
    ensures
        r == (a@ == b@),
{
    a == b
}

pub fn search_for_spirit(content: &Vec<ContentPack>, name: &str) -> Option<SpiritDescription> {
    let mut ci: usize = 0;
    while ci < content.len()
        decreases content.len() - ci,
    {
        let spirits = content[ci].get_spirits();
        let mut si: usize = 0;
        while si < spirits.len()
            invariant
                si <= spirits.len(),
            decreases spirits.len() - si,
        {
            let names = spirits[si].all_names();
            let mut ni: usize = 0;
            while ni < names.len()
                invariant
                    si < spirits.len(),
                    ni <= names.len(),
                decreases names.len() - ni,
            {
                if str_eq(names[ni], name) {
                    return Some(spirits[si].clone());
                }
                ni = ni + 1;
            }
            si = si + 1;
        }
        ci = ci + 1;
    }
    None
}

pub fn search_for_board(content: &Vec<ContentPack>, name: &str) -> Option<BoardDescription> {
    let mut ci: usize = 0;
    while ci < content.len()
        decreases content.len() - ci,
    {
        let boards = content[ci].get_boards();
        let mut bi: usize = 0;
        while bi < boards.len()
            invariant
                bi <= boards.len(),
            decreases boards.len() - bi,
        {
            if str_eq(boards[bi].name, name) {
                return Some(boards[bi].clone());
            }
            bi = bi + 1;
        }
        ci = ci + 1;
    }
    None
}

pub fn join_fear_cards(content: &Vec<ContentPack>) -> Vec<FearCardDescription> {
    let mut result: Vec<FearCardDescription> = Vec::new();
    let mut ci: usize = 0;
    while ci < content.len()
        decreases content.len() - ci,
    {
        let mut cards = content[ci].get_fear_cards();
        result.append(&mut cards);
        ci = ci + 1;
    }
    result
}

pub fn join_power_cards(content: &Vec<ContentPack>) -> Vec<PowerCardDescription> {
    let mut result: Vec<PowerCardDescription> = Vec::new();
    let mut ci: usize = 0;
    while ci < content.len()
        decreases content.len() - ci,
    {
        let mut cards = content[ci].get_power_cards();
        result.append(&mut cards);
        ci = ci + 1;
    }
    result
}

} // verus!
