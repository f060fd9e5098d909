//! Piece kinds that occupy lands: tokens, invaders, and dahan.

use vstd::prelude::*;

verus! {

/// The kinds of token that can sit in a land.
#[derive(PartialEq, Eq, Structural, Hash, Copy, Clone, Debug)]
pub enum TokenKind {
    Blight,
    Beast,
    Wilds,
    Disease,
    Strife,
    Badlands,
}

/// A fixed-size map from `TokenKind` to a value.
#[derive(Copy, Clone)]
pub struct TokenMap<T> {
    pub items: [T; 6],
}

pub open spec fn token_index_spec(kind: TokenKind) -> int {
    match kind {
        TokenKind::Blight => 0,
        TokenKind::Beast => 1,
        TokenKind::Wilds => 2,
        TokenKind::Disease => 3,
        TokenKind::Strife => 4,
        TokenKind::Badlands => 5,
    }
}

pub fn token_index(kind: TokenKind) -> (r: usize)
    ensures
        r == token_index_spec(kind),
        r < 6,
{
    match kind {
        TokenKind::Blight => 0,
        TokenKind::Beast => 1,
        TokenKind::Wilds => 2,
        TokenKind::Disease => 3,
        TokenKind::Strife => 4,
        TokenKind::Badlands => 5,
    }
}

impl<T: Copy> TokenMap<T> {
    pub open spec fn spec_get(self, kind: TokenKind) -> T {
        self.items@[token_index_spec(kind)]
    }

    pub fn new(v: T) -> (r: TokenMap<T>)
        ensures
            forall|k: TokenKind| r.spec_get(k) == v,
    {
        TokenMap { items: [v, v, v, v, v, v] }
    }

    pub fn get(&self, kind: TokenKind) -> (r: T)
        ensures
            r == self.spec_get(kind),
    {
        self.items[token_index(kind)]
    }

    pub fn set(&mut self, kind: TokenKind, value: T)
        ensures
            final(self).spec_get(kind) == value,
            forall|k: TokenKind| k != kind ==> final(self).spec_get(k) == old(self).spec_get(k),
    {
        let i = token_index(kind);
        self.items[i] = value;
        proof {
            assert(forall|k: TokenKind| k != kind ==> token_index_spec(k) != token_index_spec(
                kind,
            ));
        }
    }

    /// Builder-style update, as used when laying out starting pieces.
    pub fn map(self, kind: TokenKind, value: T) -> (r: Self)
        ensures
            r.spec_get(kind) == value,
            forall|k: TokenKind| k != kind ==> r.spec_get(k) == self.spec_get(k),
    {
        let mut m = self;
        m.set(kind, value);
        m
    }
}

/// The kinds of invader piece.
#[derive(PartialEq, Eq, Structural, Hash, Copy, Clone, Debug)]
pub enum InvaderKind {
    Explorer,
    Town,
    City,
}

impl InvaderKind {
    pub open spec fn spec_attack(self) -> u16 {
        match self {
            InvaderKind::Explorer => 1,
            InvaderKind::Town => 2,
            InvaderKind::City => 3,
        }
    }

    pub open spec fn spec_health(self) -> u8 {
        match self {
            InvaderKind::Explorer => 1,
            InvaderKind::Town => 2,
            InvaderKind::City => 3,
        }
    }

    pub fn attack(&self) -> (r: u16)
        ensures
            r == self.spec_attack(),
    {
        match *self {
            InvaderKind::Explorer => 1,
            InvaderKind::Town => 2,
            InvaderKind::City => 3,
        }
    }

    pub fn health(&self) -> (r: u8)
        ensures
            r == self.spec_health(),
    {
        match *self {
            InvaderKind::Explorer => 1,
            InvaderKind::Town => 2,
            InvaderKind::City => 3,
        }
    }

    pub fn is_building(&self) -> (r: bool)
        ensures
            r == (self == InvaderKind::Town || self == InvaderKind::City),
    {
        match *self {
            InvaderKind::Town | InvaderKind::City => true,
            _ => false,
        }
    }
}

/// A fixed-size map from `InvaderKind` to a value.
#[derive(Copy, Clone)]
pub struct InvaderMap<T> {
    pub items: [T; 3],
}

pub open spec fn invader_index_spec(kind: InvaderKind) -> int {
    match kind {
        InvaderKind::Explorer => 0,
        InvaderKind::Town => 1,
        InvaderKind::City => 2,
    }
}

pub fn invader_index(kind: InvaderKind) -> (r: usize)
    ensures
        r == invader_index_spec(kind),
        r < 3,
{
    match kind {
        InvaderKind::Explorer => 0,
        InvaderKind::Town => 1,
        InvaderKind::City => 2,
    }
}

impl<T: Copy> InvaderMap<T> {
    pub open spec fn spec_get(self, kind: InvaderKind) -> T {
        self.items@[invader_index_spec(kind)]
    }

    pub fn new(v: T) -> (r: InvaderMap<T>)
        ensures
            forall|k: InvaderKind| r.spec_get(k) == v,
    {
        InvaderMap { items: [v, v, v] }
    }

    pub fn get(&self, kind: InvaderKind) -> (r: T)
        ensures
            r == self.spec_get(kind),
    {
        self.items[invader_index(kind)]
    }

    pub fn set(&mut self, kind: InvaderKind, value: T)
        ensures
            final(self).spec_get(kind) == value,
            forall|k: InvaderKind| k != kind ==> final(self).spec_get(k) == old(self).spec_get(k),
    {
        let i = invader_index(kind);
        self.items[i] = value;
        proof {
            assert(forall|k: InvaderKind| k != kind ==> invader_index_spec(k) != invader_index_spec(
                kind,
            ));
        }
    }

    /// Builder-style update, as used when laying out starting pieces.
    pub fn map(self, kind: InvaderKind, value: T) -> (r: Self)
        ensures
            r.spec_get(kind) == value,
            forall|k: InvaderKind| k != kind ==> r.spec_get(k) == self.spec_get(k),
    {
        let mut m = self;
        m.set(kind, value);
        m
    }
}

/// One invader piece on the board, with its current health.
#[derive(PartialEq, Eq, Structural, Copy, Clone, Debug)]
pub struct Invader {
    pub kind: InvaderKind,
    pub health_max: u8,
    pub health_cur: u8,
    pub attack: u16,
}

impl Invader {
    pub fn new(kind: InvaderKind) -> (r: Invader)
        ensures
            r.kind == kind,
            r.health_max == kind.spec_health(),
            r.health_cur == kind.spec_health(),
            r.attack == kind.spec_attack(),
    {
        Invader { kind, health_max: kind.health(), health_cur: kind.health(), attack: kind.attack() }
    }

    pub fn is_building(&self) -> (r: bool)
        ensures
            r == (self.kind == InvaderKind::Town || self.kind == InvaderKind::City),
    {
        self.kind.is_building()
    }

    /// At the end of a round every invader heals back to full.
    pub fn time_passes(&mut self)
        ensures
            final(self).kind == old(self).kind,
            final(self).health_max == old(self).kind.spec_health(),
            final(self).health_cur == old(self).kind.spec_health(),
            final(self).attack == old(self).kind.spec_attack(),
    {
        self.health_max = self.kind.health();
        self.health_cur = self.health_max;
        self.attack = self.kind.attack();
    }
}

/// One dahan piece on the board, with its current health.
#[derive(PartialEq, Eq, Structural, Copy, Clone, Debug)]
pub struct Dahan {
    pub health_max: u8,
    pub health_cur: u8,
    pub attack: u16,
}

impl Dahan {
    pub fn new() -> (r: Dahan)
        ensures
            r.health_max == 2,
            r.health_cur == 2,
            r.attack == 2,
    {
        Dahan { health_max: 2, health_cur: 2, attack: 2 }
    }

    /// At the end of a round every dahan heals back to full.
    pub fn time_passes(&mut self)
        ensures
            final(self).health_max == 2,
            final(self).health_cur == 2,
            final(self).attack == 2,
    {
        self.health_max = 2;
        self.health_cur = self.health_max;
        self.attack = 2;
    }
}

/// Any piece that can be moved or counted in a land.
#[derive(PartialEq, Eq, Structural, Hash, Copy, Clone, Debug)]
pub enum PieceKind {
    Token(TokenKind),
    Invader(InvaderKind),
    Dahan,
}

} // verus!
