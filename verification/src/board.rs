//! The island: land descriptions, boards, the assembled table, and the
//! mutable state of each land.

use vstd::prelude::*;
use crate::concept::{ContentPack, LandKind, search_for_board};
use crate::piece::{Dahan, Invader, InvaderKind, InvaderMap, PieceKind, TokenKind, TokenMap};
use crate::spirit::SpiritMap;

verus! {

/// The immutable description of one land.
pub struct LandDescription {
    pub index_on_board: u8,
    pub adjacent: Vec<u8>,
    pub kind: LandKind,
    pub is_coastal: bool,
    pub edge_range: Option<(u8, u8)>,
    pub starting_tokens: TokenMap<u8>,
    pub starting_invaders: InvaderMap<u8>,
    pub starting_dahan: u8,
    pub index_on_table: u8,
    pub parent_board_index: u8,
}

/// Copies a list of land indexes.
pub fn clone_indexes(v: &Vec<u8>) -> (r: Vec<u8>)
    ensures
        r@ == v@,
{
    let mut r: Vec<u8> = Vec::new();
    let mut i: usize = 0;
    while i < v.len()
        invariant
            0 <= i <= v.len(),
            r@ == v@.subrange(0, i as int),
        decreases v.len() - i,
    {
        r.push(v[i]);
        proof {
            assert(r@ =~= v@.subrange(0, i + 1));
        }
        i = i + 1;
    }
    proof {
        assert(v@.subrange(0, v.len() as int) =~= v@);
    }
    r
}

impl Clone for LandDescription {
    /// A copy that is equal to the original, field for field.
    fn clone(&self) -> (r: Self)
        ensures
            r.index_on_board == self.index_on_board,
            r.adjacent@ == self.adjacent@,
            r.kind == self.kind,
            r.is_coastal == self.is_coastal,
            r.edge_range == self.edge_range,
            r.starting_tokens == self.starting_tokens,
            r.starting_invaders == self.starting_invaders,
            r.starting_dahan == self.starting_dahan,
            r.index_on_table == self.index_on_table,
            r.parent_board_index == self.parent_board_index,
    {
        LandDescription {
            index_on_board: self.index_on_board,
            adjacent: clone_indexes(&self.adjacent),
            kind: self.kind,
            is_coastal: self.is_coastal,
            edge_range: self.edge_range,
            starting_tokens: self.starting_tokens,
            starting_invaders: self.starting_invaders,
            starting_dahan: self.starting_dahan,
            index_on_table: self.index_on_table,
            parent_board_index: self.parent_board_index,
        }
    }
}

/// One physical board: a named set of lands.
#[derive(Clone)]
pub struct BoardDescription {
    pub name: &'static str,
    pub lands: Vec<LandDescription>,
}

/// The table: every board in play, with the lands renumbered consecutively.
#[derive(Clone)]
pub struct TableDescription {
    pub boards: Vec<BoardDescription>,
    pub lands: Vec<LandDescription>,
    pub land_count: u8,
}

impl TableDescription {
    /// Lands are numbered consecutively by their position on the table.
    pub open spec fn well_formed(self) -> bool {
        &&& self.lands.len() == self.land_count
        &&& forall|i: int|
            0 <= i < self.lands.len() ==> #[trigger] self.lands@[i].index_on_table == i
    }

    pub fn get_land(&self, index: u8) -> (r: Option<&LandDescription>)
        ensures
            (index < self.lands.len()) == (r is Some),
            r is Some ==> r->0 == &self.lands@[index as int],
    {
        if (index as usize) < self.lands.len() {
            Some(&self.lands[index as usize])
        } else {
            None
        }
    }

    /// All lands adjacent to the given one, in table order: exactly the
    /// lands whose adjacency list names the index, each copied field for
    /// field.
    pub fn get_adjacent_lands(&self, adjacent_to_index: u8) -> (r: Vec<LandDescription>)
        ensures
            forall|i: int|
                0 <= i < r.len() ==> #[trigger] r@[i].adjacent@.contains(adjacent_to_index),
            forall|i: int|
                0 <= i < r.len() && (#[trigger] r@[i]).adjacent@.contains(adjacent_to_index)
                    ==> exists|l: int|
                    0 <= l < self.lands.len() && #[trigger] land_fields_match(
                        r@[i],
                        self.lands@[l],
                    ),
            forall|l: int|
                0 <= l < self.lands.len() && (#[trigger] self.lands@[l]).adjacent@.contains(
                    adjacent_to_index,
                ) ==> exists|i: int|
                    0 <= i < r.len() && #[trigger] land_fields_match(r@[i], self.lands@[l]),
    {
        let mut r: Vec<LandDescription> = Vec::new();
        let mut i: usize = 0;
        while i < self.lands.len()
            invariant
                0 <= i <= self.lands.len(),
                forall|j: int|
                    0 <= j < r.len() ==> #[trigger] r@[j].adjacent@.contains(adjacent_to_index),
                forall|j: int|
                    0 <= j < r.len() && (#[trigger] r@[j]).adjacent@.contains(adjacent_to_index)
                        ==> exists|l: int|
                        0 <= l < self.lands.len() && #[trigger] land_fields_match(
                            r@[j],
                            self.lands@[l],
                        ),
                forall|l: int|
                    0 <= l < i && (#[trigger] self.lands@[l]).adjacent@.contains(adjacent_to_index)
                        ==> exists|j: int|
                        0 <= j < r.len() && #[trigger] land_fields_match(r@[j], self.lands@[l]),
            decreases self.lands.len() - i,
        {
            let ghost r_before = r@;
            let listed = contains_u8(&self.lands[i].adjacent, adjacent_to_index);
            if listed {
                r.push(self.lands[i].clone());
            }
            proof {
                if listed {
                    assert(land_fields_match(r@[r@.len() - 1], self.lands@[i as int]));
                }
                assert forall|j: int|
                    0 <= j < r@.len() && (#[trigger] r@[j]).adjacent@.contains(
                        adjacent_to_index,
                    ) implies exists|l: int|
                    0 <= l < self.lands.len() && #[trigger] land_fields_match(
                        r@[j],
                        self.lands@[l],
                    ) by {
                    if j < r_before.len() {
                        let l0 = choose|l: int|
                            0 <= l < self.lands.len() && #[trigger] land_fields_match(
                                r_before[j],
                                self.lands@[l],
                            );
                        assert(land_fields_match(r@[j], self.lands@[l0]));
                    } else {
                        assert(land_fields_match(r@[j], self.lands@[i as int]));
                    }
                }
                assert forall|l: int|
                    0 <= l < i + 1 && (#[trigger] self.lands@[l]).adjacent@.contains(
                        adjacent_to_index,
                    ) implies exists|j: int|
                    0 <= j < r@.len() && #[trigger] land_fields_match(r@[j], self.lands@[l]) by {
                    if l < i {
                        let j0 = choose|j: int|
                            0 <= j < r_before.len() && #[trigger] land_fields_match(
                                r_before[j],
                                self.lands@[l],
                            );
                        assert(land_fields_match(r@[j0], self.lands@[l]));
                    } else {
                        assert(land_fields_match(r@[r@.len() - 1], self.lands@[l]));
                    }
                }
            }
            i = i + 1;
        }
        r
    }
}

/// Two land descriptions equal field for field; lets a copied land stand
/// in for the original in contracts, where the copy's list fields carry
/// the same view without being the same value to the verifier.
pub open spec fn land_fields_match(a: LandDescription, b: LandDescription) -> bool {
    &&& a.index_on_board == b.index_on_board
    &&& a.adjacent@ == b.adjacent@
    &&& a.kind == b.kind
    &&& a.is_coastal == b.is_coastal
    &&& a.edge_range == b.edge_range
    &&& a.starting_tokens == b.starting_tokens
    &&& a.starting_invaders == b.starting_invaders
    &&& a.starting_dahan == b.starting_dahan
    &&& a.index_on_table == b.index_on_table
    &&& a.parent_board_index == b.parent_board_index
}

/// Whether a list of land indexes holds the given index.
pub fn contains_u8(v: &Vec<u8>, x: u8) -> (r: bool)
    ensures
        r == v@.contains(x),
{
    let mut i: usize = 0;
    while i < v.len()
        invariant
            0 <= i <= v.len(),
            forall|j: int| 0 <= j < i ==> v@[j] != x,
        decreases v.len() - i,
    {
        if v[i] == x {
            return true;
        }
        i = i + 1;
    }
    false
}

/// How many invaders of the given kind stand in a sequence of invaders.
pub open spec fn invader_count_spec(s: Seq<Invader>, k: InvaderKind) -> int
    decreases s.len(),
{
    if s.len() == 0 {
        0
    } else {
        invader_count_spec(s.drop_last(), k) + if s.last().kind == k {
            1int
        } else {
            0int
        }
    }
}

pub proof fn lemma_invader_count_bound(s: Seq<Invader>, k: InvaderKind)
    ensures
        0 <= invader_count_spec(s, k) <= s.len(),
    decreases s.len(),
{
    if s.len() > 0 {
        lemma_invader_count_bound(s.drop_last(), k);
    }
}

/// The mutable state of one land.
#[derive(Clone)]
pub struct LandState {
    pub is_in_play: bool,
    pub tokens: TokenMap<u8>,
    pub presence: SpiritMap<u8>,
    pub invaders: Vec<Invader>,
    pub dahan: Vec<Dahan>,
    pub defense: u16,
    pub fear_generated_here_this_round: u8,
}

impl LandState {
    /// At the end of a round the pieces heal and round-scoped state resets.
    pub fn time_passes(&mut self)
        ensures
            final(self).is_in_play == old(self).is_in_play,
            final(self).tokens == old(self).tokens,
            final(self).presence == old(self).presence,
            final(self).invaders.len() == old(self).invaders.len(),
            forall|i: int|
                0 <= i < old(self).invaders.len() ==> #[trigger] final(self).invaders@[i]
                    == (Invader {
                    kind: old(self).invaders@[i].kind,
                    health_max: old(self).invaders@[i].kind.spec_health(),
                    health_cur: old(self).invaders@[i].kind.spec_health(),
                    attack: old(self).invaders@[i].kind.spec_attack(),
                }),
            final(self).dahan.len() == old(self).dahan.len(),
            forall|i: int|
                0 <= i < old(self).dahan.len() ==> #[trigger] final(self).dahan@[i] == (Dahan {
                    health_max: 2,
                    health_cur: 2,
                    attack: 2,
                }),
            final(self).defense == 0,
            final(self).fear_generated_here_this_round == 0,
    {
        let mut i: usize = 0;
        while i < self.invaders.len()
            invariant
                self.is_in_play == old(self).is_in_play,
                self.tokens == old(self).tokens,
                self.presence == old(self).presence,
                self.dahan == old(self).dahan,
                self.invaders.len() == old(self).invaders.len(),
                i <= self.invaders.len(),
                forall|j: int|
                    0 <= j < old(self).invaders.len() ==> #[trigger] self.invaders@[j].kind == old(
                        self,
                    ).invaders@[j].kind,
                forall|j: int|
                    0 <= j < i ==> #[trigger] self.invaders@[j] == (Invader {
                        kind: old(self).invaders@[j].kind,
                        health_max: old(self).invaders@[j].kind.spec_health(),
                        health_cur: old(self).invaders@[j].kind.spec_health(),
                        attack: old(self).invaders@[j].kind.spec_attack(),
                    }),
            decreases self.invaders.len() - i,
        {
            let mut inv = self.invaders[i];
            inv.time_passes();
            self.invaders.set(i, inv);
            i = i + 1;
        }
        let mut d: usize = 0;
        while d < self.dahan.len()
            invariant
                self.is_in_play == old(self).is_in_play,
                self.tokens == old(self).tokens,
                self.presence == old(self).presence,
                self.dahan.len() == old(self).dahan.len(),
                d <= self.dahan.len(),
                self.invaders.len() == old(self).invaders.len(),
                forall|j: int|
                    0 <= j < old(self).invaders.len() ==> #[trigger] self.invaders@[j] == (Invader {
                        kind: old(self).invaders@[j].kind,
                        health_max: old(self).invaders@[j].kind.spec_health(),
                        health_cur: old(self).invaders@[j].kind.spec_health(),
                        attack: old(self).invaders@[j].kind.spec_attack(),
                    }),
                forall|j: int|
                    0 <= j < d ==> #[trigger] self.dahan@[j] == (Dahan {
                        health_max: 2,
                        health_cur: 2,
                        attack: 2,
                    }),
            decreases self.dahan.len() - d,
        {
            let mut da = self.dahan[d];
            da.time_passes();
            self.dahan.set(d, da);
            d = d + 1;
        }
        self.defense = 0;
        self.fear_generated_here_this_round = 0;
    }

    /// How many pieces of the given kind stand in this land.
    pub open spec fn spec_count(self, pk: PieceKind) -> int {
        match pk {
            PieceKind::Token(tok) => self.tokens.spec_get(tok) as int,
            PieceKind::Invader(k) => invader_count_spec(self.invaders@, k),
            PieceKind::Dahan => self.dahan.len() as int,
        }
    }

    pub fn get_count(&self, pk: &PieceKind) -> (r: usize)
        ensures
            r == self.spec_count(*pk),
    {
        match pk {
            PieceKind::Token(tok_kind) => self.tokens.get(*tok_kind) as usize,
            PieceKind::Invader(inv_kind) => {
                let mut count: usize = 0;
                let mut i: usize = 0;
                proof {
                    lemma_invader_count_bound(self.invaders@, *inv_kind);
                }
                while i < self.invaders.len()
                    invariant
                        0 <= i <= self.invaders.len(),
                        count == invader_count_spec(
                            self.invaders@.subrange(0, i as int),
                            *inv_kind,
                        ),
                        count <= i,
                    decreases self.invaders.len() - i,
                {
                    proof {
                        assert(self.invaders@.subrange(0, i + 1).drop_last() =~= self.invaders@
                            .subrange(0, i as int));
                        assert(self.invaders@.subrange(0, i + 1).last() == self.invaders@[i as int]);
                    }
                    if self.invaders[i].kind == *inv_kind {
                        count = count + 1;
                    }
                    i = i + 1;
                }
                proof {
                    assert(self.invaders@.subrange(0, self.invaders.len() as int) =~= self
                        .invaders@);
                }
                count
            },
            PieceKind::Dahan => self.dahan.len(),
        }
    }
}

/// The mutable state of the whole table.
#[derive(Clone)]
pub struct TableState {
    pub lands: Vec<LandState>,
}

impl TableState {
    /// Builds the starting state that the table description lays out:
    /// every land holds its printed tokens, invaders and dahan at full
    /// health, no presence, and no round-scoped state; only the first
    /// land of each board (the ocean slot) starts out of play.
    pub fn new(desc: &TableDescription) -> (r: TableState)
        ensures
            r.lands.len() == desc.lands.len(),
            forall|i: int|
                0 <= i < desc.lands.len() ==> ({
                    let d = desc.lands@[i];
                    let l = #[trigger] r.lands@[i];
                    &&& l.is_in_play == (d.index_on_board != 0)
                    &&& l.tokens == d.starting_tokens
                    &&& l.defense == 0
                    &&& l.fear_generated_here_this_round == 0
                    &&& (forall|p: int| 0 <= p < 6 ==> l.presence.spec_get(p) == 0)
                    &&& l.dahan@.len() == d.starting_dahan
                    &&& (forall|k: int|
                        0 <= k < l.dahan@.len() ==> l.dahan@[k] == (Dahan {
                            health_max: 2,
                            health_cur: 2,
                            attack: 2,
                        }))
                    &&& l.invaders@.len() == d.starting_invaders.spec_get(InvaderKind::Explorer)
                        + d.starting_invaders.spec_get(InvaderKind::Town)
                        + d.starting_invaders.spec_get(InvaderKind::City)
                    &&& (forall|k: int|
                        0 <= k < l.invaders@.len() ==> (#[trigger] l.invaders@[k]) == (Invader {
                            kind: l.invaders@[k].kind,
                            health_max: l.invaders@[k].kind.spec_health(),
                            health_cur: l.invaders@[k].kind.spec_health(),
                            attack: l.invaders@[k].kind.spec_attack(),
                        }))
                    &&& (forall|k: int|
                        0 <= k < d.starting_invaders.spec_get(InvaderKind::Explorer) ==> (
                        #[trigger] l.invaders@[k]).kind == InvaderKind::Explorer)
                    &&& (forall|k: int|
                        d.starting_invaders.spec_get(InvaderKind::Explorer) <= k
                            < d.starting_invaders.spec_get(InvaderKind::Explorer)
                            + d.starting_invaders.spec_get(InvaderKind::Town) ==> (
                        #[trigger] l.invaders@[k]).kind == InvaderKind::Town)
                    &&& (forall|k: int|
                        d.starting_invaders.spec_get(InvaderKind::Explorer)
                            + d.starting_invaders.spec_get(InvaderKind::Town) <= k
                            < l.invaders@.len() ==> (#[trigger] l.invaders@[k]).kind
                            == InvaderKind::City)
                }),
    {
        let mut lands: Vec<LandState> = Vec::new();
        let mut i: usize = 0;
        while i < desc.lands.len()
            invariant
                lands.len() == i,
                0 <= i <= desc.lands.len(),
                forall|j: int|
                    0 <= j < i ==> ({
                        let d = desc.lands@[j];
                        let l = #[trigger] lands@[j];
                        &&& l.is_in_play == (d.index_on_board != 0)
                        &&& l.tokens == d.starting_tokens
                        &&& l.defense == 0
                        &&& l.fear_generated_here_this_round == 0
                        &&& (forall|p: int| 0 <= p < 6 ==> l.presence.spec_get(p) == 0)
                        &&& l.dahan@.len() == d.starting_dahan
                        &&& (forall|k: int|
                            0 <= k < l.dahan@.len() ==> l.dahan@[k] == (Dahan {
                                health_max: 2,
                                health_cur: 2,
                                attack: 2,
                            }))
                        &&& l.invaders@.len() == d.starting_invaders.spec_get(
                            InvaderKind::Explorer,
                        ) + d.starting_invaders.spec_get(InvaderKind::Town)
                            + d.starting_invaders.spec_get(InvaderKind::City)
                        &&& (forall|k: int|
                            0 <= k < l.invaders@.len() ==> (#[trigger] l.invaders@[k])
                                == (Invader {
                                kind: l.invaders@[k].kind,
                                health_max: l.invaders@[k].kind.spec_health(),
                                health_cur: l.invaders@[k].kind.spec_health(),
                                attack: l.invaders@[k].kind.spec_attack(),
                            }))
                        &&& (forall|k: int|
                            0 <= k < d.starting_invaders.spec_get(InvaderKind::Explorer) ==> (
                            #[trigger] l.invaders@[k]).kind == InvaderKind::Explorer)
                        &&& (forall|k: int|
                            d.starting_invaders.spec_get(InvaderKind::Explorer) <= k
                                < d.starting_invaders.spec_get(InvaderKind::Explorer)
                                + d.starting_invaders.spec_get(InvaderKind::Town) ==> (
                            #[trigger] l.invaders@[k]).kind == InvaderKind::Town)
                        &&& (forall|k: int|
                            d.starting_invaders.spec_get(InvaderKind::Explorer)
                                + d.starting_invaders.spec_get(InvaderKind::Town) <= k
                                < l.invaders@.len() ==> (#[trigger] l.invaders@[k]).kind
                                == InvaderKind::City)
                    }),
            decreases desc.lands.len() - i,
        {
            let land = &desc.lands[i];
            let mut invaders: Vec<Invader> = Vec::new();
            push_invaders(&mut invaders, InvaderKind::Explorer, land.starting_invaders.get(InvaderKind::Explorer));
            push_invaders(&mut invaders, InvaderKind::Town, land.starting_invaders.get(InvaderKind::Town));
            push_invaders(&mut invaders, InvaderKind::City, land.starting_invaders.get(InvaderKind::City));
            let mut dahan: Vec<Dahan> = Vec::new();
            let mut d: u8 = 0;
            while d < land.starting_dahan
                invariant
                    d <= land.starting_dahan,
                    dahan.len() == d,
                    forall|k: int|
                        0 <= k < dahan.len() ==> dahan@[k] == (Dahan {
                            health_max: 2,
                            health_cur: 2,
                            attack: 2,
                        }),
                decreases land.starting_dahan - d,
            {
                dahan.push(Dahan::new());
                d = d + 1;
            }
            lands.push(
                LandState {
                    is_in_play: land.index_on_board != 0,
                    tokens: land.starting_tokens,
                    presence: SpiritMap::new(0),
                    invaders,
                    dahan,
                    defense: 0,
                    fear_generated_here_this_round: 0,
                },
            );
            i = i + 1;
        }
        TableState { lands }
    }
}

/// Appends `count` fresh, full-health invaders of one kind.
fn push_invaders(invaders: &mut Vec<Invader>, kind: InvaderKind, count: u8)
    ensures
        final(invaders).len() == old(invaders).len() + count,
        forall|k: int| 0 <= k < old(invaders).len() ==> final(invaders)@[k] == old(invaders)@[k],
        forall|k: int|
            old(invaders).len() <= k < final(invaders).len() ==> final(invaders)@[k] == (Invader {
                kind,
                health_max: kind.spec_health(),
                health_cur: kind.spec_health(),
                attack: kind.spec_attack(),
            }),
{
    let mut c: u8 = 0;
    while c < count
        invariant
            0 <= c <= count,
            invaders.len() == old(invaders).len() + c,
            forall|k: int| 0 <= k < old(invaders).len() ==> invaders@[k] == old(invaders)@[k],
            forall|k: int|
                old(invaders).len() <= k < invaders.len() ==> invaders@[k] == (Invader {
                    kind,
                    health_max: kind.spec_health(),
                    health_cur: kind.spec_health(),
                    attack: kind.spec_attack(),
                }),
        decreases count - c,
    {
        invaders.push(Invader::new(kind));
        c = c + 1;
    }
}

/// Assembles the table from named boards, renumbering each land by its
/// position on the table.  `None` when a board name is unknown or the table
/// would exceed the land numbering range.
pub fn make_map(content: &Vec<ContentPack>, board_names: Vec<&str>) -> (r: Option<
    TableDescription,
>)
    ensures
        r is Some ==> r->0.well_formed(),
{
    let mut boards: Vec<BoardDescription> = Vec::new();
    let mut lands: Vec<LandDescription> = Vec::new();
    let mut land_count: u8 = 0;
    let mut board_count: u8 = 0;
    let mut n: usize = 0;
    while n < board_names.len()
        invariant
            lands.len() == land_count,
            land_count <= 255,
            forall|i: int| 0 <= i < lands.len() ==> #[trigger] lands@[i].index_on_table == i,
        decreases board_names.len() - n,
    {
        let found = search_for_board(content, board_names[n]);
        let mut board = match found {
            Some(b) => b,
            None => { return None },
        };
        if board.lands.len() > 255 - (land_count as usize) || board_count == 255 {
            return None;
        }
        let mut li: usize = 0;
        while li < board.lands.len()
            invariant
                lands.len() == land_count as int + li,
                land_count as int + board.lands.len() <= 255,
                li <= board.lands.len(),
                forall|i: int| 0 <= i < lands.len() ==> #[trigger] lands@[i].index_on_table == i,
            decreases board.lands.len() - li,
        {
            let mut land = board.lands[li].clone();
            land.index_on_table = land_count + (li as u8);
            land.parent_board_index = board_count;
            board.lands.set(li, land.clone());
            lands.push(land);
            li = li + 1;
        }
        land_count = land_count + (board.lands.len() as u8);
        boards.push(board);
        board_count = board_count + 1;
        n = n + 1;
    }
    Some(TableDescription { boards, lands, land_count })
}

} // verus!
