//! Board A.

use vstd::prelude::*;
use crate::board::{BoardDescription, LandDescription};
use crate::concept::LandKind;
use crate::piece::{InvaderKind, InvaderMap, TokenKind, TokenMap};

verus! {

fn land(
    index_on_board: u8,
    kind: LandKind,
    is_coastal: bool,
    edge_range: Option<(u8, u8)>,
    adjacent: Vec<u8>,
    starting_tokens: TokenMap<u8>,
    starting_invaders: InvaderMap<u8>,
    starting_dahan: u8,
) -> (r: LandDescription)
    ensures
        r.index_on_table == index_on_board,
        r.adjacent == adjacent,
{
    LandDescription {
        index_on_board,
        adjacent,
        kind,
        is_coastal,
        edge_range,
        starting_tokens,
        starting_invaders,
        starting_dahan,
        index_on_table: index_on_board,
        parent_board_index: 0,
    }
}

fn adj(list: &[u8]) -> (r: Vec<u8>)
    ensures
        r@ == list@,
{
    let mut v: Vec<u8> = Vec::new();
    let mut i: usize = 0;
    while i < list.len()
        invariant
            0 <= i <= list.len(),
            v@ == list@.subrange(0, i as int),
        decreases list.len() - i,
    {
        v.push(list[i]);
        proof {
            assert(v@ =~= list@.subrange(0, i + 1));
        }
        i = i + 1;
    }
    proof {
        assert(list@.subrange(0, list@.len() as int) =~= list@);
    }
    v
}

/// Board A: one ocean and eight lands, with its starting pieces.  The
/// printed adjacency lists are pinned exactly, and adjacency is
/// symmetric: each land names every land that names it.
pub fn make_board_a() -> (r: BoardDescription)
    ensures
        r.lands.len() == 9,
        forall|i: int| 0 <= i < 9 ==> #[trigger] r.lands@[i].index_on_table == i,
        r.lands@[0].adjacent@ == seq![1u8, 2, 3],
        r.lands@[1].adjacent@ == seq![0u8, 2, 4, 5, 6],
        r.lands@[2].adjacent@ == seq![0u8, 1, 4, 3],
        r.lands@[3].adjacent@ == seq![0u8, 2, 4],
        r.lands@[4].adjacent@ == seq![1u8, 2, 3, 5],
        r.lands@[5].adjacent@ == seq![1u8, 4, 6, 7, 8],
        r.lands@[6].adjacent@ == seq![1u8, 5, 8],
        r.lands@[7].adjacent@ == seq![5u8, 8],
        r.lands@[8].adjacent@ == seq![5u8, 6, 7],
        forall|i: int, j: int|
            0 <= i < 9 && 0 <= j < 9 && (#[trigger] r.lands@[i].adjacent@.contains(j as u8))
                ==> r.lands@[j].adjacent@.contains(i as u8),
{
    let mut lands: Vec<LandDescription> = Vec::new();
    lands.push(
        land(
            0,
            LandKind::Ocean,
            true,
            Some((2, 8)),
            adj(&[1, 2, 3]),
            TokenMap::new(0),
            InvaderMap::new(0),
            0,
        ),
    );
    lands.push(
        land(
            1,
            LandKind::Mountain,
            true,
            Some((8, 10)),
            adj(&[0, 2, 4, 5, 6]),
            TokenMap::new(0),
            InvaderMap::new(0),
            0,
        ),
    );
    lands.push(
        land(
            2,
            LandKind::Wetlands,
            true,
            None,
            adj(&[0, 1, 4, 3]),
            TokenMap::new(0),
            InvaderMap::new(0).map(InvaderKind::City, 1),
            1,
        ),
    );
    lands.push(
        land(
            3,
            LandKind::Jungle,
            true,
            Some((25, 1)),
            adj(&[0, 2, 4]),
            TokenMap::new(0),
            InvaderMap::new(0),
            2,
        ),
    );
    lands.push(
        land(
            4,
            LandKind::Sands,
            false,
            Some((23, 25)),
            adj(&[1, 2, 3, 5]),
            TokenMap::new(0).map(TokenKind::Blight, 1),
            InvaderMap::new(0),
            0,
        ),
    );
    lands.push(
        land(
            5,
            LandKind::Wetlands,
            false,
            Some((22, 23)),
            adj(&[1, 4, 6, 7, 8]),
            TokenMap::new(0),
            InvaderMap::new(0),
            0,
        ),
    );
    lands.push(
        land(
            6,
            LandKind::Mountain,
            false,
            Some((10, 12)),
            adj(&[1, 5, 8]),
            TokenMap::new(0),
            InvaderMap::new(0),
            1,
        ),
    );
    lands.push(
        land(
            7,
            LandKind::Sands,
            false,
            Some((16, 22)),
            adj(&[5, 8]),
            TokenMap::new(0),
            InvaderMap::new(0),
            2,
        ),
    );
    lands.push(
        land(
            8,
            LandKind::Jungle,
            false,
            Some((12, 16)),
            adj(&[5, 6, 7]),
            TokenMap::new(0),
            InvaderMap::new(0).map(InvaderKind::Town, 1),
            0,
        ),
    );
    proof {
        assert forall|i: int| 0 <= i < 9 implies #[trigger] lands@[i].index_on_table == i by {
        }
        assert(lands@[0].adjacent@ =~= seq![1u8, 2, 3]);
        assert(lands@[1].adjacent@ =~= seq![0u8, 2, 4, 5, 6]);
        assert(lands@[2].adjacent@ =~= seq![0u8, 1, 4, 3]);
        assert(lands@[3].adjacent@ =~= seq![0u8, 2, 4]);
        assert(lands@[4].adjacent@ =~= seq![1u8, 2, 3, 5]);
        assert(lands@[5].adjacent@ =~= seq![1u8, 4, 6, 7, 8]);
        assert(lands@[6].adjacent@ =~= seq![1u8, 5, 8]);
        assert(lands@[7].adjacent@ =~= seq![5u8, 8]);
        assert(lands@[8].adjacent@ =~= seq![5u8, 6, 7]);
        assert forall|i: int, j: int|
            0 <= i < 9 && 0 <= j < 9 && (#[trigger] lands@[i].adjacent@.contains(j as u8)) implies lands@[j].adjacent@.contains(
            i as u8,
        ) by {
            let s = lands@[i].adjacent@;
            let k = choose|k: int| 0 <= k < s.len() && s[k] == j as u8;
            assert(s[k] == j as u8);
            assert(lands@[j].adjacent@.contains(i as u8));
        }
    }
    BoardDescription { name: "A", lands }
}

} // verus!
