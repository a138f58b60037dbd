//! What a host that draws pixel by pixel needs of the frame buffer: the
//! places of the pixels that are on.

use vstd::prelude::*;

verus! {

/// The cell of the frame buffer that lies in column `place.0` of row
/// `place.1`.
pub open spec fn cell_at(place: (i32, i32)) -> int {
    place.0 + 64 * place.1
}

/// Whether `places` lists the places of the cells of `screen` that are on:
/// each as column and row, each once, in the order of the frame buffer.
pub open spec fn lists_lit(places: Seq<(i32, i32)>, screen: Seq<bool>, cells: int) -> bool {
    &&& forall|k: int|
        0 <= k < places.len() ==> {
            &&& 0 <= (#[trigger] places[k]).0 < 64
            &&& 0 <= places[k].1
            &&& cell_at(places[k]) < cells
            &&& screen[cell_at(places[k])]
        }
    &&& forall|k: int, l: int|
        0 <= k < l < places.len() ==> cell_at(#[trigger] places[k]) < cell_at(
            #[trigger] places[l],
        )
    &&& forall|cell: int|
        0 <= cell < cells && #[trigger] screen[cell] ==> exists|k: int|
            0 <= k < places.len() && cell_at(#[trigger] places[k]) == cell
}

/// The places of the pixels that are on, each as column and row, in the
/// order of the frame buffer.
pub fn lit_pixels(screen: &[bool; 2048]) -> (places: Vec<(i32, i32)>)
    ensures
        lists_lit(places@, screen@, 2048),
{
    let mut places: Vec<(i32, i32)> = Vec::new();
    for cell in 0..2048usize
        invariant
            lists_lit(places@, screen@, cell as int),
    {
        if screen[cell] {
            let ghost before = places@;
            let x = (cell % 64) as i32;
            let y = (cell / 64) as i32;
            places.push((x, y));
            assert(cell_at((x, y)) == cell);
            assert forall|other: int|
                0 <= other < cell + 1 && #[trigger] screen@[other] implies exists|k: int|
                0 <= k < places@.len() && cell_at(#[trigger] places@[k]) == other by {
                if other < cell {
                    let k = choose|k: int|
                        0 <= k < before.len() && cell_at(#[trigger] before[k]) == other;
                    assert(places@[k] == before[k]);
                } else {
                    assert(cell_at(places@[before.len() as int]) == other);
                }
            }
            assert forall|k: int| 0 <= k < places@.len() implies {
                &&& 0 <= (#[trigger] places@[k]).0 < 64
                &&& 0 <= places@[k].1
                &&& cell_at(places@[k]) < cell + 1
                &&& screen@[cell_at(places@[k])]
            } by {
                if k < before.len() {
                    assert(places@[k] == before[k]);
                }
            }
            assert forall|k: int, l: int| 0 <= k < l < places@.len() implies cell_at(
                #[trigger] places@[k],
            ) < cell_at(#[trigger] places@[l]) by {
                assert(places@[k] == before[k]);
                if l < before.len() {
                    assert(places@[l] == before[l]);
                }
            }
        }
    }
    places
}

} // verus!
