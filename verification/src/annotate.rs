use vstd::prelude::*;

use crate::grid::GridPoint;

verus! {

/// The index a grid cell occupies in a materialized raster: each row holds
/// `width` glyphs plus one line separator, so row `y` starts at
/// `y * (width + 1)`.
pub open spec fn cell_index(p: GridPoint, width: int) -> int {
    p.y * (width + 1) + p.x
}

/// Whether some trail entry occupies position `j` of the raster.
pub open spec fn trail_covers(trail: Seq<GridPoint>, width: int, j: int) -> bool {
    exists|k: int| 0 <= k < trail.len() && cell_index(#[trigger] trail[k], width) == j
}

/// The raster with a trail marker written over every cell the trail visits;
/// all other positions keep their glyph.
pub open spec fn trail_marked(s: Seq<char>, trail: Seq<GridPoint>, width: int) -> Seq<char> {
    Seq::new(
        s.len(),
        |j: int|
            if trail_covers(trail, width, j) {
                'o'
            } else {
                s[j]
            },
    )
}

/// A fully annotated raster: trail markers first, then the current-position
/// marker written on top, so the live position always wins a collision.
pub open spec fn annotated_spec(
    base: Seq<char>,
    current: GridPoint,
    trail: Seq<GridPoint>,
    width: int,
) -> Seq<char> {
    trail_marked(base, trail, width).update(cell_index(current, width), '\u{2206}')
}

/// The precedence law of the annotator: whatever the trail holds — in
/// particular when it visits the very cell the satellite now occupies — the
/// final glyph at the current position is the position marker, never the
/// trail marker.
pub proof fn lemma_current_over_trail(
    base: Seq<char>,
    current: GridPoint,
    trail: Seq<GridPoint>,
    width: int,
)
    requires
        0 <= cell_index(current, width) < base.len(),
    ensures
        annotated_spec(base, current, trail, width)[cell_index(current, width)] == '\u{2206}',
{
}

/// A cell whose coordinates lie inside the raster occupies a glyph position
/// of the materialized raster, never a line separator slot past its end.
pub proof fn lemma_cell_index_in_raster(p: GridPoint, width: int, height: int)
    requires
        p.x < width,
        p.y < height,
        width >= 1,
        height >= 1,
    ensures
        0 <= cell_index(p, width) < crate::raster::raster_len(width, height),
{
    assert(p.y * (width + 1) + p.x < height * (width + 1) - 1) by (nonlinear_arith)
        requires
            0 <= p.x < width,
            0 <= p.y < height,
            width >= 1,
            height >= 1,
    ;
    assert(p.y * (width + 1) + p.x >= 0) by (nonlinear_arith)
        requires
            0 <= p.x,
            0 <= p.y,
            width >= 1,
    ;
}

/// Writes the current-position marker over the glyph at cell `(x, y)`.
pub fn mark_position(image_ascii: &mut Vec<char>, x: u32, y: u32, width: u32)
    requires
        cell_index(GridPoint { x, y }, width as int) < old(image_ascii)@.len(),
    ensures
        final(image_ascii)@ == old(image_ascii)@.update(
            cell_index(GridPoint { x, y }, width as int),
            '\u{2206}',
        ),
{
    proof {
        assert((y as int) * (width as int + 1) + (x as int) <= u64::MAX) by (nonlinear_arith)
            requires
                y <= u32::MAX,
                x <= u32::MAX,
                width <= u32::MAX,
        ;
    }
    let pos_wide: u64 = (y as u64) * (width as u64 + 1) + (x as u64);
    let len = image_ascii.len();
    assert(pos_wide < len as u64);
    let pos: usize = pos_wide as usize;
    image_ascii.set(pos, '\u{2206}');
}

/// Writes a trail marker over the glyph at every cell the orbit trail has
/// visited, in order; later entries overwrite earlier ones with the same
/// marker, so revisits render identically.
pub fn mark_orbit_trail(image_ascii: &mut Vec<char>, orbit_trail: &Vec<GridPoint>, width: u32)
    requires
        forall|k: int|
            0 <= k < orbit_trail@.len() ==> cell_index(#[trigger] orbit_trail@[k], width as int)
                < old(image_ascii)@.len(),
    ensures
        final(image_ascii)@ == trail_marked(old(image_ascii)@, orbit_trail@, width as int),
{
    let ghost base = image_ascii@;
    let len0 = image_ascii.len();
    let n = orbit_trail.len();
    let mut k: usize = 0;
    while k < n
        invariant
            k <= n,
            n == orbit_trail@.len(),
            base.len() == len0,
            forall|j: int|
                0 <= j < orbit_trail@.len() ==> cell_index(#[trigger] orbit_trail@[j], width as int)
                    < base.len(),
            image_ascii@ == trail_marked(base, orbit_trail@.take(k as int), width as int),
        decreases n - k,
    {
        let p = orbit_trail[k];
        proof {
            assert(cell_index(p, width as int) < base.len());
            assert((p.y as int) * (width as int + 1) + (p.x as int) <= u64::MAX)
                by (nonlinear_arith)
                requires
                    p.y <= u32::MAX,
                    p.x <= u32::MAX,
                    width <= u32::MAX,
            ;
        }
        let pos_wide: u64 = (p.y as u64) * (width as u64 + 1) + (p.x as u64);
        assert(pos_wide < len0 as u64);
        let pos: usize = pos_wide as usize;
        image_ascii.set(pos, 'o');
        proof {
            let prefix = orbit_trail@.take(k as int);
            let grown = orbit_trail@.take(k + 1);
            assert(grown == prefix.push(p)) by {
                assert(grown =~= prefix.push(p));
            }
            assert forall|j: int| 0 <= j < base.len() implies trail_marked(base, prefix, width as int).update(
                pos as int,
                'o',
            )[j] == trail_marked(base, grown, width as int)[j] by {
                if j == pos as int {
                    assert(cell_index(grown[k as int], width as int) == j);
                    assert(trail_covers(grown, width as int, j));
                } else {
                    if trail_covers(prefix, width as int, j) {
                        let w = choose|w: int|
                            0 <= w < prefix.len() && cell_index(
                                #[trigger] prefix[w],
                                width as int,
                            ) == j;
                        assert(cell_index(grown[w], width as int) == j);
                        assert(trail_covers(grown, width as int, j));
                    }
                    if trail_covers(grown, width as int, j) {
                        let w = choose|w: int|
                            0 <= w < grown.len() && cell_index(#[trigger] grown[w], width as int)
                                == j;
                        assert(w < prefix.len());
                        assert(cell_index(prefix[w], width as int) == j);
                        assert(trail_covers(prefix, width as int, j));
                    }
                }
            }
            assert(trail_marked(base, prefix, width as int).update(pos as int, 'o') =~= trail_marked(
                base,
                grown,
                width as int,
            ));
        }
        k = k + 1;
    }
    proof {
        assert(orbit_trail@.take(n as int) =~= orbit_trail@);
    }
}

/// Overlays the orbit trail and then the current-position marker onto a
/// rendered raster: the geometry pass of the annotator.
pub fn annotate(
    image_ascii: &mut Vec<char>,
    current: GridPoint,
    orbit_trail: &Vec<GridPoint>,
    width: u32,
)
    requires
        cell_index(current, width as int) < old(image_ascii)@.len(),
        forall|k: int|
            0 <= k < orbit_trail@.len() ==> cell_index(#[trigger] orbit_trail@[k], width as int)
                < old(image_ascii)@.len(),
    ensures
        final(image_ascii)@ == annotated_spec(
            old(image_ascii)@,
            current,
            orbit_trail@,
            width as int,
        ),
{
    mark_orbit_trail(image_ascii, orbit_trail, width);
    mark_position(image_ascii, current.x, current.y, width);
}

} // verus!
