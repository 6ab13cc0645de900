//! The properties the interaction core lives by, each proved once and for
//! all over the spec-level step functions.

use vstd::prelude::*;
use crate::cursor::Cursor;
use crate::input::{Direction, DirectionFlags, spec_no_flags, spec_only};
use crate::map::TileMap;
use crate::states::Selection;
use crate::systems::{spec_apply, spec_moved, spec_selection_step};

verus! {

/// One movement pass never leaves the map: a cursor inside the bounds
/// stays inside them, whatever is held and whatever press marks stand.
pub proof fn lemma_moved_in_bounds(
    c: Cursor,
    edge: DirectionFlags,
    held: DirectionFlags,
    w: u8,
    h: u8,
)
    requires
        w > 0,
        h > 0,
        c.in_bounds(w, h),
    ensures
        spec_moved(c, edge, held, w, h).in_bounds(w, h),
{
}

/// Where a run of ticks leaves the movement state: each tick moves the
/// cursor as one pass says and records the held keys as the press marks
/// the next tick sees.
pub open spec fn spec_ticks(
    c: Cursor,
    edge: DirectionFlags,
    inputs: Seq<DirectionFlags>,
    w: u8,
    h: u8,
) -> (Cursor, DirectionFlags)
    decreases inputs.len(),
{
    if inputs.len() == 0 {
        (c, edge)
    } else {
        spec_ticks(
            spec_moved(c, edge, inputs[0], w, h),
            inputs[0],
            inputs.subrange(1, inputs.len() as int),
            w,
            h,
        )
    }
}

/// After any sequence of movement passes, a cursor that started inside the
/// map bounds still lies inside them.
pub proof fn lemma_bounds_preserved(
    c: Cursor,
    edge: DirectionFlags,
    inputs: Seq<DirectionFlags>,
    w: u8,
    h: u8,
)
    requires
        w > 0,
        h > 0,
        c.in_bounds(w, h),
    ensures
        spec_ticks(c, edge, inputs, w, h).0.in_bounds(w, h),
    decreases inputs.len(),
{
    if inputs.len() > 0 {
        lemma_moved_in_bounds(c, edge, inputs[0], w, h);
        lemma_bounds_preserved(
            spec_moved(c, edge, inputs[0], w, h),
            inputs[0],
            inputs.subrange(1, inputs.len() as int),
            w,
            h,
        );
    }
}

/// A pass whose press marks already cover every held key moves nothing:
/// holding a key gives it no second step.
pub proof fn lemma_held_press_no_move(c: Cursor, held: DirectionFlags, w: u8, h: u8)
    ensures
        spec_moved(c, held, held, w, h) == c,
{
}

/// Holding the same keys over any number of ticks comes to the same as one
/// tick: the first pass moves the cursor by at most one cell per key and
/// every later pass finds the press marks set and leaves it alone.
pub proof fn lemma_hold_n_ticks(
    c: Cursor,
    edge: DirectionFlags,
    held: DirectionFlags,
    n: nat,
    w: u8,
    h: u8,
)
    requires
        n >= 1,
    ensures
        spec_ticks(c, edge, Seq::new(n, |i: int| held), w, h) == (
            spec_moved(c, edge, held, w, h),
            held,
        ),
    decreases n,
{
    let inputs = Seq::new(n, |i: int| held);
    let moved = spec_moved(c, edge, held, w, h);
    assert(inputs[0] == held);
    assert(spec_ticks(c, edge, inputs, w, h) == spec_ticks(
        moved,
        held,
        inputs.subrange(1, n as int),
        w,
        h,
    ));
    if n == 1 {
        assert(inputs.subrange(1, 1) =~= Seq::<DirectionFlags>::empty());
    } else {
        assert(inputs.subrange(1, n as int) =~= Seq::new((n - 1) as nat, |i: int| held));
        lemma_hold_n_ticks(moved, held, held, (n - 1) as nat, w, h);
        lemma_held_press_no_move(moved, held, w, h);
    }
}

/// A tick with every direction released moves nothing and clears every
/// press mark; a following tick that holds one direction then moves the
/// cursor by exactly one clamped cell, whatever press marks stood before
/// the release.
pub proof fn lemma_release_repress(
    c: Cursor,
    edge: DirectionFlags,
    d: Direction,
    w: u8,
    h: u8,
)
    ensures
        spec_moved(c, edge, spec_no_flags(), w, h) == c,
        spec_ticks(c, edge, seq![spec_no_flags(), spec_only(d)], w, h).0 == spec_apply(d, c, w, h),
{
    let inputs = seq![spec_no_flags(), spec_only(d)];
    let released = spec_moved(c, edge, spec_no_flags(), w, h);
    assert(released == c);
    let rest = inputs.subrange(1, 2);
    assert(rest =~= seq![spec_only(d)]);
    assert(inputs[0] == spec_no_flags());
    assert(spec_ticks(c, edge, inputs, w, h) == spec_ticks(released, spec_no_flags(), rest, w, h));
    let pressed = spec_moved(c, spec_no_flags(), spec_only(d), w, h);
    assert(rest[0] == spec_only(d));
    assert(rest.subrange(1, 1) =~= Seq::<DirectionFlags>::empty());
    assert(spec_moved(released, spec_no_flags(), rest[0], w, h) == pressed);
    assert(spec_ticks(released, spec_no_flags(), rest, w, h) == spec_ticks(
        pressed,
        spec_only(d),
        rest.subrange(1, 1),
        w,
        h,
    ));
    assert(spec_ticks(pressed, spec_only(d), rest.subrange(1, 1), w, h) == (pressed, spec_only(d)));
    assert(pressed == spec_apply(d, c, w, h));
}

/// Movement at the map edge stays put: a left press in the first column
/// and a right press in the last column leave the column unchanged, and
/// likewise for the rows.
pub proof fn lemma_boundary(c: Cursor, edge: DirectionFlags, w: u8, h: u8)
    requires
        w > 0,
        h > 0,
    ensures
        c.0 == 0 ==> spec_moved(c, edge, spec_only(Direction::Left), w, h).0 == 0,
        c.0 == w - 1 ==> spec_moved(c, edge, spec_only(Direction::Right), w, h).0 == c.0,
        c.1 == h - 1 ==> spec_moved(c, edge, spec_only(Direction::Up), w, h).1 == c.1,
        c.1 == 0 ==> spec_moved(c, edge, spec_only(Direction::Down), w, h).1 == 0,
{
}

/// A fresh select press over a unit picks exactly that unit up; a later
/// fresh press over an empty cell clears the selection back to none.
pub proof fn lemma_select_then_clear(
    m: TileMap,
    c1: Cursor,
    c2: Cursor,
    prior: Selection,
)
    requires
        m.wf(),
        c1.in_bounds(m.width, m.height),
        c2.in_bounds(m.width, m.height),
        m.spec_unit_at(c1.0, c1.1) is Some,
        m.spec_unit_at(c2.0, c2.1) is None,
    ensures
        ({
            let first = spec_selection_step(prior, m.spec_unit_at(c1.0, c1.1), false, true);
            let second = spec_selection_step(first.0, m.spec_unit_at(c2.0, c2.1), false, true);
            first.0 == Selection::Selected(m.spec_unit_at(c1.0, c1.1)->0.kind)
                && second.0 == Selection::NoSelection
        }),
{
}

} // verus!
