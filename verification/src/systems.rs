//! The per-tick resolution passes: movement with edge-detected input,
//! hover display, and edge-detected unit selection.

use vstd::prelude::*;
use crate::cursor::{Cursor, sat_dec, sat_inc, min_u8};
use crate::input::{Direction, DirectionFlags, InputState};
use crate::map::TileMap;
use crate::states::{
    Selection, Ui, selection_text, spec_selection_text, spec_terrain_text, spec_unit_text,
    terrain_text, unit_text,
};

verus! {

/// One unit of movement in one direction, clamped to a map `w` cells wide
/// and `h` cells tall.
pub open spec fn spec_apply(d: Direction, c: Cursor, w: u8, h: u8) -> Cursor {
    match d {
        Direction::Left => Cursor(sat_dec(c.0), c.1),
        Direction::Right => Cursor(min_u8(sat_inc(c.0), (w - 1) as u8), c.1),
        Direction::Up => Cursor(c.0, min_u8(sat_inc(c.1), (h - 1) as u8)),
        Direction::Down => Cursor(c.0, sat_dec(c.1)),
    }
}

/// Where one movement pass leaves the cursor: each direction applies one
/// clamped step exactly when its key is held and was not already inside an
/// active press, in the fixed order left, right, up, down.
pub open spec fn spec_moved(
    c: Cursor,
    edge: DirectionFlags,
    held: DirectionFlags,
    w: u8,
    h: u8,
) -> Cursor {
    let c1 = if held.left && !edge.left {
        spec_apply(Direction::Left, c, w, h)
    } else {
        c
    };
    let c2 = if held.right && !edge.right {
        spec_apply(Direction::Right, c1, w, h)
    } else {
        c1
    };
    let c3 = if held.up && !edge.up {
        spec_apply(Direction::Up, c2, w, h)
    } else {
        c2
    };
    if held.down && !edge.down {
        spec_apply(Direction::Down, c3, w, h)
    } else {
        c3
    }
}

/// The movement pass. It owns the per-direction edge state: a direction
/// marked here is inside an active press, and a held key fires again only
/// after its mark has been cleared by a release.
#[derive(Clone, Copy, PartialEq, Eq, Structural, Debug)]
pub struct CursorMovementSystem {
    pub is_moving: DirectionFlags,
}

impl Default for CursorMovementSystem {
    /// Before the first tick no press is active.
    fn default() -> (s: CursorMovementSystem)
        ensures
            s.is_moving == crate::input::spec_no_flags(),
    {
        CursorMovementSystem { is_moving: DirectionFlags::none() }
    }
}

impl CursorMovementSystem {
    /// One movement pass: applies at most one clamped step per direction
    /// whose key passed from released to pressed, and records every held
    /// key as an active press.
    pub fn run(&mut self, cursor: &mut Cursor, map: &TileMap, held: &DirectionFlags)
        requires
            map.wf(),
        ensures
            final(self).is_moving == *held,
            *final(cursor) == spec_moved(
                *old(cursor),
                old(self).is_moving,
                *held,
                map.width,
                map.height,
            ),
    {
        if !held.left {
            self.is_moving.left = false;
        } else if !self.is_moving.left {
            self.is_moving.left = true;
            cursor.move_left();
        }
        if !held.right {
            self.is_moving.right = false;
        } else if !self.is_moving.right {
            self.is_moving.right = true;
            cursor.move_right(map.width - 1);
        }
        if !held.up {
            self.is_moving.up = false;
        } else if !self.is_moving.up {
            self.is_moving.up = true;
            cursor.move_up(map.height - 1);
        }
        if !held.down {
            self.is_moving.down = false;
        } else if !self.is_moving.down {
            self.is_moving.down = true;
            cursor.move_down();
        }
    }
}

/// The hover pass for terrain: writes the terrain line for the cell under
/// the cursor, leaving the other lines alone.
pub struct CursorHoverTerrainInfoSystem;

impl CursorHoverTerrainInfoSystem {
    /// Re-reads the hovered cell's terrain and writes its line.
    pub fn run(&self, cursor: &Cursor, map: &TileMap, ui: &mut Ui)
        requires
            map.wf(),
            cursor.in_bounds(map.width, map.height),
        ensures
            final(ui).terrain@ == spec_terrain_text(map.spec_terrain_at(cursor.0, cursor.1)),
            final(ui).unit == old(ui).unit,
            final(ui).selected_unit == old(ui).selected_unit,
    {
        let terrain = map.terrain_at(cursor.0, cursor.1);
        ui.terrain = terrain_text(terrain);
    }
}

/// The hover pass for units: writes the unit line for the cell under the
/// cursor, leaving the other lines alone.
pub struct CursorHoverUnitInfoSystem;

impl CursorHoverUnitInfoSystem {
    /// Re-reads the hovered cell's occupancy and writes its line.
    pub fn run(&self, cursor: &Cursor, map: &TileMap, ui: &mut Ui)
        requires
            map.wf(),
            cursor.in_bounds(map.width, map.height),
        ensures
            final(ui).unit@ == spec_unit_text(map.spec_unit_at(cursor.0, cursor.1)),
            final(ui).terrain == old(ui).terrain,
            final(ui).selected_unit == old(ui).selected_unit,
    {
        let unit = map.unit_at(cursor.0, cursor.1);
        ui.unit = unit_text(unit);
    }
}

/// Where one select pass leaves the selection, and whether the select key
/// is then inside an active press: a fresh press resolves the hovered
/// cell's occupancy into the new selection, a held-over press changes
/// nothing, a release only clears the press mark.
pub open spec fn spec_selection_step(
    prior: Selection,
    hovered: Option<crate::map::Unit>,
    was_selecting: bool,
    held: bool,
) -> (Selection, bool) {
    if !held {
        (prior, false)
    } else if was_selecting {
        (prior, true)
    } else {
        (
            match hovered {
                Some(unit) => Selection::Selected(unit.kind),
                None => Selection::NoSelection,
            },
            true,
        )
    }
}

/// The select pass. It owns the selection and the select key's edge state.
#[derive(Clone, Copy, PartialEq, Eq, Structural, Debug)]
pub struct CursorUnitSelectSystem {
    pub is_selecting: bool,
    pub selected: Selection,
}

impl Default for CursorUnitSelectSystem {
    /// Before the first tick nothing is selected and no press is active.
    fn default() -> (s: CursorUnitSelectSystem)
        ensures
            s.is_selecting == false,
            s.selected == Selection::NoSelection,
    {
        CursorUnitSelectSystem { is_selecting: false, selected: Selection::NoSelection }
    }
}

impl CursorUnitSelectSystem {
    /// One select pass: a fresh press of the select key picks up the unit
    /// under the cursor, or clears the selection when the cell is empty,
    /// and rewrites the selection line; otherwise everything stays.
    pub fn run(&mut self, cursor: &Cursor, map: &TileMap, select_held: bool, ui: &mut Ui)
        requires
            map.wf(),
            cursor.in_bounds(map.width, map.height),
        ensures
            ({
                let step = spec_selection_step(
                    old(self).selected,
                    map.spec_unit_at(cursor.0, cursor.1),
                    old(self).is_selecting,
                    select_held,
                );
                final(self).selected == step.0 && final(self).is_selecting == step.1
            }),
            select_held && !old(self).is_selecting ==> final(ui).selected_unit@
                == spec_selection_text(final(self).selected),
            !(select_held && !old(self).is_selecting) ==> final(ui).selected_unit
                == old(ui).selected_unit,
            final(ui).terrain == old(ui).terrain,
            final(ui).unit == old(ui).unit,
    {
        if !select_held {
            self.is_selecting = false;
        } else if !self.is_selecting {
            self.is_selecting = true;
            self.selected = match map.unit_at(cursor.0, cursor.1) {
                Some(unit) => Selection::Selected(unit.kind),
                None => Selection::NoSelection,
            };
            ui.selected_unit = selection_text(&self.selected);
        }
    }
}

/// The whole tick: movement commits first, then hover and selection read
/// the moved cursor, so the display always speaks of the post-move cell.
pub struct CursorSystem {
    pub movement: CursorMovementSystem,
    pub hover_terrain: CursorHoverTerrainInfoSystem,
    pub hover_unit: CursorHoverUnitInfoSystem,
    pub select: CursorUnitSelectSystem,
}

impl CursorSystem {
    /// A fresh driver: no press active, nothing selected.
    pub fn new() -> (s: CursorSystem)
        ensures
            s.movement.is_moving == crate::input::spec_no_flags(),
            s.select.is_selecting == false,
            s.select.selected == Selection::NoSelection,
    {
        CursorSystem {
            movement: CursorMovementSystem { is_moving: DirectionFlags::none() },
            hover_terrain: CursorHoverTerrainInfoSystem,
            hover_unit: CursorHoverUnitInfoSystem,
            select: CursorUnitSelectSystem { is_selecting: false, selected: Selection::NoSelection },
        }
    }

    /// One full tick over the held inputs: move the cursor, then resolve
    /// hover and selection against the cell it now stands on.
    pub fn run(&mut self, cursor: &mut Cursor, map: &TileMap, input: &InputState, ui: &mut Ui)
        requires
            map.wf(),
            old(cursor).in_bounds(map.width, map.height),
        ensures
            *final(cursor) == spec_moved(
                *old(cursor),
                old(self).movement.is_moving,
                input.directions,
                map.width,
                map.height,
            ),
            final(cursor).in_bounds(map.width, map.height),
            final(self).movement.is_moving == input.directions,
            final(ui).terrain@ == spec_terrain_text(
                map.spec_terrain_at(final(cursor).0, final(cursor).1),
            ),
            final(ui).unit@ == spec_unit_text(map.spec_unit_at(final(cursor).0, final(cursor).1)),
            ({
                let step = spec_selection_step(
                    old(self).select.selected,
                    map.spec_unit_at(final(cursor).0, final(cursor).1),
                    old(self).select.is_selecting,
                    input.select,
                );
                final(self).select.selected == step.0 && final(self).select.is_selecting == step.1
            }),
            input.select && !old(self).select.is_selecting ==> final(ui).selected_unit@
                == spec_selection_text(final(self).select.selected),
            !(input.select && !old(self).select.is_selecting) ==> final(ui).selected_unit
                == old(ui).selected_unit,
    {
        self.movement.run(cursor, map, &input.directions);
        proof {
            crate::laws::lemma_moved_in_bounds(
                *old(cursor),
                old(self).movement.is_moving,
                input.directions,
                map.width,
                map.height,
            );
        }
        self.hover_terrain.run(cursor, map, ui);
        self.hover_unit.run(cursor, map, ui);
        self.select.run(cursor, map, input.select, ui);
    }
}

} // verus!
