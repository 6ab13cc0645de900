//! Session state: the generated map, the selection, and the UI text lines.

use vstd::prelude::*;
use vstd::string::StringExecFns;
use crate::map::{TileMap, Terrain, Unit, UnitKind};

verus! {

/// What is currently selected: nothing, or a unit picked up under the
/// cursor. Movement alone never changes it; only a fresh select press does.
#[derive(Clone, Copy, PartialEq, Eq, Structural, Debug)]
pub enum Selection {
    NoSelection,
    Selected(UnitKind),
}

/// The terrain line shown while hovering a cell.
pub open spec fn spec_terrain_text(t: Terrain) -> Seq<char> {
    match t {
        Terrain::Ground => "Terrain: Ground"@,
        Terrain::Water => "Terrain: Water"@,
    }
}

/// The unit line shown while hovering a cell.
pub open spec fn spec_unit_text(u: Option<Unit>) -> Seq<char> {
    match u {
        Some(unit) => match unit.kind { UnitKind::Tank => "Unit: Tank"@ },
        None => "Unit: none"@,
    }
}

/// The selection line.
pub open spec fn spec_selection_text(s: Selection) -> Seq<char> {
    match s {
        Selection::NoSelection => "Selected: none"@,
        Selection::Selected(kind) => match kind { UnitKind::Tank => "Selected: Tank"@ },
    }
}

/// The terrain line for a hovered cell.
pub fn terrain_text(t: Terrain) -> (s: String)
    ensures
        s@ == spec_terrain_text(t),
{
    match t {
        Terrain::Ground => String::from_str("Terrain: Ground"),
        Terrain::Water => String::from_str("Terrain: Water"),
    }
}

/// The unit line for a hovered cell.
pub fn unit_text(u: Option<Unit>) -> (s: String)
    ensures
        s@ == spec_unit_text(u),
{
    match u {
        Some(unit) => match unit.kind {
            UnitKind::Tank => String::from_str("Unit: Tank"),
        },
        None => String::from_str("Unit: none"),
    }
}

/// The selection line for the current selection.
pub fn selection_text(s: &Selection) -> (t: String)
    ensures
        t@ == spec_selection_text(*s),
{
    match s {
        Selection::NoSelection => String::from_str("Selected: none"),
        Selection::Selected(kind) => match kind {
            UnitKind::Tank => String::from_str("Selected: Tank"),
        },
    }
}

/// The three text lines the host renders: hovered terrain, hovered unit,
/// and the current selection.
#[derive(Clone, Debug)]
pub struct Ui {
    pub terrain: String,
    pub unit: String,
    pub selected_unit: String,
}

impl Ui {
    /// The lines before the first tick: nothing hovered yet, nothing
    /// selected.
    pub fn new() -> (u: Ui)
        ensures
            u.terrain@ == Seq::<char>::empty(),
            u.unit@ == Seq::<char>::empty(),
            u.selected_unit@ == spec_selection_text(Selection::NoSelection),
    {
        Ui {
            terrain: String::new(),
            unit: String::new(),
            selected_unit: String::from_str("Selected: none"),
        }
    }
}

/// A running session over one generated map.
pub struct MapState {
    pub map: TileMap,
}

impl MapState {
    /// Opens a session: generates the map and places the starting unit.
    pub fn new(width: u8, height: u8) -> (s: MapState)
        requires
            width > 0,
            height > 0,
        ensures
            s.map.wf(),
            s.map.width == width,
            s.map.height == height,
            s.map.units@[0] == Some(Unit { kind: UnitKind::Tank }),
            forall|i: int| 1 <= i < s.map.units@.len() ==> s.map.units@[i] is None,
    {
        MapState { map: TileMap::generate(width, height) }
    }
}

/// The session configuration the host starts from: the map bounds.
pub struct Game {
    pub map_width: u8,
    pub map_height: u8,
}

impl Game {
    /// Opens a session with the configured bounds.
    pub fn start(&self) -> (s: MapState)
        requires
            self.map_width > 0,
            self.map_height > 0,
        ensures
            s.map.wf(),
            s.map.width == self.map_width,
            s.map.height == self.map_height,
            s.map.units@[0] == Some(Unit { kind: UnitKind::Tank }),
            forall|i: int| 1 <= i < s.map.units@.len() ==> s.map.units@[i] is None,
    {
        MapState::new(self.map_width, self.map_height)
    }
}

} // verus!
