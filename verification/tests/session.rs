use tactics_core::cursor::Cursor;
use tactics_core::input::{Direction, DirectionFlags, InputState};
use tactics_core::map::{terrain_of_draw, Terrain, Tile, TileMap, Unit, UnitKind};
use tactics_core::states::{Game, MapState, Selection, Ui};
use tactics_core::systems::{
    CursorHoverTerrainInfoSystem, CursorHoverUnitInfoSystem, CursorSystem, CursorUnitSelectSystem,
};

fn small_map() -> TileMap {
    // 4 wide, 3 tall, row-major: water at (2, 1), a tank at (1, 0).
    let mut tiles = vec![Terrain::Ground; 12];
    tiles[1 * 4 + 2] = Terrain::Water;
    let mut units = vec![None; 12];
    units[0 * 4 + 1] = Some(Unit {
        kind: UnitKind::Tank,
    });
    TileMap {
        width: 4,
        height: 3,
        tiles,
        units,
    }
}

#[test]
fn hover_reads_exact_terrain() {
    let map = small_map();
    let mut ui = Ui::new();
    let hover = CursorHoverTerrainInfoSystem;

    hover.run(&Cursor(2, 1), &map, &mut ui);
    assert_eq!(ui.terrain, "Terrain: Water");

    hover.run(&Cursor(0, 0), &map, &mut ui);
    assert_eq!(ui.terrain, "Terrain: Ground");

    // Every reachable cell answers, and answers the same on a second look.
    for y in 0..3u8 {
        for x in 0..4u8 {
            hover.run(&Cursor(x, y), &map, &mut ui);
            let first = ui.terrain.clone();
            hover.run(&Cursor(x, y), &map, &mut ui);
            assert_eq!(ui.terrain, first);
        }
    }
}

#[test]
fn hover_reads_unit_occupancy() {
    let map = small_map();
    let mut ui = Ui::new();
    let hover = CursorHoverUnitInfoSystem;

    hover.run(&Cursor(1, 0), &map, &mut ui);
    assert_eq!(ui.unit, "Unit: Tank");

    hover.run(&Cursor(2, 2), &map, &mut ui);
    assert_eq!(ui.unit, "Unit: none");
}

#[test]
fn select_picks_up_hovered_unit() {
    let map = small_map();
    let mut ui = Ui::new();
    let mut select = CursorUnitSelectSystem::default();

    select.run(&Cursor(1, 0), &map, true, &mut ui);
    assert_eq!(select.selected, Selection::Selected(UnitKind::Tank));
    assert_eq!(ui.selected_unit, "Selected: Tank");
}

#[test]
fn select_on_empty_cell_clears_selection() {
    let map = small_map();
    let mut ui = Ui::new();
    let mut select = CursorUnitSelectSystem::default();

    select.run(&Cursor(1, 0), &map, true, &mut ui);
    assert_eq!(select.selected, Selection::Selected(UnitKind::Tank));

    // Release, hover an empty cell, press again: back to no selection.
    select.run(&Cursor(1, 0), &map, false, &mut ui);
    select.run(&Cursor(3, 2), &map, true, &mut ui);
    assert_eq!(select.selected, Selection::NoSelection);
    assert_eq!(ui.selected_unit, "Selected: none");
}

#[test]
fn held_select_fires_only_once() {
    let map = small_map();
    let mut ui = Ui::new();
    let mut select = CursorUnitSelectSystem::default();

    select.run(&Cursor(1, 0), &map, true, &mut ui);
    assert_eq!(select.selected, Selection::Selected(UnitKind::Tank));

    // Still held while the cursor hovers an empty cell: nothing re-fires.
    select.run(&Cursor(3, 2), &map, true, &mut ui);
    assert_eq!(select.selected, Selection::Selected(UnitKind::Tank));
    assert_eq!(ui.selected_unit, "Selected: Tank");
}

#[test]
fn movement_alone_never_changes_selection() {
    let map = small_map();
    let mut ui = Ui::new();
    let mut system = CursorSystem::new();
    let mut cursor = Cursor(1, 0);

    let press = InputState {
        directions: DirectionFlags::none(),
        select: true,
    };
    system.run(&mut cursor, &map, &press, &mut ui);
    assert_eq!(system.select.selected, Selection::Selected(UnitKind::Tank));

    let walk = InputState {
        directions: DirectionFlags::only(Direction::Right),
        select: false,
    };
    system.run(&mut cursor, &map, &walk, &mut ui);
    assert_eq!(cursor, Cursor(2, 0));
    assert_eq!(system.select.selected, Selection::Selected(UnitKind::Tank));
    assert_eq!(ui.selected_unit, "Selected: Tank");
}

#[test]
fn full_tick_hovers_the_post_move_cell() {
    let map = small_map();
    let mut ui = Ui::new();
    let mut system = CursorSystem::new();
    let mut cursor = Cursor(0, 0);

    // Move onto the tank's cell and select in the same tick: the hover and
    // the selection both speak of the cell the cursor moved to.
    let input = InputState {
        directions: DirectionFlags::only(Direction::Right),
        select: true,
    };
    system.run(&mut cursor, &map, &input, &mut ui);
    assert_eq!(cursor, Cursor(1, 0));
    assert_eq!(ui.terrain, "Terrain: Ground");
    assert_eq!(ui.unit, "Unit: Tank");
    assert_eq!(ui.selected_unit, "Selected: Tank");
}

#[test]
fn full_tick_scenario_on_ten_by_ten() {
    let mut tiles = vec![Terrain::Ground; 100];
    tiles[0 * 10 + 1] = Terrain::Water;
    let units = vec![None; 100];
    let map = TileMap {
        width: 10,
        height: 10,
        tiles,
        units,
    };
    let mut ui = Ui::new();
    let mut system = CursorSystem::new();
    let mut cursor = Cursor(0, 0);

    let right = InputState {
        directions: DirectionFlags::only(Direction::Right),
        select: false,
    };
    let idle = InputState {
        directions: DirectionFlags::none(),
        select: false,
    };

    system.run(&mut cursor, &map, &right, &mut ui);
    assert_eq!(cursor, Cursor(1, 0));
    assert_eq!(ui.terrain, "Terrain: Water");

    system.run(&mut cursor, &map, &right, &mut ui);
    system.run(&mut cursor, &map, &right, &mut ui);
    system.run(&mut cursor, &map, &right, &mut ui);
    assert_eq!(cursor, Cursor(1, 0));

    system.run(&mut cursor, &map, &idle, &mut ui);
    system.run(&mut cursor, &map, &right, &mut ui);
    assert_eq!(cursor, Cursor(2, 0));
    assert_eq!(ui.terrain, "Terrain: Ground");
}

#[test]
fn generate_places_one_tank_at_origin() {
    let map = TileMap::generate(10, 10);
    assert_eq!(map.width, 10);
    assert_eq!(map.height, 10);
    assert_eq!(map.tiles.len(), 100);
    assert_eq!(map.units.len(), 100);
    assert_eq!(
        map.units[0],
        Some(Unit {
            kind: UnitKind::Tank
        })
    );
    for slot in &map.units[1..] {
        assert_eq!(*slot, None);
    }
}

#[test]
fn terrain_of_draw_splits_the_range() {
    assert_eq!(terrain_of_draw(0), Terrain::Water);
    assert_eq!(terrain_of_draw(9174), Terrain::Water);
    assert_eq!(terrain_of_draw(9175), Terrain::Ground);
    assert_eq!(terrain_of_draw(u16::MAX), Terrain::Ground);
}

#[test]
fn ui_starts_blank_with_no_selection() {
    let ui = Ui::new();
    assert_eq!(ui.terrain, "");
    assert_eq!(ui.unit, "");
    assert_eq!(ui.selected_unit, "Selected: none");
}

#[test]
fn fresh_state_defaults() {
    assert_eq!(Cursor::default(), Cursor(0, 0));
    assert_eq!(Tile::default().terrain, Terrain::Ground);
    let system = CursorSystem::new();
    assert!(!system.movement.is_moving.left);
    assert!(!system.movement.is_moving.right);
    assert!(!system.movement.is_moving.up);
    assert!(!system.movement.is_moving.down);
    assert!(!system.select.is_selecting);
    assert_eq!(system.select.selected, Selection::NoSelection);
    let input = InputState::default();
    assert!(!input.select);
    assert!(!input.directions.left);
}

#[test]
fn game_start_generates_the_session_map() {
    let game = Game {
        map_width: 6,
        map_height: 4,
    };
    let session: MapState = game.start();
    assert_eq!(session.map.width, 6);
    assert_eq!(session.map.height, 4);
    assert_eq!(session.map.tiles.len(), 24);
    assert_eq!(session.map.units.len(), 24);
    assert_eq!(
        session.map.units[0],
        Some(Unit {
            kind: UnitKind::Tank
        })
    );
}
