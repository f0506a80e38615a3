use sara_core::editline::EditBuffer;
use sara_core::editline::EditKey;
use sara_core::editline::EditLinePlugin;
use sara_core::editor::tile_key;
use sara_core::editor::EditorRefresh;
use sara_core::editor::GridCreateEvent;
use sara_core::editor::EditorState;
use sara_core::editor::LevelDynamicResource;
use sara_core::editor::MapData;
use sara_core::editor::ParseTilesEvent;
use sara_core::editor::PlaceOutcome;
use sara_core::editor::TileData;
use sara_core::editor::TilesPlugin;
use sara_core::editor::DragEvent;
use sara_core::geom::Vec2;
use sara_core::level::LevelAsset;
use sara_core::level::TileDescriptor;
use sara_core::level::TileType;
use sara_core::text::parse_usize;
use sara_core::text::usize_to_string;
use sara_core::tools::ButtonKind;
use sara_core::tools::EditField;
use sara_core::tools::Interaction;
use sara_core::tools::Outline;
use sara_core::tools::ToolsPlugin;
use sara_core::tools::UIPlugin;
use sara_core::tools::UIState;
use sara_core::tools::Val;

#[test]
fn align_snaps_to_tile_centres() {
    assert_eq!(
        TilesPlugin::align_and_offset(Vec2 { x: 100000, y: 200000 }),
        Vec2 { x: 112000, y: 208000 }
    );
    assert_eq!(
        TilesPlugin::align_and_offset(Vec2 { x: 0, y: 31999 }),
        Vec2 { x: 16000, y: 16000 }
    );
    // Positions left of or below the grid snap to the first tile centre.
    assert_eq!(
        TilesPlugin::align_and_offset(Vec2 { x: -5000, y: 70000 }),
        Vec2 { x: 16000, y: 80000 }
    );
}

#[test]
fn cursor_to_world_translation() {
    let window = Vec2 { x: 1152000, y: 648000 };
    let camera = Vec2 { x: 100000, y: 200000 };

    // No cursor: nothing.
    assert_eq!(TilesPlugin::get_real_translation(None, window, camera, 100), None);

    // Cursor outside the tilemap viewport (beyond four fifths of the width).
    let outside = Some(Vec2 { x: 1000000, y: 100000 });
    assert_eq!(TilesPlugin::get_real_translation(outside, window, camera, 100), None);

    // The viewport centre maps to the camera position, snapped.
    let centre = Some(Vec2 { x: 460800, y: 324000 });
    assert_eq!(
        TilesPlugin::get_real_translation(centre, window, camera, 100),
        Some(Vec2 { x: 112000, y: 208000 })
    );

    // An offset to the right and up (screen y grows downward).
    let off = Some(Vec2 { x: 492800, y: 292000 });
    assert_eq!(
        TilesPlugin::get_real_translation(off, window, camera, 100),
        Some(Vec2 { x: 144000, y: 240000 })
    );

    // Zoomed to 200 percent the same offset reaches twice as far.
    assert_eq!(
        TilesPlugin::get_real_translation(off, window, camera, 200),
        Some(Vec2 { x: 176000, y: 272000 })
    );
}

#[test]
fn camera_tracking_follows_drags() {
    let window = Vec2 { x: 1152000, y: 648000 };
    let mut camera = Vec2 { x: 0, y: 0 };
    let drags = vec![
        DragEvent { position: Vec2 { x: 100000, y: 100000 }, delta: Some(Vec2 { x: 5000, y: 3000 }) },
        // Outside the viewport: ignored.
        DragEvent { position: Vec2 { x: 1100000, y: 100000 }, delta: Some(Vec2 { x: 9000, y: 9000 }) },
        DragEvent { position: Vec2 { x: 100000, y: 100000 }, delta: None },
        DragEvent { position: Vec2 { x: 200000, y: 200000 }, delta: Some(Vec2 { x: -1000, y: 2000 }) },
    ];
    TilesPlugin::tracking(&mut camera, true, 1, window, &drags);
    assert_eq!(camera, Vec2 { x: -4000, y: 5000 });

    // Without the left button, or with a second button held, nothing moves.
    let before = camera;
    TilesPlugin::tracking(&mut camera, false, 1, window, &drags);
    assert_eq!(camera, before);
    TilesPlugin::tracking(&mut camera, true, 2, window, &drags);
    assert_eq!(camera, before);
}

#[test]
fn grid_mesh_vertices() {
    let r = TilesPlugin::create_grid(2, 1);
    assert_eq!(r.len(), 10);
    // Vertical lines of the three column edges.
    assert_eq!(r[0], Vec2 { x: 0, y: 0 });
    assert_eq!(r[1], Vec2 { x: 0, y: 32000 });
    assert_eq!(r[2], Vec2 { x: 32000, y: 0 });
    assert_eq!(r[3], Vec2 { x: 32000, y: 32000 });
    assert_eq!(r[4], Vec2 { x: 64000, y: 0 });
    assert_eq!(r[5], Vec2 { x: 64000, y: 32000 });
    // Horizontal lines of the two row edges.
    assert_eq!(r[6], Vec2 { x: 0, y: 0 });
    assert_eq!(r[7], Vec2 { x: 64000, y: 0 });
    assert_eq!(r[8], Vec2 { x: 0, y: 32000 });
    assert_eq!(r[9], Vec2 { x: 64000, y: 32000 });
    // An empty grid has no mesh.
    assert_eq!(TilesPlugin::create_grid(0, 5).len(), 0);
    assert_eq!(TilesPlugin::create_grid(5, 0).len(), 0);
}

#[test]
fn wheel_zoom_clamps_to_the_range() {
    // Zoom in twice, out once.
    assert_eq!(TilesPlugin::scale(100, true, &vec![1, 2, -1]), 95);
    // Clamped at the near end.
    assert_eq!(TilesPlugin::scale(65, true, &vec![3]), 65);
    assert_eq!(TilesPlugin::scale(70, true, &vec![1, 1, 1]), 65);
    // Clamped at the far end.
    assert_eq!(TilesPlugin::scale(150, true, &vec![-1]), 150);
    // Without the control key the wheel scrolls, not zooms.
    assert_eq!(TilesPlugin::scale(100, false, &vec![1, 1]), 100);
}

#[test]
fn resizing_the_grid_asks_for_the_right_rebuild() {
    let mut map = MapData::new();
    assert_eq!(map.set_cols(4), Some(EditorRefresh::Grid(GridCreateEvent)));
    assert_eq!(map.set_cols(4), None);
    assert_eq!(map.set_cols(2), Some(EditorRefresh::Tiles(ParseTilesEvent)));
    assert_eq!(map.set_rows(3), Some(EditorRefresh::Grid(GridCreateEvent)));
    assert_eq!(map.set_rows(1), Some(EditorRefresh::Tiles(ParseTilesEvent)));
    assert_eq!(map.cols, 2);
    assert_eq!(map.rows, 1);
}

#[test]
fn parse_rebuilds_tiles_and_drops_out_of_range() {
    let mut map = MapData::new();
    map.set_cols(2);
    map.set_rows(2);
    let level = LevelAsset {
        rows: 2,
        cols: 2,
        data: vec![
            TileDescriptor {
                tile_pos: Vec2 { x: 16000, y: 16000 },
                tile_typ: TileType::Wall,
                rotation: 0,
            },
            // Beyond the two-column limit: dropped.
            TileDescriptor {
                tile_pos: Vec2 { x: 80000, y: 16000 },
                tile_typ: TileType::Trap,
                rotation: 0,
            },
            // Same key as the first: the later placement wins.
            TileDescriptor {
                tile_pos: Vec2 { x: 16000, y: 16000 },
                tile_typ: TileType::Pass,
                rotation: 45000,
            },
        ],
        entry: Vec2 { x: 0, y: 0 },
        next: None,
    };
    TilesPlugin::parse(&mut map, &level);
    assert_eq!(map.keys.len(), 1);
    let k = tile_key(Vec2 { x: 16000, y: 16000 });
    assert_eq!(map.data.get(&k), Some(&TileData { typ: TileType::Pass, rotation: 45000 }));

    // An empty grid parses to an empty map.
    let mut empty = MapData::new();
    TilesPlugin::parse(&mut empty, &level);
    assert_eq!(empty.keys.len(), 0);
}

#[test]
fn placing_and_erasing_tiles() {
    let mut map = MapData::new();
    map.set_cols(4);
    map.set_rows(4);
    let spot = Vec2 { x: 48000, y: 16000 };

    // Outside the map rectangle nothing is placed.
    let out = TilesPlugin::selected(&mut map, TileType::Wall, 0, Vec2 { x: 200000, y: 16000 });
    assert_eq!(out, PlaceOutcome::Outside);
    assert_eq!(map.keys.len(), 0);

    // A fresh placement.
    let placed = TilesPlugin::selected(&mut map, TileType::Wall, 0, spot);
    assert_eq!(placed, PlaceOutcome::Placed { replaced: false });
    let k = tile_key(spot);
    assert_eq!(map.data.get(&k), Some(&TileData { typ: TileType::Wall, rotation: 0 }));

    // The identical tile again: untouched.
    let same = TilesPlugin::selected(&mut map, TileType::Wall, 0, spot);
    assert_eq!(same, PlaceOutcome::Unchanged);

    // A different tile on the same key replaces it.
    let replaced = TilesPlugin::selected(&mut map, TileType::Trap, 90000, spot);
    assert_eq!(replaced, PlaceOutcome::Placed { replaced: true });
    assert_eq!(map.data.get(&k), Some(&TileData { typ: TileType::Trap, rotation: 90000 }));
    assert_eq!(map.keys.len(), 1);

    // Erase it, then erasing again finds nothing.
    assert!(TilesPlugin::earse(&mut map, spot));
    assert_eq!(map.keys.len(), 0);
    assert_eq!(map.data.get(&k), None);
    assert!(!TilesPlugin::earse(&mut map, spot));
}

#[test]
fn saving_collects_the_placed_tiles() {
    let mut map = MapData::new();
    map.set_cols(4);
    map.set_rows(4);
    map.set_next(Some(2));
    TilesPlugin::selected(&mut map, TileType::Wall, 0, Vec2 { x: 16000, y: 16000 });
    TilesPlugin::selected(&mut map, TileType::Pass, 180000, Vec2 { x: 112000, y: 48000 });
    let level = map.to_level_asset();
    assert_eq!(level.cols, 4);
    assert_eq!(level.rows, 4);
    assert_eq!(level.next, Some(2));
    assert_eq!(level.data.len(), 2);
    // Positions come back as the whole-unit key, scaled to milliunits.
    assert_eq!(level.data[0].tile_pos, Vec2 { x: 16000, y: 16000 });
    assert_eq!(level.data[0].tile_typ, TileType::Wall);
    assert_eq!(level.data[1].tile_pos, Vec2 { x: 112000, y: 48000 });
    assert_eq!(level.data[1].tile_typ, TileType::Pass);
    assert_eq!(level.data[1].rotation, 180000);
}

#[test]
fn editor_level_file_paths() {
    assert_eq!(LevelDynamicResource::asset_path(0), "data/level0.sbc");
    assert_eq!(LevelDynamicResource::data_path(15), "assets/data/level15.sbc");
}

#[test]
fn text_fields_parse_as_plain_decimals() {
    assert_eq!(parse_usize(&vec!['1', '2', '0']), Some(120));
    assert_eq!(parse_usize(&vec!['0']), Some(0));
    assert_eq!(parse_usize(&vec![]), None);
    assert_eq!(parse_usize(&vec!['4', 'x']), None);
    assert_eq!(parse_usize(&vec!['n', 'o', 'n', 'e']), None);
    // Twenty nines do not fit the machine range.
    assert_eq!(parse_usize(&vec!['9'; 20]), None);
    // Printing and reading back round-trips.
    let shown = usize_to_string(987654);
    let chars: Vec<char> = shown.chars().collect();
    assert_eq!(parse_usize(&chars), Some(987654));
}

#[test]
fn tile_keys_pack_unit_coordinates() {
    assert_eq!(tile_key(Vec2 { x: 112000, y: 208000 }), 112 * 0x100000000 + 208);
    assert_eq!(tile_key(Vec2 { x: -1000, y: 500 }), 0);
}

#[test]
fn shell_init_and_ready() {
    let mut map = MapData::new();
    map.set_cols(9);
    // A missing file starts an empty map and asks for a refresh.
    let (state, refresh) = UIPlugin::init(&mut map, 5, false);
    assert_eq!(state, UIState::Running);
    assert!(refresh.is_some());
    assert_eq!(map.id, 5);
    assert_eq!(map.cols, 0);
    assert_eq!(map.next, None);
    // An existing file is loaded first, leaving the extent alone until then.
    let (state, refresh) = UIPlugin::init(&mut map, 6, true);
    assert_eq!(state, UIState::Loading);
    assert!(refresh.is_none());
    assert_eq!(map.id, 6);
    let level = LevelAsset {
        rows: 3,
        cols: 4,
        data: vec![],
        entry: Vec2 { x: 16000, y: 16000 },
        next: Some(7),
    };
    let (state, _refresh) = UIPlugin::ready(&mut map, &level);
    assert_eq!(state, UIState::Running);
    assert_eq!(map.rows, 3);
    assert_eq!(map.cols, 4);
    assert_eq!(map.entry, Vec2 { x: 16000, y: 16000 });
    assert_eq!(map.next, Some(7));
}

#[test]
fn tool_pane_layout() {
    let line = ToolsPlugin::line_base_node();
    assert_eq!(line.width, Val::Percent(100));
    assert_eq!(line.height, Val::Px(48));
    assert_eq!(line.column_gap, Val::Percent(2));
    let button = ToolsPlugin::button_base_node();
    assert_eq!(button.width, Val::Percent(49));
    assert_eq!(button.height, Val::Percent(100));
    assert_eq!(button.margin, Val::Percent(1));
    assert_eq!(button.border, Val::Px(2));

    let buttons = ToolsPlugin::create_buttons();
    assert_eq!(buttons.len(), 2);
    assert_eq!(buttons[0].kind, ButtonKind::Save);
    assert_eq!(buttons[0].kind.label(), "save");
    assert_eq!(buttons[0].kind.on_click(), UIState::Waiting);
    assert_eq!(buttons[1].kind, ButtonKind::Load);
    assert_eq!(buttons[1].kind.label(), "load");
    assert_eq!(buttons[1].kind.on_click(), UIState::Prepare);

    let lines = ToolsPlugin::craete_editlines();
    assert_eq!(lines.len(), 4);
    assert_eq!(lines[0].field, EditField::Cols);
    assert_eq!(lines[0].row, 0);
    assert_eq!(lines[2].field, EditField::NextId);
    assert_eq!(lines[2].row, 1);
    assert_eq!(lines[2].field.label(), "next");
    assert_eq!(lines[2].field.initial_text(), "none");
    assert_eq!(lines[3].field, EditField::Rotation);

    let panel = ToolsPlugin::create_editline_node(EditField::Rows);
    assert_eq!(panel.field, EditField::Rows);
    assert_eq!(panel.node.width, Val::Percent(49));

    let tracking = ToolsPlugin::create_tracking();
    assert_eq!(tracking.outline, Outline::White);
    assert_eq!(tracking.on_click, EditorState::Tracking);
}

#[test]
fn clicked_tools_fire_in_order() {
    let interactions = vec![
        (Interaction::Hovered, 10),
        (Interaction::Pressed, 11),
        (Interaction::Nothing, 12),
        (Interaction::Pressed, 13),
    ];
    assert_eq!(ToolsPlugin::handle_clicked(&interactions), vec![11, 13]);
    assert_eq!(ToolsPlugin::handle_clicked(&vec![]), Vec::<u64>::new());
}

#[test]
fn editline_fields_show_the_map() {
    let mut map = MapData::new();
    map.set_cols(12);
    map.set_rows(7);
    let texts = ToolsPlugin::update_editlines(&map);
    assert_eq!(texts.cols, "12");
    assert_eq!(texts.rows, "7");
    assert_eq!(texts.next, "none");
    map.set_next(Some(3));
    assert_eq!(ToolsPlugin::update_editlines(&map).next, "3");
}

#[test]
fn editing_a_text_line() {
    let mut buffer = EditBuffer::new(vec!['4', '2']);
    assert_eq!(buffer.cursor, 2);
    let keys = vec![
        EditKey::Backspace,
        EditKey::Character('7'),
        EditKey::ArrowLeft,
        EditKey::Character('1'),
    ];
    let finished = EditLinePlugin::handle_input(&mut buffer, &keys);
    assert!(finished.is_none());
    assert_eq!(buffer.text, vec!['4', '1', '7']);
    assert_eq!(buffer.cursor, 2);
}

#[test]
fn enter_finishes_and_drops_the_rest() {
    let mut buffer = EditBuffer::new(vec!['a']);
    let keys = vec![EditKey::Character('b'), EditKey::Enter, EditKey::Character('z')];
    let finished = EditLinePlugin::handle_input(&mut buffer, &keys);
    assert!(finished.is_some());
    assert_eq!(buffer.text, vec!['a', 'b']);

    // The arrows stop at the ends, and deleting at the start does nothing.
    let mut edge = EditBuffer::new(vec!['x']);
    let keys = vec![
        EditKey::ArrowLeft,
        EditKey::ArrowLeft,
        EditKey::Delete,
        EditKey::ArrowRight,
        EditKey::ArrowRight,
        EditKey::Backspace,
    ];
    assert!(EditLinePlugin::handle_input(&mut edge, &keys).is_none());
    assert_eq!(edge.text, Vec::<char>::new());
    assert_eq!(edge.cursor, 0);
}

#[test]
fn focus_moves_to_the_first_pressed_line() {
    let clicks = vec![(Interaction::Hovered, 1), (Interaction::Pressed, 2), (Interaction::Pressed, 3)];
    let effect = EditLinePlugin::switch_entry(Some(1), &clicks);
    assert_eq!(effect.select, Some(2));
    assert_eq!(effect.finish_prev, Some(1));

    // Clicking the line that already has focus does not finish it.
    let effect = EditLinePlugin::switch_entry(Some(2), &clicks);
    assert_eq!(effect.select, Some(2));
    assert_eq!(effect.finish_prev, None);

    let effect = EditLinePlugin::switch_entry(None, &vec![(Interaction::Nothing, 4)]);
    assert_eq!(effect.select, None);
    assert_eq!(effect.finish_prev, None);
}
