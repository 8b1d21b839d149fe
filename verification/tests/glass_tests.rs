use digital_rain::instr::{Color, DrawInstruction};
use digital_rain::trail::RainTrail;
use digital_rain::glass::Glass;

fn trail(column: u16, top: i32, len: usize, speed: u8) -> RainTrail {
    RainTrail {
        glyphs: (0..len).map(|i| (b'a' + (i as u8 % 26)) as char).collect(),
        column,
        top,
        bottom: top + len as i32 - 1,
        speed,
        alive: true,
    }
}

#[test]
fn available_columns_full_range_when_empty() {
    let g = Glass::new(7, 20);
    assert_eq!(g.available_columns(), Some(vec![1, 2, 3, 4, 5, 6, 7]));
}

#[test]
fn available_columns_respects_clearance() {
    let mut g = Glass::new(3, 20);
    // trailing row past the threshold: the column is available again
    g.rain_trails.push(trail(1, 6, 3, 1));
    // trailing row at the threshold or above: the column is blocked
    g.rain_trails.push(trail(2, 4, 3, 1));
    // column 3 is empty: available
    assert_eq!(g.available_columns(), Some(vec![1, 3]));
}

#[test]
fn available_columns_boundary_at_threshold() {
    let mut g = Glass::new(1, 20);
    g.rain_trails.push(trail(1, 5, 3, 1));
    assert_eq!(g.available_columns(), None);
    let mut g = Glass::new(1, 20);
    g.rain_trails.push(trail(1, 6, 3, 1));
    assert_eq!(g.available_columns(), Some(vec![1]));
}

#[test]
fn available_columns_judges_by_the_top_most_trail() {
    // two trails stacked in one column: the younger (top-most, smaller
    // trailing row) decides
    let mut g = Glass::new(1, 20);
    g.rain_trails.push(trail(1, 15, 3, 1));
    g.rain_trails.push(trail(1, 2, 3, 1));
    assert_eq!(g.available_columns(), None);
}

#[test]
fn available_columns_none_when_no_column_qualifies() {
    let mut g = Glass::new(2, 20);
    g.rain_trails.push(trail(1, 0, 3, 1));
    g.rain_trails.push(trail(2, 3, 3, 1));
    assert_eq!(g.available_columns(), None);
}

#[test]
fn degenerate_one_by_one_viewport() {
    let mut g = Glass::new(1, 1);
    assert_eq!(g.available_columns(), Some(vec![1]));
    // an empty collection ticks to an empty instruction sequence
    assert_eq!(g.update(), vec![]);
    // spawning on a tiny viewport clamps the length instead of failing
    g.create_rain_trail(1);
    assert_eq!(g.rain_trails.len(), 1);
    assert_eq!(g.rain_trails[0].glyphs.len(), 1);
}

#[test]
fn spawn_length_drawn_from_the_height_bounds() {
    let mut g = Glass::new(5, 20);
    g.create_rain_trail(2);
    let t = &g.rain_trails[0];
    // eight tenths of 20 is 16; the interval [5, 16) is non-empty
    let len = t.glyphs.len();
    assert!((5..16).contains(&len));
    assert!(t.alive);
    assert_eq!(t.column, 2);
    assert_eq!(t.bottom, 0);
    assert_eq!(t.top, 1 - len as i32);
    assert!(1 <= t.speed && t.speed <= 3);
}

#[test]
fn spawn_length_clamps_on_small_viewports() {
    // eight tenths of 3 truncates to 2: the interval [5, 2) is empty and the
    // length clamps to the minimum valid length
    let mut g = Glass::new(5, 3);
    g.create_rain_trail(1);
    assert_eq!(g.rain_trails[0].glyphs.len(), 1);
}

#[test]
fn single_trail_one_tick_scenario() {
    // viewport 10 wide and 5 tall, one trail of length 3 in column 1, speed 1
    let mut g = Glass::new(10, 5);
    g.rain_trails.push(RainTrail {
        glyphs: vec!['a', 'b', 'c'],
        column: 1,
        top: -2,
        bottom: 0,
        speed: 1,
        alive: true,
    });
    let out = g.update();
    // the tick read the pre-advance position: only the head had entered
    assert_eq!(
        out,
        vec![DrawInstruction::Glyph {
            column: 1,
            row: 0,
            color: Color { red: 255, green: 255, blue: 255 },
            glyph: 'a',
        }]
    );
    // after one tick the edges have moved one row down
    assert_eq!(g.rain_trails.len(), 1);
    assert_eq!(g.rain_trails[0].bottom, 1);
    assert_eq!(g.rain_trails[0].top, -1);

    // rendering the advanced position shows the head at row 1 (bright), the
    // second glyph at row 0 (gradient), and clips the glyph at row -1
    let mut advanced = RainTrail {
        glyphs: vec![g.rain_trails[0].glyphs[0], 'a', 'b'],
        column: 1,
        top: -1,
        bottom: 1,
        speed: 1,
        alive: true,
    };
    let rendered = advanced.render(5);
    assert_eq!(rendered.len(), 2);
    match rendered[0] {
        DrawInstruction::Glyph { column, row, color, .. } => {
            assert_eq!((column, row), (1, 1));
            assert_eq!(color, Color { red: 255, green: 255, blue: 255 });
        }
        _ => panic!("expected the bright head at row 1"),
    }
    match rendered[1] {
        DrawInstruction::Glyph { column, row, color, .. } => {
            assert_eq!((column, row), (1, 0));
            assert_eq!(color, Color { red: 127, green: 150, blue: 127 });
        }
        _ => panic!("expected the gradient glyph at row 0"),
    }
}

#[test]
fn tick_prunes_dead_trails_and_keeps_live_ones() {
    let mut g = Glass::new(5, 10);
    g.rain_trails.push(trail(1, 11, 2, 1)); // past the bottom: pruned
    g.rain_trails.push(trail(2, 3, 2, 1)); // still falling: kept
    g.update();
    assert_eq!(g.rain_trails.len(), 1);
    assert_eq!(g.rain_trails[0].column, 2);
    assert!(g.rain_trails[0].alive);
    assert_eq!(g.rain_trails[0].top, 4);
}

#[test]
fn tick_output_rows_stay_inside_the_viewport() {
    let mut g = Glass::new(4, 6);
    g.rain_trails.push(trail(1, -2, 5, 3));
    g.rain_trails.push(trail(2, 5, 4, 2));
    g.rain_trails.push(trail(3, 7, 3, 1)); // dead this tick
    let out = g.update();
    assert!(!out.is_empty());
    for d in &out {
        let (column, row) = match d {
            DrawInstruction::Glyph { column, row, .. } => (*column, *row),
            DrawInstruction::Blank { column, row, .. } => (*column, *row),
        };
        assert!(row <= 6);
        assert!((1..=4).contains(&column));
    }
}

#[test]
fn zero_width_viewport_has_no_columns() {
    let mut g = Glass::new(0, 10);
    assert_eq!(g.available_columns(), Some(vec![]));
    assert_eq!(g.update(), vec![]);
}

#[test]
fn zero_height_viewport_still_clamps_spawn_length() {
    let mut g = Glass::new(2, 0);
    g.create_rain_trail(1);
    assert_eq!(g.rain_trails[0].glyphs.len(), 1);
}

#[test]
fn largest_viewport_full_range() {
    let g = Glass::new(u16::MAX, u16::MAX);
    let cols = g.available_columns().unwrap();
    assert_eq!(cols.len(), 65535);
    assert_eq!(cols[0], 1);
    assert_eq!(cols[65534], 65535);
}

#[test]
fn tick_concatenates_in_trail_order() {
    let mut g = Glass::new(5, 10);
    g.rain_trails.push(RainTrail {
        glyphs: vec!['q'],
        column: 2,
        top: 0,
        bottom: 0,
        speed: 1,
        alive: true,
    });
    g.rain_trails.push(RainTrail {
        glyphs: vec!['r'],
        column: 3,
        top: 1,
        bottom: 1,
        speed: 1,
        alive: true,
    });
    let white = Color { red: 255, green: 255, blue: 255 };
    assert_eq!(
        g.update(),
        vec![
            DrawInstruction::Glyph { column: 2, row: 0, color: white, glyph: 'q' },
            DrawInstruction::Blank { column: 2, row: 0 },
            DrawInstruction::Glyph { column: 3, row: 1, color: white, glyph: 'r' },
            DrawInstruction::Blank { column: 3, row: 1 },
        ]
    );
}
