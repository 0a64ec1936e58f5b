use macwinshare::config::{Direction, ScreenConfig, ScreenNeighbor, ScreenPosition};
use macwinshare::screen::{CursorPosition, ScreenEdgeDetector, ScreenInfo, ScreenLayout};

fn config_with(neighbors: Vec<ScreenNeighbor>) -> ScreenConfig {
    ScreenConfig {
        position: ScreenPosition { x: 0, y: 0 },
        width: 1920,
        height: 1080,
        edge_threshold: 1,
        neighbors,
    }
}

fn neighbor(name: &str, direction: Direction) -> ScreenNeighbor {
    ScreenNeighbor { name: name.to_string(), direction }
}

#[test]
fn test_edge_detection() {
    let config = ScreenConfig {
        position: ScreenPosition { x: 0, y: 0 },
        width: 1920,
        height: 1080,
        edge_threshold: 1,
        neighbors: vec![
            ScreenNeighbor { name: "right-screen".into(), direction: Direction::Right },
        ],
    };

    let detector = ScreenEdgeDetector::new(config);

    // Test right edge
    let result = detector.check_edge(CursorPosition::new(1919, 500));
    assert!(result.is_some());
    let (direction, _) = result.unwrap();
    assert_eq!(direction, Direction::Right);

    // Test center (no edge)
    let result = detector.check_edge(CursorPosition::new(960, 540));
    assert!(result.is_none());

    // Test left edge (no neighbor)
    let result = detector.check_edge(CursorPosition::new(0, 500));
    assert!(result.is_none());
}

#[test]
fn edge_crossing_positions() {
    let detector = ScreenEdgeDetector::new(config_with(vec![
        neighbor("l", Direction::Left),
        neighbor("r", Direction::Right),
        neighbor("t", Direction::Top),
        neighbor("b", Direction::Bottom),
    ]));
    assert_eq!(detector.check_edge(CursorPosition::new(1, 500)), Some((Direction::Left, CursorPosition::new(1918, 500))));
    assert_eq!(detector.check_edge(CursorPosition::new(1919, 500)), Some((Direction::Right, CursorPosition::new(2, 500))));
    assert_eq!(detector.check_edge(CursorPosition::new(700, 0)), Some((Direction::Top, CursorPosition::new(700, 1078))));
    assert_eq!(detector.check_edge(CursorPosition::new(700, 1079)), Some((Direction::Bottom, CursorPosition::new(700, 2))));
    // Left is checked before Top in a corner.
    assert_eq!(detector.check_edge(CursorPosition::new(0, 0)), Some((Direction::Left, CursorPosition::new(1918, 0))));
    assert_eq!(detector.check_edge(CursorPosition::new(2, 2)), None);
}

#[test]
fn entry_positions_are_clamped() {
    let detector = ScreenEdgeDetector::new(config_with(vec![]));
    assert_eq!(detector.calculate_entry_position(Direction::Left, CursorPosition::new(5, 5000)), CursorPosition::new(2, 1079));
    assert_eq!(detector.calculate_entry_position(Direction::Right, CursorPosition::new(5, -3)), CursorPosition::new(1918, 0));
    assert_eq!(detector.calculate_entry_position(Direction::Top, CursorPosition::new(3000, 7)), CursorPosition::new(1919, 2));
    assert_eq!(detector.calculate_entry_position(Direction::Bottom, CursorPosition::new(42, 7)), CursorPosition::new(42, 1078));
    assert_eq!(detector.dimensions(), (1920, 1080));
}

#[test]
fn neighbor_lookup_and_update() {
    let mut detector = ScreenEdgeDetector::new(config_with(vec![
        neighbor("first", Direction::Right),
        neighbor("second", Direction::Right),
    ]));
    assert_eq!(detector.get_neighbor(Direction::Right).unwrap().name, "first");
    assert!(detector.get_neighbor(Direction::Left).is_none());
    assert!(detector.has_neighbor(Direction::Right));
    assert!(!detector.has_neighbor(Direction::Top));
    detector.update_config(config_with(vec![]));
    assert!(!detector.has_neighbor(Direction::Right));
    assert_eq!(detector.check_edge(CursorPosition::new(1919, 10)), None);
}

fn info(name: &str, x: i32, y: i32, w: i32, h: i32) -> ScreenInfo {
    ScreenInfo { name: name.to_string(), position: (x, y), width: w, height: h }
}

#[test]
fn layout_lookup_and_removal() {
    let mut layout = ScreenLayout::default();
    assert!(layout.screens().is_empty());
    layout.add_screen(info("mac", 0, 0, 1920, 1080));
    layout.add_screen(info("win", 1920, 0, 2560, 1440));
    layout.add_screen(info("mac", -100, 0, 100, 100));
    assert_eq!(layout.screens().len(), 3);
    assert_eq!(layout.get_screen("win").unwrap().width, 2560);
    assert_eq!(layout.get_screen("mac").unwrap().position, (0, 0));
    assert_eq!(layout.screen_at_position(1920, 0).unwrap().name, "win");
    assert_eq!(layout.screen_at_position(1919, 1079).unwrap().name, "mac");
    assert!(layout.screen_at_position(1919, 1080).is_none());
    assert_eq!(layout.screen_at_position(-50, 50).unwrap().position, (-100, 0));
    layout.remove_screen("mac");
    assert_eq!(layout.screens().len(), 1);
    assert!(layout.get_screen("mac").is_none());
    assert_eq!(layout.screens()[0].name, "win");
}

#[test]
fn local_global_conversion_roundtrip() {
    let layout = ScreenLayout::new();
    let s = info("win", 1920, -200, 2560, 1440);
    assert_eq!(layout.global_to_local(&s, 2000, 100), (80, 300));
    assert_eq!(layout.local_to_global(&s, 80, 300), (2000, 100));
    let (lx, ly) = layout.global_to_local(&s, -7, 9);
    assert_eq!(layout.local_to_global(&s, lx, ly), (-7, 9));
}
