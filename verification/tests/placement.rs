use action_center::placement::{
    find_panel_window, widget_placement, ClientWindow, Positioner, PANEL_HEIGHT, PANEL_MARGIN,
    PANEL_TOP, PANEL_WIDTH,
};

fn client(address: &str, title: &str) -> ClientWindow {
    ClientWindow { address: String::from(address), title: String::from(title) }
}

#[test]
fn panel_window_is_found_by_title() {
    let clients = vec![
        client("0x1", "Terminal"),
        client("0x2", "Action Center"),
        client("0x3", "Browser"),
    ];
    assert_eq!(find_panel_window(&clients), Some(1));
}

#[test]
fn first_matching_title_wins() {
    let clients = vec![client("0xa", "Action Center"), client("0xb", "Action Center")];
    assert_eq!(find_panel_window(&clients), Some(0));
}

#[test]
fn missing_panel_window_finds_nothing() {
    let clients = vec![client("0x1", "Terminal"), client("0x2", "action center")];
    assert_eq!(find_panel_window(&clients), None);
    assert_eq!(find_panel_window(&Vec::new()), None);
}

#[test]
fn placement_is_anchored_top_right() {
    let p = widget_placement(1920);
    assert_eq!(p.x, 1920 - PANEL_WIDTH - PANEL_MARGIN);
    assert_eq!(p.x, 1620);
    assert_eq!(p.y, PANEL_TOP);
    assert_eq!(p.width, PANEL_WIDTH);
    assert_eq!(p.height, PANEL_HEIGHT);
}

#[test]
fn placement_happens_exactly_once() {
    let clients = vec![client("0x2", "Action Center")];
    let mut positioner = Positioner::new();
    let first = positioner.take_placement(&clients, 1920);
    let (address, p) = first.expect("the panel window is listed");
    assert_eq!(address, "0x2");
    assert_eq!(p.x, 1620);
    assert!(positioner.positioned);
    // A later pass does nothing more.
    assert!(positioner.take_placement(&clients, 1920).is_none());
}

#[test]
fn placement_retries_until_the_window_appears() {
    let mut positioner = Positioner::new();
    let nothing = positioner.take_placement(&vec![client("0x1", "Terminal")], 1920);
    assert!(nothing.is_none());
    assert!(!positioner.positioned);
    // The window shows up on a later pass.
    let clients = vec![client("0x1", "Terminal"), client("0x2", "Action Center")];
    let found = positioner.take_placement(&clients, 1920);
    assert_eq!(found.expect("found now").0, "0x2");
    assert!(positioner.positioned);
}
