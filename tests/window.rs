use orbit::window::{PanelMemory, PanelPosition, Pinned, WindowType};

#[test]
fn first_placement_uses_and_stores_default() {
    let mut m = PanelMemory::new();
    assert_eq!(m.stored(), None);
    assert_eq!(m.placement(), PanelPosition { x: 300, y: 200 });
    assert_eq!(m.stored(), Some(PanelPosition { x: 300, y: 200 }));
}

#[test]
fn small_moves_are_not_remembered() {
    let mut m = PanelMemory::new();
    assert!(m.remember(PanelPosition { x: 100, y: 100 }));
    assert!(!m.remember(PanelPosition { x: 105, y: 95 }));
    assert!(m.remember(PanelPosition { x: 106, y: 100 }));
    assert_eq!(m.placement(), PanelPosition { x: 106, y: 100 });
}

#[test]
fn runaway_positions_are_ignored() {
    let mut m = PanelMemory::new();
    assert!(!m.remember(PanelPosition { x: -1, y: 10 }));
    assert!(!m.remember(PanelPosition { x: 10, y: 10001 }));
    assert!(m.remember(PanelPosition { x: 10000, y: 0 }));
    assert!(!m.remember(PanelPosition { x: i32::MIN, y: i32::MAX }));
}

#[test]
fn rescue_and_reset() {
    let mut m = PanelMemory::new();
    m.remember(PanelPosition { x: 9000, y: 9000 });
    assert_eq!(m.rescue(), PanelPosition { x: 300, y: 200 });
    assert_eq!(m.stored(), Some(PanelPosition { x: 300, y: 200 }));
    assert_eq!(m.reset(), PanelPosition { x: 300, y: 200 });
    assert_eq!(m.stored(), None);
}

#[test]
fn pin_toggles_and_labels() {
    let mut p = Pinned::new(false);
    assert!(!p.get());
    assert!(p.toggle());
    assert!(p.get());
    assert_eq!(p.set(true), "Unpin");
    assert_eq!(p.set(false), "Pin");
    assert!(!p.get());
}

#[test]
fn window_kinds_compare() {
    assert_ne!(WindowType::Assistant, WindowType::Main);
}
