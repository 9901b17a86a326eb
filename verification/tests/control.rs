use autoclicker::clicker::{AutoClicker, ClickMode};
use autoclicker::control::ControlSurface;

#[test]
fn surface_starts_with_defaults() {
    let mut clicker = AutoClicker::new();
    clicker.set_min_cps(1);
    clicker.set_max_cps(2);
    clicker.set_click_mode(ClickMode::Both);
    let surface = ControlSurface::new(&mut clicker);
    assert_eq!(surface.min_cps(), 5);
    assert_eq!(surface.max_cps(), 25);
    assert_eq!(surface.click_mode(), ClickMode::Left);
    assert_eq!(surface.min_range(), (5, 24));
    assert_eq!(surface.max_range(), (6, 25));
    assert_eq!(clicker.min_cps(), 5);
    assert_eq!(clicker.max_cps(), 25);
    assert_eq!(clicker.click_mode(), ClickMode::Left);
}

#[test]
fn surface_moves_bounds_within_ranges() {
    let mut clicker = AutoClicker::new();
    let mut surface = ControlSurface::new(&mut clicker);
    assert!(surface.set_min(&mut clicker, 10));
    assert_eq!(surface.min_cps(), 10);
    assert_eq!(clicker.min_cps(), 10);
    assert_eq!(surface.max_range(), (11, 25));
    assert!(surface.set_max(&mut clicker, 12));
    assert_eq!(surface.max_cps(), 12);
    assert_eq!(clicker.max_cps(), 12);
    assert_eq!(surface.min_range(), (5, 11));
    assert!(!surface.set_max(&mut clicker, 12));
    assert!(!surface.set_min(&mut clicker, 10));
}

#[test]
fn surface_keeps_min_below_max() {
    let mut clicker = AutoClicker::new();
    let mut surface = ControlSurface::new(&mut clicker);
    assert!(surface.set_min(&mut clicker, 25));
    assert_eq!(surface.min_cps(), 24);
    assert_eq!(clicker.min_cps(), 24);
    assert!(!surface.set_min(&mut clicker, u32::MAX));
    assert!(!surface.set_max(&mut clicker, 0));
    assert_eq!(surface.max_cps(), 25);
    assert!(surface.set_min(&mut clicker, 0));
    assert_eq!(surface.min_cps(), 5);
    assert!(surface.set_max(&mut clicker, 0));
    assert_eq!(surface.max_cps(), 6);
    assert_eq!(clicker.max_cps(), 6);
    assert!(surface.set_max(&mut clicker, 1000));
    assert_eq!(surface.max_cps(), 25);
    assert_eq!((clicker.min_cps(), clicker.max_cps()), (5, 25));
}

#[test]
fn surface_selects_mode() {
    let mut clicker = AutoClicker::new();
    let mut surface = ControlSurface::new(&mut clicker);
    surface.select_mode(&mut clicker, ClickMode::Both);
    assert_eq!(surface.click_mode(), ClickMode::Both);
    assert_eq!(clicker.click_mode(), ClickMode::Both);
    surface.select_mode(&mut clicker, ClickMode::Right);
    assert_eq!(clicker.click_mode(), ClickMode::Right);
    assert_eq!((surface.min_cps(), surface.max_cps()), (5, 25));
}
