use makepad_platform::display_context::{DisplayContext, SystemBarAppearance, Vec2d};

fn sized(x: f64, y: f64) -> DisplayContext {
    DisplayContext {
        screen_size: Vec2d {
            x: x.to_bits(),
            y: y.to_bits(),
        },
        ..DisplayContext::default()
    }
}

#[test]
fn wide_displays_are_desktops() {
    assert!(sized(860.0, 0.0).is_desktop());
    assert!(sized(f64::INFINITY, 0.0).is_desktop());
    assert!(!sized(859.99, 2000.0).is_desktop());
    assert!(!sized(-900.0, 2000.0).is_desktop());
    assert!(!sized(f64::NAN, 2000.0).is_desktop());
}

#[test]
fn size_is_known_where_no_side_is_zero() {
    assert!(!DisplayContext::default().is_screen_size_known());
    assert!(!sized(1.0, -0.0).is_screen_size_known());
    assert!(!sized(0.0, 1.0).is_screen_size_known());
    assert!(sized(1.0, 1.0).is_screen_size_known());
    assert!(sized(900.0, 1.0).is_desktop() && sized(900.0, 1.0).is_screen_size_known());
}

#[test]
fn appearance_follows_the_background() {
    assert_eq!(
        DisplayContext::default().system_bar_appearance,
        SystemBarAppearance::Auto
    );
    assert_eq!(SystemBarAppearance::default(), SystemBarAppearance::Auto);
}
