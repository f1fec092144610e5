use st7789_core::joystick::Joystick;
use st7789_core::joystick::JoystickButton;
use st7789_core::joystick::JoystickButtonsData;

fn none_down() -> JoystickButtonsData {
    JoystickButtonsData {
        a: false,
        b: false,
        x: false,
        y: false,
        up: false,
        down: false,
        left: false,
        right: false,
        ctrl: false,
    }
}

#[test]
fn masks_are_one_bit_per_button() {
    assert_eq!(JoystickButton::A.mask(), 0x0001);
    assert_eq!(JoystickButton::B.mask(), 0x0002);
    assert_eq!(JoystickButton::X.mask(), 0x0004);
    assert_eq!(JoystickButton::Y.mask(), 0x0008);
    assert_eq!(JoystickButton::UP.mask(), 0x0010);
    assert_eq!(JoystickButton::DOWN.mask(), 0x0020);
    assert_eq!(JoystickButton::LEFT.mask(), 0x0040);
    assert_eq!(JoystickButton::RIGHT.mask(), 0x0080);
    assert_eq!(JoystickButton::CTRL.mask(), 0x0100);
}

#[test]
fn fresh_joystick_sees_nothing() {
    let joystick = Joystick::new();
    assert!(!joystick.is_active(JoystickButton::A));
    assert!(!joystick.is_any_active(None));
    assert!(!joystick.just_pressed_any());
    assert!(!joystick.just_released_any());
}

#[test]
fn press_hold_release_cycle() {
    let mut joystick = Joystick::new();

    let mut snapshot = none_down();
    snapshot.ctrl = true;
    joystick.update(snapshot);
    assert!(joystick.is_active(JoystickButton::CTRL));
    assert!(joystick.just_pressed(JoystickButton::CTRL));
    assert!(!joystick.is_hold(JoystickButton::CTRL));
    assert!(!joystick.just_released(JoystickButton::CTRL));

    joystick.update(snapshot);
    assert!(joystick.is_active(JoystickButton::CTRL));
    assert!(!joystick.just_pressed(JoystickButton::CTRL));
    assert!(joystick.is_hold(JoystickButton::CTRL));

    joystick.update(none_down());
    assert!(!joystick.is_active(JoystickButton::CTRL));
    assert!(joystick.just_released(JoystickButton::CTRL));
    assert!(!joystick.is_hold(JoystickButton::CTRL));
}

#[test]
fn update_packs_every_button() {
    let mut joystick = Joystick::new();
    let snapshot = JoystickButtonsData {
        a: true,
        b: true,
        x: true,
        y: true,
        up: true,
        down: true,
        left: true,
        right: true,
        ctrl: true,
    };
    joystick.update(snapshot);
    assert_eq!(joystick.current, 0x01FF);
    assert_eq!(joystick.previous, 0x0000);

    let mut partial = none_down();
    partial.a = true;
    partial.up = true;
    joystick.update(partial);
    assert_eq!(joystick.current, 0x0011);
    assert_eq!(joystick.previous, 0x01FF);
}

#[test]
fn is_any_active_filters_by_the_given_mask() {
    let mut joystick = Joystick::new();
    let mut snapshot = none_down();
    snapshot.b = true;
    joystick.update(snapshot);

    assert!(joystick.is_any_active(None));
    assert!(joystick.is_any_active(Some(JoystickButton::B.mask())));
    assert!(joystick.is_any_active(Some(
        JoystickButton::A.mask() | JoystickButton::B.mask()
    )));
    assert!(!joystick.is_any_active(Some(JoystickButton::A.mask())));
    assert!(!joystick.is_any_active(Some(0)));
}

#[test]
fn just_pressed_any_sees_each_button() {
    let mut joystick = Joystick::new();
    let mut snapshot = none_down();
    snapshot.left = true;
    joystick.update(snapshot);
    assert!(joystick.just_pressed_any());
    assert!(!joystick.just_released_any());

    joystick.update(none_down());
    assert!(!joystick.just_pressed_any());
    assert!(joystick.just_released_any());

    joystick.update(none_down());
    assert!(!joystick.just_pressed_any());
    assert!(!joystick.just_released_any());
}
