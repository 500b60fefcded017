use fj_kernel::input::{handle_keyboard_input, Actions, DragState, ElementState, Key, MouseButton};
use fj_kernel::mesh::Color;

#[test]
fn default_color_is_red() {
    assert_eq!(Color::default(), Color([255, 0, 0, 255]));
}

#[test]
fn keys_set_actions() {
    let mut actions = Actions::new();
    assert!(!actions.exit && !actions.toggle_model && !actions.toggle_mesh);
    handle_keyboard_input(Key::Key1, ElementState::Released, &mut actions);
    assert!(!actions.toggle_model);
    handle_keyboard_input(Key::Key1, ElementState::Pressed, &mut actions);
    assert!(actions.toggle_model);
    handle_keyboard_input(Key::Escape, ElementState::Pressed, &mut actions);
    assert!(actions.exit);
    assert!(!actions.toggle_mesh);
}

#[test]
fn buttons_switch_drag_modes() {
    let mut drag = DragState::new();
    drag.handle_mouse_input(MouseButton::Left, ElementState::Pressed);
    assert!(drag.rotating && !drag.moving);
    drag.handle_mouse_input(MouseButton::Right, ElementState::Pressed);
    assert!(drag.moving);
    drag.handle_mouse_input(MouseButton::Left, ElementState::Released);
    assert!(!drag.rotating && drag.moving);
}
