use voxel_mesh::input::{
    fetch_motion, get_key, get_key_with_cooldown, handle_device_event, handle_window_event,
    CooldownMap, DeviceEvent, ElementState, KeyMap, Mouse, WindowEvent,
};

fn press(keys: &mut KeyMap, mouse: &mut Mouse, keycode: u32) {
    let event = WindowEvent::KeyboardInput { keycode, state: ElementState::Pressed };
    handle_window_event(keys, mouse, &event);
}

fn release(keys: &mut KeyMap, mouse: &mut Mouse, keycode: u32) {
    let event = WindowEvent::KeyboardInput { keycode, state: ElementState::Released };
    handle_window_event(keys, mouse, &event);
}

#[test]
fn new_mouse_is_at_rest() {
    assert_eq!(Mouse::new(), Mouse { dx: 0, dy: 0, pos_x: 0, pos_y: 0 });
}

#[test]
fn motion_adds_up_until_fetched() {
    let mut mouse = Mouse::new();
    mouse.store_motion(3, -4);
    mouse.store_motion(10, 1);
    assert_eq!(mouse, Mouse { dx: 13, dy: -3, pos_x: 0, pos_y: 0 });
    assert_eq!(fetch_motion(&mut mouse), (13, -3));
    assert_eq!(fetch_motion(&mut mouse), (0, 0));
    assert_eq!(mouse, Mouse::new());
}

#[test]
fn motion_wraps_around() {
    let mut mouse = Mouse::new();
    mouse.store_motion(i32::MAX, i32::MIN);
    mouse.store_motion(1, -1);
    assert_eq!(fetch_motion(&mut mouse), (i32::MIN, i32::MAX));
}

#[test]
fn fetch_keeps_the_cursor_position() {
    let mut mouse = Mouse::new();
    mouse.update_pos(40, 30);
    mouse.store_motion(1, 2);
    assert_eq!(fetch_motion(&mut mouse), (1, 2));
    assert_eq!(mouse, Mouse { dx: 0, dy: 0, pos_x: 40, pos_y: 30 });
}

#[test]
fn device_events_move_the_mouse() {
    let mut mouse = Mouse::new();
    handle_device_event(&mut mouse, &DeviceEvent::MouseMotion { dx: 5, dy: 6 });
    handle_device_event(&mut mouse, &DeviceEvent::Other);
    handle_device_event(&mut mouse, &DeviceEvent::MouseMotion { dx: -1, dy: -1 });
    assert_eq!(mouse, Mouse { dx: 4, dy: 5, pos_x: 0, pos_y: 0 });
}

#[test]
fn unseen_key_is_up() {
    let keys = KeyMap::new();
    assert!(!get_key(&keys, 0));
    assert!(!get_key(&keys, 42));
}

#[test]
fn window_events_set_keys_and_cursor() {
    let mut keys = KeyMap::new();
    let mut mouse = Mouse::new();
    press(&mut keys, &mut mouse, 42);
    assert!(get_key(&keys, 42));
    assert!(!get_key(&keys, 43));
    press(&mut keys, &mut mouse, 43);
    release(&mut keys, &mut mouse, 42);
    assert!(!get_key(&keys, 42));
    assert!(get_key(&keys, 43));
    assert_eq!(mouse, Mouse::new());
    handle_window_event(&mut keys, &mut mouse, &WindowEvent::CursorMoved { x: 7, y: -9 });
    assert_eq!(mouse, Mouse { dx: 0, dy: 0, pos_x: 7, pos_y: -9 });
    handle_window_event(&mut keys, &mut mouse, &WindowEvent::Other);
    assert_eq!(mouse, Mouse { dx: 0, dy: 0, pos_x: 7, pos_y: -9 });
    assert!(get_key(&keys, 43));
}

#[test]
fn key_fires_once_per_cooldown() {
    let mut keys = KeyMap::new();
    let mut mouse = Mouse::new();
    let mut cooldowns = CooldownMap::new();
    assert!(!get_key_with_cooldown(&keys, &mut cooldowns, 1, 300, 1000));
    press(&mut keys, &mut mouse, 1);
    assert!(get_key_with_cooldown(&keys, &mut cooldowns, 1, 300, 1000));
    assert!(!get_key_with_cooldown(&keys, &mut cooldowns, 1, 300, 1001));
    assert!(!get_key_with_cooldown(&keys, &mut cooldowns, 1, 300, 1300));
    assert!(get_key_with_cooldown(&keys, &mut cooldowns, 1, 300, 1301));
    assert!(!get_key_with_cooldown(&keys, &mut cooldowns, 1, 300, 1601));
    assert!(get_key_with_cooldown(&keys, &mut cooldowns, 1, 300, 1602));
}

#[test]
fn failed_firing_does_not_restart_the_cooldown() {
    let mut keys = KeyMap::new();
    let mut mouse = Mouse::new();
    let mut cooldowns = CooldownMap::new();
    press(&mut keys, &mut mouse, 9);
    assert!(get_key_with_cooldown(&keys, &mut cooldowns, 9, 100, 0));
    assert!(!get_key_with_cooldown(&keys, &mut cooldowns, 9, 100, 60));
    assert!(get_key_with_cooldown(&keys, &mut cooldowns, 9, 100, 101));
}

#[test]
fn released_key_does_not_fire_and_keeps_its_cooldown() {
    let mut keys = KeyMap::new();
    let mut mouse = Mouse::new();
    let mut cooldowns = CooldownMap::new();
    press(&mut keys, &mut mouse, 3);
    assert!(get_key_with_cooldown(&keys, &mut cooldowns, 3, 50, 10));
    release(&mut keys, &mut mouse, 3);
    assert!(!get_key_with_cooldown(&keys, &mut cooldowns, 3, 50, 500));
    press(&mut keys, &mut mouse, 3);
    assert!(!get_key_with_cooldown(&keys, &mut cooldowns, 3, 50, 60));
    assert!(get_key_with_cooldown(&keys, &mut cooldowns, 3, 50, 61));
}

#[test]
fn keys_cool_down_apart() {
    let mut keys = KeyMap::new();
    let mut mouse = Mouse::new();
    let mut cooldowns = CooldownMap::new();
    press(&mut keys, &mut mouse, 1);
    press(&mut keys, &mut mouse, 2);
    assert!(get_key_with_cooldown(&keys, &mut cooldowns, 1, 10, 100));
    assert!(get_key_with_cooldown(&keys, &mut cooldowns, 2, 10, 105));
    assert!(!get_key_with_cooldown(&keys, &mut cooldowns, 2, 10, 111));
    assert!(get_key_with_cooldown(&keys, &mut cooldowns, 1, 10, 111));
}

#[test]
fn clock_running_backwards_does_not_fire() {
    let mut keys = KeyMap::new();
    let mut mouse = Mouse::new();
    let mut cooldowns = CooldownMap::new();
    press(&mut keys, &mut mouse, 1);
    assert!(get_key_with_cooldown(&keys, &mut cooldowns, 1, 0, 100));
    assert!(!get_key_with_cooldown(&keys, &mut cooldowns, 1, 0, 100));
    assert!(!get_key_with_cooldown(&keys, &mut cooldowns, 1, 0, 50));
    assert!(get_key_with_cooldown(&keys, &mut cooldowns, 1, 0, 101));
}
