//! Keyboard and mouse state.
//!
//! The window system reports events; this module folds them into the state
//! that the rest of the program asks about: which keys are down, how far the
//! mouse has moved since it was last asked, and when a key last fired. Keys are
//! named by number and times are counted in whole ticks of the caller's clock.

use dashmap::DashMap;
use vstd::prelude::*;

verus! {

/// The concurrent map of the `dashmap` crate, carried as an opaque value.
#[verifier::external_type_specification]
#[verifier::external_body]
#[verifier::reject_recursive_types(K)]
#[verifier::reject_recursive_types(V)]
#[verifier::reject_recursive_types(S)]
pub struct ExDashMap<K, V, S>(DashMap<K, V, S>);

/// What a map from keys to their pressed state holds.
pub uninterp spec fn key_states(map: DashMap<u32, bool>) -> Map<u32, bool>;

/// What a map from keys to the tick of their last firing holds.
pub uninterp spec fn fire_ticks(map: DashMap<u32, u64>) -> Map<u32, u64>;

/// `DashMap::new` for a map of pressed states: the new map holds nothing.
#[verifier::external_body]
fn states_new() -> (fresh: DashMap<u32, bool>)
    ensures
        key_states(fresh) == no_states(),
{
    DashMap::new()
}

/// `DashMap::get` on a map of pressed states, the entry copied out: the value
/// stored under `key`, or nothing where the map has no such key.
#[verifier::external_body]
fn states_get(map: &DashMap<u32, bool>, key: u32) -> (found: Option<bool>)
    ensures
        found == lookup(key_states(*map), key),
{
    match map.get(&key) {
        Some(entry) => Some(*entry),
        None => None,
    }
}

/// `DashMap::insert` on a map of pressed states: afterwards `key` holds
/// `value` and every other key holds what it held; the value that `key` held
/// before is returned.
#[verifier::external_body]
fn states_insert(map: &mut DashMap<u32, bool>, key: u32, value: bool) -> (previous: Option<bool>)
    ensures
        key_states(*final(map)) == key_states(*old(map)).insert(key, value),
        previous == lookup(key_states(*old(map)), key),
{
    map.insert(key, value)
}

/// `DashMap::new` for a map of firing ticks: the new map holds nothing.
#[verifier::external_body]
fn ticks_new() -> (fresh: DashMap<u32, u64>)
    ensures
        fire_ticks(fresh) == no_ticks(),
{
    DashMap::new()
}

/// `DashMap::get` on a map of firing ticks, the entry copied out: the value
/// stored under `key`, or nothing where the map has no such key.
#[verifier::external_body]
fn ticks_get(map: &DashMap<u32, u64>, key: u32) -> (found: Option<u64>)
    ensures
        found == lookup(fire_ticks(*map), key),
{
    match map.get(&key) {
        Some(entry) => Some(*entry),
        None => None,
    }
}

/// `DashMap::insert` on a map of firing ticks: afterwards `key` holds `value`
/// and every other key holds what it held; the value that `key` held before is
/// returned.
#[verifier::external_body]
fn ticks_insert(map: &mut DashMap<u32, u64>, key: u32, value: u64) -> (previous: Option<u64>)
    ensures
        fire_ticks(*final(map)) == fire_ticks(*old(map)).insert(key, value),
        previous == lookup(fire_ticks(*old(map)), key),
{
    map.insert(key, value)
}

/// The map of pressed states that holds nothing.
pub open spec fn no_states() -> Map<u32, bool> {
    Map::empty()
}

/// The map of firing ticks that holds nothing.
pub open spec fn no_ticks() -> Map<u32, u64> {
    Map::empty()
}

/// The value that `map` holds under `key`, if any.
pub open spec fn lookup<V>(map: Map<u32, V>, key: u32) -> Option<V> {
    if map.dom().contains(key) {
        Some(map[key])
    } else {
        None
    }
}

/// The sum of two 32-bit signed numbers, wrapped around at the ends of their
/// range.
pub open spec fn wrapped_sum(a: i32, b: i32) -> i32 {
    if a + b > i32::MAX {
        (a + b - 0x1_0000_0000) as i32
    } else if a + b < i32::MIN {
        (a + b + 0x1_0000_0000) as i32
    } else {
        (a + b) as i32
    }
}

/// Whether a key went down or came up.
#[derive(Clone, Copy, Debug, PartialEq, Eq, Structural)]
pub enum ElementState {
    Pressed,
    Released,
}

/// What the window reports.
#[derive(Clone, Copy, Debug, PartialEq, Eq, Structural)]
pub enum WindowEvent {
    /// A key with a known code changed state.
    KeyboardInput { keycode: u32, state: ElementState },
    /// The cursor moved to a position inside the window.
    CursorMoved { x: i32, y: i32 },
    /// Anything else.
    Other,
}

/// What an input device reports.
#[derive(Clone, Copy, Debug, PartialEq, Eq, Structural)]
pub enum DeviceEvent {
    /// The mouse moved by a distance.
    MouseMotion { dx: i32, dy: i32 },
    /// Anything else.
    Other,
}

/// The motion gathered since it was last fetched, and the cursor's position.
#[derive(Clone, Copy, Debug, PartialEq, Eq, Structural)]
pub struct Mouse {
    pub dx: i32,
    pub dy: i32,
    pub pos_x: i32,
    pub pos_y: i32,
}

impl Mouse {
    /// A mouse at rest in the corner of the window.
    pub fn new() -> (mouse: Mouse)
        ensures
            mouse == (Mouse { dx: 0, dy: 0, pos_x: 0, pos_y: 0 }),
    {
        Mouse { dx: 0, dy: 0, pos_x: 0, pos_y: 0 }
    }

    /// Adds a movement to the gathered motion.
    pub fn store_motion(&mut self, x: i32, y: i32)
        ensures
            *final(self) == (Mouse {
                dx: wrapped_sum(old(self).dx, x),
                dy: wrapped_sum(old(self).dy, y),
                ..*old(self)
            }),
    {
        self.dx = self.dx.wrapping_add(x);
        self.dy = self.dy.wrapping_add(y);
    }

    /// Records where the cursor is.
    pub fn update_pos(&mut self, x: i32, y: i32)
        ensures
            *final(self) == (Mouse { pos_x: x, pos_y: y, ..*old(self) }),
    {
        self.pos_x = x;
        self.pos_y = y;
    }
}

/// Which keys are down.
pub struct KeyMap {
    inner: DashMap<u32, bool>,
}

impl View for KeyMap {
    type V = Map<u32, bool>;

    closed spec fn view(&self) -> Map<u32, bool> {
        key_states(self.inner)
    }
}

impl KeyMap {
    /// A key map in which no key has been seen.
    pub fn new() -> (keys: KeyMap)
        ensures
            keys@ == no_states(),
    {
        KeyMap { inner: states_new() }
    }
}

/// When each key last fired.
pub struct CooldownMap {
    inner: DashMap<u32, u64>,
}

impl View for CooldownMap {
    type V = Map<u32, u64>;

    closed spec fn view(&self) -> Map<u32, u64> {
        fire_ticks(self.inner)
    }
}

impl CooldownMap {
    /// A cooldown map in which no key has fired.
    pub fn new() -> (cooldowns: CooldownMap)
        ensures
            cooldowns@ == no_ticks(),
    {
        CooldownMap { inner: ticks_new() }
    }
}

/// Whether `keys` records `keycode` as down.
pub open spec fn key_down(keys: Map<u32, bool>, keycode: u32) -> bool {
    keys.dom().contains(keycode) && keys[keycode]
}

/// Whether a key that is held down fires at tick `now`: it does when it has not
/// fired before, or when more than `cooltime` ticks have passed since it did.
pub open spec fn cooled_down(cooldowns: Map<u32, u64>, keycode: u32, cooltime: u64, now: u64) -> bool {
    !cooldowns.dom().contains(keycode) || now - cooldowns[keycode] > cooltime
}

/// Takes the motion gathered so far and starts gathering anew.
pub fn fetch_motion(mouse: &mut Mouse) -> (motion: (i32, i32))
    ensures
        motion == (old(mouse).dx, old(mouse).dy),
        *final(mouse) == (Mouse { dx: 0, dy: 0, ..*old(mouse) }),
{
    let dx: i32 = mouse.dx;
    let dy: i32 = mouse.dy;
    mouse.dx = 0;
    mouse.dy = 0;
    (dx, dy)
}

/// Whether a key is down. A key that was never seen is up.
pub fn get_key(keys: &KeyMap, keycode: u32) -> (down: bool)
    ensures
        down == key_down(keys@, keycode),
{
    match states_get(&keys.inner, keycode) {
        None => false,
        Some(state) => state,
    }
}

/// Whether a key fires at tick `now`: it must be down, and it fires at most
/// once in any stretch of `cooltime` ticks. A firing is recorded.
pub fn get_key_with_cooldown(
    keys: &KeyMap,
    cooldowns: &mut CooldownMap,
    keycode: u32,
    cooltime: u64,
    now: u64,
) -> (fired: bool)
    ensures
        fired == (key_down(keys@, keycode) && cooled_down(old(cooldowns)@, keycode, cooltime, now)),
        final(cooldowns)@ == (if fired {
            old(cooldowns)@.insert(keycode, now)
        } else {
            old(cooldowns)@
        }),
{
    if !get_key(keys, keycode) {
        return false;
    }
    match ticks_get(&cooldowns.inner, keycode) {
        None => {
            ticks_insert(&mut cooldowns.inner, keycode, now);
            true
        },
        Some(last) => {
            if now > last && now - last > cooltime {
                ticks_insert(&mut cooldowns.inner, keycode, now);
                true
            } else {
                false
            }
        },
    }
}

/// Folds a window event into the key map and the mouse: a key event records
/// whether the key is down, a cursor event records the position.
pub fn handle_window_event(keys: &mut KeyMap, mouse: &mut Mouse, event: &WindowEvent)
    ensures
        final(keys)@ == (match *event {
            WindowEvent::KeyboardInput { keycode, state } => old(keys)@.insert(
                keycode,
                state == ElementState::Pressed,
            ),
            _ => old(keys)@,
        }),
        *final(mouse) == (match *event {
            WindowEvent::CursorMoved { x, y } => Mouse { pos_x: x, pos_y: y, ..*old(mouse) },
            _ => *old(mouse),
        }),
{
    match *event {
        WindowEvent::KeyboardInput { keycode, state } => {
            match state {
                ElementState::Pressed => states_insert(&mut keys.inner, keycode, true),
                ElementState::Released => states_insert(&mut keys.inner, keycode, false),
            };
        },
        WindowEvent::CursorMoved { x, y } => mouse.update_pos(x, y),
        WindowEvent::Other => {},
    }
}

/// Folds a device event into the mouse: a movement is added to the gathered
/// motion.
pub fn handle_device_event(mouse: &mut Mouse, event: &DeviceEvent)
    ensures
        *final(mouse) == (match *event {
            DeviceEvent::MouseMotion { dx, dy } => Mouse {
                dx: wrapped_sum(old(mouse).dx, dx),
                dy: wrapped_sum(old(mouse).dy, dy),
                ..*old(mouse)
            },
            DeviceEvent::Other => *old(mouse),
        }),
{
    match *event {
        DeviceEvent::MouseMotion { dx, dy } => mouse.store_motion(dx, dy),
        DeviceEvent::Other => {},
    }
}

} // verus!
