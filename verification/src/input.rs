//! Keys, mouse buttons and the input snapshot that the dispatcher keeps.

use vstd::prelude::*;
use crate::context::TetraContext;
use crate::math::Vec2;

verus! {

/// A key of the keyboard.
#[derive(Clone, Copy, Debug, PartialEq, Eq, Hash, Structural)]
pub enum Key {
    A,
    B,
    C,
    D,
    E,
    F,
    G,
    H,
    I,
    J,
    K,
    L,
    M,
    N,
    O,
    P,
    Q,
    R,
    S,
    T,
    U,
    V,
    W,
    X,
    Y,
    Z,
    Num0,
    Num1,
    Num2,
    Num3,
    Num4,
    Num5,
    Num6,
    Num7,
    Num8,
    Num9,
    F1,
    F2,
    F3,
    F4,
    F5,
    F6,
    F7,
    F8,
    F9,
    F10,
    F11,
    F12,
    Up,
    Down,
    Left,
    Right,
    LeftCtrl,
    LeftShift,
    LeftAlt,
    RightCtrl,
    RightShift,
    RightAlt,
    Backspace,
    CapsLock,
    Delete,
    End,
    Enter,
    Escape,
    Home,
    Insert,
    PageDown,
    PageUp,
    Space,
    Tab,
}

/// A group of keys that act as one modifier.
#[derive(Clone, Copy, Debug, PartialEq, Eq, Hash, Structural)]
pub enum KeyModifier {
    Ctrl,
    Alt,
    Shift,
}

/// Which modifiers were held when a key event was produced.
#[derive(Clone, Copy, Debug, PartialEq, Eq, Structural)]
pub struct KeyModifiers {
    pub ctrl: bool,
    pub alt: bool,
    pub shift: bool,
}

/// A button of the mouse.
#[derive(Clone, Copy, Debug, PartialEq, Eq, Hash, Structural)]
pub enum MouseButton {
    Left,
    Middle,
    Right,
    X1,
    X2,
}

/// A set of keys.
#[derive(Debug)]
pub struct KeySet {
    keys: Vec<Key>,
}

impl View for KeySet {
    type V = Set<Key>;

    closed spec fn view(&self) -> Set<Key> {
        Set::new(|key: Key| self.keys@.contains(key))
    }
}

/// A copy of `keys` with `extra` at the end, if there is one.
fn copy_with(keys: &Vec<Key>, extra: Option<Key>) -> (copy: Vec<Key>)
    ensures
        copy@ == match extra {
            Some(key) => keys@.push(key),
            None => keys@,
        },
{
    let mut copy: Vec<Key> = Vec::new();
    let mut i: usize = 0;
    while i < keys.len()
        invariant
            0 <= i <= keys@.len(),
            copy@ == keys@.subrange(0, i as int),
        decreases keys@.len() - i,
    {
        copy.push(keys[i]);
        assert(copy@ =~= keys@.subrange(0, i + 1));
        i = i + 1;
    }
    assert(copy@ =~= keys@);
    match extra {
        Some(key) => {
            copy.push(key);
        },
        None => {},
    }
    copy
}

impl KeySet {
    #[verifier::type_invariant]
    closed spec fn well_formed(&self) -> bool {
        self.keys@.no_duplicates()
    }

    pub fn new() -> (set: KeySet)
        ensures
            set@ == Set::<Key>::empty(),
    {
        let set = KeySet { keys: Vec::new() };
        assert(set@ =~= Set::<Key>::empty());
        set
    }

    pub fn contains(&self, key: Key) -> (found: bool)
        ensures
            found == self@.contains(key),
    {
        let mut i: usize = 0;
        while i < self.keys.len()
            invariant
                0 <= i <= self.keys@.len(),
                forall|j: int| 0 <= j < i ==> self.keys@[j] != key,
            decreases self.keys@.len() - i,
        {
            if self.keys[i] == key {
                assert(self.keys@[i as int] == key);
                return true;
            }
            i = i + 1;
        }
        false
    }

    /// Adds `key`; a key that is in the set already stays in it once.
    pub fn insert(&mut self, key: Key)
        ensures
            final(self)@ == old(self)@.insert(key),
    {
        proof {
            use_type_invariant(&*self);
        }
        if !self.contains(key) {
            let grown = copy_with(&self.keys, Some(key));
            proof {
                let before = self.keys@;
                assert forall|k: Key| grown@.contains(k) <==> (before.contains(k) || k == key) by {
                    if before.contains(k) {
                        let j = choose|j: int| 0 <= j < before.len() && before[j] == k;
                        assert(grown@[j] == k);
                    }
                    if k == key {
                        assert(grown@[before.len() as int] == k);
                    }
                }
            }
            self.keys = grown;
            assert(self@ =~= old(self)@.insert(key));
        } else {
            assert(self@ =~= old(self)@.insert(key));
        }
    }

    /// Takes `key` out of the set.
    pub fn remove(&mut self, key: Key)
        ensures
            final(self)@ == old(self)@.remove(key),
    {
        proof {
            use_type_invariant(&*self);
        }
        let mut kept: Vec<Key> = Vec::new();
        let mut i: usize = 0;
        while i < self.keys.len()
            invariant
                0 <= i <= self.keys@.len(),
                self.keys@ == old(self).keys@,
                self.keys@.no_duplicates(),
                kept@.no_duplicates(),
                forall|j: int|
                    0 <= j < kept@.len() ==> kept@[j] != key && exists|at: int|
                        0 <= at < i && self.keys@[at] == #[trigger] kept@[j],
                forall|j: int| 0 <= j < i && self.keys@[j] != key ==> kept@.contains(#[trigger] self.keys@[j]),
            decreases self.keys@.len() - i,
        {
            let k: Key = self.keys[i];
            if k != key {
                let ghost before = kept@;
                kept.push(k);
                proof {
                    assert(kept@[before.len() as int] == k);
                    assert forall|j: int| 0 <= j < i + 1 && self.keys@[j] != key implies kept@.contains(
                        #[trigger] self.keys@[j],
                    ) by {
                        if j < i {
                            let at = choose|at: int| 0 <= at < before.len() && before[at] == self.keys@[j];
                            assert(kept@[at] == self.keys@[j]);
                        }
                    }
                    assert forall|j: int| 0 <= j < kept@.len() implies kept@[j] != key && exists|at: int|
                        0 <= at < i + 1 && self.keys@[at] == #[trigger] kept@[j] by {
                        if j < before.len() {
                            let at = choose|at: int| 0 <= at < i && self.keys@[at] == before[j];
                            assert(self.keys@[at] == kept@[j]);
                        } else {
                            assert(self.keys@[i as int] == kept@[j]);
                        }
                    }
                    assert forall|a: int, b: int| 0 <= a < kept@.len() && 0 <= b < kept@.len() && a
                        != b implies kept@[a] != kept@[b] by {
                        if a == before.len() {
                            let at = choose|at: int| 0 <= at < i && self.keys@[at] == before[b];
                        } else if b == before.len() {
                            let at = choose|at: int| 0 <= at < i && self.keys@[at] == before[a];
                        }
                    }
                }
            }
            i = i + 1;
        }
        proof {
            let before = old(self).keys@;
            assert forall|k: Key| kept@.contains(k) <==> (before.contains(k) && k != key) by {
                if kept@.contains(k) {
                    let j = choose|j: int| 0 <= j < kept@.len() && kept@[j] == k;
                    let at = choose|at: int| 0 <= at < before.len() && before[at] == kept@[j];
                }
                if before.contains(k) && k != key {
                    let j = choose|j: int| 0 <= j < before.len() && before[j] == k;
                    assert(kept@.contains(before[j]));
                }
            }
        }
        self.keys = kept;
        assert(self@ =~= old(self)@.remove(key));
    }

    /// Empties the set.
    pub fn clear(&mut self)
        ensures
            final(self)@ == Set::<Key>::empty(),
    {
        self.keys = Vec::new();
        assert(self@ =~= Set::<Key>::empty());
    }

    /// The keys of the set, each once, in no particular order.
    pub fn to_vec(&self) -> (keys: Vec<Key>)
        ensures
            keys@.no_duplicates(),
            forall|key: Key| keys@.contains(key) <==> self@.contains(key),
    {
        proof {
            use_type_invariant(self);
        }
        copy_with(&self.keys, None)
    }
}

/// A set of mouse buttons.
#[derive(Clone, Copy, Debug, PartialEq, Eq, Structural)]
pub struct ButtonSet {
    pub left: bool,
    pub middle: bool,
    pub right: bool,
    pub x1: bool,
    pub x2: bool,
}

impl ButtonSet {
    pub open spec fn spec_contains(self, button: MouseButton) -> bool {
        match button {
            MouseButton::Left => self.left,
            MouseButton::Middle => self.middle,
            MouseButton::Right => self.right,
            MouseButton::X1 => self.x1,
            MouseButton::X2 => self.x2,
        }
    }

    /// The set with `button` in it if `member` is true, without it otherwise.
    pub open spec fn spec_with(self, button: MouseButton, member: bool) -> ButtonSet {
        match button {
            MouseButton::Left => ButtonSet { left: member, ..self },
            MouseButton::Middle => ButtonSet { middle: member, ..self },
            MouseButton::Right => ButtonSet { right: member, ..self },
            MouseButton::X1 => ButtonSet { x1: member, ..self },
            MouseButton::X2 => ButtonSet { x2: member, ..self },
        }
    }

    pub open spec fn spec_empty() -> ButtonSet {
        ButtonSet { left: false, middle: false, right: false, x1: false, x2: false }
    }

    pub fn empty() -> (set: ButtonSet)
        ensures
            set == ButtonSet::spec_empty(),
    {
        ButtonSet { left: false, middle: false, right: false, x1: false, x2: false }
    }

    #[verifier::when_used_as_spec(spec_contains)]
    pub fn contains(self, button: MouseButton) -> (found: bool)
        ensures
            found == self.spec_contains(button),
    {
        match button {
            MouseButton::Left => self.left,
            MouseButton::Middle => self.middle,
            MouseButton::Right => self.right,
            MouseButton::X1 => self.x1,
            MouseButton::X2 => self.x2,
        }
    }

    #[verifier::when_used_as_spec(spec_with)]
    pub fn with(self, button: MouseButton, member: bool) -> (set: ButtonSet)
        ensures
            set == self.spec_with(button, member),
    {
        match button {
            MouseButton::Left => ButtonSet { left: member, ..self },
            MouseButton::Middle => ButtonSet { middle: member, ..self },
            MouseButton::Right => ButtonSet { right: member, ..self },
            MouseButton::X1 => ButtonSet { x1: member, ..self },
            MouseButton::X2 => ButtonSet { x2: member, ..self },
        }
    }
}

/// What the keyboard and the mouse look like to the application.
///
/// `keys_down` and `buttons_down` hold what is held right now. The `pressed`
/// and `released` sets hold what changed since they were last cleared, which
/// the runtime does after every update.
#[derive(Debug)]
pub struct InputState {
    pub keys_down: KeySet,
    pub keys_pressed: KeySet,
    pub keys_released: KeySet,
    pub buttons_down: ButtonSet,
    pub buttons_pressed: ButtonSet,
    pub buttons_released: ButtonSet,
    pub mouse_position: Vec2,
}

/// The input snapshot as plain values.
pub ghost struct InputView {
    pub keys_down: Set<Key>,
    pub keys_pressed: Set<Key>,
    pub keys_released: Set<Key>,
    pub buttons_down: ButtonSet,
    pub buttons_pressed: ButtonSet,
    pub buttons_released: ButtonSet,
    pub mouse_position: Vec2,
}

impl InputView {
    /// Nothing held, nothing changed, the mouse at the origin.
    pub open spec fn idle() -> InputView {
        InputView {
            keys_down: Set::empty(),
            keys_pressed: Set::empty(),
            keys_released: Set::empty(),
            buttons_down: ButtonSet::spec_empty(),
            buttons_pressed: ButtonSet::spec_empty(),
            buttons_released: ButtonSet::spec_empty(),
            mouse_position: Vec2 { x: 0, y: 0 },
        }
    }

    pub open spec fn key_down(self, key: Key) -> InputView {
        InputView {
            keys_down: self.keys_down.insert(key),
            keys_pressed: self.keys_pressed.insert(key),
            ..self
        }
    }

    pub open spec fn key_up(self, key: Key) -> InputView {
        InputView {
            keys_down: self.keys_down.remove(key),
            keys_released: self.keys_released.insert(key),
            ..self
        }
    }

    pub open spec fn button_down(self, button: MouseButton) -> InputView {
        InputView {
            buttons_down: self.buttons_down.spec_with(button, true),
            buttons_pressed: self.buttons_pressed.spec_with(button, true),
            ..self
        }
    }

    pub open spec fn button_up(self, button: MouseButton) -> InputView {
        InputView {
            buttons_down: self.buttons_down.spec_with(button, false),
            buttons_released: self.buttons_released.spec_with(button, true),
            ..self
        }
    }

    pub open spec fn mouse_at(self, position: Vec2) -> InputView {
        InputView { mouse_position: position, ..self }
    }

    /// The snapshot once the changes have been seen by an update.
    pub open spec fn settled(self) -> InputView {
        InputView {
            keys_pressed: Set::empty(),
            keys_released: Set::empty(),
            buttons_pressed: ButtonSet::spec_empty(),
            buttons_released: ButtonSet::spec_empty(),
            ..self
        }
    }

    pub open spec fn modifier_down(self, modifier: KeyModifier) -> bool {
        match modifier {
            KeyModifier::Ctrl => self.keys_down.contains(Key::LeftCtrl) || self.keys_down.contains(
                Key::RightCtrl,
            ),
            KeyModifier::Alt => self.keys_down.contains(Key::LeftAlt) || self.keys_down.contains(
                Key::RightAlt,
            ),
            KeyModifier::Shift => self.keys_down.contains(Key::LeftShift) || self.keys_down.contains(
                Key::RightShift,
            ),
        }
    }
}

impl View for InputState {
    type V = InputView;

    open spec fn view(&self) -> InputView {
        InputView {
            keys_down: self.keys_down@,
            keys_pressed: self.keys_pressed@,
            keys_released: self.keys_released@,
            buttons_down: self.buttons_down,
            buttons_pressed: self.buttons_pressed,
            buttons_released: self.buttons_released,
            mouse_position: self.mouse_position,
        }
    }
}

impl InputState {
    pub fn new() -> (input: InputState)
        ensures
            input@ == InputView::idle(),
    {
        InputState {
            keys_down: KeySet::new(),
            keys_pressed: KeySet::new(),
            keys_released: KeySet::new(),
            buttons_down: ButtonSet::empty(),
            buttons_pressed: ButtonSet::empty(),
            buttons_released: ButtonSet::empty(),
            mouse_position: Vec2::zero(),
        }
    }

    /// Records that `key` went down.
    pub fn set_key_down(&mut self, key: Key)
        ensures
            final(self)@ == old(self)@.key_down(key),
    {
        self.keys_down.insert(key);
        self.keys_pressed.insert(key);
    }

    /// Records that `key` came up.
    pub fn set_key_up(&mut self, key: Key)
        ensures
            final(self)@ == old(self)@.key_up(key),
    {
        self.keys_down.remove(key);
        self.keys_released.insert(key);
    }

    /// Records that `button` went down.
    pub fn set_mouse_button_down(&mut self, button: MouseButton)
        ensures
            final(self)@ == old(self)@.button_down(button),
    {
        self.buttons_down = self.buttons_down.with(button, true);
        self.buttons_pressed = self.buttons_pressed.with(button, true);
    }

    /// Records that `button` came up.
    pub fn set_mouse_button_up(&mut self, button: MouseButton)
        ensures
            final(self)@ == old(self)@.button_up(button),
    {
        self.buttons_down = self.buttons_down.with(button, false);
        self.buttons_released = self.buttons_released.with(button, true);
    }

    /// Records where the mouse is.
    pub fn set_mouse_position(&mut self, position: Vec2)
        ensures
            final(self)@ == old(self)@.mouse_at(position),
    {
        self.mouse_position = position;
    }

    /// Forgets what was pressed and released; what is held stays held.
    pub fn clear(&mut self)
        ensures
            final(self)@ == old(self)@.settled(),
    {
        self.keys_pressed.clear();
        self.keys_released.clear();
        self.buttons_pressed = ButtonSet::empty();
        self.buttons_released = ButtonSet::empty();
    }
}

/// Whether `key` is held.
pub fn is_key_down(ctx: &TetraContext, key: Key) -> (down: bool)
    ensures
        down == ctx.input@.keys_down.contains(key),
{
    ctx.input.keys_down.contains(key)
}

/// Whether `key` is not held.
pub fn is_key_up(ctx: &TetraContext, key: Key) -> (up: bool)
    ensures
        up == !ctx.input@.keys_down.contains(key),
{
    !ctx.input.keys_down.contains(key)
}

/// Whether `key` went down since the last update.
pub fn is_key_pressed(ctx: &TetraContext, key: Key) -> (pressed: bool)
    ensures
        pressed == ctx.input@.keys_pressed.contains(key),
{
    ctx.input.keys_pressed.contains(key)
}

/// Whether `key` came up since the last update.
pub fn is_key_released(ctx: &TetraContext, key: Key) -> (released: bool)
    ensures
        released == ctx.input@.keys_released.contains(key),
{
    ctx.input.keys_released.contains(key)
}

/// Whether the left or the right key of `modifier` is held.
pub fn is_key_modifier_down(ctx: &TetraContext, modifier: KeyModifier) -> (down: bool)
    ensures
        down == ctx.input@.modifier_down(modifier),
{
    match modifier {
        KeyModifier::Ctrl => ctx.input.keys_down.contains(Key::LeftCtrl) || ctx.input.keys_down.contains(
            Key::RightCtrl,
        ),
        KeyModifier::Alt => ctx.input.keys_down.contains(Key::LeftAlt) || ctx.input.keys_down.contains(
            Key::RightAlt,
        ),
        KeyModifier::Shift => ctx.input.keys_down.contains(Key::LeftShift)
            || ctx.input.keys_down.contains(Key::RightShift),
    }
}

/// The keys that are held, each once, in no particular order.
pub fn get_keys_down(ctx: &TetraContext) -> (keys: Vec<Key>)
    ensures
        keys@.no_duplicates(),
        forall|key: Key| keys@.contains(key) <==> ctx.input@.keys_down.contains(key),
{
    ctx.input.keys_down.to_vec()
}

/// The keys that went down since the last update, each once, in no
/// particular order.
pub fn get_keys_pressed(ctx: &TetraContext) -> (keys: Vec<Key>)
    ensures
        keys@.no_duplicates(),
        forall|key: Key| keys@.contains(key) <==> ctx.input@.keys_pressed.contains(key),
{
    ctx.input.keys_pressed.to_vec()
}

/// The keys that came up since the last update, each once, in no
/// particular order.
pub fn get_keys_released(ctx: &TetraContext) -> (keys: Vec<Key>)
    ensures
        keys@.no_duplicates(),
        forall|key: Key| keys@.contains(key) <==> ctx.input@.keys_released.contains(key),
{
    ctx.input.keys_released.to_vec()
}

/// Whether `button` is held.
pub fn is_mouse_button_down(ctx: &TetraContext, button: MouseButton) -> (down: bool)
    ensures
        down == ctx.input@.buttons_down.spec_contains(button),
{
    ctx.input.buttons_down.contains(button)
}

/// Whether `button` is not held.
pub fn is_mouse_button_up(ctx: &TetraContext, button: MouseButton) -> (up: bool)
    ensures
        up == !ctx.input@.buttons_down.spec_contains(button),
{
    !ctx.input.buttons_down.contains(button)
}

/// Whether `button` went down since the last update.
pub fn is_mouse_button_pressed(ctx: &TetraContext, button: MouseButton) -> (pressed: bool)
    ensures
        pressed == ctx.input@.buttons_pressed.spec_contains(button),
{
    ctx.input.buttons_pressed.contains(button)
}

/// Whether `button` came up since the last update.
pub fn is_mouse_button_released(ctx: &TetraContext, button: MouseButton) -> (released: bool)
    ensures
        released == ctx.input@.buttons_released.spec_contains(button),
{
    ctx.input.buttons_released.contains(button)
}

/// Where the mouse is, in window coordinates.
pub fn get_mouse_position(ctx: &TetraContext) -> (position: Vec2)
    ensures
        position == ctx.input@.mouse_position,
{
    ctx.input.mouse_position
}

} // verus!
