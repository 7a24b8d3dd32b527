//! Physical keys, key events and the map of keys currently held.
use vstd::prelude::*;

verus! {

/// Number of distinct keys.
pub const KEY_COUNT: usize = 20;

/// Every physical key of the device.
#[derive(Debug, Clone, Copy, PartialEq, Eq, Hash, Structural)]
pub enum Key {
    Up,
    Down,
    Left,
    Right,
    A,
    B,
    X,
    Y,
    Start,
    Select,
    L,
    R,
    Menu,
    L2,
    R2,
    Power,
    VolDown,
    VolUp,
    LidClose,
    Unknown,
}

/// One event of the input stream.
#[derive(Debug, Clone, Copy, PartialEq, Eq, Structural)]
pub enum KeyEvent {
    Pressed(Key),
    Released(Key),
    Autorepeat(Key),
}

impl Key {
    /// The key's slot in a press map.
    pub open spec fn slot(self) -> int {
        match self {
            Key::Up => 0,
            Key::Down => 1,
            Key::Left => 2,
            Key::Right => 3,
            Key::A => 4,
            Key::B => 5,
            Key::X => 6,
            Key::Y => 7,
            Key::Start => 8,
            Key::Select => 9,
            Key::L => 10,
            Key::R => 11,
            Key::Menu => 12,
            Key::L2 => 13,
            Key::R2 => 14,
            Key::Power => 15,
            Key::VolDown => 16,
            Key::VolUp => 17,
            Key::LidClose => 18,
            Key::Unknown => 19,
        }
    }

    /// The key's slot in a press map.
    pub fn index(self) -> (r: usize)
        ensures
            r as int == self.slot(),
            r < KEY_COUNT,
    {
        match self {
            Key::Up => 0,
            Key::Down => 1,
            Key::Left => 2,
            Key::Right => 3,
            Key::A => 4,
            Key::B => 5,
            Key::X => 6,
            Key::Y => 7,
            Key::Start => 8,
            Key::Select => 9,
            Key::L => 10,
            Key::R => 11,
            Key::Menu => 12,
            Key::L2 => 13,
            Key::R2 => 14,
            Key::Power => 15,
            Key::VolDown => 16,
            Key::VolUp => 17,
            Key::LidClose => 18,
            Key::Unknown => 19,
        }
    }
}

/// Two keys share a slot only if they are the same key.
pub proof fn lemma_slot_injective(a: Key, b: Key)
    ensures
        0 <= a.slot() < KEY_COUNT,
        a.slot() == b.slot() ==> a == b,
{
}

/// Which keys are currently held, one flag per key.
#[derive(Debug)]
pub struct KeyPressMap {
    held: Vec<bool>,
}

impl View for KeyPressMap {
    type V = Seq<bool>;

    closed spec fn view(&self) -> Seq<bool> {
        self.held@
    }
}

impl KeyPressMap {
    pub open spec fn wf(&self) -> bool {
        self@.len() == KEY_COUNT
    }

    /// Whether `k` is held, in the model.
    pub open spec fn spec_held(&self, k: Key) -> bool {
        self@[k.slot()]
    }

    /// A map where no key is held.
    pub fn new() -> (r: KeyPressMap)
        ensures
            r.wf(),
            forall|i: int| 0 <= i < KEY_COUNT ==> !r@[i],
    {
        let mut held: Vec<bool> = Vec::new();
        let mut i: usize = 0;
        while i < KEY_COUNT
            invariant
                i <= KEY_COUNT,
                held@.len() == i,
                forall|j: int| 0 <= j < i ==> !held@[j],
            decreases KEY_COUNT - i,
        {
            held.push(false);
            i += 1;
        }
        KeyPressMap { held }
    }

    /// Whether `k` is held.
    pub fn is_held(&self, k: Key) -> (r: bool)
        requires
            self.wf(),
        ensures
            r == self.spec_held(k),
    {
        self.held[k.index()]
    }

    /// Records that `k` is held (`down`) or not.
    pub fn set(&mut self, k: Key, down: bool)
        requires
            old(self).wf(),
        ensures
            final(self)@ == old(self)@.update(k.slot(), down),
    {
        let i = k.index();
        self.held.set(i, down);
    }

    /// Whether no key but `except` is held.
    pub fn only_held(&self, except: Key) -> (r: bool)
        requires
            self.wf(),
        ensures
            r == (forall|i: int| 0 <= i < KEY_COUNT && i != except.slot() ==> !self@[i]),
    {
        let e = except.index();
        let mut i: usize = 0;
        while i < KEY_COUNT
            invariant
                i <= KEY_COUNT,
                self.wf(),
                e as int == except.slot(),
                forall|j: int| 0 <= j < i && j != e ==> !self@[j],
            decreases KEY_COUNT - i,
        {
            if i != e && self.held[i] {
                return false;
            }
            i += 1;
        }
        true
    }
}

} // verus!
