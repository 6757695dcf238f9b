use vstd::prelude::*;

verus! {

/// A physical key that the controller listens to.
#[derive(Clone, Copy, Debug, PartialEq, Eq, Structural)]
pub enum Key {
    W,
    S,
    A,
    D,
    ArrowUp,
    ArrowDown,
    ArrowLeft,
    ArrowRight,
    Other,
}

/// Which logical actions are held this frame.
#[derive(Clone, Copy, Debug, PartialEq, Eq, Structural)]
pub struct KeyState {
    pub forward: bool,
    pub back: bool,
    pub left: bool,
    pub right: bool,
}

/// The two scalar intents of a frame, each in {-1, 0, 1}.
/// A positive turn is counter-clockwise about the up axis.
#[derive(Clone, Copy, Debug, PartialEq, Eq, Structural)]
pub struct Intents {
    pub move_intent: i8,
    pub turn_intent: i8,
}

pub open spec fn is_unit_intent(v: int) -> bool {
    v == -1 || v == 0 || v == 1
}

impl Intents {
    pub open spec fn wf(self) -> bool {
        is_unit_intent(self.move_intent as int) && is_unit_intent(self.turn_intent as int)
    }
}

/// Forward is checked first and back second, so back wins a tie.
pub open spec fn move_intent_of(k: KeyState) -> int {
    if k.back {
        -1
    } else if k.forward {
        1
    } else {
        0
    }
}

/// Right is checked first and left second, so left wins a tie.
pub open spec fn turn_intent_of(k: KeyState) -> int {
    if k.left {
        1
    } else if k.right {
        -1
    } else {
        0
    }
}

pub open spec fn intents_of(k: KeyState) -> Intents {
    Intents { move_intent: move_intent_of(k) as i8, turn_intent: turn_intent_of(k) as i8 }
}

pub open spec fn binds_forward(k: Key) -> bool {
    k == Key::W || k == Key::ArrowUp
}

pub open spec fn binds_back(k: Key) -> bool {
    k == Key::S || k == Key::ArrowDown
}

pub open spec fn binds_left(k: Key) -> bool {
    k == Key::A || k == Key::ArrowLeft
}

pub open spec fn binds_right(k: Key) -> bool {
    k == Key::D || k == Key::ArrowRight
}

/// The logical key state when the keys of `held` are down.
pub open spec fn key_state_of(held: Seq<Key>) -> KeyState {
    KeyState {
        forward: exists|i: int| 0 <= i < held.len() && binds_forward(#[trigger] held[i]),
        back: exists|i: int| 0 <= i < held.len() && binds_back(#[trigger] held[i]),
        left: exists|i: int| 0 <= i < held.len() && binds_left(#[trigger] held[i]),
        right: exists|i: int| 0 <= i < held.len() && binds_right(#[trigger] held[i]),
    }
}

impl KeyState {
    pub fn none() -> (r: KeyState)
        ensures
            !r.forward && !r.back && !r.left && !r.right,
    {
        KeyState { forward: false, back: false, left: false, right: false }
    }

    /// Folds the held physical keys into logical actions: a letter key and
    /// its arrow key are synonyms.
    pub fn from_held(held: &Vec<Key>) -> (r: KeyState)
        ensures
            r == key_state_of(held@),
    {
        let mut r = KeyState::none();
        let mut i: usize = 0;
        while i < held.len()
            invariant
                i <= held@.len(),
                r.forward == exists|j: int| 0 <= j < i && binds_forward(#[trigger] held@[j]),
                r.back == exists|j: int| 0 <= j < i && binds_back(#[trigger] held@[j]),
                r.left == exists|j: int| 0 <= j < i && binds_left(#[trigger] held@[j]),
                r.right == exists|j: int| 0 <= j < i && binds_right(#[trigger] held@[j]),
            decreases held@.len() - i,
        {
            let k = held[i];
            match k {
                Key::W | Key::ArrowUp => r.forward = true,
                Key::S | Key::ArrowDown => r.back = true,
                Key::A | Key::ArrowLeft => r.left = true,
                Key::D | Key::ArrowRight => r.right = true,
                Key::Other => {},
            }
            i = i + 1;
        }
        r
    }
}

/// Reduces the key state of a frame to its move and turn intents.
pub fn map_intents(keys: &KeyState) -> (r: Intents)
    ensures
        r == intents_of(*keys),
        r.wf(),
{
    let mut move_intent: i8 = 0;
    let mut turn_intent: i8 = 0;
    if keys.forward {
        move_intent = 1;
    }
    if keys.back {
        move_intent = -1;
    }
    if keys.right {
        turn_intent = -1;
    }
    if keys.left {
        turn_intent = 1;
    }
    Intents { move_intent, turn_intent }
}

} // verus!
