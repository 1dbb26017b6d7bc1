//! The 16-key input latch.

use vstd::prelude::*;

verus! {

/// `k` is a key that is down while every key below it is up.
pub open spec fn is_lowest_pressed(keys: Seq<bool>, k: int) -> bool {
    &&& 0 <= k < keys.len()
    &&& keys[k]
    &&& forall|j: int| 0 <= j < k ==> !keys[j]
}

/// The lowest key that is down, if any key is.
pub open spec fn lowest_pressed(keys: Seq<bool>) -> Option<int> {
    if exists|k: int| is_lowest_pressed(keys, k) {
        Some(choose|k: int| is_lowest_pressed(keys, k))
    } else {
        None
    }
}

/// At most one key is the lowest one down, so `lowest_pressed` names it.
pub proof fn lemma_lowest_pressed_unique(keys: Seq<bool>, k: int)
    requires
        is_lowest_pressed(keys, k),
    ensures
        lowest_pressed(keys) == Some(k),
{
    let chosen = choose|c: int| is_lowest_pressed(keys, c);
    assert(is_lowest_pressed(keys, chosen));
    if chosen < k {
        assert(!keys[chosen]);
    } else if k < chosen {
        assert(!keys[k]);
    }
}

/// With every key up there is no lowest key down.
pub proof fn lemma_lowest_pressed_none(keys: Seq<bool>)
    requires
        forall|j: int| 0 <= j < keys.len() ==> !keys[j],
    ensures
        lowest_pressed(keys) is None,
{
}

/// The keypad of the machine: for each of the keys 0 to F, whether it is
/// down.
pub struct Keypad {
    keys: [bool; 16],
}

impl View for Keypad {
    type V = Seq<bool>;

    closed spec fn view(&self) -> Seq<bool> {
        self.keys@
    }
}

impl Keypad {
    /// Every keypad has exactly 16 keys.
    pub proof fn lemma_size(&self)
        ensures
            self@.len() == 16,
    {
    }

    /// A keypad with every key up.
    pub fn new() -> (keypad: Keypad)
        ensures
            keypad@ == Seq::new(16, |k: int| false),
    {
        let keys = [false; 16];
        Keypad { keys }
    }

    /// Records that a key went down.
    pub fn press(&mut self, key: usize)
        requires
            key < 16,
        ensures
            final(self)@ == old(self)@.update(key as int, true),
    {
        self.keys[key] = true;
    }

    /// Records that a key came up.
    pub fn release(&mut self, key: usize)
        requires
            key < 16,
        ensures
            final(self)@ == old(self)@.update(key as int, false),
    {
        self.keys[key] = false;
    }

    /// Whether a key is down.
    pub fn is_pressed(&self, key: usize) -> (down: bool)
        requires
            key < 16,
        ensures
            down == self@[key as int],
    {
        self.keys[key]
    }

    /// The state of all 16 keys.
    pub fn get_keys(&self) -> (keys: [bool; 16])
        ensures
            keys@ == self@,
    {
        self.keys
    }

    /// The lowest key that is currently down.
    pub fn wait_for_press(&self) -> (pressed: Option<u8>)
        ensures
            match pressed {
                Some(key) => is_lowest_pressed(self@, key as int) && lowest_pressed(self@) == Some(
                    key as int,
                ),
                None => lowest_pressed(self@) is None && forall|k: int|
                    0 <= k < 16 ==> !self@[k],
            },
    {
        let mut index: u8 = 0;
        while index < 16
            invariant
                index <= 16,
                forall|j: int| 0 <= j < index ==> !self@[j],
            decreases 16 - index,
        {
            if self.keys[index as usize] {
                proof {
                    lemma_lowest_pressed_unique(self@, index as int);
                }
                return Some(index);
            }
            index += 1;
        }
        proof {
            lemma_lowest_pressed_none(self@);
        }
        None
    }
}

} // verus!
