//! The host keys that stand for the 16 keys of the keypad.
//!
//! The keypad is laid out as the block `1234 / QWER / ASDF / ZXCV` of a
//! keyboard:
//!
//! ```text
//! 1 2 3 C        1 2 3 4
//! 4 5 6 D   <-   Q W E R
//! 7 8 9 E        A S D F
//! A 0 B F        Z X C V
//! ```

use crate::keypad::Keypad;
use vstd::prelude::*;

verus! {

/// A key of the host keyboard that the keypad uses, named by its position.
#[derive(Debug, Clone, Copy, PartialEq, Eq)]
pub enum HostKey {
    Digit1,
    Digit2,
    Digit3,
    Digit4,
    KeyQ,
    KeyW,
    KeyE,
    KeyR,
    KeyA,
    KeyS,
    KeyD,
    KeyF,
    KeyZ,
    KeyX,
    KeyC,
    KeyV,
}

impl HostKey {
    /// The keypad key that this host key stands for.
    pub open spec fn index(self) -> int {
        match self {
            HostKey::Digit1 => 0x1,
            HostKey::Digit2 => 0x2,
            HostKey::Digit3 => 0x3,
            HostKey::Digit4 => 0xC,
            HostKey::KeyQ => 0x4,
            HostKey::KeyW => 0x5,
            HostKey::KeyE => 0x6,
            HostKey::KeyR => 0xD,
            HostKey::KeyA => 0x7,
            HostKey::KeyS => 0x8,
            HostKey::KeyD => 0x9,
            HostKey::KeyF => 0xE,
            HostKey::KeyZ => 0xA,
            HostKey::KeyX => 0x0,
            HostKey::KeyC => 0xB,
            HostKey::KeyV => 0xF,
        }
    }

    /// Computes the keypad key that this host key stands for.
    pub fn keypad_index(self) -> (key: usize)
        ensures
            key == self.index(),
            key < 16,
    {
        match self {
            HostKey::Digit1 => 0x1,
            HostKey::Digit2 => 0x2,
            HostKey::Digit3 => 0x3,
            HostKey::Digit4 => 0xC,
            HostKey::KeyQ => 0x4,
            HostKey::KeyW => 0x5,
            HostKey::KeyE => 0x6,
            HostKey::KeyR => 0xD,
            HostKey::KeyA => 0x7,
            HostKey::KeyS => 0x8,
            HostKey::KeyD => 0x9,
            HostKey::KeyF => 0xE,
            HostKey::KeyZ => 0xA,
            HostKey::KeyX => 0x0,
            HostKey::KeyC => 0xB,
            HostKey::KeyV => 0xF,
        }
    }
}

/// No two host keys stand for the same keypad key.
pub proof fn lemma_layout_is_injective(first: HostKey, second: HostKey)
    requires
        first.index() == second.index(),
    ensures
        first == second,
{
}

/// Every keypad key has a host key that stands for it.
pub proof fn lemma_layout_covers_keypad(key: int)
    requires
        0 <= key < 16,
    ensures
        exists|host: HostKey| #[trigger] host.index() == key,
{
    assert(HostKey::KeyX.index() == 0x0);
    assert(HostKey::Digit1.index() == 0x1);
    assert(HostKey::Digit2.index() == 0x2);
    assert(HostKey::Digit3.index() == 0x3);
    assert(HostKey::KeyQ.index() == 0x4);
    assert(HostKey::KeyW.index() == 0x5);
    assert(HostKey::KeyE.index() == 0x6);
    assert(HostKey::KeyA.index() == 0x7);
    assert(HostKey::KeyS.index() == 0x8);
    assert(HostKey::KeyD.index() == 0x9);
    assert(HostKey::KeyZ.index() == 0xA);
    assert(HostKey::KeyC.index() == 0xB);
    assert(HostKey::Digit4.index() == 0xC);
    assert(HostKey::KeyR.index() == 0xD);
    assert(HostKey::KeyF.index() == 0xE);
    assert(HostKey::KeyV.index() == 0xF);
}

/// Records that a host key went down or came up.
pub fn key_event(keypad: &mut Keypad, key: HostKey, pressed: bool)
    ensures
        final(keypad)@ == old(keypad)@.update(key.index(), pressed),
{
    let index = key.keypad_index();
    if pressed {
        keypad.press(index)
    } else {
        keypad.release(index)
    };
}

} // verus!
