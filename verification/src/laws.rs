//! Laws of the instruction set, proved from the meaning of the
//! instructions.

use crate::display::{sprite_covers, Screen};
use crate::instruction::Instruction;
use crate::machine::{bcd, execute, fault, glyph_address, repaint, target, Fault, Machine};
use crate::memory::{power_on_image, FONTSET};
use vstd::prelude::*;

verus! {

/// A random byte matters to `SetVxToRandomAndByte` alone.
pub proof fn lemma_random_is_ignored(
    m: Machine,
    screen: Screen,
    keys: Seq<bool>,
    instruction: Instruction,
    first: u8,
    second: u8,
)
    requires
        !(instruction is SetVxToRandomAndByte),
    ensures
        execute(m, screen, keys, instruction, first) == execute(
            m,
            screen,
            keys,
            instruction,
            second,
        ),
{
}

/// An instruction that can run leaves a machine with 16 registers, at
/// most 16 return addresses and 4096 bytes of memory.
pub proof fn lemma_execute_keeps_wf(
    m: Machine,
    screen: Screen,
    keys: Seq<bool>,
    instruction: Instruction,
    random: u8,
)
    requires
        m.wf(),
        fault(m, keys, instruction) is None,
    ensures
        execute(m, screen, keys, instruction, random).wf(),
{
}

/// An instruction that can run leaves the program counter on its target:
/// where a jump, call or return sends it, in place while waiting for a key,
/// four bytes on after a skip that is taken and two bytes on otherwise.
pub proof fn lemma_program_counter(
    m: Machine,
    screen: Screen,
    keys: Seq<bool>,
    instruction: Instruction,
    random: u8,
)
    requires
        m.wf(),
        fault(m, keys, instruction) is None,
    ensures
        execute(m, screen, keys, instruction, random).pc == target(m, keys, instruction),
{
}

/// Only `ClearDisplay` and `DrawSprite` change the screen, only the
/// instructions that store change memory, only the two that set a timer
/// change that timer, and only the wait for a key suspends.
pub proof fn lemma_untouched(
    m: Machine,
    screen: Screen,
    keys: Seq<bool>,
    instruction: Instruction,
    random: u8,
)
    ensures
        !(instruction is ClearDisplay || instruction is DrawSprite) ==> repaint(
            m,
            screen,
            instruction,
        ) == screen,
        !(instruction is StoreBcdOfVxAtI || instruction is StoreRegistersV0ThroughVxInMemory)
            ==> execute(m, screen, keys, instruction, random).mem == m.mem,
        !(instruction is SetDelayTimerToVx) ==> execute(
            m,
            screen,
            keys,
            instruction,
            random,
        ).delay_timer == m.delay_timer,
        !(instruction is SetSoundTimerToVx) ==> execute(
            m,
            screen,
            keys,
            instruction,
            random,
        ).sound_timer == m.sound_timer,
        !(instruction is WaitForKeyPressAndStoreInVx) ==> execute(
            m,
            screen,
            keys,
            instruction,
            random,
        ).halted == m.halted,
{
}

/// A byte that was masked has no bit outside the mask.
pub proof fn lemma_mask(random: u8, mask: u8)
    by (bit_vector)
    ensures
        (random & mask) & !mask == 0,
        random & mask <= mask,
{
}

/// `SetVxToRandomAndByte` leaves in `Vx` a byte with no bit outside the
/// mask, whatever byte was drawn, and changes no other register.
pub proof fn lemma_random_is_masked(
    m: Machine,
    screen: Screen,
    keys: Seq<bool>,
    x: usize,
    mask: u8,
    random: u8,
)
    requires
        m.wf(),
        x < 16,
    ensures
        ({
            let after = execute(m, screen, keys, Instruction::SetVxToRandomAndByte(x, mask), random);
            &&& after.v[x as int] & !mask == 0
            &&& after.v[x as int] <= mask
            &&& forall|k: int| 0 <= k < 16 && k != x ==> after.v[k] == m.v[k]
            &&& after == m.with_register(x as int, after.v[x as int]).next()
        }),
{
    lemma_mask(random, mask);
}

/// The glyph of every hexadecimal digit lies in the font: the five bytes
/// at its address are the five bytes of the digit's glyph.
pub proof fn lemma_glyph_lies_in_font(digit: u8, row: int)
    requires
        digit < 16,
        0 <= row < 5,
    ensures
        0x50 <= glyph_address(digit) + row < 0xA0,
        power_on_image()[glyph_address(digit) + row] == FONTSET@[5 * digit + row],
{
}

/// Adding with carry leaves 1 in `VF` exactly when the sum passes 255, and
/// the sum modulo 256 in `Vx` unless `Vx` is `VF` itself. No other register
/// changes, nor the address register, the stack, the timers, the wait
/// state, memory or the screen. Where the program counter can move on by
/// two, the instruction runs and moves it on by two.
pub proof fn lemma_add_with_carry(
    m: Machine,
    screen: Screen,
    keys: Seq<bool>,
    x: usize,
    y: usize,
    random: u8,
)
    requires
        m.wf(),
        x < 16,
        y < 16,
    ensures
        ({
            let add = Instruction::AddVyToVxWithCarry(x, y);
            let after = execute(m, screen, keys, add, random);
            let sum = m.v[x as int] + m.v[y as int];
            &&& after.v[0xF] == 1 <==> sum > 255
            &&& after.v[0xF] == 0 <==> sum <= 255
            &&& x != 0xF ==> after.v[x as int] == sum % 256
            &&& forall|k: int| 0 <= k < 0xF && k != x ==> after.v[k] == m.v[k]
            &&& after == (Machine { v: after.v, pc: after.pc, ..m })
            &&& repaint(m, screen, add) == screen
            &&& m.pc + 2 <= 0xFFFF <==> fault(m, keys, add) is None
            &&& m.pc + 2 <= 0xFFFF ==> after.pc == m.pc + 2
        }),
{
}

/// Subtracting `Vy` from `Vx` leaves 1 in `VF` exactly when `Vx >= Vy`,
/// that is when nothing is borrowed, and the difference modulo 256 in `Vx`
/// unless `Vx` is `VF` itself. No other register changes, nor the address
/// register, the stack, the timers, the wait state, memory or the screen.
/// Where the program counter can move on by two, the instruction runs and
/// moves it on by two.
pub proof fn lemma_subtract_with_borrow(
    m: Machine,
    screen: Screen,
    keys: Seq<bool>,
    x: usize,
    y: usize,
    random: u8,
)
    requires
        m.wf(),
        x < 16,
        y < 16,
    ensures
        ({
            let subtract = Instruction::SubtractVyFromVxWithBorrow(x, y);
            let after = execute(m, screen, keys, subtract, random);
            let a = m.v[x as int];
            let b = m.v[y as int];
            &&& after.v[0xF] == 1 <==> a >= b
            &&& after.v[0xF] == 0 <==> a < b
            &&& x != 0xF ==> after.v[x as int] == (a - b) % 256
            &&& forall|k: int| 0 <= k < 0xF && k != x ==> after.v[k] == m.v[k]
            &&& after == (Machine { v: after.v, pc: after.pc, ..m })
            &&& repaint(m, screen, subtract) == screen
            &&& m.pc + 2 <= 0xFFFF <==> fault(m, keys, subtract) is None
            &&& m.pc + 2 <= 0xFFFF ==> after.pc == m.pc + 2
        }),
{
}

/// Subtracting `Vx` from `Vy` leaves 1 in `VF` exactly when `Vy >= Vx`, and
/// the difference modulo 256 in `Vx` unless `Vx` is `VF` itself. Nothing
/// else changes but the program counter.
pub proof fn lemma_reverse_subtract(
    m: Machine,
    screen: Screen,
    keys: Seq<bool>,
    x: usize,
    y: usize,
    random: u8,
)
    requires
        m.wf(),
        x < 16,
        y < 16,
    ensures
        ({
            let after = execute(m, screen, keys, Instruction::SetVxToVyMinusVx(x, y), random);
            let a = m.v[x as int];
            let b = m.v[y as int];
            &&& after.v[0xF] == 1 <==> b >= a
            &&& after.v[0xF] == 0 <==> b < a
            &&& x != 0xF ==> after.v[x as int] == (b - a) % 256
            &&& forall|k: int| 0 <= k < 0xF && k != x ==> after.v[k] == m.v[k]
            &&& after == (Machine { v: after.v, pc: after.pc, ..m })
            &&& m.pc + 2 <= 0xFFFF ==> after.pc == m.pc + 2
        }),
{
}

/// The register that an instruction computes, for the instructions that
/// compute one.
pub open spec fn computed_register(instruction: Instruction) -> int {
    match instruction {
        Instruction::SetVxToByte(x, _)
        | Instruction::AddByteToVx(x, _)
        | Instruction::SetVxToRandomAndByte(x, _) => x as int,
        Instruction::SetVxToVy(x, _)
        | Instruction::SetVxToVxOrVy(x, _)
        | Instruction::SetVxToVxAndVy(x, _)
        | Instruction::SetVxToVxXorVy(x, _)
        | Instruction::AddVyToVxWithCarry(x, _)
        | Instruction::SubtractVyFromVxWithBorrow(x, _)
        | Instruction::ShiftVxRightByOne(x, _)
        | Instruction::SetVxToVyMinusVx(x, _)
        | Instruction::ShiftVxLeftByOne(x, _) => x as int,
        Instruction::SetVxToDelayTimer(x) => x as int,
        _ => 0,
    }
}

/// The instructions that load, copy, add a byte or combine bits write
/// `Vx` and nothing else: they report no overflow, so `VF` stays unless it
/// is `Vx` itself.
pub proof fn lemma_plain_arithmetic_writes_vx_only(
    m: Machine,
    screen: Screen,
    keys: Seq<bool>,
    instruction: Instruction,
    random: u8,
)
    requires
        m.wf(),
        instruction.wf(),
        instruction is SetVxToByte || instruction is AddByteToVx || instruction is SetVxToVy
            || instruction is SetVxToVxOrVy || instruction is SetVxToVxAndVy
            || instruction is SetVxToVxXorVy,
    ensures
        ({
            let after = execute(m, screen, keys, instruction, random);
            let x = computed_register(instruction);
            &&& forall|k: int| 0 <= k < 16 && k != x ==> after.v[k] == m.v[k]
            &&& after == m.with_register(x, after.v[x]).next()
            &&& instruction matches Instruction::AddByteToVx(_, nn) ==> after.v[x] == (m.v[x] + nn)
                % 256
        }),
{
    let after = execute(m, screen, keys, instruction, random);
    let x = computed_register(instruction);
    assert(after.v =~= m.v.update(x, after.v[x]));
}

/// A shift reads `Vy` and writes `Vx`: to the right it leaves half of `Vy`
/// in `Vx` and the lowest bit of `Vy` in `VF`; to the left it leaves twice
/// `Vy` modulo 256 in `Vx` and the highest bit of `Vy` in `VF`. `Vy` stays
/// unless it is `Vx` or `VF`.
pub proof fn lemma_shifts(
    m: Machine,
    screen: Screen,
    keys: Seq<bool>,
    x: usize,
    y: usize,
    random: u8,
)
    requires
        m.wf(),
        x < 16,
        y < 16,
    ensures
        ({
            let right = execute(m, screen, keys, Instruction::ShiftVxRightByOne(x, y), random);
            let left = execute(m, screen, keys, Instruction::ShiftVxLeftByOne(x, y), random);
            let source = m.v[y as int];
            &&& right.v[0xF] == source % 2
            &&& left.v[0xF] == source / 128
            &&& x != 0xF ==> right.v[x as int] == source / 2
            &&& x != 0xF ==> left.v[x as int] == (2 * source) % 256
            &&& y != x && y != 0xF ==> right.v[y as int] == source && left.v[y as int] == source
        }),
{
}

/// The three bytes that `StoreBcdOfVxAtI` stores are decimal digits, and
/// read as hundreds, tens and ones they give the value of `Vx`.
pub proof fn lemma_bcd_digits(value: u8)
    ensures
        bcd(value).len() == 3,
        bcd(value)[0] < 10 && bcd(value)[1] < 10 && bcd(value)[2] < 10,
        100 * bcd(value)[0] + 10 * bcd(value)[1] + bcd(value)[2] == value,
{
}

/// Storing `V0..=Vx` and loading them back restores every register, and
/// neither moves the address register.
pub proof fn lemma_store_then_load(
    m: Machine,
    registers: Seq<u8>,
    screen: Screen,
    keys: Seq<bool>,
    x: usize,
    first: u8,
    second: u8,
)
    requires
        m.wf(),
        registers.len() == 16,
        fault(m, keys, Instruction::StoreRegistersV0ThroughVxInMemory(x)) is None,
    ensures
        ({
            let stored = execute(
                m,
                screen,
                keys,
                Instruction::StoreRegistersV0ThroughVxInMemory(x),
                first,
            );
            let scratched = Machine { v: registers, ..stored };
            let loaded = execute(
                scratched,
                screen,
                keys,
                Instruction::ReadRegistersV0ThroughVxFromMemory(x),
                second,
            );
            &&& stored.i == m.i
            &&& stored.v == m.v
            &&& forall|k: int| 0 <= k <= x ==> stored.mem[m.i + k] == m.v[k]
            &&& forall|a: int|
                0 <= a < 4096 && !(m.i <= a <= m.i + x) ==> stored.mem[a] == m.mem[a]
            &&& loaded.i == m.i
            &&& loaded.mem == stored.mem
            &&& forall|k: int| 0 <= k <= x ==> loaded.v[k] == m.v[k]
            &&& forall|k: int| x < k < 16 ==> loaded.v[k] == registers[k]
        }),
{
}

/// A push that finds room, followed by a pop, hands back the address of
/// the instruction after the current one and leaves the machine exactly as
/// it was before the push: the stack as deep as before, every slot below
/// as it was, and the program counter where it was.
pub proof fn lemma_push_then_pop(m: Machine)
    requires
        m.stack.len() < 16,
        m.pc + 2 <= 0xFFFF,
    ensures
        m.pushed().stack.len() == m.stack.len() + 1,
        m.pushed().stack.last() == m.pc + 2,
        forall|k: int| 0 <= k < m.stack.len() ==> m.pushed().stack[k] == m.stack[k],
        m.pushed().pc == m.pc,
        m.pushed().popped() == m,
{
    assert(m.pushed().stack.drop_last() =~= m.stack);
}

/// A call followed by a return goes on with the instruction after the
/// call, with the stack as deep as before and nothing else changed, the
/// screen included.
pub proof fn lemma_call_then_return(
    m: Machine,
    screen: Screen,
    keys: Seq<bool>,
    nnn: u16,
    first: u8,
    second: u8,
)
    requires
        m.wf(),
        fault(m, keys, Instruction::CallSubroutine(nnn)) is None,
    ensures
        ({
            let called = execute(m, screen, keys, Instruction::CallSubroutine(nnn), first);
            let returned = execute(
                called,
                screen,
                keys,
                Instruction::ReturnFromSubroutine,
                second,
            );
            &&& called == (Machine { pc: nnn, ..m.pushed() })
            &&& called.pc == nnn
            &&& called.stack.len() == m.stack.len() + 1
            &&& called.stack.last() == m.pc + 2
            &&& fault(called, keys, Instruction::ReturnFromSubroutine) is None
            &&& returned == m.next()
            &&& returned.pc == m.pc + 2
            &&& returned.stack == m.stack
            &&& repaint(m, screen, Instruction::CallSubroutine(nnn)) == screen
            &&& repaint(called, screen, Instruction::ReturnFromSubroutine) == screen
        }),
{
    lemma_push_then_pop(m);
}

/// A call faults with a stack overflow exactly when 16 return addresses
/// are on the stack, and a return with an underflow exactly when none is.
pub proof fn lemma_stack_limits(m: Machine, keys: Seq<bool>, nnn: u16)
    requires
        m.wf(),
        nnn < 0x1000,
    ensures
        fault(m, keys, Instruction::CallSubroutine(nnn)) == Some(Fault::StackOverflow)
            <==> m.stack.len() == 16,
        fault(m, keys, Instruction::ReturnFromSubroutine) == Some(Fault::StackUnderflow)
            <==> m.stack.len() == 0,
{
}

/// The machine after `count` timer ticks.
pub open spec fn ticked(m: Machine, count: nat) -> Machine
    decreases count,
{
    if count == 0 {
        m
    } else {
        ticked(m, (count - 1) as nat).tick()
    }
}

/// After `count` ticks a timer has counted down by `count`, or to zero if
/// it held less; nothing but the timers changes.
pub proof fn lemma_timers_count_down(m: Machine, count: nat)
    ensures
        ticked(m, count).delay_timer == if m.delay_timer >= count {
            m.delay_timer - count
        } else {
            0
        },
        ticked(m, count).sound_timer == if m.sound_timer >= count {
            m.sound_timer - count
        } else {
            0
        },
        ticked(m, count) == (Machine {
            delay_timer: ticked(m, count).delay_timer,
            sound_timer: ticked(m, count).sound_timer,
            ..m
        }),
    decreases count,
{
    if count > 0 {
        lemma_timers_count_down(m, (count - 1) as nat);
    }
}

/// Drawing a sprite twice at one place restores every pixel, and the
/// second drawing reports a collision exactly when the sprite covers a
/// pixel that was off before the first.
pub proof fn lemma_draw_twice(screen: Screen, sprite: Seq<u8>, vx: int, vy: int)
    requires
        screen.wf(),
    ensures
        screen.drawn(sprite, vx, vy).drawn(sprite, vx, vy).pixels == screen.pixels,
        screen.drawn(sprite, vx, vy).collides(sprite, vx, vy) <==> exists|x: int, y: int|
            0 <= x < 64 && 0 <= y < 32 && !screen.pixels[y][x] && #[trigger] sprite_covers(
                sprite,
                vx,
                vy,
                x,
                y,
            ),
{
    let once = screen.drawn(sprite, vx, vy);
    assert(once.drawn(sprite, vx, vy).pixels =~~= screen.pixels);
}

/// A `DrawSprite` executed twice restores every pixel, and the second
/// execution leaves 1 in `VF` exactly when the sprite covers a pixel that
/// was off before the first. Neither execution changes a register other
/// than `VF`, the address register, the stack, the timers, the wait state
/// or memory. Where the first can run and the program counter can move on
/// by four, the second can run too, and the two move the program counter
/// on by four.
pub proof fn lemma_draw_instruction_twice(
    m: Machine,
    screen: Screen,
    keys: Seq<bool>,
    x: usize,
    y: usize,
    n: u8,
    first: u8,
    second: u8,
)
    requires
        m.wf(),
        screen.wf(),
        x < 16,
        y < 16,
    ensures
        ({
            let draw = Instruction::DrawSprite(x, y, n);
            let once = execute(m, screen, keys, draw, first);
            let shown = repaint(m, screen, draw);
            let twice = execute(once, shown, keys, draw, second);
            let restored = repaint(once, shown, draw);
            &&& restored.pixels == screen.pixels
            &&& twice.v[0xF] == 1 <==> exists|px: int, py: int|
                0 <= px < 64 && 0 <= py < 32 && !screen.pixels[py][px] && #[trigger] sprite_covers(
                    m.sprite(n as nat),
                    m.corner(x, y).0,
                    m.corner(x, y).1,
                    px,
                    py,
                )
            &&& x != 0xF && y != 0xF ==> m.corner(x, y) == (
                m.v[x as int] as int,
                m.v[y as int] as int,
            )
            &&& forall|k: int| 0 <= k < 0xF ==> once.v[k] == m.v[k] && twice.v[k] == m.v[k]
            &&& once == (Machine { v: once.v, pc: once.pc, ..m })
            &&& twice == (Machine { v: twice.v, pc: twice.pc, ..m })
            &&& fault(m, keys, draw) is None && m.pc + 4 <= 0xFFFF ==> {
                &&& fault(once, keys, draw) is None
                &&& once.pc == m.pc + 2
                &&& twice.pc == m.pc + 4
            }
        }),
{
    let draw = Instruction::DrawSprite(x, y, n);
    let once = execute(m, screen, keys, draw, first);
    assert(once.sprite(n as nat) =~= m.sprite(n as nat));
    assert(once.corner(x, y) == m.corner(x, y));
    lemma_draw_twice(screen, m.sprite(n as nat), m.corner(x, y).0, m.corner(x, y).1);
}

} // verus!
