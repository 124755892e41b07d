//! Laws of the machine: what holds of every state and every input.
//!
//! Each law is a proof about the model in [`crate::machine`], which the
//! interpreter computes. They are stated for callers to use and are not needed
//! to run the machine.

use vstd::prelude::*;
use crate::arith::wrap8;
use crate::constants::{MEMORY_IN_B, PROGRAM_MEMORY_START, SCREEN_SIZE, TIMER_PERIOD_NS};
use crate::display::{
    blank_screen,
    lemma_draw_is_bitmap,
    lemma_draw_twice_on_blank,
    lemma_draw_twice_restores,
    lemma_second_draw_collides,
    lit_cell,
    sprite_at,
    visible,
};
use crate::font::{FONT, FONT_BYTES};
use crate::keypad::KeyEvent;
use crate::machine::{decremented, period_of, Machine};
use crate::memory::{address, lemma_restore_after_store};
use crate::opcode::{decode_spec, family_of, n_of, Opcode};

verus! {

/// A new machine is well-formed, holds the font in its first 80 bytes and the
/// program from 0x200 on, and starts at 0x200 with everything else at rest.
pub proof fn lemma_initial_state(
    rom: Seq<u8>,
    instructions_per_second: u128,
    start_time: u128,
    debug: bool,
)
    requires
        rom.len() <= MEMORY_IN_B - PROGRAM_MEMORY_START,
    ensures
        ({
            let m = Machine::initial(rom, instructions_per_second, start_time, debug);
            &&& m.wf()
            &&& m.pc == 0x200
            &&& m.memory.subrange(0, FONT_BYTES as int) == FONT@
            &&& m.memory.subrange(
                PROGRAM_MEMORY_START as int,
                PROGRAM_MEMORY_START + rom.len(),
            ) == rom
            &&& forall|a: int|
                FONT_BYTES <= a < MEMORY_IN_B && !(PROGRAM_MEMORY_START <= a
                    < PROGRAM_MEMORY_START + rom.len()) ==> m.memory[a] == 0
            &&& m.screen == blank_screen()
            &&& m.stack.len() == 0
            &&& m.waiting_for is None
            &&& m.time_is_valid(start_time)
        }),
{
    let m = Machine::initial(rom, instructions_per_second, start_time, debug);
    assert(m.memory.subrange(0, FONT_BYTES as int) =~= FONT@);
    assert(m.memory.subrange(PROGRAM_MEMORY_START as int, PROGRAM_MEMORY_START + rom.len())
        =~= rom);
}

/// At 500 instructions per second the instruction period is 2,000,000 ns.
pub proof fn lemma_default_period()
    ensures
        period_of(500) == 2_000_000,
{
}

/// Every instruction keeps the machine well-formed.
pub proof fn lemma_execute_preserves_wf(m: Machine, op: Opcode, keys: Seq<bool>, random: u8)
    requires
        m.wf(),
        op.wf(),
    ensures
        m.execute(op, keys, random).wf(),
{
    match op {
        Opcode::Draw { x, y, rows } => {
            lemma_draw_is_bitmap(
                m.screen,
                sprite_at(m.memory, m.index, rows as int),
                m.reg(x) as int % 64,
                m.reg(y) as int % 32,
            );
        },
        _ => {},
    }
}

/// Every cycle keeps the machine well-formed.
pub proof fn lemma_cycle_preserves_wf(m: Machine, now: u128, keys: Seq<bool>, random: u8)
    requires
        m.wf(),
        m.can_cycle(now),
    ensures
        m.cycle(now, keys, random).wf(),
        m.cycle(now, keys, random).time_is_valid(now),
{
    let t = m.begin_cycle().tick_timers(now);
    if m.runs_instruction(now) {
        lemma_execute_preserves_wf(
            t.with_pc((t.pc + 2) as u16),
            decode_spec(t.fetch()),
            keys,
            random,
        );
        lemma_decode_wf(t.fetch());
    }
}

/// A clock that does not go back keeps every cycle defined as far as time
/// goes: after a cycle at `now`, every time from `now` on is valid.
pub proof fn lemma_time_stays_valid(
    m: Machine,
    now: u128,
    later: u128,
    keys: Seq<bool>,
    random: u8,
)
    requires
        m.time_is_valid(now),
        now <= later,
    ensures
        m.cycle(now, keys, random).time_is_valid(later),
{
}

/// Every word decodes to an instruction whose fields are in range.
pub proof fn lemma_decode_wf(word: u16)
    ensures
        decode_spec(word).wf(),
{
}

/// Handing over a key press keeps the machine well-formed.
pub proof fn lemma_key_down_preserves_wf(m: Machine, event: KeyEvent)
    requires
        m.wf(),
    ensures
        m.key_down(event).wf(),
{
}

/// The random byte matters to `Cxnn` alone.
pub proof fn lemma_random_matters_to_cxnn_only(
    m: Machine,
    op: Opcode,
    keys: Seq<bool>,
    first: u8,
    second: u8,
)
    requires
        !(op is Random),
    ensures
        m.execute(op, keys, first) == m.execute(op, keys, second),
{
}

/// A cycle reports a clear exactly when it executed `00E0`, and then every
/// cell of the display is off. So the report of one cycle never carries over
/// to the next.
pub proof fn lemma_clear_reported_by_its_cycle(m: Machine, now: u128, keys: Seq<bool>, random: u8)
    requires
        m.wf(),
        m.can_cycle(now),
    ensures
        m.cycle(now, keys, random).clear_requested <==> m.runs_instruction(now) && decode_spec(
            m.fetch(),
        ) == Opcode::ClearScreen,
        m.cycle(now, keys, random).clear_requested ==> m.cycle(now, keys, random).screen
            == blank_screen(),
        m.cycle(now, keys, random).clear_requested ==> forall|i: int|
            0 <= i < SCREEN_SIZE ==> m.cycle(now, keys, random).screen[i] == 0,
{
}

/// A cycle reports a draw exactly when it executed a `Dxyn`.
pub proof fn lemma_draw_reported_by_its_cycle(m: Machine, now: u128, keys: Seq<bool>, random: u8)
    requires
        m.wf(),
        m.can_cycle(now),
    ensures
        m.cycle(now, keys, random).display_dirty <==> m.runs_instruction(now) && decode_spec(
            m.fetch(),
        ) is Draw,
{
}

/// `7xnn` adds without carry: the sum wraps, and the flag and every other
/// register stay as they were.
pub proof fn lemma_add_immediate_sets_no_flag(
    m: Machine,
    x: u8,
    byte: u8,
    keys: Seq<bool>,
    random: u8,
)
    requires
        m.wf(),
        x < 16,
    ensures
        ({
            let after = m.execute(Opcode::Add { x, byte }, keys, random);
            &&& after.reg(x) == wrap8(m.reg(x) + byte)
            &&& forall|r: u8| r < 16 && r != x ==> after.reg(r) == m.reg(r)
            &&& after == m.with_register(x, after.reg(x))
        }),
{
}

/// `8xy4` adds with carry: result and flag together are the exact sum.
pub proof fn lemma_add_registers_carries(m: Machine, x: u8, y: u8, keys: Seq<bool>, random: u8)
    requires
        m.wf(),
        x < 15,
        y < 16,
    ensures
        ({
            let after = m.execute(Opcode::AddRegister { x, y }, keys, random);
            &&& after.reg(0xF) <= 1
            &&& after.reg(x) + 256 * after.reg(0xF) == m.reg(x) + m.reg(y)
        }),
{
}

/// `8xy5` subtracts with borrow: the flag is 1 exactly when `Vx` was greater
/// than `Vy`; without a borrow the result is the difference, with one it is
/// the difference plus 256.
pub proof fn lemma_subtract_borrows(m: Machine, x: u8, y: u8, keys: Seq<bool>, random: u8)
    requires
        m.wf(),
        x < 15,
        y < 16,
    ensures
        ({
            let after = m.execute(Opcode::Subtract { x, y }, keys, random);
            &&& after.reg(0xF) == 1 <==> m.reg(x) > m.reg(y)
            &&& after.reg(0xF) == 0 <==> m.reg(x) <= m.reg(y)
            &&& m.reg(x) >= m.reg(y) ==> after.reg(x) == m.reg(x) - m.reg(y)
            &&& m.reg(x) < m.reg(y) ==> after.reg(x) == m.reg(x) - m.reg(y) + 256
        }),
{
}

/// Where a flag instruction names VF as its result register, the flag wins.
pub proof fn lemma_flag_wins(m: Machine, y: u8, keys: Seq<bool>, random: u8)
    requires
        m.wf(),
        y < 16,
    ensures
        m.execute(Opcode::AddRegister { x: 0xF, y }, keys, random).reg(0xF) == if m.reg(0xF)
            + m.reg(y) > 255 {
            1u8
        } else {
            0u8
        },
        m.execute(Opcode::Subtract { x: 0xF, y }, keys, random).reg(0xF) == if m.reg(0xF) > m.reg(
            y,
        ) {
            1u8
        } else {
            0u8
        },
        m.execute(Opcode::ShiftRight { x: 0xF }, keys, random).reg(0xF) == m.reg(0xF) % 2,
{
}

/// Drawing the same sprite twice restores the display, and the second draw
/// sets the flag exactly when the first one turned a cell on. The coordinate
/// registers must not be VF, which the first draw overwrites.
pub proof fn lemma_draw_twice(m: Machine, x: u8, y: u8, rows: u8, keys: Seq<bool>, random: u8)
    requires
        m.wf(),
        x < 15,
        y < 15,
    ensures
        ({
            let op = Opcode::Draw { x, y, rows };
            let twice = m.execute(op, keys, random).execute(op, keys, random);
            let sprite = sprite_at(m.memory, m.index, rows as int);
            let x0 = m.reg(x) as int % 64;
            let y0 = m.reg(y) as int % 32;
            &&& twice.screen == m.screen
            &&& twice.reg(0xF) <= 1
            &&& twice.reg(0xF) == 1 <==> exists|i: int|
                0 <= i < SCREEN_SIZE && #[trigger] lit_cell(sprite, x0, y0, i) && m.screen[i] == 0
            &&& twice.display_dirty
        }),
{
    let sprite = sprite_at(m.memory, m.index, rows as int);
    let x0 = m.reg(x) as int % 64;
    let y0 = m.reg(y) as int % 32;
    lemma_draw_twice_restores(m.screen, sprite, x0, y0);
    lemma_second_draw_collides(m.screen, sprite, x0, y0);
}

/// On a blank display, drawing the same sprite twice leaves the display blank,
/// and the second draw sets the flag exactly when the sprite shows a set bit.
pub proof fn lemma_draw_twice_on_blank_display(
    m: Machine,
    x: u8,
    y: u8,
    rows: u8,
    keys: Seq<bool>,
    random: u8,
)
    requires
        m.wf(),
        m.screen == blank_screen(),
        x < 15,
        y < 15,
    ensures
        ({
            let op = Opcode::Draw { x, y, rows };
            let twice = m.execute(op, keys, random).execute(op, keys, random);
            &&& twice.screen == blank_screen()
            &&& twice.reg(0xF) == 1 <==> visible(
                sprite_at(m.memory, m.index, rows as int),
                m.reg(x) as int % 64,
                m.reg(y) as int % 32,
            )
        }),
{
    let sprite = sprite_at(m.memory, m.index, rows as int);
    let x0 = m.reg(x) as int % 64;
    let y0 = m.reg(y) as int % 32;
    lemma_draw_twice_on_blank(sprite, x0, y0);
}

/// While the instruction gate is closed, a cycle executes nothing: memory,
/// registers, index register, program counter, display, stack and the
/// instruction marker stay as they were.
pub proof fn lemma_instruction_gate_closed(m: Machine, now: u128, keys: Seq<bool>, random: u8)
    requires
        m.time_is_valid(now),
        now - m.last_instruction_tick < m.period,
    ensures
        ({
            let after = m.cycle(now, keys, random);
            &&& after.memory == m.memory
            &&& after.registers == m.registers
            &&& after.index == m.index
            &&& after.pc == m.pc
            &&& after.screen == m.screen
            &&& after.stack == m.stack
            &&& after.waiting_for == m.waiting_for
            &&& after.last_instruction_tick == m.last_instruction_tick
            &&& after.period == m.period
        }),
{
}

/// After a cycle at `first` that executed an instruction, no cycle executes
/// another one before a full instruction period has passed since `first`.
pub proof fn lemma_one_instruction_per_period(
    m: Machine,
    first: u128,
    first_keys: Seq<bool>,
    first_random: u8,
    second: u128,
    second_keys: Seq<bool>,
    second_random: u8,
)
    requires
        m.wf(),
        m.can_cycle(first),
        m.runs_instruction(first),
        first <= second,
        second - first < m.period,
    ensures
        ({
            let between = m.cycle(first, first_keys, first_random);
            let after = between.cycle(second, second_keys, second_random);
            &&& between.last_instruction_tick == first
            &&& between.period == m.period
            &&& between.can_cycle(second)
            &&& after.memory == between.memory
            &&& after.registers == between.registers
            &&& after.index == between.index
            &&& after.pc == between.pc
            &&& after.screen == between.screen
            &&& after.stack == between.stack
            &&& after.last_instruction_tick == first
        }),
{
}

/// A cycle executes at most one instruction, however late it comes: its
/// outcome is that of the timer gate followed by a single step.
pub proof fn lemma_no_catch_up(m: Machine, now: u128, keys: Seq<bool>, random: u8)
    requires
        m.can_cycle(now),
        m.runs_instruction(now),
    ensures
        m.cycle(now, keys, random) == (Machine {
            last_instruction_tick: now,
            ..m.begin_cycle().tick_timers(now).step(keys, random)
        }),
{
}

/// The timer gate decrements each timer by one, stopping at zero, when a timer
/// period has passed, and leaves them alone otherwise, whatever the
/// instruction rate is.
pub proof fn lemma_timer_gate(m: Machine, now: u128)
    requires
        m.last_timer_tick <= now,
    ensures
        ({
            let after = m.tick_timers(now);
            &&& now - m.last_timer_tick < TIMER_PERIOD_NS ==> after == m
            &&& now - m.last_timer_tick >= TIMER_PERIOD_NS ==> {
                &&& after.delay_timer == decremented(m.delay_timer)
                &&& after.sound_timer == decremented(m.sound_timer)
                &&& after.beep_active == (after.sound_timer > 0)
                &&& after.last_timer_tick == now
            }
            &&& after.period == m.period
            &&& after.last_instruction_tick == m.last_instruction_tick
        }),
{
}

/// After the timers were decremented at `first`, the timer gate stays closed
/// until a full timer period has passed since `first`.
pub proof fn lemma_one_decrement_per_timer_period(m: Machine, first: u128, second: u128)
    requires
        m.last_timer_tick <= first,
        m.timer_due(first),
        first <= second,
        second - first < TIMER_PERIOD_NS,
    ensures
        m.tick_timers(first).tick_timers(second) == m.tick_timers(first),
{
}

/// A machine that waits for a key is inert: a cycle takes back the two
/// per-cycle reports and changes nothing else.
pub proof fn lemma_waiting_machine_is_inert(m: Machine, now: u128, keys: Seq<bool>, random: u8)
    requires
        m.waiting_for is Some,
    ensures
        m.cycle(now, keys, random) == m.begin_cycle(),
{
}

/// `Fx0A` followed by a key of the keypad stores the key and ends the wait.
pub proof fn lemma_wait_then_key(m: Machine, x: u8, key: u8, keys: Seq<bool>, random: u8)
    requires
        m.wf(),
        m.waiting_for is None,
        x < 16,
        key < 16,
    ensures
        m.execute(Opcode::WaitKey { x }, keys, random).key_down(KeyEvent::Key(key))
            == m.with_register(x, key),
{
}

/// `Fx33` stores three decimal digits, most significant first, whose value is
/// `Vx`; the rest of memory stays as it was.
pub proof fn lemma_decimal_digits(m: Machine, x: u8, keys: Seq<bool>, random: u8)
    requires
        m.wf(),
        x < 16,
    ensures
        ({
            let after = m.execute(Opcode::Decimal { x }, keys, random);
            let hundreds = after.memory[address(m.index, 0)];
            let tens = after.memory[address(m.index, 1)];
            let ones = after.memory[address(m.index, 2)];
            &&& hundreds < 10 && tens < 10 && ones < 10
            &&& 100 * hundreds + 10 * tens + ones == m.reg(x)
            &&& forall|a: int|
                0 <= a < MEMORY_IN_B && a != address(m.index, 0) && a != address(m.index, 1) && a
                    != address(m.index, 2) ==> after.memory[a] == m.memory[a]
            &&& after.registers == m.registers
        }),
{
}

/// `Fx55` followed by `Fx65` with the same register gives back the registers.
pub proof fn lemma_store_then_restore(m: Machine, x: u8, keys: Seq<bool>, random: u8)
    requires
        m.wf(),
        x < 16,
    ensures
        m.execute(Opcode::Store { x }, keys, random).execute(
            Opcode::Restore { x },
            keys,
            random,
        ).registers == m.registers,
{
    lemma_restore_after_store(m.memory, m.registers, m.index, x + 1);
}

/// A call followed by a return comes back to the instruction after the call,
/// with the stack as it was, provided the stack had room.
pub proof fn lemma_call_then_return(m: Machine, addr: u16)
    requires
        m.wf(),
        m.stack.len() < 16,
    ensures
        m.call(addr).ret() == m,
{
    assert(m.stack.push(m.pc).drop_last() =~= m.stack);
}

/// An unknown instruction changes nothing.
pub proof fn lemma_unknown_is_ignored(m: Machine, keys: Seq<bool>, random: u8)
    ensures
        m.execute(Opcode::Unknown, keys, random) == m,
{
}

/// A step over a word that matches no pattern moves the program counter by
/// two and changes nothing else.
pub proof fn lemma_step_over_unknown(m: Machine, keys: Seq<bool>, random: u8)
    requires
        m.can_fetch(),
        decode_spec(m.fetch()) == Opcode::Unknown,
    ensures
        m.step(keys, random) == m.with_pc((m.pc + 2) as u16),
{
}

/// The words of the two register-comparing skip families with a non-zero low
/// nibble, such as 0x5001, match no pattern.
pub proof fn lemma_skip_with_low_nibble_is_unknown(word: u16)
    requires
        family_of(word) == 5 || family_of(word) == 9,
        n_of(word) != 0,
    ensures
        decode_spec(word) == Opcode::Unknown,
{
}

} // verus!
