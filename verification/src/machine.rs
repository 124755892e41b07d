//! The mathematical model of the machine.
//!
//! [`Machine`] is the state of the interpreter as plain mathematical values,
//! and its methods say what every instruction, the two timing gates and a
//! whole cycle do to it. The executable interpreter is specified against this
//! model: each of its operations computes the corresponding function here.
//!
//! Choices made where the instruction set leaves room:
//! - An instruction reads its operands before it writes anything. Where an
//!   instruction writes both a result and the flag, the flag is written last,
//!   so it wins when the result register is VF itself.
//! - Memory addresses formed from the index register wrap at the end of memory.
//! - The call stack holds at most sixteen return addresses. A call on a full
//!   stack still jumps but records nothing; a return on an empty stack is
//!   ignored.
//! - The index register and the program counter are 16 bits wide and wrap.
//! - `8xyE` leaves bit 7 of the operand in the flag in place, so the flag is 0
//!   or 0x80.
//! - The tone is switched at the timer gate only: it sounds from a decrement
//!   that leaves the sound timer running until one that does not.
//! - `Fx0A` does not block. It marks the machine as waiting; a waiting machine
//!   is inert until [`Machine::key_down`] hands it a key of the keypad.

use vstd::prelude::*;
use crate::arith::{wrap16, wrap8};
use crate::constants::{
    MEMORY_IN_B,
    NANOS_PER_SECOND,
    NUM_REGISTERS,
    PROGRAM_MEMORY_START,
    STACK_LEVELS,
    TIMER_PERIOD_NS,
};
use crate::display::{blank_screen, collides, draw, is_bitmap, sprite_at};
use crate::font::GLYPH_BYTES;
use crate::memory::{initial_memory, restored, stored, with_decimal, word_at};
use crate::keypad::{key_held, KeyEvent, KeyWait};
use crate::opcode::{decode_spec, Opcode};

verus! {

/// The state of the machine.
#[verifier::ext_equal]
pub struct Machine {
    /// The 4096 bytes of memory.
    pub memory: Seq<u8>,
    /// The registers V0 to VF.
    pub registers: Seq<u8>,
    /// The index register.
    pub index: u16,
    /// The program counter.
    pub pc: u16,
    /// The display buffer, row-major.
    pub screen: Seq<u8>,
    /// The delay timer.
    pub delay_timer: u8,
    /// The sound timer.
    pub sound_timer: u8,
    /// The return addresses of the calls in progress, oldest first.
    pub stack: Seq<u16>,
    /// Nanoseconds between two instructions.
    pub period: u128,
    /// When the timers were last decremented.
    pub last_timer_tick: u128,
    /// When an instruction was last executed.
    pub last_instruction_tick: u128,
    /// Whether the last cycle blanked the display.
    pub clear_requested: bool,
    /// Whether the last cycle drew on the display.
    pub display_dirty: bool,
    /// Whether the tone should sound.
    pub beep_active: bool,
    /// The register that waits for a key press, if the machine is waiting.
    pub waiting_for: Option<u8>,
    /// Whether the machine was started in debug mode.
    pub debug: bool,
}

/// A timer after one decrement: it stops at zero.
pub open spec fn decremented(timer: u8) -> u8 {
    if timer > 0 {
        (timer - 1) as u8
    } else {
        0
    }
}

/// The instruction period for a rate in instructions per second.
pub open spec fn period_of(instructions_per_second: u128) -> u128 {
    NANOS_PER_SECOND / instructions_per_second
}

impl Machine {
    /// The sizes are right, every display cell is 0 or 1, the stack is not
    /// over its depth and a waiting register exists.
    pub open spec fn wf(self) -> bool {
        &&& self.memory.len() == MEMORY_IN_B
        &&& self.registers.len() == NUM_REGISTERS
        &&& is_bitmap(self.screen)
        &&& self.stack.len() <= STACK_LEVELS
        &&& (self.waiting_for matches Some(x) ==> x < NUM_REGISTERS)
    }

    /// The machine right after construction.
    pub open spec fn initial(
        rom: Seq<u8>,
        instructions_per_second: u128,
        start_time: u128,
        debug: bool,
    ) -> Machine {
        Machine {
            memory: initial_memory(rom),
            registers: Seq::new(NUM_REGISTERS as nat, |i: int| 0u8),
            index: 0,
            pc: PROGRAM_MEMORY_START as u16,
            screen: blank_screen(),
            delay_timer: 0,
            sound_timer: 0,
            stack: Seq::empty(),
            period: period_of(instructions_per_second),
            last_timer_tick: start_time,
            last_instruction_tick: start_time,
            clear_requested: false,
            display_dirty: false,
            beep_active: false,
            waiting_for: None,
            debug,
        }
    }

    /// The value of register `x`.
    pub open spec fn reg(self, x: u8) -> u8 {
        self.registers[x as int]
    }

    /// The machine with `value` in register `x`.
    pub open spec fn with_register(self, x: u8, value: u8) -> Machine {
        Machine { registers: self.registers.update(x as int, value), ..self }
    }

    /// The machine with `value` in register `x` and then `flag` in VF.
    pub open spec fn with_result(self, x: u8, value: u8, flag: u8) -> Machine {
        Machine { registers: self.registers.update(x as int, value).update(0xF, flag), ..self }
    }

    /// The machine with the program counter at `pc`.
    pub open spec fn with_pc(self, pc: u16) -> Machine {
        Machine { pc, ..self }
    }

    /// The machine with the index register at `index`.
    pub open spec fn with_index(self, index: u16) -> Machine {
        Machine { index, ..self }
    }

    /// Skips the next instruction if `condition` holds.
    pub open spec fn skip_if(self, condition: bool) -> Machine {
        if condition {
            self.with_pc(wrap16(self.pc + 2))
        } else {
            self
        }
    }

    /// `00E0`: every cell off, and the clear is reported.
    pub open spec fn clear_screen(self) -> Machine {
        Machine { screen: blank_screen(), clear_requested: true, ..self }
    }

    /// `2nnn`: records the return address, unless the stack is full, and jumps.
    pub open spec fn call(self, addr: u16) -> Machine {
        Machine {
            stack: if self.stack.len() < STACK_LEVELS {
                self.stack.push(self.pc)
            } else {
                self.stack
            },
            pc: addr,
            ..self
        }
    }

    /// `00EE`: jumps back to the newest return address and forgets it; does
    /// nothing if there is none.
    pub open spec fn ret(self) -> Machine {
        if self.stack.len() > 0 {
            Machine { pc: self.stack.last(), stack: self.stack.drop_last(), ..self }
        } else {
            self
        }
    }

    /// `8xy4`: sum and carry.
    pub open spec fn add_registers(self, x: u8, y: u8) -> Machine {
        let sum = self.reg(x) + self.reg(y);
        self.with_result(
            x,
            wrap8(sum),
            if sum > 255 {
                1
            } else {
                0
            },
        )
    }

    /// `8xy5`: difference `Vx - Vy`, and whether `Vx` was the greater.
    pub open spec fn subtract(self, x: u8, y: u8) -> Machine {
        self.with_result(
            x,
            wrap8(self.reg(x) - self.reg(y)),
            if self.reg(x) > self.reg(y) {
                1
            } else {
                0
            },
        )
    }

    /// `8xy7`: difference `Vy - Vx`, and whether `Vy` was the greater.
    pub open spec fn subtract_from(self, x: u8, y: u8) -> Machine {
        self.with_result(
            x,
            wrap8(self.reg(y) - self.reg(x)),
            if self.reg(y) > self.reg(x) {
                1
            } else {
                0
            },
        )
    }

    /// `8xy6`: half of `Vx`, and the bit shifted out.
    pub open spec fn shift_right(self, x: u8) -> Machine {
        self.with_result(x, self.reg(x) / 2, self.reg(x) % 2)
    }

    /// `8xyE`: twice `Vx`, and bit 7 of `Vx` in place.
    pub open spec fn shift_left(self, x: u8) -> Machine {
        self.with_result(
            x,
            wrap8(self.reg(x) * 2),
            if self.reg(x) >= 128 {
                0x80
            } else {
                0
            },
        )
    }

    /// `Dxyn`: the sprite of `rows` bytes at the index register is drawn at
    /// (`Vx % 64`, `Vy % 32`); VF tells whether a cell was turned off, and the
    /// draw is reported.
    pub open spec fn draw_sprite(self, x: u8, y: u8, rows: u8) -> Machine {
        let sprite = sprite_at(self.memory, self.index, rows as int);
        let x0 = self.reg(x) as int % 64;
        let y0 = self.reg(y) as int % 32;
        Machine {
            screen: draw(self.screen, sprite, x0, y0),
            registers: self.registers.update(
                0xF,
                if collides(self.screen, sprite, x0, y0) {
                    1u8
                } else {
                    0u8
                },
            ),
            display_dirty: true,
            ..self
        }
    }

    /// `Fx33`: hundreds, tens and ones of `Vx` at the index register.
    pub open spec fn store_decimal(self, x: u8) -> Machine {
        Machine { memory: with_decimal(self.memory, self.index, self.reg(x)), ..self }
    }

    /// `Fx55`: `V0..=Vx` at the index register.
    pub open spec fn store_registers(self, x: u8) -> Machine {
        Machine { memory: stored(self.memory, self.registers, self.index, x + 1), ..self }
    }

    /// `Fx65`: `V0..=Vx` from the index register.
    pub open spec fn restore_registers(self, x: u8) -> Machine {
        Machine { registers: restored(self.registers, self.memory, self.index, x + 1), ..self }
    }

    /// What one instruction does. `keys` is the sample of held keys, `random`
    /// the byte that `Cxnn` draws.
    pub open spec fn execute(self, op: Opcode, keys: Seq<bool>, random: u8) -> Machine {
        match op {
            Opcode::ClearScreen => self.clear_screen(),
            Opcode::Return => self.ret(),
            Opcode::Jump { addr } => self.with_pc(addr),
            Opcode::Call { addr } => self.call(addr),
            Opcode::SkipIfEqual { x, byte } => self.skip_if(self.reg(x) == byte),
            Opcode::SkipIfNotEqual { x, byte } => self.skip_if(self.reg(x) != byte),
            Opcode::SkipIfRegistersEqual { x, y } => self.skip_if(self.reg(x) == self.reg(y)),
            Opcode::Load { x, byte } => self.with_register(x, byte),
            Opcode::Add { x, byte } => self.with_register(x, wrap8(self.reg(x) + byte)),
            Opcode::Copy { x, y } => self.with_register(x, self.reg(y)),
            Opcode::Or { x, y } => self.with_register(x, self.reg(x) | self.reg(y)),
            Opcode::And { x, y } => self.with_register(x, self.reg(x) & self.reg(y)),
            Opcode::Xor { x, y } => self.with_register(x, self.reg(x) ^ self.reg(y)),
            Opcode::AddRegister { x, y } => self.add_registers(x, y),
            Opcode::Subtract { x, y } => self.subtract(x, y),
            Opcode::ShiftRight { x } => self.shift_right(x),
            Opcode::SubtractFrom { x, y } => self.subtract_from(x, y),
            Opcode::ShiftLeft { x } => self.shift_left(x),
            Opcode::SkipIfRegistersDiffer { x, y } => self.skip_if(self.reg(x) != self.reg(y)),
            Opcode::LoadIndex { addr } => self.with_index(addr),
            Opcode::JumpOffset { addr } => self.with_pc(wrap16(addr + self.reg(0))),
            Opcode::Random { x, mask } => self.with_register(x, mask & random),
            Opcode::Draw { x, y, rows } => self.draw_sprite(x, y, rows),
            Opcode::SkipIfKey { x } => self.skip_if(key_held(keys, self.reg(x))),
            Opcode::SkipIfNotKey { x } => self.skip_if(!key_held(keys, self.reg(x))),
            Opcode::ReadDelay { x } => self.with_register(x, self.delay_timer),
            Opcode::WaitKey { x } => Machine { waiting_for: Some(x), ..self },
            Opcode::SetDelay { x } => Machine { delay_timer: self.reg(x), ..self },
            Opcode::SetSound { x } => Machine { sound_timer: self.reg(x), ..self },
            Opcode::AddIndex { x } => self.with_index(wrap16(self.index + self.reg(x))),
            Opcode::Glyph { x } => self.with_index((self.reg(x) * GLYPH_BYTES) as u16),
            Opcode::Decimal { x } => self.store_decimal(x),
            Opcode::Store { x } => self.store_registers(x),
            Opcode::Restore { x } => self.restore_registers(x),
            Opcode::Unknown => self,
        }
    }

    /// Whether both bytes of the next instruction lie inside memory.
    pub open spec fn can_fetch(self) -> bool {
        self.pc + 1 < MEMORY_IN_B
    }

    /// The instruction word at the program counter, big-endian.
    pub open spec fn fetch(self) -> u16 {
        word_at(self.memory, self.pc as int)
    }

    /// Fetch, advance the program counter by two, execute.
    pub open spec fn step(self, keys: Seq<bool>, random: u8) -> Machine {
        self.with_pc((self.pc + 2) as u16).execute(decode_spec(self.fetch()), keys, random)
    }

    /// Whether `now` is not before either of the two tick markers.
    pub open spec fn time_is_valid(self, now: u128) -> bool {
        self.last_timer_tick <= now && self.last_instruction_tick <= now
    }

    /// Whether a timer period has passed since the last decrement.
    pub open spec fn timer_due(self, now: u128) -> bool {
        now - self.last_timer_tick >= TIMER_PERIOD_NS
    }

    /// Whether an instruction period has passed since the last instruction.
    pub open spec fn instruction_due(self, now: u128) -> bool {
        now - self.last_instruction_tick >= self.period
    }

    /// The timer gate: when due, both timers are decremented, the tone sounds
    /// if the sound timer is still running, and the marker moves to `now`.
    pub open spec fn tick_timers(self, now: u128) -> Machine {
        if self.timer_due(now) {
            Machine {
                delay_timer: decremented(self.delay_timer),
                sound_timer: decremented(self.sound_timer),
                beep_active: decremented(self.sound_timer) > 0,
                last_timer_tick: now,
                ..self
            }
        } else {
            self
        }
    }

    /// Whether the cycle at `now` executes an instruction: the machine is not
    /// waiting for a key and the instruction gate is open.
    pub open spec fn runs_instruction(self, now: u128) -> bool {
        self.waiting_for is None && self.instruction_due(now)
    }

    /// Whether a cycle at `now` is defined: time has not gone back, and if an
    /// instruction is due it can be fetched.
    pub open spec fn can_cycle(self, now: u128) -> bool {
        &&& self.time_is_valid(now)
        &&& self.runs_instruction(now) ==> self.can_fetch()
    }

    /// The machine with the two per-cycle reports taken back.
    pub open spec fn begin_cycle(self) -> Machine {
        Machine { clear_requested: false, display_dirty: false, ..self }
    }

    /// The instruction gate: when due, one instruction is executed and the
    /// marker moves to `now`.
    pub open spec fn run_instruction(self, now: u128, keys: Seq<bool>, random: u8) -> Machine {
        if self.instruction_due(now) {
            Machine { last_instruction_tick: now, ..self.step(keys, random) }
        } else {
            self
        }
    }

    /// One cycle. The two per-cycle reports are taken back; then, unless the
    /// machine waits for a key, the timer gate and the instruction gate follow.
    pub open spec fn cycle(self, now: u128, keys: Seq<bool>, random: u8) -> Machine {
        if self.waiting_for is Some {
            self.begin_cycle()
        } else {
            self.begin_cycle().tick_timers(now).run_instruction(now, keys, random)
        }
    }

    /// Whether the cycle at `now` executes a `Cxnn` and so draws a random byte.
    pub open spec fn draws_random(self, now: u128) -> bool {
        self.runs_instruction(now) && decode_spec(self.fetch()) is Random
    }

    /// The machine after a key press was handed over: a key of the keypad ends
    /// a wait and lands in the waiting register; anything else changes nothing.
    pub open spec fn key_down(self, event: KeyEvent) -> Machine {
        match (self.waiting_for, event) {
            (Some(x), KeyEvent::Key(key)) => if key < 16 {
                Machine { waiting_for: None, ..self.with_register(x, key) }
            } else {
                self
            },
            _ => self,
        }
    }

    /// How the wait stands after a key press was handed over.
    pub open spec fn key_wait(self, event: KeyEvent) -> KeyWait {
        match (self.waiting_for, event) {
            (None, _) => KeyWait::Idle,
            (Some(_), KeyEvent::Key(key)) => if key < 16 {
                KeyWait::Resumed
            } else {
                KeyWait::Pending
            },
            (Some(_), KeyEvent::Cancel) => KeyWait::Cancelled,
            (Some(_), KeyEvent::Other) => KeyWait::Pending,
        }
    }
}

} // verus!
