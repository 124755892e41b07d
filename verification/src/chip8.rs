//! The interpreter.
//!
//! [`Chip8`] owns the whole machine state. The host calls [`Chip8::cycle`] once
//! per iteration with the current time and the sample of held keys, then reads
//! the reports ([`Chip8::should_clear_screen`], [`Chip8::should_update_screen`],
//! [`Chip8::should_beep`], [`Chip8::awaiting_key`]) and acts on them. While the
//! machine waits for a key, the host hands key presses to [`Chip8::key_down`].
//!
//! Every operation is specified against the model in [`crate::machine`]: the
//! view of a `Chip8` is a [`Machine`], and each operation computes the model's
//! function of the same name.

use vstd::prelude::*;
use crate::arith::{add16, add8, double8, sub8};
use crate::constants::{
    MEMORY_IN_B,
    NANOS_PER_SECOND,
    NUM_REGISTERS,
    PROGRAM_MEMORY_START,
    SCREEN_SIZE,
    STACK_LEVELS,
    TIMER_PERIOD_NS,
};
use crate::display::{clear, draw_sprite, is_bitmap};
use crate::entropy::random_byte;
use crate::font::{FONT, FONT_BYTES};
use crate::keypad::{KeyEvent, KeyWait, NUM_KEYS};
use crate::machine::Machine;
use crate::memory::{load, read_word, restore, store, store_decimal};
use crate::opcode::{decode, decode_spec, Opcode};

verus! {

/// A CHIP-8 machine.
pub struct Chip8 {
    memory: [u8; MEMORY_IN_B],
    registers: [u8; NUM_REGISTERS],
    index_register: u16,
    program_counter: u16,
    screen: [u8; SCREEN_SIZE],
    delay_timer: u8,
    sound_timer: u8,
    stack: [u16; STACK_LEVELS],
    stack_pointer: u16,
    // Nanoseconds between two instructions.
    instruction_speed: u128,
    last_timer_time: u128,
    last_instruction_time: u128,
    clear_screen_flag: bool,
    update_screen_flag: bool,
    beep_sound_flag: bool,
    // The register that an `Fx0A` in progress will fill.
    waiting_for: Option<u8>,
    debug: bool,
}

impl View for Chip8 {
    type V = Machine;

    closed spec fn view(&self) -> Machine {
        Machine {
            memory: self.memory@,
            registers: self.registers@,
            index: self.index_register,
            pc: self.program_counter,
            screen: self.screen@,
            delay_timer: self.delay_timer,
            sound_timer: self.sound_timer,
            stack: self.stack@.take(self.stack_pointer as int),
            period: self.instruction_speed,
            last_timer_tick: self.last_timer_time,
            last_instruction_tick: self.last_instruction_time,
            clear_requested: self.clear_screen_flag,
            display_dirty: self.update_screen_flag,
            beep_active: self.beep_sound_flag,
            waiting_for: self.waiting_for,
            debug: self.debug,
        }
    }
}

impl Chip8 {
    #[verifier::type_invariant]
    spec fn inv(self) -> bool {
        &&& self.stack_pointer <= STACK_LEVELS
        &&& is_bitmap(self.screen@)
        &&& (self.waiting_for matches Some(x) ==> x < NUM_REGISTERS)
    }

    /// A machine with the font and the program `rom` in memory, ready to run
    /// from 0x200 at `instructions_per_second`, with both tick markers at
    /// `start_time`.
    pub fn new(rom: &[u8], instructions_per_second: u128, start_time: u128, debug: bool) -> (chip:
        Self)
        requires
            rom@.len() <= MEMORY_IN_B - PROGRAM_MEMORY_START,
            instructions_per_second > 0,
        ensures
            chip@ == Machine::initial(rom@, instructions_per_second, start_time, debug),
            chip@.wf(),
            chip@.pc == 0x200,
            forall|a: int| 0 <= a < FONT_BYTES ==> chip@.memory[a] == FONT@[a],
            forall|a: int| 0 <= a < rom@.len() ==> chip@.memory[PROGRAM_MEMORY_START + a] == rom@[a],
    {
        let chip = Chip8 {
            memory: load(rom),
            registers: [0u8; NUM_REGISTERS],
            index_register: 0,
            program_counter: PROGRAM_MEMORY_START as u16,
            screen: [0u8; SCREEN_SIZE],
            delay_timer: 0,
            sound_timer: 0,
            stack: [0u16; STACK_LEVELS],
            stack_pointer: 0,
            instruction_speed: NANOS_PER_SECOND / instructions_per_second,
            last_timer_time: start_time,
            last_instruction_time: start_time,
            clear_screen_flag: false,
            update_screen_flag: false,
            beep_sound_flag: false,
            waiting_for: None,
            debug,
        };
        assert(chip@ =~= Machine::initial(rom@, instructions_per_second, start_time, debug));
        chip
    }

    /// The display buffer: 64 by 32 cells, row-major, each 0 or 1.
    pub fn get_screen(&self) -> (screen: &[u8; SCREEN_SIZE])
        ensures
            screen@ == self@.screen,
            is_bitmap(screen@),
    {
        proof {
            use_type_invariant(self);
        }
        &self.screen
    }

    /// Whether the tone should sound.
    pub fn should_beep(&self) -> (beep: bool)
        ensures
            beep == self@.beep_active,
    {
        self.beep_sound_flag
    }

    /// Whether the last cycle blanked the display.
    pub fn should_clear_screen(&self) -> (clear: bool)
        ensures
            clear == self@.clear_requested,
    {
        self.clear_screen_flag
    }

    /// Whether the last cycle drew on the display.
    pub fn should_update_screen(&self) -> (update: bool)
        ensures
            update == self@.display_dirty,
    {
        self.update_screen_flag
    }

    /// Whether the machine waits for a key press.
    pub fn awaiting_key(&self) -> (waiting: bool)
        ensures
            waiting == self@.waiting_for is Some,
    {
        self.waiting_for.is_some()
    }

    /// The 4096 bytes of memory.
    pub fn get_memory(&self) -> (memory: &[u8; MEMORY_IN_B])
        ensures
            memory@ == self@.memory,
    {
        &self.memory
    }

    /// The registers V0 to VF.
    pub fn get_registers(&self) -> (registers: &[u8; NUM_REGISTERS])
        ensures
            registers@ == self@.registers,
    {
        &self.registers
    }

    /// The program counter.
    pub fn program_counter(&self) -> (pc: u16)
        ensures
            pc == self@.pc,
    {
        self.program_counter
    }

    /// The index register.
    pub fn index_register(&self) -> (index: u16)
        ensures
            index == self@.index,
    {
        self.index_register
    }

    /// The delay timer.
    pub fn delay_timer(&self) -> (timer: u8)
        ensures
            timer == self@.delay_timer,
    {
        self.delay_timer
    }

    /// The sound timer.
    pub fn sound_timer(&self) -> (timer: u8)
        ensures
            timer == self@.sound_timer,
    {
        self.sound_timer
    }

    /// The number of calls in progress.
    pub fn stack_depth(&self) -> (depth: usize)
        ensures
            depth == self@.stack.len(),
    {
        proof {
            use_type_invariant(self);
        }
        self.stack_pointer as usize
    }

    /// Whether the machine was started in debug mode.
    pub fn debug(&self) -> (debug: bool)
        ensures
            debug == self@.debug,
    {
        self.debug
    }

    fn set_register(&mut self, x: u8, value: u8)
        requires
            x < NUM_REGISTERS,
        ensures
            final(self)@ == old(self)@.with_register(x, value),
    {
        proof {
            use_type_invariant(&*self);
        }
        self.registers[x as usize] = value;
    }

    fn set_result(&mut self, x: u8, value: u8, flag: u8)
        requires
            x < NUM_REGISTERS,
        ensures
            final(self)@ == old(self)@.with_result(x, value, flag),
    {
        proof {
            use_type_invariant(&*self);
        }
        self.registers[x as usize] = value;
        self.registers[0xF] = flag;
    }

    fn skip_if(&mut self, condition: bool)
        ensures
            final(self)@ == old(self)@.skip_if(condition),
    {
        proof {
            use_type_invariant(&*self);
        }
        if condition {
            self.program_counter = add16(self.program_counter, 2);
        }
    }

    fn call(&mut self, addr: u16)
        ensures
            final(self)@ == old(self)@.call(addr),
    {
        proof {
            use_type_invariant(&*self);
        }
        let depth: usize = self.stack_pointer as usize;
        if depth < STACK_LEVELS {
            self.stack[depth] = self.program_counter;
            self.stack_pointer = self.stack_pointer + 1;
            assert(self.stack@.take(depth + 1) =~= old(self).stack@.take(depth as int).push(
                old(self).program_counter,
            ));
        }
        self.program_counter = addr;
    }

    fn ret(&mut self)
        ensures
            final(self)@ == old(self)@.ret(),
    {
        proof {
            use_type_invariant(&*self);
        }
        if self.stack_pointer > 0 {
            self.stack_pointer = self.stack_pointer - 1;
            let depth: usize = self.stack_pointer as usize;
            self.program_counter = self.stack[depth];
            assert(self.stack@.take(depth as int) =~= old(self).stack@.take(
                depth + 1,
            ).drop_last());
        }
    }

    fn draw(&mut self, x: u8, y: u8, rows: u8)
        requires
            x < NUM_REGISTERS,
            y < NUM_REGISTERS,
        ensures
            final(self)@ == old(self)@.draw_sprite(x, y, rows),
    {
        proof {
            use_type_invariant(&*self);
        }
        let x0: u8 = self.reg(x) % 64;
        let y0: u8 = self.reg(y) % 32;
        let collision = draw_sprite(
            &mut self.screen,
            &self.memory,
            self.index_register,
            rows,
            x0,
            y0,
        );
        self.registers[0xF] = if collision {
            1
        } else {
            0
        };
        self.update_screen_flag = true;
    }

    fn jump(&mut self, addr: u16)
        ensures
            final(self)@ == old(self)@.with_pc(addr),
    {
        proof {
            use_type_invariant(&*self);
        }
        self.program_counter = addr;
    }

    fn set_index(&mut self, index: u16)
        ensures
            final(self)@ == old(self)@.with_index(index),
    {
        proof {
            use_type_invariant(&*self);
        }
        self.index_register = index;
    }

    fn clear_screen(&mut self)
        ensures
            final(self)@ == old(self)@.clear_screen(),
    {
        proof {
            use_type_invariant(&*self);
        }
        clear(&mut self.screen);
        self.clear_screen_flag = true;
    }

    fn wait_key(&mut self, x: u8)
        requires
            x < NUM_REGISTERS,
        ensures
            final(self)@ == (Machine { waiting_for: Some(x), ..old(self)@ }),
    {
        proof {
            use_type_invariant(&*self);
        }
        self.waiting_for = Some(x);
    }

    fn set_delay(&mut self, value: u8)
        ensures
            final(self)@ == (Machine { delay_timer: value, ..old(self)@ }),
    {
        proof {
            use_type_invariant(&*self);
        }
        self.delay_timer = value;
    }

    fn set_sound(&mut self, value: u8)
        ensures
            final(self)@ == (Machine { sound_timer: value, ..old(self)@ }),
    {
        proof {
            use_type_invariant(&*self);
        }
        self.sound_timer = value;
    }

    fn store_decimal(&mut self, x: u8)
        requires
            x < NUM_REGISTERS,
        ensures
            final(self)@ == old(self)@.store_decimal(x),
    {
        proof {
            use_type_invariant(&*self);
        }
        let vx: u8 = self.registers[x as usize];
        store_decimal(&mut self.memory, self.index_register, vx);
    }

    fn store_registers(&mut self, x: u8)
        requires
            x < NUM_REGISTERS,
        ensures
            final(self)@ == old(self)@.store_registers(x),
    {
        proof {
            use_type_invariant(&*self);
        }
        store(&mut self.memory, &self.registers, self.index_register, x);
    }

    fn restore_registers(&mut self, x: u8)
        requires
            x < NUM_REGISTERS,
        ensures
            final(self)@ == old(self)@.restore_registers(x),
    {
        proof {
            use_type_invariant(&*self);
        }
        restore(&mut self.registers, &self.memory, self.index_register, x);
    }

    /// The value of register `x`.
    fn reg(&self, x: u8) -> (value: u8)
        requires
            x < NUM_REGISTERS,
        ensures
            value == self@.reg(x),
    {
        self.registers[x as usize]
    }

    /// Executes one decoded instruction.
    fn run(&mut self, op: Opcode, keys: &[bool; NUM_KEYS], random: u8)
        requires
            op.wf(),
        ensures
            final(self)@ == old(self)@.execute(op, keys@, random),
    {
        proof {
            use_type_invariant(&*self);
        }
        match op {
            Opcode::ClearScreen => self.clear_screen(),
            Opcode::Return => self.ret(),
            Opcode::Jump { addr } => self.jump(addr),
            Opcode::Call { addr } => self.call(addr),
            Opcode::SkipIfEqual { x, byte } => {
                let vx: u8 = self.reg(x);
                self.skip_if(vx == byte)
            },
            Opcode::SkipIfNotEqual { x, byte } => {
                let vx: u8 = self.reg(x);
                self.skip_if(vx != byte)
            },
            Opcode::SkipIfRegistersEqual { x, y } => {
                let vx: u8 = self.reg(x);
                let vy: u8 = self.reg(y);
                self.skip_if(vx == vy)
            },
            Opcode::Load { x, byte } => self.set_register(x, byte),
            Opcode::Add { x, byte } => {
                let vx: u8 = self.reg(x);
                self.set_register(x, add8(vx, byte))
            },
            Opcode::Copy { x, y } => {
                let vy: u8 = self.reg(y);
                self.set_register(x, vy)
            },
            Opcode::Or { x, y } => {
                let vx: u8 = self.reg(x);
                let vy: u8 = self.reg(y);
                self.set_register(x, vx | vy)
            },
            Opcode::And { x, y } => {
                let vx: u8 = self.reg(x);
                let vy: u8 = self.reg(y);
                self.set_register(x, vx & vy)
            },
            Opcode::Xor { x, y } => {
                let vx: u8 = self.reg(x);
                let vy: u8 = self.reg(y);
                self.set_register(x, vx ^ vy)
            },
            Opcode::AddRegister { x, y } => {
                let vx: u8 = self.reg(x);
                let vy: u8 = self.reg(y);
                let carry: u8 = if vx as u16 + vy as u16 > 255 {
                    1
                } else {
                    0
                };
                self.set_result(x, add8(vx, vy), carry)
            },
            Opcode::Subtract { x, y } => {
                let vx: u8 = self.reg(x);
                let vy: u8 = self.reg(y);
                let greater: u8 = if vx > vy {
                    1
                } else {
                    0
                };
                self.set_result(x, sub8(vx, vy), greater)
            },
            Opcode::ShiftRight { x } => {
                let vx: u8 = self.reg(x);
                self.set_result(x, vx / 2, vx % 2)
            },
            Opcode::SubtractFrom { x, y } => {
                let vx: u8 = self.reg(x);
                let vy: u8 = self.reg(y);
                let greater: u8 = if vy > vx {
                    1
                } else {
                    0
                };
                self.set_result(x, sub8(vy, vx), greater)
            },
            Opcode::ShiftLeft { x } => {
                let vx: u8 = self.reg(x);
                let top: u8 = if vx >= 128 {
                    0x80
                } else {
                    0
                };
                self.set_result(x, double8(vx), top)
            },
            Opcode::SkipIfRegistersDiffer { x, y } => {
                let vx: u8 = self.reg(x);
                let vy: u8 = self.reg(y);
                self.skip_if(vx != vy)
            },
            Opcode::LoadIndex { addr } => self.set_index(addr),
            Opcode::JumpOffset { addr } => {
                let v0: u8 = self.reg(0);
                self.jump(add16(addr, v0))
            },
            Opcode::Random { x, mask } => self.set_register(x, mask & random),
            Opcode::Draw { x, y, rows } => self.draw(x, y, rows),
            Opcode::SkipIfKey { x } => {
                let vx: u8 = self.reg(x);
                let held: bool = (vx as usize) < NUM_KEYS && keys[vx as usize];
                self.skip_if(held)
            },
            Opcode::SkipIfNotKey { x } => {
                let vx: u8 = self.reg(x);
                let held: bool = (vx as usize) < NUM_KEYS && keys[vx as usize];
                self.skip_if(!held)
            },
            Opcode::ReadDelay { x } => {
                let delay: u8 = self.delay_timer;
                self.set_register(x, delay)
            },
            Opcode::WaitKey { x } => self.wait_key(x),
            Opcode::SetDelay { x } => {
                let vx: u8 = self.reg(x);
                self.set_delay(vx)
            },
            Opcode::SetSound { x } => {
                let vx: u8 = self.reg(x);
                self.set_sound(vx)
            },
            Opcode::AddIndex { x } => {
                let vx: u8 = self.reg(x);
                let index: u16 = self.index_register;
                self.set_index(add16(index, vx))
            },
            Opcode::Glyph { x } => {
                let vx: u8 = self.reg(x);
                self.set_index(vx as u16 * 5)
            },
            Opcode::Decimal { x } => self.store_decimal(x),
            Opcode::Store { x } => self.store_registers(x),
            Opcode::Restore { x } => self.restore_registers(x),
            Opcode::Unknown => {},
        }
    }

    /// Executes the instruction `word`, with `keys` as the sample of held keys
    /// and `random` as the byte that a `Cxnn` draws. The program counter is
    /// taken as it stands: the caller has already moved it past the word.
    pub fn execute(&mut self, word: u16, keys: &[bool; NUM_KEYS], random: u8)
        ensures
            final(self)@ == old(self)@.execute(decode_spec(word), keys@, random),
            final(self)@.wf(),
    {
        let op = decode(word);
        self.run(op, keys, random);
        proof {
            use_type_invariant(&*self);
        }
    }
    /// Whether `now` is not before either tick marker, as it must be for a
    /// cycle. It holds of every `now` from the time of the last cycle on.
    pub fn time_is_valid(&self, now: u128) -> (ok: bool)
        ensures
            ok == self@.time_is_valid(now),
    {
        self.last_timer_time <= now && self.last_instruction_time <= now
    }

    /// Whether a cycle at `now` is defined: `now` is not before either tick
    /// marker, and if the cycle executes an instruction, the instruction lies
    /// inside memory.
    pub fn can_cycle(&self, now: u128) -> (ok: bool)
        ensures
            ok == self@.can_cycle(now),
            self@.wf(),
    {
        proof {
            use_type_invariant(self);
        }
        if now < self.last_timer_time || now < self.last_instruction_time {
            false
        } else if self.waiting_for.is_none() && now - self.last_instruction_time
            >= self.instruction_speed {
            (self.program_counter as usize) + 1 < MEMORY_IN_B
        } else {
            true
        }
    }

    /// Whether the cycle at `now` executes a `Cxnn`.
    fn needs_random(&self, now: u128) -> (needed: bool)
        requires
            self@.can_cycle(now),
        ensures
            needed == self@.draws_random(now),
    {
        if self.waiting_for.is_none() && now - self.last_instruction_time
            >= self.instruction_speed {
            match decode(read_word(&self.memory, self.program_counter)) {
                Opcode::Random { .. } => true,
                _ => false,
            }
        } else {
            false
        }
    }

    /// The timer gate.
    fn tick_timers(&mut self, now: u128)
        requires
            old(self)@.last_timer_tick <= now,
        ensures
            final(self)@ == old(self)@.tick_timers(now),
    {
        proof {
            use_type_invariant(&*self);
        }
        if now - self.last_timer_time >= TIMER_PERIOD_NS {
            if self.delay_timer > 0 {
                self.delay_timer = self.delay_timer - 1;
            }
            if self.sound_timer > 0 {
                self.sound_timer = self.sound_timer - 1;
            }
            self.beep_sound_flag = self.sound_timer > 0;
            self.last_timer_time = now;
        }
    }

    /// Fetches the instruction at the program counter, moves the program
    /// counter past it and executes it.
    fn step(&mut self, keys: &[bool; NUM_KEYS], random: u8)
        requires
            old(self)@.can_fetch(),
        ensures
            final(self)@ == old(self)@.step(keys@, random),
    {
        proof {
            use_type_invariant(&*self);
        }
        let word: u16 = read_word(&self.memory, self.program_counter);
        self.program_counter = self.program_counter + 2;
        self.run(decode(word), keys, random);
    }

    /// The instruction gate.
    fn run_instruction(&mut self, now: u128, keys: &[bool; NUM_KEYS], random: u8)
        requires
            old(self)@.last_instruction_tick <= now,
            old(self)@.instruction_due(now) ==> old(self)@.can_fetch(),
        ensures
            final(self)@ == old(self)@.run_instruction(now, keys@, random),
    {
        proof {
            use_type_invariant(&*self);
        }
        if now - self.last_instruction_time >= self.instruction_speed {
            self.step(keys, random);
            proof {
                use_type_invariant(&*self);
            }
            self.last_instruction_time = now;
        }
    }

    /// One cycle in which a `Cxnn`, if one is executed, draws the byte
    /// `random`. The two per-cycle reports are taken back; then, unless the
    /// machine waits for a key, the timers are decremented if a timer period
    /// has passed, and one instruction is executed if an instruction period
    /// has passed. At most one instruction is executed, however long ago the
    /// last one was.
    pub fn cycle_with(&mut self, current_time: u128, keys: &[bool; NUM_KEYS], random: u8)
        requires
            old(self)@.can_cycle(current_time),
        ensures
            final(self)@ == old(self)@.cycle(current_time, keys@, random),
            final(self)@.wf(),
    {
        proof {
            use_type_invariant(&*self);
        }
        self.update_screen_flag = false;
        self.clear_screen_flag = false;
        if self.waiting_for.is_none() {
            self.tick_timers(current_time);
            self.run_instruction(current_time, keys, random);
        }
        proof {
            use_type_invariant(&*self);
        }
    }

    /// One cycle. Where it executes a `Cxnn`, the byte is drawn at random, so
    /// the outcome is that of [`Chip8::cycle_with`] for some byte; any other
    /// cycle is fully determined.
    pub fn cycle(&mut self, current_time: u128, keys: &[bool; NUM_KEYS])
        requires
            old(self)@.can_cycle(current_time),
        ensures
            exists|random: u8| final(self)@ == old(self)@.cycle(current_time, keys@, random),
            !old(self)@.draws_random(current_time) ==> final(self)@ == old(self)@.cycle(
                current_time,
                keys@,
                0,
            ),
            final(self)@.wf(),
    {
        let random: u8 = if self.needs_random(current_time) {
            random_byte()
        } else {
            0
        };
        self.cycle_with(current_time, keys, random);
    }

    /// Hands a key press to the machine. While the machine waits for a key, a
    /// key of the keypad is stored in the waiting register and ends the wait,
    /// and a reserved key cancels it: the caller is told to shut down and the
    /// machine stays as it is. Any other press, and any press while the
    /// machine is not waiting, is ignored.
    pub fn key_down(&mut self, event: KeyEvent) -> (status: KeyWait)
        ensures
            final(self)@ == old(self)@.key_down(event),
            status == old(self)@.key_wait(event),
            final(self)@.wf(),
    {
        proof {
            use_type_invariant(&*self);
        }
        let status = match self.waiting_for {
            None => KeyWait::Idle,
            Some(x) => match event {
                KeyEvent::Key(key) => {
                    if (key as usize) < NUM_KEYS {
                        self.registers[x as usize] = key;
                        self.waiting_for = None;
                        KeyWait::Resumed
                    } else {
                        KeyWait::Pending
                    }
                },
                KeyEvent::Cancel => KeyWait::Cancelled,
                KeyEvent::Other => KeyWait::Pending,
            },
        };
        proof {
            use_type_invariant(&*self);
        }
        status
    }
}

} // verus!
