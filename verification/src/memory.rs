//! The 4096 bytes of memory and the instructions that move data through them.
//!
//! Addresses formed from the index register wrap at the end of memory, so
//! every access lands inside it.

use vstd::prelude::*;
use crate::constants::{MEMORY_IN_B, NUM_REGISTERS, PROGRAM_MEMORY_START};
use crate::font::{FONT, FONT_BYTES};

verus! {

/// The address `offset` bytes after `index`, wrapped into memory.
pub open spec fn address(index: u16, offset: int) -> int {
    (index as int + offset) % (MEMORY_IN_B as int)
}

/// Memory right after construction: the font at the bottom, the program from
/// 0x200 on, zero elsewhere.
pub open spec fn initial_memory(rom: Seq<u8>) -> Seq<u8> {
    Seq::new(
        MEMORY_IN_B as nat,
        |a: int|
            if a < FONT_BYTES {
                FONT@[a]
            } else if PROGRAM_MEMORY_START <= a < PROGRAM_MEMORY_START + rom.len() {
                rom[a - PROGRAM_MEMORY_START]
            } else {
                0u8
            },
    )
}

/// The big-endian 16-bit word at `at`.
pub open spec fn word_at(memory: Seq<u8>, at: int) -> u16 {
    (memory[at] * 256 + memory[at + 1]) as u16
}

/// Memory after the first `count` registers were stored from `index` on.
pub open spec fn stored(memory: Seq<u8>, registers: Seq<u8>, index: u16, count: int) -> Seq<u8> {
    Seq::new(
        MEMORY_IN_B as nat,
        |a: int|
            {
                let r = (a - index) % (MEMORY_IN_B as int);
                if r < count {
                    registers[r]
                } else {
                    memory[a]
                }
            },
    )
}

/// The registers after the first `count` of them were loaded from `index` on.
pub open spec fn restored(registers: Seq<u8>, memory: Seq<u8>, index: u16, count: int) -> Seq<u8> {
    Seq::new(
        NUM_REGISTERS as nat,
        |r: int|
            if r < count {
                memory[address(index, r)]
            } else {
                registers[r]
            },
    )
}

/// Memory after the hundreds, tens and ones of `value` were stored at `index`
/// and the two addresses after it.
pub open spec fn with_decimal(memory: Seq<u8>, index: u16, value: u8) -> Seq<u8> {
    memory.update(address(index, 0), value / 100).update(
        address(index, 1),
        (value / 10) % 10,
    ).update(address(index, 2), value % 10)
}

/// The offset of the address `offset` bytes after `index` is `offset` again.
pub proof fn lemma_address_offset(index: u16, offset: int)
    requires
        0 <= offset < MEMORY_IN_B,
    ensures
        0 <= address(index, offset) < MEMORY_IN_B,
        (address(index, offset) - index) % (MEMORY_IN_B as int) == offset,
{
    let a = address(index, offset);
    let q = (index as int + offset) / 4096;
    assert(index as int + offset == 4096 * q + a);
    assert(a - index == 4096 * (-q) + offset);
    assert((4096 * (-q) + offset) % 4096 == offset) by (nonlinear_arith)
        requires
            0 <= offset < 4096,
    ;
}

/// Loading the registers that were just stored gives them back.
pub proof fn lemma_restore_after_store(
    memory: Seq<u8>,
    registers: Seq<u8>,
    index: u16,
    count: int,
)
    requires
        memory.len() == MEMORY_IN_B,
        registers.len() == NUM_REGISTERS,
        0 <= count <= NUM_REGISTERS,
    ensures
        restored(registers, stored(memory, registers, index, count), index, count) == registers,
{
    let kept = stored(memory, registers, index, count);
    let back = restored(registers, kept, index, count);
    assert forall|r: int| 0 <= r < NUM_REGISTERS implies back[r] == registers[r] by {
        if r < count {
            lemma_address_offset(index, r);
        }
    }
    assert(back =~= registers);
}

/// Builds the initial memory for a program.
pub fn load(rom: &[u8]) -> (memory: [u8; MEMORY_IN_B])
    requires
        rom@.len() <= MEMORY_IN_B - PROGRAM_MEMORY_START,
    ensures
        memory@ == initial_memory(rom@),
{
    let mut memory: [u8; MEMORY_IN_B] = [0u8; MEMORY_IN_B];
    let mut i: usize = 0;
    while i < FONT_BYTES
        invariant
            i <= FONT_BYTES,
            forall|a: int| 0 <= a < i ==> memory@[a] == FONT@[a],
            forall|a: int| i <= a < MEMORY_IN_B ==> memory@[a] == 0,
        decreases FONT_BYTES - i,
    {
        memory[i] = FONT[i];
        i += 1;
    }
    let mut j: usize = 0;
    while j < rom.len()
        invariant
            j <= rom@.len() <= MEMORY_IN_B - PROGRAM_MEMORY_START,
            forall|a: int| 0 <= a < FONT_BYTES ==> memory@[a] == FONT@[a],
            forall|a: int| FONT_BYTES <= a < PROGRAM_MEMORY_START ==> memory@[a] == 0,
            forall|a: int|
                PROGRAM_MEMORY_START <= a < PROGRAM_MEMORY_START + j ==> memory@[a] == rom@[a
                    - PROGRAM_MEMORY_START],
            forall|a: int| PROGRAM_MEMORY_START + j <= a < MEMORY_IN_B ==> memory@[a] == 0,
        decreases rom@.len() - j,
    {
        memory[PROGRAM_MEMORY_START + j] = rom[j];
        j += 1;
    }
    assert(memory@ =~= initial_memory(rom@));
    memory
}

/// Reads the big-endian word at `at`.
pub fn read_word(memory: &[u8; MEMORY_IN_B], at: u16) -> (word: u16)
    requires
        at + 1 < MEMORY_IN_B,
    ensures
        word == word_at(memory@, at as int),
{
    let high: u16 = memory[at as usize] as u16;
    let low: u16 = memory[at as usize + 1] as u16;
    high * 256 + low
}

/// Stores the registers `0..=last` from `index` on.
pub fn store(
    memory: &mut [u8; MEMORY_IN_B],
    registers: &[u8; NUM_REGISTERS],
    index: u16,
    last: u8,
)
    requires
        last < NUM_REGISTERS,
    ensures
        final(memory)@ == stored(old(memory)@, registers@, index, last + 1),
    no_unwind
{
    let ghost before = memory@;
    let mut r: usize = 0;
    assert(memory@ =~= stored(before, registers@, index, 0));
    while r <= last as usize
        invariant
            r <= last + 1,
            last < NUM_REGISTERS,
            before.len() == MEMORY_IN_B,
            memory@ == stored(before, registers@, index, r as int),
        decreases last + 1 - r,
    {
        let at: usize = (index as usize + r) % MEMORY_IN_B;
        memory[at] = registers[r];
        assert(memory@ =~= stored(before, registers@, index, r + 1));
        r += 1;
    }
}

/// Loads the registers `0..=last` from `index` on.
pub fn restore(
    registers: &mut [u8; NUM_REGISTERS],
    memory: &[u8; MEMORY_IN_B],
    index: u16,
    last: u8,
)
    requires
        last < NUM_REGISTERS,
    ensures
        final(registers)@ == restored(old(registers)@, memory@, index, last + 1),
    no_unwind
{
    let ghost before = registers@;
    let mut r: usize = 0;
    assert(registers@ =~= restored(before, memory@, index, 0));
    while r <= last as usize
        invariant
            r <= last + 1,
            last < NUM_REGISTERS,
            before.len() == NUM_REGISTERS,
            registers@ == restored(before, memory@, index, r as int),
        decreases last + 1 - r,
    {
        registers[r] = memory[(index as usize + r) % MEMORY_IN_B];
        assert(registers@ =~= restored(before, memory@, index, r + 1));
        r += 1;
    }
}

/// Stores the three decimal digits of `value` at `index`.
pub fn store_decimal(memory: &mut [u8; MEMORY_IN_B], index: u16, value: u8)
    ensures
        final(memory)@ == with_decimal(old(memory)@, index, value),
    no_unwind
{
    let at: usize = index as usize;
    memory[at % MEMORY_IN_B] = value / 100;
    memory[(at + 1) % MEMORY_IN_B] = (value / 10) % 10;
    memory[(at + 2) % MEMORY_IN_B] = value % 10;
}

} // verus!
