//! A picture of 32 by 32 cells that a program keeps in work RAM, one byte
//! per cell, from `$0200` on.

use crate::cpu::CPU;
use vstd::prelude::*;

verus! {

/// Where the cells start in memory.
pub const SCREEN_BASE: u16 = 0x0200;

/// The number of cells.
pub const SCREEN_CELLS: usize = 1024;

/// Brings `frame`, three bytes for each cell, up to date with the cells in
/// memory, giving each cell the colour that `color` has for its byte, and
/// tells whether anything changed. The processor is left as it was.
pub fn read_screen_state<F: Fn(u8) -> (u8, u8, u8)>(
    cpu: &mut CPU,
    frame: &mut [u8; 3072],
    color: F,
) -> (update: bool)
    requires
        old(cpu).wf(),
        forall|byte: u8| call_requires(color, (byte,)),
    ensures
        final(cpu).wf(),
        final(cpu)@ == old(cpu)@,
        forall|i: int|
            0 <= i < 1024 ==> call_ensures(
                color,
                (#[trigger] old(cpu)@.bus.ram[0x0200 + i],),
                (final(frame)@[3 * i], final(frame)@[3 * i + 1], final(frame)@[3 * i + 2]),
            ),
        update == (final(frame)@ != old(frame)@),
{
    let ghost start = frame@;
    let mut update = false;
    let mut i: usize = 0;
    while i < SCREEN_CELLS
        invariant
            i <= 1024,
            cpu.wf(),
            cpu@ == old(cpu)@,
            start == old(frame)@,
            forall|byte: u8| call_requires(color, (byte,)),
            forall|j: int|
                0 <= j < i ==> call_ensures(
                    color,
                    (#[trigger] cpu@.bus.ram[0x0200 + j],),
                    (frame@[3 * j], frame@[3 * j + 1], frame@[3 * j + 2]),
                ),
            forall|k: int| 3 * i <= k < 3072 ==> frame@[k] == start[k],
            update == exists|k: int| 0 <= k < 3 * i && frame@[k] != start[k],
        decreases 1024 - i,
    {
        let ghost before = frame@;
        let color_idx = match cpu.mem_read(SCREEN_BASE + i as u16) {
            Ok(byte) => byte,
            Err(_) => 0,
        };
        assert(color_idx == cpu@.bus.ram[0x0200 + i]);
        let (b1, b2, b3) = color(color_idx);
        let frame_idx: usize = i * 3;
        if frame[frame_idx] != b1 || frame[frame_idx + 1] != b2 || frame[frame_idx + 2] != b3 {
            frame[frame_idx] = b1;
            frame[frame_idx + 1] = b2;
            frame[frame_idx + 2] = b3;
            update = true;
            assert(frame@[3 * i] != start[3 * i as int] || frame@[3 * i + 1] != start[3 * i + 1]
                || frame@[3 * i + 2] != start[3 * i + 2]);
        } else {
            assert(frame@ =~= before);
        }
        proof {
            if exists|k: int| 0 <= k < 3 * i && before[k] != start[k] {
                let k = choose|k: int| 0 <= k < 3 * i && before[k] != start[k];
                assert(frame@[k] != start[k]);
            }
        }
        i = i + 1;
    }
    proof {
        if !update {
            assert(frame@ =~= start);
        }
    }
    update
}

} // verus!
