use crate::chip8::memory::lemma_masked_in_range;
use crate::chip8::memory::masked;
use vstd::prelude::*;

verus! {

/// Screen width in pixels.
pub const WIDTH: usize = 64;

/// Screen height in pixels.
pub const HEIGHT: usize = 32;

/// Total pixel count of the 64 x 32 frame.
pub const PIXELS: usize = 2048;

/// The sprite row byte that a draw with address register `i` reads for row
/// `row`: memory at `i + row`, masked into the address space.
pub open spec fn row_byte(mem: Seq<u8>, i: u16, row: int) -> u8 {
    mem[masked(i.wrapping_add(row as u16))]
}

/// Whether sprite column `col` (0 = leftmost) of sprite row `row` is set.
pub open spec fn sprite_bit(mem: Seq<u8>, i: u16, row: int, col: int) -> bool {
    (row_byte(mem, i, row) >> ((7 - col) as u32)) & 1u8 == 1u8
}

/// Whether a draw of an `n`-row sprite with top-left corner (`cx`, `cy`)
/// touches the pixel with buffer index `pi`. Pixels that would fall outside
/// the frame are clipped, not wrapped, so a pixel is touched only when its
/// own coordinates lie in the sprite's rectangle.
pub open spec fn covers(cx: int, cy: int, n: int, pi: int) -> bool {
    let px = pi % 64;
    let py = pi / 64;
    cx <= px < cx + 8 && cy <= py < cy + n
}

/// Whether the sprite bit that lands on pixel `pi` is set.
pub open spec fn hits(mem: Seq<u8>, i: u16, cx: int, cy: int, pi: int) -> bool {
    sprite_bit(mem, i, pi / 64 - cy, pi % 64 - cx)
}

/// A pixel XOR-ed with a set sprite bit.
pub open spec fn flipped(p: u8) -> u8 {
    if p == 1 {
        0u8
    } else {
        1u8
    }
}

/// One pixel of the display after a draw.
pub open spec fn pixel_after(
    disp: Seq<u8>,
    mem: Seq<u8>,
    i: u16,
    cx: int,
    cy: int,
    n: int,
    pi: int,
) -> u8 {
    if covers(cx, cy, n, pi) && hits(mem, i, cx, cy, pi) {
        flipped(disp[pi])
    } else {
        disp[pi]
    }
}

/// The whole display after a draw of an `n`-row sprite at (`cx`, `cy`).
pub open spec fn rendered(disp: Seq<u8>, mem: Seq<u8>, i: u16, cx: int, cy: int, n: int) -> Seq<
    u8,
> {
    Seq::new(2048, |pi: int| pixel_after(disp, mem, i, cx, cy, n, pi))
}

/// Whether a draw erases some previously set pixel (the collision flag).
pub open spec fn any_collision(
    disp: Seq<u8>,
    mem: Seq<u8>,
    i: u16,
    cx: int,
    cy: int,
    n: int,
) -> bool {
    exists|pi: int|
        0 <= pi < 2048 && covers(cx, cy, n, pi) && hits(mem, i, cx, cy, pi) && disp[pi] == 1
}

/// The pixels a draw has already processed once it stands at sprite row
/// `row`, column `col`: all full rows before `row`, plus the first `col`
/// columns of row `row` itself.
spec fn done_upto(cx: int, cy: int, pi: int, row: int, col: int) -> bool {
    let px = pi % 64;
    let py = pi / 64;
    cx <= px < cx + 8 && cy <= py && (py - cy < row || (py - cy == row && px - cx < col))
}

/// The collision flag accumulated over the processed region.
spec fn collided_upto(
    disp: Seq<u8>,
    mem: Seq<u8>,
    i: u16,
    cx: int,
    cy: int,
    row: int,
    col: int,
) -> bool {
    exists|pi: int|
        0 <= pi < 2048 && done_upto(cx, cy, pi, row, col) && hits(mem, i, cx, cy, pi) && disp[pi]
            == 1
}

/// The 64 x 32 monochrome display buffer, one byte per pixel, each byte 0
/// or 1, stored row-major.
pub struct Display {
    pub buffer: Vec<u8>,
}

impl Display {
    pub open spec fn wf(&self) -> bool {
        &&& self.buffer@.len() == PIXELS
        &&& forall|p: int| 0 <= p < PIXELS ==> (self.buffer@[p] == 0u8 || self.buffer@[p] == 1u8)
    }

    pub fn new() -> (d: Display)
        ensures
            d.wf(),
            forall|p: int| 0 <= p < PIXELS ==> d.buffer@[p] == 0u8,
    {
        let mut pixels: Vec<u8> = Vec::new();
        while pixels.len() < PIXELS
            invariant
                pixels@.len() <= PIXELS,
                forall|p: int| 0 <= p < pixels@.len() ==> pixels@[p] == 0u8,
            decreases PIXELS - pixels@.len(),
        {
            pixels.push(0u8);
        }
        Display { buffer: pixels }
    }

    /// Clear the whole screen: afterwards every pixel reads zero, whatever
    /// was drawn before.
    pub fn clear(&mut self)
        requires
            old(self).wf(),
        ensures
            final(self).wf(),
            forall|p: int| 0 <= p < PIXELS ==> final(self).buffer@[p] == 0u8,
    {
        let mut k: usize = 0;
        while k < PIXELS
            invariant
                self.buffer@.len() == PIXELS,
                k <= PIXELS,
                forall|p: int| 0 <= p < k ==> self.buffer@[p] == 0u8,
                forall|p: int|
                    0 <= p < PIXELS ==> (self.buffer@[p] == 0u8 || self.buffer@[p] == 1u8),
            decreases PIXELS - k,
        {
            self.buffer.set(k, 0u8);
            k = k + 1;
        }
    }

    /// Draw an `n`-row sprite read from memory at address register `i` at the
    /// screen position given by registers `x` and `y` (taken modulo the frame
    /// size), XOR-blending it onto the buffer and clipping rows and columns
    /// that fall off the frame. VF (register 15) is cleared first and set to
    /// 1 exactly when some previously set pixel is erased.
    #[verifier::loop_isolation(false)]
    #[verifier::rlimit(50)]
    pub fn render(
        &mut self,
        registers: &mut Vec<u8>,
        x: usize,
        y: usize,
        n: u8,
        primary_memory: &Vec<u8>,
        i: u16,
    )
        requires
            old(self).wf(),
            old(registers)@.len() == 16,
            x < 16,
            y < 16,
            primary_memory@.len() == 4096,
        ensures
            final(self).wf(),
            final(self).buffer@ == rendered(
                old(self).buffer@,
                primary_memory@,
                i,
                old(registers)@[x as int] as int % 64,
                old(registers)@[y as int] as int % 32,
                n as int,
            ),
            final(registers)@ == old(registers)@.update(
                15,
                if any_collision(
                    old(self).buffer@,
                    primary_memory@,
                    i,
                    old(registers)@[x as int] as int % 64,
                    old(registers)@[y as int] as int % 32,
                    n as int,
                ) {
                    1u8
                } else {
                    0u8
                },
            ),
    {
        let coord_x: usize = (registers[x] as usize) % 64;
        let coord_y: usize = (registers[y] as usize) % 32;
        let ghost disp0: Seq<u8> = self.buffer@;
        let ghost cx: int = coord_x as int;
        let ghost cy: int = coord_y as int;
        registers.set(15, 0u8);
        let mut row: usize = 0;
        while row < n as usize
            invariant
                row <= n as usize,
                self.buffer@.len() == PIXELS,
                forall|p: int|
                    0 <= p < PIXELS ==> self.buffer@[p] == (if done_upto(cx, cy, p, row as int, 0)
                        && hits(primary_memory@, i, cx, cy, p) {
                        flipped(disp0[p])
                    } else {
                        disp0[p]
                    }),
                registers@ == old(registers)@.update(
                    15,
                    if collided_upto(disp0, primary_memory@, i, cx, cy, row as int, 0) {
                        1u8
                    } else {
                        0u8
                    },
                ),
            decreases n as usize - row,
        {
            let sprite: u8 = {
                proof {
                    lemma_masked_in_range(i.wrapping_add(row as u16));
                }
                primary_memory[(i.wrapping_add(row as u16) & 0x0FFF) as usize]
            };
            assert(sprite == row_byte(primary_memory@, i, row as int));
            let mut col: usize = 0;
            while col < 8
                invariant
                    col <= 8,
                    self.buffer@.len() == PIXELS,
                    forall|p: int|
                        0 <= p < PIXELS ==> self.buffer@[p] == (if done_upto(
                            cx,
                            cy,
                            p,
                            row as int,
                            col as int,
                        ) && hits(primary_memory@, i, cx, cy, p) {
                            flipped(disp0[p])
                        } else {
                            disp0[p]
                        }),
                    registers@ == old(registers)@.update(
                        15,
                        if collided_upto(
                            disp0,
                            primary_memory@,
                            i,
                            cx,
                            cy,
                            row as int,
                            col as int,
                        ) {
                            1u8
                        } else {
                            0u8
                        },
                    ),
                decreases 8 - col,
            {
                if coord_x + col < 64 && coord_y + row < 32 {
                    let shift: u32 = (7 - col) as u32;
                    let byte: u8 = (sprite >> shift) & 1;
                    let index: usize = (coord_x + col) + ((coord_y + row) * 64);
                    proof {
                        assert(index as int % 64 == cx + col && index as int / 64 == cy + row) by (
                        nonlinear_arith)
                            requires
                                index == (cx + col) + (cy + row) * 64,
                                0 <= cx + col < 64,
                                0 <= cy + row,
                        ;
                        assert(byte == 1 <==> hits(primary_memory@, i, cx, cy, index as int));
                        assert(!done_upto(cx, cy, index as int, row as int, col as int));
                    }
                    let pixel = self.buffer[index];
                    assert(pixel == disp0[index as int]);
                    if byte == 1 && pixel == 1 {
                        self.buffer.set(index, 0);
                        registers.set(15, 1);
                        proof {
                            assert(collided_upto(
                                disp0,
                                primary_memory@,
                                i,
                                cx,
                                cy,
                                row as int,
                                col as int + 1,
                            ));
                        }
                    }
                    if byte == 1 && pixel == 0 {
                        self.buffer.set(index, 1);
                    }
                    proof {
                        assert forall|p: int|
                            0 <= p < PIXELS && done_upto(cx, cy, p, row as int, col as int + 1)
                                && !done_upto(
                                cx,
                                cy,
                                p,
                                row as int,
                                col as int,
                            ) implies p == index as int by {
                            assert(p == p % 64 + (p / 64) * 64) by (nonlinear_arith)
                                requires
                                    0 <= p,
                            ;
                        }
                        if collided_upto(
                            disp0,
                            primary_memory@,
                            i,
                            cx,
                            cy,
                            row as int,
                            col as int + 1,
                        ) && !(byte == 1 && pixel == 1) {
                            let w = choose|pi: int|
                                0 <= pi < 2048 && done_upto(cx, cy, pi, row as int, col as int + 1)
                                    && hits(primary_memory@, i, cx, cy, pi) && disp0[pi] == 1;
                            if !done_upto(cx, cy, w, row as int, col as int) {
                                assert(w == w % 64 + (w / 64) * 64) by (nonlinear_arith)
                                    requires
                                        0 <= w,
                                ;
                            }
                            assert(collided_upto(
                                disp0,
                                primary_memory@,
                                i,
                                cx,
                                cy,
                                row as int,
                                col as int,
                            ));
                        }
                    }
                } else {
                    proof {
                        assert forall|p: int|
                            0 <= p < PIXELS && done_upto(cx, cy, p, row as int, col as int + 1)
                                implies done_upto(cx, cy, p, row as int, col as int) by {
                            assert(p % 64 < 64 && p / 64 < 32) by (nonlinear_arith)
                                requires
                                    0 <= p < 2048,
                            ;
                        }
                    }
                }
                col = col + 1;
            }
            row = row + 1;
        }
        proof {
            assert(self.buffer@ =~= rendered(disp0, primary_memory@, i, cx, cy, n as int));
        }
    }
}

} // verus!
