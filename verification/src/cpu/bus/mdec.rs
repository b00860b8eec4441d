use vstd::prelude::*;
use std::collections::VecDeque;
use crate::cpu::instructions::trunc_div;

verus! {

/// The pixel format of decoded macroblocks.
#[derive(Copy, Clone, PartialEq, Eq, Structural, Debug)]
pub enum OutputDepth {
    Bit4,
    Bit8,
    Bit24,
    Bit15,
}

/// The three blocks of a macroblock: the two chroma blocks and the luminance block.
#[derive(Copy, Clone, PartialEq, Eq, Structural, Debug)]
pub enum BlockType {
    Cr,
    Cb,
    Yb,
}

/// The DMA requests of the decoder: data in wanted, data out ready.
#[derive(Copy, Clone, PartialEq, Eq, Structural, Debug)]
pub struct MdecDma {
    pub dma_in: bool,
    pub dma_out: bool,
}

/// Whether the six blocks of the current macroblock are all decoded.
#[derive(Copy, Clone, PartialEq, Eq, Structural, Debug)]
pub enum BlockStatus {
    BlocksPending,
    BlocksProcessed,
}

/// The pixels of a macroblock.
pub const NUM_COLORS: usize = 256;

/// The input FIFO's size in halfwords.
pub const MDEC_FIFO_SIZE_HALFWORDS: usize = 64;

/// The halfword that pads the input between blocks.
pub const PADDING: u16 = 0xfe00;

/// Position of the `i`th coefficient of the zig-zag scan in the 8x8 block.
pub const ZIGZAG_TABLE: [usize; 64] = [
    0, 1, 5, 6, 14, 15, 27, 28, 2, 4, 7, 13, 16, 26, 29, 42, 3, 8, 12, 17, 25, 30, 41, 43, 9, 11,
    18, 24, 31, 40, 44, 53, 10, 19, 23, 32, 39, 45, 52, 54, 20, 22, 33, 38, 46, 51, 55, 60, 21, 34,
    37, 47, 50, 56, 59, 61, 35, 36, 48, 49, 57, 58, 62, 63,
];

/// The inverse zig-zag table built from the first `n` entries: entry `ZIGZAG_TABLE[i]` is `i`.
pub open spec fn zagzig_fill(n: nat) -> Seq<usize>
    decreases n,
{
    if n == 0 {
        Seq::new(64, |j: int| 0usize)
    } else {
        zagzig_fill((n - 1) as nat).update(ZIGZAG_TABLE@[n - 1] as int, (n - 1) as usize)
    }
}

/// The inverse zig-zag table the decoder is built with, entry by entry.
proof fn lemma_zagzig_entries()
    ensures
        zagzig_fill(64) == seq![0usize, 1usize, 8usize, 16usize, 9usize, 2usize, 3usize, 10usize, 17usize, 24usize, 32usize, 25usize, 18usize, 11usize, 4usize, 5usize, 12usize, 19usize, 26usize, 33usize, 40usize, 48usize, 41usize, 34usize, 27usize, 20usize, 13usize, 6usize, 7usize, 14usize, 21usize, 28usize, 35usize, 42usize, 49usize, 56usize, 57usize, 50usize, 43usize, 36usize, 29usize, 22usize, 15usize, 23usize, 30usize, 37usize, 44usize, 51usize, 58usize, 59usize, 52usize, 45usize, 38usize, 31usize, 39usize, 46usize, 53usize, 60usize, 61usize, 54usize, 47usize, 55usize, 62usize, 63usize],
{
    reveal_with_fuel(zagzig_fill, 65);
    assert(zagzig_fill(64) =~= seq![0usize, 1usize, 8usize, 16usize, 9usize, 2usize, 3usize, 10usize, 17usize, 24usize, 32usize, 25usize, 18usize, 11usize, 4usize, 5usize, 12usize, 19usize, 26usize, 33usize, 40usize, 48usize, 41usize, 34usize, 27usize, 20usize, 13usize, 6usize, 7usize, 14usize, 21usize, 28usize, 35usize, 42usize, 49usize, 56usize, 57usize, 50usize, 43usize, 36usize, 29usize, 22usize, 15usize, 23usize, 30usize, 37usize, 44usize, 51usize, 58usize, 59usize, 52usize, 45usize, 38usize, 31usize, 39usize, 46usize, 53usize, 60usize, 61usize, 54usize, 47usize, 55usize, 62usize, 63usize]);
}

/// With a nonzero quantiser scale, and the table a new decoder is built with, run-length
/// coefficient `k` lands at the block position `p` that the zig-zag scan visits `k`-th:
/// `ZIGZAG_TABLE[p] == k`.
pub proof fn lemma_coefficients_follow_zigzag(k: int, q_scale: u16)
    requires
        0 <= k < 64,
        q_scale > 0,
    ensures
        0 <= coefficient_slot(k, q_scale, zagzig_fill(64)) < 64,
        ZIGZAG_TABLE@[coefficient_slot(k, q_scale, zagzig_fill(64))] as int == k,
{
    lemma_zagzig_entries();
    if k == 0 {
        assert(ZIGZAG_TABLE@[0] == 0);
    } else if k == 1 {
        assert(ZIGZAG_TABLE@[1] == 1);
    } else if k == 2 {
        assert(ZIGZAG_TABLE@[8] == 2);
    } else if k == 3 {
        assert(ZIGZAG_TABLE@[16] == 3);
    } else if k == 4 {
        assert(ZIGZAG_TABLE@[9] == 4);
    } else if k == 5 {
        assert(ZIGZAG_TABLE@[2] == 5);
    } else if k == 6 {
        assert(ZIGZAG_TABLE@[3] == 6);
    } else if k == 7 {
        assert(ZIGZAG_TABLE@[10] == 7);
    } else if k == 8 {
        assert(ZIGZAG_TABLE@[17] == 8);
    } else if k == 9 {
        assert(ZIGZAG_TABLE@[24] == 9);
    } else if k == 10 {
        assert(ZIGZAG_TABLE@[32] == 10);
    } else if k == 11 {
        assert(ZIGZAG_TABLE@[25] == 11);
    } else if k == 12 {
        assert(ZIGZAG_TABLE@[18] == 12);
    } else if k == 13 {
        assert(ZIGZAG_TABLE@[11] == 13);
    } else if k == 14 {
        assert(ZIGZAG_TABLE@[4] == 14);
    } else if k == 15 {
        assert(ZIGZAG_TABLE@[5] == 15);
    } else if k == 16 {
        assert(ZIGZAG_TABLE@[12] == 16);
    } else if k == 17 {
        assert(ZIGZAG_TABLE@[19] == 17);
    } else if k == 18 {
        assert(ZIGZAG_TABLE@[26] == 18);
    } else if k == 19 {
        assert(ZIGZAG_TABLE@[33] == 19);
    } else if k == 20 {
        assert(ZIGZAG_TABLE@[40] == 20);
    } else if k == 21 {
        assert(ZIGZAG_TABLE@[48] == 21);
    } else if k == 22 {
        assert(ZIGZAG_TABLE@[41] == 22);
    } else if k == 23 {
        assert(ZIGZAG_TABLE@[34] == 23);
    } else if k == 24 {
        assert(ZIGZAG_TABLE@[27] == 24);
    } else if k == 25 {
        assert(ZIGZAG_TABLE@[20] == 25);
    } else if k == 26 {
        assert(ZIGZAG_TABLE@[13] == 26);
    } else if k == 27 {
        assert(ZIGZAG_TABLE@[6] == 27);
    } else if k == 28 {
        assert(ZIGZAG_TABLE@[7] == 28);
    } else if k == 29 {
        assert(ZIGZAG_TABLE@[14] == 29);
    } else if k == 30 {
        assert(ZIGZAG_TABLE@[21] == 30);
    } else if k == 31 {
        assert(ZIGZAG_TABLE@[28] == 31);
    } else if k == 32 {
        assert(ZIGZAG_TABLE@[35] == 32);
    } else if k == 33 {
        assert(ZIGZAG_TABLE@[42] == 33);
    } else if k == 34 {
        assert(ZIGZAG_TABLE@[49] == 34);
    } else if k == 35 {
        assert(ZIGZAG_TABLE@[56] == 35);
    } else if k == 36 {
        assert(ZIGZAG_TABLE@[57] == 36);
    } else if k == 37 {
        assert(ZIGZAG_TABLE@[50] == 37);
    } else if k == 38 {
        assert(ZIGZAG_TABLE@[43] == 38);
    } else if k == 39 {
        assert(ZIGZAG_TABLE@[36] == 39);
    } else if k == 40 {
        assert(ZIGZAG_TABLE@[29] == 40);
    } else if k == 41 {
        assert(ZIGZAG_TABLE@[22] == 41);
    } else if k == 42 {
        assert(ZIGZAG_TABLE@[15] == 42);
    } else if k == 43 {
        assert(ZIGZAG_TABLE@[23] == 43);
    } else if k == 44 {
        assert(ZIGZAG_TABLE@[30] == 44);
    } else if k == 45 {
        assert(ZIGZAG_TABLE@[37] == 45);
    } else if k == 46 {
        assert(ZIGZAG_TABLE@[44] == 46);
    } else if k == 47 {
        assert(ZIGZAG_TABLE@[51] == 47);
    } else if k == 48 {
        assert(ZIGZAG_TABLE@[58] == 48);
    } else if k == 49 {
        assert(ZIGZAG_TABLE@[59] == 49);
    } else if k == 50 {
        assert(ZIGZAG_TABLE@[52] == 50);
    } else if k == 51 {
        assert(ZIGZAG_TABLE@[45] == 51);
    } else if k == 52 {
        assert(ZIGZAG_TABLE@[38] == 52);
    } else if k == 53 {
        assert(ZIGZAG_TABLE@[31] == 53);
    } else if k == 54 {
        assert(ZIGZAG_TABLE@[39] == 54);
    } else if k == 55 {
        assert(ZIGZAG_TABLE@[46] == 55);
    } else if k == 56 {
        assert(ZIGZAG_TABLE@[53] == 56);
    } else if k == 57 {
        assert(ZIGZAG_TABLE@[60] == 57);
    } else if k == 58 {
        assert(ZIGZAG_TABLE@[61] == 58);
    } else if k == 59 {
        assert(ZIGZAG_TABLE@[54] == 59);
    } else if k == 60 {
        assert(ZIGZAG_TABLE@[47] == 60);
    } else if k == 61 {
        assert(ZIGZAG_TABLE@[55] == 61);
    } else if k == 62 {
        assert(ZIGZAG_TABLE@[62] == 62);
    } else if k == 63 {
        assert(ZIGZAG_TABLE@[63] == 63);
    }
}

/// A 10-bit two's complement value, sign-extended.
pub open spec fn sext10(v: u16) -> i16 {
    (((v << 6u16) as u16) as i16) >> 6i16
}

/// `v` limited to the 11-bit range -400h..=3FFh.
pub open spec fn clamp11(v: i16) -> i16 {
    if v < -0x400 { -0x400i16 } else if v > 0x3ff { 0x3ffi16 } else { v }
}

/// The DC coefficient of a block from its first halfword.
pub open spec fn dc_value(hw: u16, quant: u8) -> i16 {
    let q = (hw >> 10u16) & 0x3f;
    if q == 0 {
        clamp11(sext10(hw & 0x3ff).wrapping_mul(2))
    } else {
        clamp11(sext10(hw & 0x3ff).wrapping_mul(quant as i16))
    }
}

/// An AC coefficient from its halfword, its quantizer entry and the block's scale.
pub open spec fn ac_value(hw: u16, quant: u8, q_scale: u16) -> i16 {
    if q_scale == 0 {
        clamp11(sext10(hw & 0x3ff).wrapping_mul(2))
    } else {
        clamp11(
            trunc_div(
                sext10(hw & 0x3ff).wrapping_mul(quant as i16).wrapping_mul(q_scale as i16).wrapping_add(4) as int,
                8,
            ) as i16,
        )
    }
}

/// Where coefficient `k` is stored: in scan order without scaling, else through the
/// inverse zig-zag table.
pub open spec fn coefficient_slot(k: int, q_scale: u16, zagzig: Seq<usize>) -> int {
    if q_scale > 0 { zagzig[k] as int } else { k }
}

/// The run-length coded AC coefficients: each halfword skips `(hw >> 10) & 3Fh` zeros and
/// stores one coefficient, until position 63 is passed. Gives the block, the position, the
/// halfwords left and whether the block is complete.
pub open spec fn ac_run(
    block: Seq<i16>,
    k: int,
    q_scale: u16,
    quant: Seq<u8>,
    zagzig: Seq<usize>,
    fifo: Seq<u16>,
) -> (Seq<i16>, int, Seq<u16>, bool)
    decreases fifo.len(),
{
    if fifo.len() == 0 {
        (block, k, fifo, false)
    } else {
        let hw = fifo[0];
        let k2 = k + ((hw >> 10u16) & 0x3f) + 1;
        let b2 = if k2 < 64 {
            block.update(coefficient_slot(k2, q_scale, zagzig), ac_value(hw, quant[k2], q_scale))
        } else {
            block
        };
        if k2 >= 63 {
            (b2, k2, fifo.drop_first(), true)
        } else {
            ac_run(b2, k2, q_scale, quant, zagzig, fifo.drop_first())
        }
    }
}

/// The halfwords after the leading padding.
pub open spec fn skip_padding(fifo: Seq<u16>) -> Seq<u16>
    decreases fifo.len(),
{
    if fifo.len() > 0 && fifo[0] == PADDING {
        skip_padding(fifo.drop_first())
    } else {
        fifo
    }
}

/// One output of a pass of the inverse DCT: the dot product of column `y` of the block with
/// column `x` of the scale table (its entries divided by 8), over the first `n` rows.
pub open spec fn idct_sum(block: Seq<i16>, scale: Seq<i16>, x: int, y: int, n: int) -> int
    decreases n,
{
    if n <= 0 {
        0
    } else {
        idct_sum(block, scale, x, y, n - 1) + block[y + (n - 1) * 8] * trunc_div(
            scale[x + (n - 1) * 8] as int,
            8,
        )
    }
}

/// One pass of the inverse DCT, which also transposes the block.
pub open spec fn idct_pass(block: Seq<i16>, scale: Seq<i16>) -> Seq<i16> {
    Seq::new(
        64,
        |i: int| trunc_div(idct_sum(block, scale, i % 8, i / 8, 8) + 0xfff, 0x2000) as i16,
    )
}

/// The inverse DCT: two passes.
pub open spec fn idct(block: Seq<i16>, scale: Seq<i16>) -> Seq<i16> {
    idct_pass(idct_pass(block, scale), scale)
}

/// `a / d` rounded toward zero, as Rust's signed division does.
pub(crate) fn divide_toward_zero(a: i32, d: i32) -> (r: i32)
    requires
        d > 0,
    ensures
        r == trunc_div(a as int, d as int),
{
    let n = a as i64;
    let an: u64 = if n >= 0 { n as u64 } else { (-n) as u64 };
    let q = an / (d as u64);
    assert(q <= an) by (nonlinear_arith)
        requires
            d >= 1,
            q == an / (d as u64),
    ;
    if n >= 0 {
        q as i32
    } else {
        -(q as i64) as i32
    }
}

fn sign_extend_i10(value: u16) -> (r: i16)
    ensures
        r == sext10(value),
        -0x200 <= r < 0x200,
{
    let r = ((value << 6u16) as i16) >> 6i16;
    assert(-0x200 <= (((value << 6u16) as u16) as i16) >> 6i16 < 0x200) by (bit_vector);
    r
}

fn clamp_coefficient(v: i16) -> (r: i16)
    ensures
        r == clamp11(v),
{
    if v < -0x400 {
        -0x400
    } else if v > 0x3ff {
        0x3ff
    } else {
        v
    }
}

fn dc_coefficient(hw: u16, quant: u8) -> (r: i16)
    ensures
        r == dc_value(hw, quant),
{
    let q = (hw >> 10u16) & 0x3f;
    if q == 0 {
        clamp_coefficient(sign_extend_i10(hw & 0x3ff).wrapping_mul(2))
    } else {
        clamp_coefficient(sign_extend_i10(hw & 0x3ff).wrapping_mul(quant as i16))
    }
}

fn ac_coefficient(hw: u16, quant: u8, q_scale: u16) -> (r: i16)
    ensures
        r == ac_value(hw, quant, q_scale),
{
    if q_scale == 0 {
        clamp_coefficient(sign_extend_i10(hw & 0x3ff).wrapping_mul(2))
    } else {
        let p = sign_extend_i10(hw & 0x3ff).wrapping_mul(quant as i16).wrapping_mul(q_scale as i16).wrapping_add(4);
        clamp_coefficient(divide_toward_zero(p as i32, 8) as i16)
    }
}

/// One pass of the inverse DCT of `block` by `scale`.
fn idct_pass_exec(block: &Vec<i16>, scale: &Vec<i16>) -> (r: Vec<i16>)
    requires
        block@.len() == 64,
        scale@.len() == 64,
    ensures
        r@ == idct_pass(block@, scale@),
{
    let mut dest: Vec<i16> = Vec::new();
    let mut i: usize = 0;
    while i < 64
        invariant
            i <= 64,
            block@.len() == 64,
            scale@.len() == 64,
            dest@.len() == i,
            forall|j: int| 0 <= j < i ==> dest@[j] == idct_pass(block@, scale@)[j],
        decreases 64 - i,
    {
        let x = i % 8;
        let y = i / 8;
        let mut sum: i32 = 0;
        let mut z: usize = 0;
        while z < 8
            invariant
                z <= 8,
                x < 8,
                y < 8,
                block@.len() == 64,
                scale@.len() == 64,
                sum == idct_sum(block@, scale@, x as int, y as int, z as int),
                -0x0800_0000 * z <= sum <= 0x0800_0000 * z,
            decreases 8 - z,
        {
            let b = block[y + z * 8] as i32;
            let s = scale[x + z * 8] as i32 / 8;
            assert(-0x8000 <= b <= 0x7fff);
            assert(-0x1000 <= s <= 0x1000);
            assert(s == trunc_div(scale@[x + z * 8] as int, 8));
            assert(-0x0800_0000 <= b * s <= 0x0800_0000) by (nonlinear_arith)
                requires
                    -0x8000 <= b <= 0x7fff,
                    -0x1000 <= s <= 0x1000,
            ;
            sum = sum + b * s;
            z += 1;
        }
        let q = divide_toward_zero(sum + 0xfff, 0x2000);
        dest.push(q as i16);
        i += 1;
    }
    dest
}

/// Whether `(new_block, new_fifo, new_k, new_q)` and `r` are what decoding a block gives from
/// `block`, `fifo`, position `k` and scale `q_scale`: at the start of a block (`k` = 64) the
/// padding is skipped, the block cleared and the DC coefficient stored; then the AC run; a
/// complete block is transformed by the inverse DCT and `k` goes back to 64.
pub open spec fn block_decoded(
    block: Seq<i16>,
    fifo: Seq<u16>,
    k: int,
    q_scale: u16,
    quant: Seq<u8>,
    zagzig: Seq<usize>,
    scale: Seq<i16>,
    new_block: Seq<i16>,
    new_fifo: Seq<u16>,
    new_k: int,
    new_q: u16,
    r: bool,
) -> bool {
    let head = if k == 64 { skip_padding(fifo) } else { fifo };
    if k == 64 && head.len() == 0 {
        &&& !r
        &&& new_fifo == head
        &&& new_block == Seq::new(64, |j: int| 0i16)
        &&& new_k == k
        &&& new_q == q_scale
    } else {
        let (b0, k0, q0, rest) = if k == 64 {
            let hw = head[0];
            let q = (hw >> 10u16) & 0x3f;
            (
                Seq::new(64, |j: int| 0i16).update(
                    coefficient_slot(0, q, zagzig),
                    dc_value(hw, quant[0]),
                ),
                0int,
                q,
                head.drop_first(),
            )
        } else {
            (block, k, q_scale, fifo)
        };
        let (b1, k1, rest1, done) = ac_run(b0, k0, q0, quant, zagzig, rest);
        &&& r == done
        &&& new_fifo == rest1
        &&& new_q == q0
        &&& done ==> new_k == 64 && new_block == idct(b1, scale)
        &&& !done ==> new_k == k1 && new_block == b1
    }
}

/// Decodes one block's coefficients from the front of `fifo` into `block` and, once the block
/// is complete, transforms it by the inverse DCT.
#[verifier::loop_isolation(false)]
fn decode_coefficients(
    block: &mut Vec<i16>,
    fifo: &mut VecDeque<u16>,
    k: &mut usize,
    q_scale: &mut u16,
    quant: &Vec<u8>,
    zagzig: &Vec<usize>,
    scale: &Vec<i16>,
) -> (r: bool)
    requires
        old(block)@.len() == 64,
        quant@.len() == 64,
        scale@.len() == 64,
        zagzig@.len() == 64,
        forall|j: int| 0 <= j < 64 ==> zagzig@[j] < 64,
        *old(k) <= 64,
        *old(k) == 64 ==> old(fifo)@.len() > 0,
        *old(q_scale) <= 0x3f,
    ensures
        final(block)@.len() == 64,
        *final(k) <= 64,
        *final(q_scale) <= 0x3f,
        block_decoded(old(block)@, old(fifo)@, *old(k) as int, *old(q_scale), quant@, zagzig@, scale@,
            final(block)@, final(fifo)@, *final(k) as int, *final(q_scale), r),
        r ==> final(fifo)@.len() < old(fifo)@.len(),
{
    let ghost start_fifo = fifo@;
    if *k == 64 {
        let mut zeros: Vec<i16> = Vec::new();
        while zeros.len() < 64
            invariant
                zeros@.len() <= 64,
                forall|j: int| 0 <= j < zeros@.len() ==> zeros@[j] == 0,
            decreases 64 - zeros@.len(),
        {
            zeros.push(0);
        }
        *block = zeros;
        assert(block@ =~= Seq::new(64, |j: int| 0i16));
        let mut halfword: u16 = match fifo.pop_front() {
            Some(h) => h,
            None => 0,
        };
        proof {
            assert(start_fifo =~= seq![halfword] + fifo@);
            assert(start_fifo.drop_first() =~= fifo@);
        }
        while halfword == PADDING
            invariant
                skip_padding(start_fifo) == (if halfword == PADDING { skip_padding(fifo@) } else { seq![halfword] + fifo@ }),
                block@ == Seq::new(64, |j: int| 0i16),
                *k == 64,
            decreases fifo@.len(),
        {
            if fifo.len() == 0 {
                proof {
                    assert(skip_padding(fifo@) == fifo@);
                }
                return false;
            }
            let ghost before = fifo@;
            halfword = match fifo.pop_front() {
                Some(h) => h,
                None => 0,
            };
            proof {
                assert(before =~= seq![halfword] + fifo@);
                assert(before.drop_first() =~= fifo@);
            }
        }
        proof {
            assert((seq![halfword] + fifo@).drop_first() =~= fifo@);
        }
        *k = 0;
        *q_scale = (halfword >> 10u16) & 0x3f;
        proof {
            assert((halfword >> 10u16) & 0x3f <= 0x3f) by (bit_vector);
        }
        let value = dc_coefficient(halfword, quant[0]);
        if *q_scale == 0 {
            block.set(0, value);
        } else {
            block.set(zagzig[0], value);
        }
        proof {
            assert(block@ =~= Seq::new(64, |j: int| 0i16).update(
                coefficient_slot(0, *q_scale, zagzig@),
                dc_value(halfword, quant@[0]),
            ));
            assert(skip_padding(start_fifo) == seq![halfword] + fifo@);
            assert((seq![halfword] + fifo@)[0] == halfword);
        }
    }
    let ghost run_block = block@;
    let ghost run_k = *k as int;
    let ghost run_fifo = fifo@;
    let ghost outcome = ac_run(run_block, run_k, *q_scale, quant@, zagzig@, run_fifo);
    let mut done = false;
    while !done
        invariant
            block@.len() == 64,
            quant@.len() == 64,
            zagzig@.len() == 64,
            forall|j: int| 0 <= j < 64 ==> zagzig@[j] < 64,
            *q_scale <= 0x3f,
            !done ==> *k < 63 || (*k == run_k && run_k < 64),
            !done ==> ac_run(block@, *k as int, *q_scale, quant@, zagzig@, fifo@) == outcome,
            done ==> (block@, *k as int, fifo@, true) == outcome,
        decreases fifo@.len(),
    {
        let ghost before = fifo@;
        let halfword = match fifo.pop_front() {
            Some(h) => h,
            None => {
                proof {
                    assert(ac_run(block@, *k as int, *q_scale, quant@, zagzig@, fifo@) == (block@, *k as int, fifo@, false));
                }
                return false;
            },
        };
        proof {
            assert(before.drop_first() =~= fifo@);
        }
        *k += ((halfword as usize) >> 10usize) & 0x3f;
        *k += 1;
        if *k < 64 {
            let value = ac_coefficient(halfword, quant[*k], *q_scale);
            if *q_scale > 0 {
                block.set(zagzig[*k], value);
            } else {
                block.set(*k, value);
            }
        }
        if *k >= 63 {
            done = true;
        }
    }
    proof {
        lemma_ac_run_consumes(run_block, run_k, *q_scale, quant@, zagzig@, run_fifo);
        lemma_skip_padding_len(start_fifo);
    }
    *k = 64;
    idct_core(block, scale);
    true
}

/// The AC run uses up no more than its input, and at least one halfword when it completes.
proof fn lemma_ac_run_consumes(block: Seq<i16>, k: int, q_scale: u16, quant: Seq<u8>, zagzig: Seq<usize>, fifo: Seq<u16>)
    ensures
        ac_run(block, k, q_scale, quant, zagzig, fifo).2.len() <= fifo.len(),
        ac_run(block, k, q_scale, quant, zagzig, fifo).3 ==> ac_run(block, k, q_scale, quant, zagzig, fifo).2.len() < fifo.len(),
    decreases fifo.len(),
{
    if fifo.len() > 0 {
        let hw = fifo[0];
        let k2 = k + ((hw >> 10u16) & 0x3f) + 1;
        let b2 = if k2 < 64 {
            block.update(coefficient_slot(k2, q_scale, zagzig), ac_value(hw, quant[k2], q_scale))
        } else {
            block
        };
        lemma_ac_run_consumes(b2, k2, q_scale, quant, zagzig, fifo.drop_first());
    }
}

/// Skipping padding never lengthens the input.
proof fn lemma_skip_padding_len(fifo: Seq<u16>)
    ensures
        skip_padding(fifo).len() <= fifo.len(),
    decreases fifo.len(),
{
    if fifo.len() > 0 && fifo[0] == PADDING {
        lemma_skip_padding_len(fifo.drop_first());
    }
}

/// The inverse DCT of `block` in place: two passes by the scale table.
fn idct_core(block: &mut Vec<i16>, scale: &Vec<i16>)
    requires
        old(block)@.len() == 64,
        scale@.len() == 64,
    ensures
        final(block)@ == idct(old(block)@, scale@),
        final(block)@.len() == 64,
{
    let first = idct_pass_exec(block, scale);
    let second = idct_pass_exec(&first, scale);
    *block = second;
}


/// What a run of the decoder leaves to its owner.
#[derive(Copy, Clone, PartialEq, Eq, Structural, Debug)]
pub enum MdecStep {
    /// The input is used up or waits for more; the DMA requests now.
    Status(MdecDma),
    /// A luminance block of the macroblock is decoded: its pixels, at column `xx` and row
    /// `yy` of the 16x16 macroblock, are to be converted to RGB into `output` before the
    /// decoder runs again.
    Convert(usize, usize),
    /// A command word names no command (its bits 29..31).
    InvalidCommand(u32),
    /// The macroblocks are to be output at 4 or 8 bits per pixel, which is not supported.
    UnsupportedDepth,
    /// The input ran out in the middle of a command word or a table.
    MissingData,
}

/// How far the decoding of a macroblock got.
#[derive(Copy, Clone, PartialEq, Eq, Structural, Debug)]
pub enum Progress {
    /// The input ran out before a block was complete.
    Stalled,
    /// The input ran out after a complete block.
    Drained,
    /// A luminance block is complete and waits for its colour conversion; `last` tells
    /// whether it ends the macroblock.
    Converting(usize, usize, bool),
}

/// The motion decoder (MDEC): run-length decoding, dequantisation and inverse DCT of
/// macroblocks, fed halfword by halfword.
pub struct Mdec {
    pub in_fifo: VecDeque<u16>,
    pub out_fifo: VecDeque<u8>,
    pub dma_in_enable: bool,
    pub dma_out_enable: bool,
    pub words_remaining: u16,
    pub command: Option<u32>,
    pub luminance_quant_table: Vec<u8>,
    pub color_quant_table: Vec<u8>,
    pub scale_table: Vec<i16>,
    pub with_color: bool,
    pub current_block: usize,
    pub output_depth: OutputDepth,
    pub is_signed: bool,
    pub output_bit15: bool,
    pub cr_block: Vec<i16>,
    pub cb_block: Vec<i16>,
    pub y_block: Vec<i16>,
    pub zagzig_table: Vec<usize>,
    pub k: usize,
    pub q_scale: u16,
    pub output: Vec<u8>,
    pub block_status: BlockStatus,
    /// A luminance block waits for its colour conversion; whether it ends the macroblock.
    pub pending_conversion: Option<bool>,
}

/// The bits of the status register (1F801824h) for a decoder in the given state.
pub open spec fn status_word(m: &Mdec) -> u32 {
    let in_full = m.in_fifo@.len() >= MDEC_FIFO_SIZE_HALFWORDS;
    let out_empty = m.out_fifo@.len() < 4;
    let depth: u32 = match m.output_depth {
        OutputDepth::Bit4 => 0,
        OutputDepth::Bit8 => 1,
        OutputDepth::Bit24 => 2,
        OutputDepth::Bit15 => 3,
    };
    ((out_empty as u32) << 31u32) | ((in_full as u32) << 30u32) | (((m.command is Some) as u32)
        << 29u32) | (((m.dma_in_enable && !in_full) as u32) << 28u32) | (((m.dma_out_enable
        && !out_empty) as u32) << 27u32) | (depth << 25u32) | ((m.is_signed as u32) << 24u32) | ((
    m.output_bit15 as u32) << 23u32) | ((((m.current_block + 4) % 6) as u32) << 16u32)
        | (m.words_remaining.wrapping_sub(1) as u32)
}

/// The DMA requests of a decoder: input wanted while the input FIFO has room, output ready
/// once four bytes wait.
pub open spec fn dma_requests(m: &Mdec) -> MdecDma {
    MdecDma {
        dma_in: m.dma_in_enable && m.in_fifo@.len() < MDEC_FIFO_SIZE_HALFWORDS,
        dma_out: m.dma_out_enable && m.out_fifo@.len() >= 4,
    }
}

/// The output depth selected by a decode command word.
pub open spec fn depth_of(value: u32) -> OutputDepth {
    let d = (value >> 27u32) & 0x3;
    if d == 0 {
        OutputDepth::Bit4
    } else if d == 1 {
        OutputDepth::Bit8
    } else if d == 2 {
        OutputDepth::Bit24
    } else {
        OutputDepth::Bit15
    }
}

/// A quantisation table filled from halfwords, low byte first.
pub open spec fn quant_bytes(halfwords: Seq<u16>) -> Seq<u8> {
    Seq::new(64, |i: int| if i % 2 == 0 { halfwords[i / 2] as u8 } else { (halfwords[i / 2] >> 8u16) as u8 })
}

impl Mdec {
    /// The invariant: the tables and blocks have their sizes, the zig-zag table points into
    /// the block, the decoding position and scale are in range.
    pub open spec fn wf(&self) -> bool {
        &&& self.luminance_quant_table@.len() == 64
        &&& self.color_quant_table@.len() == 64
        &&& self.scale_table@.len() == 64
        &&& self.cr_block@.len() == 64
        &&& self.cb_block@.len() == 64
        &&& self.y_block@.len() == 64
        &&& self.zagzig_table@.len() == 64
        &&& forall|j: int| 0 <= j < 64 ==> self.zagzig_table@[j] < 64
        &&& self.output@.len() == 768
        &&& self.k <= 64
        &&& self.q_scale <= 0x3f
        &&& self.current_block < 6
        &&& self.command matches Some(c) ==> c < 8
    }

    fn populate_zagzig_table() -> (r: Vec<usize>)
        ensures
            r@ == zagzig_fill(64),
            r@.len() == 64,
            forall|j: int| 0 <= j < 64 ==> r@[j] < 64,
    {
        let mut table: Vec<usize> = Vec::new();
        while table.len() < 64
            invariant
                table@.len() <= 64,
                forall|j: int| 0 <= j < table@.len() ==> table@[j] == 0,
            decreases 64 - table@.len(),
        {
            table.push(0);
        }
        assert(table@ =~= zagzig_fill(0));
        let mut i: usize = 0;
        while i < 64
            invariant
                i <= 64,
                table@ == zagzig_fill(i as nat),
                table@.len() == 64,
                forall|j: int| 0 <= j < 64 ==> table@[j] < 64,
            decreases 64 - i,
        {
            let z = ZIGZAG_TABLE[i];
            assert(z < 64);
            table.set(z, i);
            i += 1;
        }
        table
    }

    /// A reset decoder: empty FIFOs, zeroed tables, no command.
    pub fn new() -> (r: Self)
        ensures
            r.wf(),
            r.in_fifo@.len() == 0,
            r.out_fifo@.len() == 0,
            !r.dma_in_enable && !r.dma_out_enable,
            r.words_remaining == 0,
            r.command is None,
            r.current_block == 0,
            r.k == 64,
            r.q_scale == 0,
            r.output_depth == OutputDepth::Bit4,
            !r.is_signed && !r.output_bit15 && !r.with_color,
            r.zagzig_table@ == zagzig_fill(64),
            r.pending_conversion is None,
            r.block_status == BlockStatus::BlocksPending,
            r.luminance_quant_table@ == Seq::new(64, |i: int| 0u8),
            r.color_quant_table@ == Seq::new(64, |i: int| 0u8),
            r.scale_table@ == Seq::new(64, |i: int| 0i16),
            r.cr_block@ == Seq::new(64, |i: int| 0i16),
            r.cb_block@ == Seq::new(64, |i: int| 0i16),
            r.y_block@ == Seq::new(64, |i: int| 0i16),
            r.output@ == Seq::new(768, |i: int| 0u8),
    {
        Self {
            in_fifo: VecDeque::new(),
            out_fifo: VecDeque::new(),
            luminance_quant_table: vec![0u8; 64],
            color_quant_table: vec![0u8; 64],
            scale_table: vec![0i16; 64],
            dma_in_enable: false,
            dma_out_enable: false,
            words_remaining: 0,
            command: None,
            with_color: false,
            current_block: 0,
            output_depth: OutputDepth::Bit4,
            is_signed: false,
            output_bit15: false,
            cr_block: vec![0i16; 64],
            cb_block: vec![0i16; 64],
            y_block: vec![0i16; 64],
            zagzig_table: Self::populate_zagzig_table(),
            k: 64,
            q_scale: 0,
            output: vec![0u8; 768],
            block_status: BlockStatus::BlocksPending,
            pending_conversion: None,
        }
    }

    /// The DMA requests.
    pub fn update_status(&self) -> (r: MdecDma)
        ensures
            r == dma_requests(self),
    {
        let in_full = self.in_fifo.len() >= MDEC_FIFO_SIZE_HALFWORDS;
        let out_empty = self.out_fifo.len() < 4;
        MdecDma { dma_in: self.dma_in_enable && !in_full, dma_out: self.dma_out_enable && !out_empty }
    }

    /// Reads the status register: FIFO states, busy, DMA requests, the output format, the
    /// block being decoded and the parameter words left (minus one).
    fn read_status(&self) -> (r: u32)
        requires
            self.wf(),
        ensures
            r == status_word(self),
    {
        let in_full = self.in_fifo.len() >= MDEC_FIFO_SIZE_HALFWORDS;
        let out_empty = self.out_fifo.len() < 4;
        let data_in_request = self.dma_in_enable && !in_full;
        let data_out_request = self.dma_out_enable && !out_empty;
        let depth: u32 = match self.output_depth {
            OutputDepth::Bit4 => 0,
            OutputDepth::Bit8 => 1,
            OutputDepth::Bit24 => 2,
            OutputDepth::Bit15 => 3,
        };
        ((out_empty as u32) << 31u32) | ((in_full as u32) << 30u32) | ((self.command.is_some() as u32)
            << 29u32) | ((data_in_request as u32) << 28u32) | ((data_out_request as u32) << 27u32)
            | (depth << 25u32) | ((self.is_signed as u32) << 24u32) | ((self.output_bit15 as u32)
            << 23u32) | ((((self.current_block + 4) % 6) as u32) << 16u32) | (
        self.words_remaining.wrapping_sub(1) as u32)
    }

    /// Reads a decoder register; only the status register (1F801824h) is readable.
    pub fn read(&self, address: usize) -> (r: u32)
        requires
            self.wf(),
            address == 0x1f801824,
        ensures
            r == status_word(self),
    {
        self.read_status()
    }

    /// `new` is what writing `value` to the control register leaves of `self`: bit 31 resets
    /// the decoder (both FIFOs empty, block count, parameter count and command cleared, DMA
    /// disabled), else bits 30 and 29 enable DMA in and out.
    pub open spec fn control_written(&self, new: &Mdec, value: u32) -> bool {
        if (value >> 31u32) & 1 == 1 {
            &&& new.out_fifo@.len() == 0
            &&& new.in_fifo@.len() == 0
            &&& *new == (Mdec {
                out_fifo: new.out_fifo,
                in_fifo: new.in_fifo,
                current_block: 0,
                words_remaining: 0,
                command: None,
                dma_in_enable: false,
                dma_out_enable: false,
                ..*self
            })
        } else {
            *new == (Mdec {
                dma_in_enable: (value >> 30u32) & 1 == 1,
                dma_out_enable: (value >> 29u32) & 1 == 1,
                ..*self
            })
        }
    }

    /// Writes the control register: bit 31 resets the decoder, else bits 30 and 29 enable
    /// DMA in and out.
    fn write_control(&mut self, value: u32)
        requires
            old(self).wf(),
        ensures
            final(self).wf(),
            old(self).control_written(&*final(self), value),
    {
        if (value >> 31u32) & 1 == 1 {
            self.out_fifo.clear();
            self.in_fifo.clear();
            self.current_block = 0;
            self.words_remaining = 0;
            self.command = None;
            self.dma_in_enable = false;
            self.dma_out_enable = false;
            return;
        }
        self.dma_in_enable = (value >> 30u32) & 1 == 1;
        self.dma_out_enable = (value >> 29u32) & 1 == 1;
    }

    /// A word from DMA: two halfwords into the input FIFO, one parameter word fewer.
    pub fn dma_write(&mut self, value: u32)
        ensures
            final(self).in_fifo@ == old(self).in_fifo@.push(value as u16).push((value >> 16u32) as u16),
            final(self).words_remaining == old(self).words_remaining.wrapping_sub(1),
            *final(self) == (Mdec {
                in_fifo: final(self).in_fifo,
                words_remaining: final(self).words_remaining,
                ..*old(self)
            }),
    {
        self.in_fifo.push_back(value as u16);
        self.in_fifo.push_back((value >> 16u32) as u16);
        self.words_remaining = self.words_remaining.wrapping_sub(1);
    }

    /// Takes four output bytes as a little-endian word.
    pub fn read_out_fifo(&mut self) -> (r: u32)
        requires
            old(self).out_fifo@.len() >= 4,
        ensures
            final(self).out_fifo@ == old(self).out_fifo@.subrange(4, old(self).out_fifo@.len() as int),
            r == (old(self).out_fifo@[0] as u32) | (old(self).out_fifo@[1] as u32) << 8u32 | (
            old(self).out_fifo@[2] as u32) << 16u32 | (old(self).out_fifo@[3] as u32) << 24u32,
            *final(self) == (Mdec { out_fifo: final(self).out_fifo, ..*old(self) }),
    {
        let b0 = self.pop_out();
        let b1 = self.pop_out();
        let b2 = self.pop_out();
        let b3 = self.pop_out();
        (b0 as u32) | (b1 as u32) << 8u32 | (b2 as u32) << 16u32 | (b3 as u32) << 24u32
    }

    fn pop_out(&mut self) -> (r: u8)
        requires
            old(self).out_fifo@.len() >= 1,
        ensures
            r == old(self).out_fifo@[0],
            final(self).out_fifo@ == old(self).out_fifo@.subrange(1, old(self).out_fifo@.len() as int),
            *final(self) == (Mdec { out_fifo: final(self).out_fifo, ..*old(self) }),
    {
        match self.out_fifo.pop_front() {
            Some(b) => b,
            None => 0,
        }
    }

    fn set_decode_macroblocks_params(&mut self, value: u32)
        ensures
            *final(self) == (Mdec {
                output_depth: depth_of(value),
                is_signed: (value >> 26u32) & 1 == 1,
                output_bit15: (value >> 25u32) & 1 == 1,
                words_remaining: value as u16,
                ..*old(self)
            }),
    {
        let d = (value >> 27u32) & 0x3;
        self.output_depth = if d == 0 {
            OutputDepth::Bit4
        } else if d == 1 {
            OutputDepth::Bit8
        } else if d == 2 {
            OutputDepth::Bit24
        } else {
            OutputDepth::Bit15
        };
        self.is_signed = (value >> 26u32) & 0x1 == 1;
        self.output_bit15 = (value >> 25u32) & 0x1 == 1;
        self.words_remaining = value as u16;
    }

    fn set_quant_table_word_size(&mut self, value: u32)
        ensures
            *final(self) == (Mdec {
                words_remaining: if value & 1 == 0 { 16 } else { 32 },
                with_color: value & 1 != 0,
                ..*old(self)
            }),
    {
        if value & 1 == 0 {
            self.words_remaining = 16;
            self.with_color = false;
        } else {
            self.words_remaining = 32;
            self.with_color = true;
        }
    }

    fn set_scale_table_word_size(&mut self, value: u32)
        ensures
            *final(self) == (Mdec { words_remaining: 32, ..*old(self) }),
    {
        self.words_remaining = 32;
    }

    fn populate_scale_table(&mut self)
        requires
            old(self).wf(),
            old(self).in_fifo@.len() >= 64,
        ensures
            final(self).wf(),
            final(self).scale_table@ == Seq::new(64, |i: int| old(self).in_fifo@[i] as i16),
            final(self).in_fifo@ == old(self).in_fifo@.subrange(64, old(self).in_fifo@.len() as int),
            *final(self) == (Mdec {
                scale_table: final(self).scale_table,
                in_fifo: final(self).in_fifo,
                ..*old(self)
            }),
    {
        let ghost start = self.in_fifo@;
        let mut i: usize = 0;
        while i < 64
            invariant
                i <= 64,
                start == old(self).in_fifo@,
                start.len() >= 64,
                self.in_fifo@ == start.subrange(i as int, start.len() as int),
                self.scale_table@.len() == 64,
                forall|j: int| 0 <= j < i ==> self.scale_table@[j] == start[j] as i16,
                *self == (Mdec { scale_table: self.scale_table, in_fifo: self.in_fifo, ..*old(self) }),
            decreases 64 - i,
        {
            let halfword = match self.in_fifo.pop_front() {
                Some(h) => h,
                None => 0,
            };
            self.scale_table.set(i, halfword as i16);
            i += 1;
        }
        assert(self.scale_table@ =~= Seq::new(64, |i: int| old(self).in_fifo@[i] as i16));
    }

    fn fill_quant_table(fifo: &mut VecDeque<u16>, table: &mut Vec<u8>)
        requires
            old(fifo)@.len() >= 32,
            old(table)@.len() == 64,
        ensures
            final(table)@ == quant_bytes(old(fifo)@),
            final(fifo)@ == old(fifo)@.subrange(32, old(fifo)@.len() as int),
    {
        let ghost start = fifo@;
        let mut i: usize = 0;
        while i < 32
            invariant
                i <= 32,
                start == old(fifo)@,
                start.len() >= 32,
                fifo@ == start.subrange(i as int, start.len() as int),
                table@.len() == 64,
                forall|j: int| 0 <= j < 2 * i ==> table@[j] == quant_bytes(start)[j],
            decreases 32 - i,
        {
            let halfword = match fifo.pop_front() {
                Some(h) => h,
                None => 0,
            };
            let index = i * 2;
            table.set(index, halfword as u8);
            table.set(index + 1, (halfword >> 8u16) as u8);
            i += 1;
        }
        assert(table@ =~= quant_bytes(start));
    }

    fn populate_quant_table(&mut self)
        requires
            old(self).wf(),
            old(self).in_fifo@.len() >= (if old(self).with_color { 64int } else { 32int }),
        ensures
            final(self).wf(),
            final(self).luminance_quant_table@ == quant_bytes(old(self).in_fifo@),
            final(self).color_quant_table@ == (if old(self).with_color {
                quant_bytes(old(self).in_fifo@.subrange(32, old(self).in_fifo@.len() as int))
            } else {
                old(self).color_quant_table@
            }),
            final(self).in_fifo@ == old(self).in_fifo@.subrange(
                if old(self).with_color { 64int } else { 32int },
                old(self).in_fifo@.len() as int,
            ),
            *final(self) == (Mdec {
                luminance_quant_table: final(self).luminance_quant_table,
                color_quant_table: final(self).color_quant_table,
                in_fifo: final(self).in_fifo,
                ..*old(self)
            }),
    {
        Self::fill_quant_table(&mut self.in_fifo, &mut self.luminance_quant_table);
        if self.with_color {
            Self::fill_quant_table(&mut self.in_fifo, &mut self.color_quant_table);
            assert(old(self).in_fifo@.subrange(32, old(self).in_fifo@.len() as int).subrange(32, old(self).in_fifo@.len() - 32) =~= old(self).in_fifo@.subrange(64, old(self).in_fifo@.len() as int));
        }
    }
}


/// The luminance block's column and row (0 or 8) in the macroblock, for block number
/// `current` (2 to 5).
pub open spec fn y_position(current: usize) -> (usize, usize) {
    let index = (current - 2) as usize;
    (((index % 2) * 8) as usize, (((index / 2) % 2) * 8) as usize)
}

impl Mdec {
    /// `new` is what decoding one block of kind `block_type` leaves of `self`, `r` telling
    /// whether the block was complete.
    pub open spec fn block_step(self, new: Mdec, block_type: BlockType, r: bool) -> bool {
        &&& new.wf()
        &&& ({
            let (old_block, new_block, quant) = match block_type {
                BlockType::Cr => (self.cr_block@, new.cr_block@, self.color_quant_table@),
                BlockType::Cb => (self.cb_block@, new.cb_block@, self.color_quant_table@),
                BlockType::Yb => (self.y_block@, new.y_block@, self.luminance_quant_table@),
            };
            block_decoded(old_block, self.in_fifo@, self.k as int, self.q_scale,
                quant, self.zagzig_table@, self.scale_table@, new_block,
                new.in_fifo@, new.k as int, new.q_scale, r)
        })
        &&& r ==> new.in_fifo@.len() < self.in_fifo@.len()
        &&& block_type != BlockType::Cr ==> new.cr_block == self.cr_block
        &&& block_type != BlockType::Cb ==> new.cb_block == self.cb_block
        &&& block_type != BlockType::Yb ==> new.y_block == self.y_block
        &&& new.block_status == (if r && self.current_block == 5 { BlockStatus::BlocksProcessed } else { BlockStatus::BlocksPending })
        &&& new.current_block == (if !r { self.current_block } else if self.current_block == 5 { 0 } else { (self.current_block + 1) as usize })
        &&& new == (Mdec {
            cr_block: new.cr_block,
            cb_block: new.cb_block,
            y_block: new.y_block,
            in_fifo: new.in_fifo,
            k: new.k,
            q_scale: new.q_scale,
            block_status: new.block_status,
            current_block: new.current_block,
            ..self
        })
    }

    /// Decodes one block of kind `block_type` from the input, counting the blocks of the
    /// macroblock (six, then back to the first).
    fn decode_block(&mut self, block_type: BlockType) -> (r: bool)
        requires
            old(self).wf(),
            old(self).k == 64 ==> old(self).in_fifo@.len() > 0,
        ensures
            final(self).wf(),
            ({
                let (old_block, new_block, quant) = match block_type {
                    BlockType::Cr => (old(self).cr_block@, final(self).cr_block@, old(self).color_quant_table@),
                    BlockType::Cb => (old(self).cb_block@, final(self).cb_block@, old(self).color_quant_table@),
                    BlockType::Yb => (old(self).y_block@, final(self).y_block@, old(self).luminance_quant_table@),
                };
                block_decoded(old_block, old(self).in_fifo@, old(self).k as int, old(self).q_scale,
                    quant, old(self).zagzig_table@, old(self).scale_table@, new_block,
                    final(self).in_fifo@, final(self).k as int, final(self).q_scale, r)
            }),
            r ==> final(self).in_fifo@.len() < old(self).in_fifo@.len(),
            block_type != BlockType::Cr ==> final(self).cr_block == old(self).cr_block,
            block_type != BlockType::Cb ==> final(self).cb_block == old(self).cb_block,
            block_type != BlockType::Yb ==> final(self).y_block == old(self).y_block,
            final(self).block_status == (if r && old(self).current_block == 5 { BlockStatus::BlocksProcessed } else { BlockStatus::BlocksPending }),
            final(self).current_block == (if !r { old(self).current_block } else if old(self).current_block == 5 { 0 } else { (old(self).current_block + 1) as usize }),
            *final(self) == (Mdec {
                cr_block: final(self).cr_block,
                cb_block: final(self).cb_block,
                y_block: final(self).y_block,
                in_fifo: final(self).in_fifo,
                k: final(self).k,
                q_scale: final(self).q_scale,
                block_status: final(self).block_status,
                current_block: final(self).current_block,
                ..*old(self)
            }),
    {
        self.block_status = BlockStatus::BlocksPending;
        let r = match block_type {
            BlockType::Cr => decode_coefficients(&mut self.cr_block, &mut self.in_fifo, &mut self.k,
                &mut self.q_scale, &self.color_quant_table, &self.zagzig_table, &self.scale_table),
            BlockType::Cb => decode_coefficients(&mut self.cb_block, &mut self.in_fifo, &mut self.k,
                &mut self.q_scale, &self.color_quant_table, &self.zagzig_table, &self.scale_table),
            BlockType::Yb => decode_coefficients(&mut self.y_block, &mut self.in_fifo, &mut self.k,
                &mut self.q_scale, &self.luminance_quant_table, &self.zagzig_table, &self.scale_table),
        };
        if !r {
            return false;
        }
        self.current_block += 1;
        if self.current_block == 6 {
            self.block_status = BlockStatus::BlocksProcessed;
            self.current_block = 0;
        }
        true
    }

    /// The kind of the block that `current_block` decodes next.
    pub open spec fn next_block_type(self) -> BlockType {
        if self.current_block == 0 {
            BlockType::Cr
        } else if self.current_block == 1 {
            BlockType::Cb
        } else {
            BlockType::Yb
        }
    }

    /// `c` is reached from `self` by `n` complete colour-block decodes (Cr or Cb).
    pub open spec fn colour_blocks(self, c: Mdec, n: nat) -> bool
        decreases n,
    {
        if n == 0 {
            c == self
        } else {
            exists|m: Mdec| #![trigger m.block_step(c, m.next_block_type(), true)]
                self.colour_blocks(m, (n - 1) as nat) && m.in_fifo@.len() > 0 && m.current_block <= 1
                    && m.block_step(c, m.next_block_type(), true)
        }
    }

    /// How the macroblock loop ends at `self`: the input is used up (`Drained`); a colour
    /// block stops incomplete (`Stalled`); or a luminance block is decoded, complete
    /// (`Converting`, with its position and whether it ends the macroblock) or not.
    pub open spec fn macroblock_end(self, new: Mdec, p: Progress) -> bool {
        if self.in_fifo@.len() == 0 {
            new == self && p == Progress::Drained
        } else if self.current_block > 1 {
            let (xx, yy) = y_position(self.current_block);
            ||| self.block_step(new, BlockType::Yb, true) && p == Progress::Converting(xx, yy, self.current_block == 5)
            ||| self.block_step(new, BlockType::Yb, false) && p == Progress::Stalled
        } else {
            self.block_step(new, self.next_block_type(), false) && p == Progress::Stalled
        }
    }

    /// `new` is what the macroblock loop leaves of `self`, ending with `p`.
    pub open spec fn macroblocks(self, new: Mdec, p: Progress) -> bool {
        exists|c: Mdec, n: nat| #![trigger self.colour_blocks(c, n)] self.colour_blocks(c, n) && c.macroblock_end(new, p)
    }

    /// Decodes blocks while input remains: Cr, Cb, then the four luminance blocks, each of
    /// which stops for its colour conversion.
    fn decode_macroblocks(&mut self) -> (r: Progress)
        requires
            old(self).wf(),
        ensures
            final(self).wf(),
            old(self).macroblocks(*final(self), r),
    {
        let ghost start = *self;
        let ghost mut n: nat = 0;
        while self.in_fifo.len() > 0
            invariant
                self.wf(),
                start == *old(self),
                start.colour_blocks(*self, n),
            decreases self.in_fifo@.len(),
        {
            let ghost before = *self;
            if self.current_block > 1 {
                let index = self.current_block - 2;
                let xx = (index % 2) * 8;
                let yy = ((index / 2) % 2) * 8;
                let is_final_block = self.current_block == 5;
                if !self.decode_block(BlockType::Yb) {
                    assert(start.colour_blocks(before, n) && before.macroblock_end(*self, Progress::Stalled));
                    return Progress::Stalled;
                }
                assert(before.macroblock_end(*self, Progress::Converting(xx, yy, is_final_block)));
                return Progress::Converting(xx, yy, is_final_block);
            } else if self.current_block == 0 {
                if !self.decode_block(BlockType::Cr) {
                    assert(start.colour_blocks(before, n) && before.macroblock_end(*self, Progress::Stalled));
                    return Progress::Stalled;
                }
            } else {
                if !self.decode_block(BlockType::Cb) {
                    assert(start.colour_blocks(before, n) && before.macroblock_end(*self, Progress::Stalled));
                    return Progress::Stalled;
                }
            }
            proof {
                assert(start.colour_blocks(before, n) && before.in_fifo@.len() > 0 && before.current_block <= 1
                    && before.block_step(*self, before.next_block_type(), true));
                n = n + 1;
            }
        }
        assert(self.macroblock_end(*self, Progress::Drained));
        Progress::Drained
    }
}


/// The output bytes of a macroblock at a depth: 3 per pixel at 24 bits, 2 at 15 bits.
pub open spec fn output_size(depth: OutputDepth) -> Option<int> {
    match depth {
        OutputDepth::Bit24 => Some(3 * NUM_COLORS as int),
        OutputDepth::Bit15 => Some(2 * NUM_COLORS as int),
        _ => None,
    }
}

impl Mdec {
    /// The decode command after its macroblock loop stopped, `completed` telling whether
    /// the input ran out after a whole block: the command ends once its parameter words
    /// are all in and used.
    fn after_decode(&mut self, completed: bool)
        requires
            old(self).wf(),
        ensures
            final(self).wf(),
            completed ==> *final(self) == (Mdec {
                command: if old(self).words_remaining == 0 && old(self).in_fifo@.len() == 0 { None } else { old(self).command },
                ..*old(self)
            }),
            !completed ==> *final(self) == (if old(self).words_remaining == 0 && old(self).block_status != BlockStatus::BlocksProcessed {
                Mdec { command: None, current_block: 0, q_scale: 0, k: 64, ..*old(self) }
            } else {
                *old(self)
            }),
    {
        if completed {
            if self.words_remaining == 0 && self.in_fifo.len() == 0 {
                self.command = None;
            }
        } else if self.words_remaining == 0 && self.block_status != BlockStatus::BlocksProcessed {
            self.command = None;
            self.current_block = 0;
            self.q_scale = 0;
            self.k = 64;
        }
    }

    /// Queues the converted macroblock's bytes for output; fails at a depth without output.
    fn push_output(&mut self) -> (r: bool)
        requires
            old(self).wf(),
        ensures
            final(self).wf(),
            r == (output_size(old(self).output_depth) is Some),
            r ==> final(self).out_fifo@ == old(self).out_fifo@ + old(self).output@.subrange(0, output_size(old(self).output_depth)->0),
            !r ==> final(self).out_fifo@ == old(self).out_fifo@ && *final(self) == *old(self),
            *final(self) == (Mdec { out_fifo: final(self).out_fifo, ..*old(self) }),
    {
        let multiplier: usize = match self.output_depth {
            OutputDepth::Bit24 => 3,
            OutputDepth::Bit15 => 2,
            _ => {
                return false;
            },
        };
        let num_bytes = multiplier * NUM_COLORS;
        let mut i: usize = 0;
        while i < num_bytes
            invariant
                i <= num_bytes,
                num_bytes <= 768,
                old(self).wf(),
                self.output@.len() == 768,
                self.out_fifo@ == old(self).out_fifo@ + old(self).output@.subrange(0, i as int),
                *self == (Mdec { out_fifo: self.out_fifo, ..*old(self) }),
            decreases num_bytes - i,
        {
            self.out_fifo.push_back(self.output[i]);
            proof {
                assert(old(self).output@.subrange(0, i + 1) =~= old(self).output@.subrange(0, i as int).push(old(self).output@[i as int]));
            }
            i += 1;
        }
        true
    }

    /// `new` is what the end of a decode command leaves of `self`, `completed` telling
    /// whether the input ran out after a whole block: the command ends once its parameter
    /// words are all in and used; an incomplete block with no words to come abandons it.
    pub open spec fn after_decoded(self, new: Mdec, completed: bool) -> bool {
        if completed {
            new == (Mdec {
                command: if self.words_remaining == 0 && self.in_fifo@.len() == 0 { None } else { self.command },
                ..self
            })
        } else if self.words_remaining == 0 && self.block_status != BlockStatus::BlocksProcessed {
            new == (Mdec { command: None, current_block: 0, q_scale: 0, k: 64, ..self })
        } else {
            new == self
        }
    }

    /// `new` is `self` with its converted macroblock queued for output.
    pub open spec fn output_pushed(self, new: Mdec) -> bool {
        &&& output_size(self.output_depth) is Some
        &&& new.out_fifo@ == self.out_fifo@ + self.output@.subrange(0, output_size(self.output_depth)->0)
        &&& new == (Mdec { out_fifo: new.out_fifo, ..self })
    }

    /// The parameter halfwords a table-loading command needs.
    pub open spec fn table_halfwords(self, command: u32) -> int {
        if command == 2 {
            if self.with_color { 64 } else { 32 }
        } else {
            64
        }
    }

    /// The command word at the head of the input FIFO (two halfwords, low first).
    pub open spec fn head_word(self) -> u32 {
        (self.in_fifo@[0] as u32) | ((self.in_fifo@[1] as u32) << 16u32)
    }

    /// `new` is `self` after taking the command word `word` (command `command`) from the
    /// input: a decode command sets the output format and the parameter count, a
    /// quantisation command the table count, a scale command 32 words.
    pub open spec fn command_taken(self, new: Mdec, command: u32, word: u32) -> bool {
        &&& new.in_fifo@ == self.in_fifo@.subrange(2, self.in_fifo@.len() as int)
        &&& new == if command == 1 {
            Mdec {
                in_fifo: new.in_fifo,
                command: Some(command),
                output_depth: depth_of(word),
                is_signed: (word >> 26u32) & 1 == 1,
                output_bit15: (word >> 25u32) & 1 == 1,
                words_remaining: word as u16,
                ..self
            }
        } else if command == 2 {
            Mdec {
                in_fifo: new.in_fifo,
                command: Some(command),
                words_remaining: if word & 1 == 0 { 16 } else { 32 },
                with_color: word & 1 != 0,
                ..self
            }
        } else if command == 3 {
            Mdec { in_fifo: new.in_fifo, command: Some(command), words_remaining: 32, ..self }
        } else {
            Mdec { in_fifo: new.in_fifo, command: Some(command), ..self }
        }
    }

    /// One step of the decoder that leaves it ready for the next: a table is loaded from
    /// the input, or a valid command word is taken.
    pub open spec fn continue_step(self, new: Mdec) -> bool {
        let len = self.in_fifo@.len();
        &&& len > 0
        &&& match self.command {
            Some(c) => {
                &&& c == 2 || c == 3
                &&& self.words_remaining == 0
                &&& len >= self.table_halfwords(c)
                &&& new.in_fifo@ == self.in_fifo@.subrange(self.table_halfwords(c), len as int)
                &&& if c == 2 {
                    &&& new.luminance_quant_table@ == quant_bytes(self.in_fifo@)
                    &&& new.color_quant_table@ == (if self.with_color {
                        quant_bytes(self.in_fifo@.subrange(32, len as int))
                    } else {
                        self.color_quant_table@
                    })
                    &&& new == (Mdec {
                        luminance_quant_table: new.luminance_quant_table,
                        color_quant_table: new.color_quant_table,
                        in_fifo: new.in_fifo,
                        command: None,
                        ..self
                    })
                } else {
                    &&& new.scale_table@ == Seq::new(64, |i: int| self.in_fifo@[i] as i16)
                    &&& new == (Mdec { scale_table: new.scale_table, in_fifo: new.in_fifo, command: None, ..self })
                }
            },
            None => {
                let command = (self.head_word() >> 29u32) & 7;
                &&& len >= 2
                &&& 1 <= command <= 3
                &&& self.command_taken(new, command, self.head_word())
            },
        }
    }

    /// The step of the decoder at which a run stops with `r`: the input is used up; a
    /// decode command ran its macroblock loop (stopping for a colour conversion, or ending
    /// the command as `after_decoded` says); a table command waits for its parameter words
    /// or lacks data; the command is invalid.
    pub open spec fn final_step(self, new: Mdec, r: MdecStep) -> bool {
        let len = self.in_fifo@.len();
        if len == 0 {
            new == self && r == MdecStep::Status(dma_requests(&self))
        } else {
            match self.command {
                Some(c) => if c == 1 {
                    exists|m: Mdec, p: Progress| #![trigger self.macroblocks(m, p)] self.macroblocks(m, p) && match p {
                        Progress::Converting(xx, yy, last) => new == (Mdec { pending_conversion: Some(last), ..m })
                            && r == MdecStep::Convert(xx, yy),
                        Progress::Stalled => m.after_decoded(new, false) && r == MdecStep::Status(dma_requests(&new)),
                        Progress::Drained => m.after_decoded(new, true) && r == MdecStep::Status(dma_requests(&new)),
                    }
                } else if c == 2 || c == 3 {
                    if self.words_remaining != 0 {
                        new == self && r == MdecStep::Status(dma_requests(&self))
                    } else {
                        len < self.table_halfwords(c) && new == self && r == MdecStep::MissingData
                    }
                } else {
                    new == self && r == MdecStep::InvalidCommand(c)
                },
                None => if len < 2 {
                    new == self && r == MdecStep::MissingData
                } else {
                    let command = (self.head_word() >> 29u32) & 7;
                    &&& !(1 <= command <= 3)
                    &&& self.command_taken(new, command, self.head_word())
                    &&& r == MdecStep::InvalidCommand(command)
                },
            }
        }
    }

    /// `c` is reached from `self` by `n` continuing steps.
    pub open spec fn reach(self, c: Mdec, n: nat) -> bool
        decreases n,
    {
        if n == 0 {
            c == self
        } else {
            exists|m: Mdec| #![trigger m.continue_step(c)] self.reach(m, (n - 1) as nat) && m.continue_step(c)
        }
    }

    /// Whether a run of the decoder from `self` takes continuing steps to a state whose
    /// step stops with `r`, leaving `new`.
    pub open spec fn runs(self, new: Mdec, r: MdecStep) -> bool {
        exists|c: Mdec, n: nat| #![trigger self.reach(c, n)] self.reach(c, n) && c.final_step(new, r)
    }

    /// `new` and `r` are what running the decoder leaves of `self`: a pending colour
    /// conversion is finished first (queueing the macroblock after its last block), then
    /// the decoder runs on its input.
    pub open spec fn executed(self, new: Mdec, r: MdecStep) -> bool {
        match self.pending_conversion {
            None => self.runs(new, r),
            Some(last) => {
                let a1 = Mdec { pending_conversion: None, ..self };
                if last {
                    if output_size(self.output_depth) is None {
                        new == a1 && r == MdecStep::UnsupportedDepth
                    } else {
                        exists|m: Mdec| #![trigger a1.output_pushed(m)] a1.output_pushed(m) && m.after_decoded(new, true)
                            && r == MdecStep::Status(dma_requests(&new))
                    }
                } else if self.in_fifo@.len() == 0 {
                    a1.after_decoded(new, true) && r == MdecStep::Status(dma_requests(&new))
                } else {
                    a1.runs(new, r)
                }
            },
        }
    }

    /// One step of the decoder on a non-empty input: `None` when it can go on.
    fn step(&mut self) -> (r: Option<MdecStep>)
        requires
            old(self).wf(),
            old(self).pending_conversion is None,
            old(self).in_fifo@.len() > 0,
        ensures
            final(self).wf(),
            r is None ==> old(self).continue_step(*final(self)) && final(self).pending_conversion is None
                && final(self).in_fifo@.len() < old(self).in_fifo@.len(),
            r matches Some(s) ==> old(self).final_step(*final(self), s),
    {
        let ghost a = *self;
        match self.command {
            Some(command) => {
                if command == 1 {
                    let p = self.decode_macroblocks();
                    let ghost m = *self;
                    match p {
                        Progress::Converting(xx, yy, last) => {
                            self.pending_conversion = Some(last);
                            assert(a.macroblocks(m, p));
                            return Some(MdecStep::Convert(xx, yy));
                        },
                        Progress::Stalled => self.after_decode(false),
                        Progress::Drained => self.after_decode(true),
                    }
                    assert(a.macroblocks(m, p));
                    Some(MdecStep::Status(self.update_status()))
                } else if command == 2 {
                    if self.words_remaining == 0 {
                        let needed: usize = if self.with_color { 64 } else { 32 };
                        if self.in_fifo.len() < needed {
                            return Some(MdecStep::MissingData);
                        }
                        self.populate_quant_table();
                        self.command = None;
                        None
                    } else {
                        Some(MdecStep::Status(self.update_status()))
                    }
                } else if command == 3 {
                    if self.words_remaining == 0 {
                        if self.in_fifo.len() < 64 {
                            return Some(MdecStep::MissingData);
                        }
                        self.populate_scale_table();
                        self.command = None;
                        None
                    } else {
                        Some(MdecStep::Status(self.update_status()))
                    }
                } else {
                    Some(MdecStep::InvalidCommand(command))
                }
            },
            None => {
                if self.in_fifo.len() < 2 {
                    return Some(MdecStep::MissingData);
                }
                let low = match self.in_fifo.pop_front() {
                    Some(h) => h,
                    None => 0,
                };
                let high = match self.in_fifo.pop_front() {
                    Some(h) => h,
                    None => 0,
                };
                let word = low as u32 | (high as u32) << 16u32;
                let command = (word >> 29u32) & 0x7;
                proof {
                    assert((word >> 29u32) & 0x7 < 8) by (bit_vector);
                    assert(self.in_fifo@ =~= a.in_fifo@.subrange(2, a.in_fifo@.len() as int));
                }
                self.command = Some(command);
                if command == 1 {
                    self.set_decode_macroblocks_params(word);
                    None
                } else if command == 2 {
                    self.set_quant_table_word_size(word);
                    None
                } else if command == 3 {
                    self.set_scale_table_word_size(word);
                    None
                } else {
                    Some(MdecStep::InvalidCommand(command))
                }
            },
        }
    }

    /// Runs the decoder on its input: reads command words (1: decode macroblocks, 2: set the
    /// quantisation tables, 3: set the scale table) and carries them out once their
    /// parameters are in. Decoding stops at each luminance block for its colour conversion
    /// (`Convert`); the next run finishes it, queueing the macroblock's bytes after the last
    /// block.
    pub fn execute(&mut self) -> (r: MdecStep)
        requires
            old(self).wf(),
        ensures
            final(self).wf(),
            old(self).executed(*final(self), r),
    {
        let ghost a = *self;
        if self.pending_conversion.is_none() && self.in_fifo.len() == 0 {
            assert(a.reach(a, 0) && a.final_step(a, MdecStep::Status(dma_requests(&a))));
            return MdecStep::Status(self.update_status());
        }
        match self.pending_conversion {
            Some(last) => {
                self.pending_conversion = None;
                let ghost a1 = *self;
                if last {
                    if !self.push_output() {
                        return MdecStep::UnsupportedDepth;
                    }
                    let ghost m = *self;
                    self.after_decode(true);
                    assert(a1.output_pushed(m));
                    return MdecStep::Status(self.update_status());
                }
                if self.in_fifo.len() == 0 {
                    self.after_decode(true);
                    return MdecStep::Status(self.update_status());
                }
            },
            None => {},
        }
        let ghost start = *self;
        let ghost mut n: nat = 0;
        while self.in_fifo.len() > 0
            invariant
                self.wf(),
                self.pending_conversion is None,
                start.reach(*self, n),
                start == (Mdec { pending_conversion: None, ..a }),
                a == *old(self),
                a.pending_conversion != Some(true),
                a.pending_conversion == Some(false) ==> a.in_fifo@.len() > 0,
            decreases self.in_fifo@.len(),
        {
            let ghost before = *self;
            match self.step() {
                Some(step) => {
                    assert(start.reach(before, n) && before.final_step(*self, step));
                    return step;
                },
                None => {
                    proof {
                        assert(start.reach(before, n) && before.continue_step(*self));
                        n = n + 1;
                    }
                },
            }
        }
        assert(start.reach(*self, n) && self.final_step(*self, MdecStep::Status(dma_requests(&*self))));
        MdecStep::Status(self.update_status())
    }

    /// Writes a command or parameter word: into the input FIFO, then the decoder runs.
    fn write_command(&mut self, value: u32) -> (r: MdecStep)
        requires
            old(self).wf(),
        ensures
            final(self).wf(),
            old(self).word_written(*final(self), value, r),
    {
        self.dma_write(value);
        let ghost m = *self;
        let r = self.execute();
        assert(old(self).word_pushed(m, value) && m.executed(*self, r));
        r
    }

    /// `m` is `self` with `value` taken into the input FIFO as two halfwords.
    pub open spec fn word_pushed(self, m: Mdec, value: u32) -> bool {
        &&& m.in_fifo@ == self.in_fifo@.push(value as u16).push((value >> 16u32) as u16)
        &&& m == (Mdec { in_fifo: m.in_fifo, words_remaining: self.words_remaining.wrapping_sub(1), ..self })
    }

    /// `new` and `r` are what writing `value` to the command port leaves of `self`: the word
    /// enters the input FIFO, then the decoder runs.
    pub open spec fn word_written(self, new: Mdec, value: u32, r: MdecStep) -> bool {
        exists|m: Mdec| #![trigger self.word_pushed(m, value)] self.word_pushed(m, value) && m.executed(new, r)
    }

    /// Writes a decoder register: the command/parameter port (1F801820h) or the control
    /// register (1F801824h).
    pub fn write(&mut self, address: usize, value: u32) -> (r: MdecStep)
        requires
            old(self).wf(),
            address == 0x1f801820 || address == 0x1f801824,
        ensures
            final(self).wf(),
            address == 0x1f801820 ==> old(self).word_written(*final(self), value, r),
            address == 0x1f801824 ==> old(self).control_written(&*final(self), value)
                && r == MdecStep::Status(dma_requests(&*final(self))),
    {
        if address == 0x1f801820 {
            self.write_command(value)
        } else {
            self.write_control(value);
            MdecStep::Status(self.update_status())
        }
    }
}
} // verus!
