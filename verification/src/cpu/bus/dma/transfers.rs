use vstd::prelude::*;
use super::dma_channel::{Dma, DmaChannel, DMA_GPU};
use super::dma_channel_control_register::{DmaChannelControlRegister, SyncMode, spec_sync_mode};
use crate::cpu::bus::cdrom::{CDRom, data_offset};
use crate::cpu::bus::gpu::{GPU, TransferType, gp0_effect, gp0_supported, read_gpu_effect};
use crate::cpu::bus::registers::interrupt_register::InterruptRegister;
use crate::cpu::bus::scheduler::{EventType, Scheduler, event_code};
use crate::memory::{read32, spec_read32, spec_write32, write32};

verus! {

/// Where a transfer stopped where the hardware would have failed.
#[derive(Copy, Clone, PartialEq, Eq, Structural, Debug)]
pub enum DmaFault {
    /// The channel's sync mode is reserved or not one this device transfers in.
    UnsupportedSyncMode,
    /// The channel's direction is not one this device transfers in.
    UnsupportedDirection,
    /// The transfer's address ran outside RAM.
    AddressOutOfRange,
    /// The GPU cannot take this word in its present state.
    GpuRejected(u32),
    /// The CD-ROM sector buffer ran out of data.
    DeviceBufferEmpty,
}

/// The ticks of one linked-list run before the channel pauses.
pub const DMA_LINKED_LIST_MAX_TICKS: usize = 1000;
/// The ticks to read a linked-list node's header.
pub const DMA_LINKED_LIST_HEADER_READ_TICKS: usize = 8;
/// The ticks to set up a linked-list node's words.
pub const DMA_LINKED_LIST_BLOCK_SETUP_TICKS: usize = 5;
/// The ticks a paused linked-list transfer waits.
pub const DMA_HALT_LINKED_LIST_TICKS: usize = 5;

/// The address of word `i` of a transfer from `start`, stepping down when `decrement`.
pub open spec fn word_address(start: int, decrement: bool, i: int) -> int {
    if decrement { start - 4 * i } else { start + 4 * i }
}

/// RAM after the first `n` words of the CD-ROM sector buffer `buffer`, from byte `from`, are
/// stored word by word from `start`.
pub open spec fn cdrom_fill(mem: Seq<u8>, start: int, decrement: bool, buffer: Seq<u8>, from: int, n: nat) -> Seq<u8>
    decreases n,
{
    if n == 0 {
        mem
    } else {
        spec_write32(
            cdrom_fill(mem, start, decrement, buffer, from, (n - 1) as nat),
            word_address(start, decrement, n - 1),
            spec_read32(buffer, from + 4 * (n - 1)),
        )
    }
}

/// A one-bit flag is set exactly when the masked value is not zero.
proof fn lemma_flag_bits(bits: u32)
    ensures
        (bits & 1 == 1) == (bits & 1 != 0),
        (bits & 2 == 2) == (bits & 2 != 0),
{
    assert((bits & 1 == 1) == (bits & 1 != 0) && (bits & 2 == 2) == (bits & 2 != 0)) by (bit_vector);
}

/// Whether word `i` of a transfer from `start` can be stored to RAM of `ram_len` bytes and
/// the address still steps on after it.
#[verifier::opaque]
pub open spec fn word_fits(start: int, decrement: bool, i: int, ram_len: int) -> bool {
    let a = word_address(start, decrement, i);
    &&& 0 <= a && a + 4 <= ram_len
    &&& decrement ==> a >= 4
    &&& !decrement ==> a + 4 <= u32::MAX
}

/// Whether the sector buffer, read from `index`, still holds word `i` of a transfer.
#[verifier::opaque]
pub open spec fn buffer_word_fits(index: int, size: int, i: int) -> bool {
    index + 4 * i <= size && size - (index + 4 * i) >= 4
}

/// `g1` is the GPU `g0` becomes after taking `words` on GP0, one after another.
pub open spec fn gp0_fed(g0: GPU, words: Seq<u32>, g1: GPU) -> bool
    decreases words.len(),
{
    if words.len() == 0 {
        g1 == g0
    } else {
        exists|mid: GPU| #![trigger gp0_effect(&mid, &g1, words.last())]
            gp0_fed(g0, words.drop_last(), mid) && gp0_effect(&mid, &g1, words.last())
    }
}

/// `g1` is the GPU `g0` becomes after `vals.len()` reads of GPUREAD that gave `vals`.
pub open spec fn gpuread_fed(g0: GPU, vals: Seq<u32>, g1: GPU) -> bool
    decreases vals.len(),
{
    if vals.len() == 0 {
        g1 == g0
    } else {
        exists|mid: GPU| #![trigger read_gpu_effect(&mid, &g1, vals.last())]
            gpuread_fed(g0, vals.drop_last(), mid) && read_gpu_effect(&mid, &g1, vals.last())
    }
}

/// RAM after `vals` are stored word by word from `start`.
pub open spec fn words_stored(mem: Seq<u8>, start: int, decrement: bool, vals: Seq<u32>) -> Seq<u8>
    decreases vals.len(),
{
    if vals.len() == 0 {
        mem
    } else {
        spec_write32(
            words_stored(mem, start, decrement, vals.drop_last()),
            word_address(start, decrement, vals.len() - 1),
            vals.last(),
        )
    }
}

/// The RAM address of word `i` of a transfer to the GPU: in slices each address is
/// aligned within RAM.
pub open spec fn gpu_word_address(start: int, decrement: bool, burst: bool, i: int) -> int {
    let a = word_address(start, decrement, i);
    if burst { a } else { ((a as u32) & 0x1ffffc) as int }
}

/// Whether word `i` of a transfer to the GPU can be read and the address still steps on.
#[verifier::opaque]
pub open spec fn gpu_word_fits(start: int, decrement: bool, burst: bool, i: int, ram_len: int) -> bool {
    let c = word_address(start, decrement, i);
    let a = gpu_word_address(start, decrement, burst, i);
    &&& 0 <= c <= u32::MAX
    &&& 0 <= a && a + 4 <= ram_len
    &&& decrement ==> c >= 4
    &&& !decrement ==> c + 4 <= u32::MAX
}

/// The first `n` words a transfer to the GPU reads from `mem`.
#[verifier::opaque]
pub open spec fn sent_words(mem: Seq<u8>, start: int, decrement: bool, burst: bool, n: nat) -> Seq<u32> {
    Seq::new(n, |i: int| spec_read32(mem, gpu_word_address(start, decrement, burst, i)))
}

proof fn lemma_word_misfit(start: int, decrement: bool, k: int, n: int, ram_len: int)
    requires
        0 <= k < n,
        !word_fits(start, decrement, k, ram_len),
    ensures
        exists|j: int| #![trigger word_fits(start, decrement, j, ram_len)] 0 <= j < n && !word_fits(start, decrement, j, ram_len),
        !(forall|j: int| 0 <= j < n ==> #[trigger] word_fits(start, decrement, j, ram_len)),
{
}

proof fn lemma_gpu_word_misfit(start: int, decrement: bool, burst: bool, k: int, n: int, ram_len: int)
    requires
        0 <= k < n,
        !gpu_word_fits(start, decrement, burst, k, ram_len),
    ensures
        exists|j: int| #![trigger gpu_word_fits(start, decrement, burst, j, ram_len)] 0 <= j < n
            && !gpu_word_fits(start, decrement, burst, j, ram_len),
{
}

/// Whether the GPU takes `word` on GP0 in its present state.
pub open spec fn gpu_takes(g: &GPU, word: u32) -> bool {
    g.fifo_wf() && (g.transfer.transfer_type != Some(TransferType::ToVram) && !g.primitive.is_polyline
        && g.words_left == 0 ==> gp0_supported(word))
}

impl DmaChannel {
    /// Whether the channel moves words down through memory.
    pub open spec fn decrements(&self) -> bool {
        self.control.bits & DmaChannelControlRegister::DECREMENT == DmaChannelControlRegister::DECREMENT
    }

    /// Whether the channel transfers in one burst.
    pub open spec fn is_burst(&self) -> bool {
        (self.control.bits >> 9u32) & 3 == 0
    }

    /// The address a GPU transfer starts from: within RAM for a burst.
    pub open spec fn gpu_transfer_start(&self) -> int {
        if self.is_burst() { (self.base_address & 0x1fffff) as int } else { self.base_address as int }
    }

    /// The number of words a GPU transfer moves: one burst of `block_size` words, or
    /// `num_blocks` slices of `block_size` words (a slice from RAM of size 0 moving 10000h).
    pub open spec fn gpu_transfer_length(&self, burst: bool, to_gpu: bool) -> int {
        if burst {
            self.block_size as int
        } else if to_gpu && self.block_size == 0 {
            self.num_blocks * 0x10000
        } else {
            self.num_blocks * self.block_size
        }
    }

    /// Moves the channel's words between RAM and the GPU. Towards RAM (in slices) each word
    /// is read from GPUREAD; from RAM each word goes to GP0, in one burst of `block_size`
    /// words or in `num_blocks` slices of `block_size` (0 meaning 10000h) words.
    #[verifier::loop_isolation(false)]
    #[verifier::rlimit(60)]
    pub fn start_gpu_transfer(&mut self, ram: &mut Vec<u8>, gpu: &mut GPU) -> (r: Result<(), DmaFault>)
        ensures
            *final(self) == *old(self),
            final(ram)@.len() == old(ram)@.len(),
            old(self).control.bits & DmaChannelControlRegister::TRANSFER_DIR != 0 ==> final(ram)@ == old(ram)@,
            (old(self).control.bits >> 9u32) & 3 == 3 ==> r == Err::<(), DmaFault>(DmaFault::UnsupportedSyncMode),
            old(self).control.bits & DmaChannelControlRegister::TRANSFER_DIR == 0 && (old(self).control.bits >> 9u32) & 3 != 1
                ==> r == Err::<(), DmaFault>(DmaFault::UnsupportedSyncMode),
            old(self).control.bits & DmaChannelControlRegister::TRANSFER_DIR != 0 && (old(self).control.bits >> 9u32) & 3 == 2
                ==> r == Err::<(), DmaFault>(DmaFault::UnsupportedSyncMode),
            // From the GPU: GPUREAD words stored from the base address.
            old(self).control.bits & DmaChannelControlRegister::TRANSFER_DIR == 0 && (old(self).control.bits >> 9u32) & 3 == 1 ==> ({
                let start = (old(self).base_address & 0x1ffffc) as int;
                let n = old(self).gpu_transfer_length(false, false);
                &&& r is Ok ==> exists|vals: Seq<u32>| #![trigger gpuread_fed(*old(gpu), vals, *final(gpu))]
                    vals.len() == n && gpuread_fed(*old(gpu), vals, *final(gpu))
                    && final(ram)@ == words_stored(old(ram)@, start, old(self).decrements(), vals)
                &&& r is Ok ==> forall|k: int| 0 <= k < n ==> #[trigger] word_fits(start, old(self).decrements(), k, old(ram)@.len() as int)
                &&& r is Err ==> r == Err::<(), DmaFault>(DmaFault::AddressOutOfRange) && exists|k: int| #![trigger word_fits(start, old(self).decrements(), k, old(ram)@.len() as int)] 0 <= k < n
                    && !word_fits(start, old(self).decrements(), k, old(ram)@.len() as int)
            }),
            // To the GPU: RAM words handed to GP0 in order.
            old(self).control.bits & DmaChannelControlRegister::TRANSFER_DIR != 0 && (old(self).control.bits >> 9u32) & 3 <= 1 ==> ({
                let burst = old(self).is_burst();
                let start = old(self).gpu_transfer_start();
                let n = old(self).gpu_transfer_length(burst, true);
                let words = sent_words(old(ram)@, start, old(self).decrements(), burst, n as nat);
                &&& r is Ok ==> gp0_fed(*old(gpu), words, *final(gpu))
                    && forall|k: int| 0 <= k < n ==> #[trigger] gpu_word_fits(start, old(self).decrements(), burst, k, old(ram)@.len() as int)
                &&& r == Err::<(), DmaFault>(DmaFault::AddressOutOfRange) ==> exists|k: int| #![trigger gpu_word_fits(start, old(self).decrements(), burst, k, old(ram)@.len() as int)] 0 <= k < n
                    && !gpu_word_fits(start, old(self).decrements(), burst, k, old(ram)@.len() as int)
                &&& r matches Err(DmaFault::GpuRejected(w)) ==> exists|k: int| #![trigger words[k]] 0 <= k < n && w == words[k]
                    && gp0_fed(*old(gpu), words.take(k), *final(gpu)) && !gpu_takes(&*final(gpu), w)
                &&& r is Err ==> r == Err::<(), DmaFault>(DmaFault::AddressOutOfRange) || r is Err && (r->Err_0 is GpuRejected)
            }),
    {
        reveal(word_fits);
        reveal(buffer_word_fits);
        reveal(gpu_word_fits);
        if (self.control.bits >> 9u32) & 3 == 3 {
            return Err(DmaFault::UnsupportedSyncMode);
        }
        let decrement = self.control.contains(DmaChannelControlRegister::DECREMENT);
        let ghost g0 = *gpu;
        let ghost ram0 = ram@;
        if !self.control.contains(DmaChannelControlRegister::TRANSFER_DIR) {
            proof {
                lemma_flag_bits(self.control.bits);
            }
            if self.control.sync_mode() != SyncMode::Slice {
                return Err(DmaFault::UnsupportedSyncMode);
            }
            let ghost start = (self.base_address & 0x1ffffc) as int;
            proof {
                let (a, b) = (self.num_blocks as int, self.block_size as int);
                assert(a * b <= 0xffff_ffff * 0xffff_ffffint) by (nonlinear_arith)
                    requires 0 <= a <= 0xffff_ffff, 0 <= b <= 0xffff_ffff;
            }
            let total: u64 = (self.num_blocks as u64) * (self.block_size as u64);
            assert(total == old(self).gpu_transfer_length(false, false));
            let mut current_address = self.base_address & 0x1ffffc;
            let ghost mut vals: Seq<u32> = Seq::empty();
            let mut i: u64 = 0;
            while i < total
                invariant
                    i <= total,
                    decrement == old(self).decrements(),
                    start == (old(self).base_address & 0x1ffffc) as int,
                    ram@.len() == ram0.len(),
                    current_address as int == word_address(start, decrement, i as int),
                    vals.len() == i,
                    gpuread_fed(g0, vals, *gpu),
                    ram@ == words_stored(ram0, start, decrement, vals),
                    forall|k: int| 0 <= k < i ==> #[trigger] word_fits(start, decrement, k, ram0.len() as int),
                decreases total - i,
            {
                let ghost before = *gpu;
                let word = gpu.read_gpu();
                if current_address as usize > ram.len() || ram.len() - (current_address as usize) < 4 {
                    proof {
                        lemma_word_misfit(start, decrement, i as int, total as int, ram0.len() as int);
                    }
                    return Err(DmaFault::AddressOutOfRange);
                }
                write32(ram, current_address as usize, word);
                proof {
                    let nv = vals.push(word);
                    assert(nv.drop_last() =~= vals);
                    assert(gpuread_fed(g0, nv.drop_last(), before) && read_gpu_effect(&before, &*gpu, nv.last()));
                    vals = nv;
                }
                if decrement {
                    if current_address < 4 {
                        proof {
                            lemma_word_misfit(start, decrement, i as int, total as int, ram0.len() as int);
                        }
                        return Err(DmaFault::AddressOutOfRange);
                    }
                    current_address = current_address - 4;
                } else {
                    if current_address > u32::MAX - 4 {
                        proof {
                            lemma_word_misfit(start, decrement, i as int, total as int, ram0.len() as int);
                        }
                        return Err(DmaFault::AddressOutOfRange);
                    }
                    current_address = current_address + 4;
                }
                assert(word_fits(start, decrement, i as int, ram0.len() as int));
                i += 1;
            }
            Ok(())
        } else {
            proof {
                lemma_flag_bits(self.control.bits);
            }
            let mode = self.control.sync_mode();
            if mode == SyncMode::LinkedList {
                return Err(DmaFault::UnsupportedSyncMode);
            }
            let burst = mode == SyncMode::Burst;
            let blocks: u32 = if burst { 1 } else { self.num_blocks };
            let block_size: u32 = if burst { self.block_size } else if self.block_size == 0 { 0x10000 } else { self.block_size };
            proof {
                let (a, b) = (blocks as int, block_size as int);
                assert(a * b <= 0xffff_ffff * 0xffff_ffffint) by (nonlinear_arith)
                    requires 0 <= a <= 0xffff_ffff, 0 <= b <= 0xffff_ffff;
            }
            let total: u64 = (blocks as u64) * (block_size as u64);
            let ghost start: int = self.gpu_transfer_start();
            let ghost n = old(self).gpu_transfer_length(burst, true);
            proof {
                reveal(sent_words);
            }
            assert(total == n);
            let ghost words = sent_words(ram0, start, decrement, burst, n as nat);
            let mut current_address: u32 = if burst { self.base_address & 0x1fffff } else { self.base_address };
            let mut i: u64 = 0;
            while i < total
                invariant
                    i <= total,
                    total == n,
                    decrement == old(self).decrements(),
                    burst == ((old(self).control.bits >> 9u32) & 3 == 0),
                    start == old(self).gpu_transfer_start(),
                    words == sent_words(ram0, start, decrement, burst, n as nat),
                    ram@ == ram0,
                    current_address as int == word_address(start, decrement, i as int),
                    gp0_fed(g0, words.take(i as int), *gpu),
                    forall|k: int| 0 <= k < i ==> #[trigger] gpu_word_fits(start, decrement, burst, k, ram0.len() as int),
                decreases total - i,
            {
                let address: u32 = if burst { current_address } else { current_address & 0x1ffffc };
                if address as usize > ram.len() || ram.len() - (address as usize) < 4 {
                    proof {
                        lemma_gpu_word_misfit(old(self).gpu_transfer_start(), old(self).decrements(),
                            old(self).is_burst(), i as int, old(self).gpu_transfer_length(old(self).is_burst(), true),
                            old(ram)@.len() as int);
                    }
                    return Err(DmaFault::AddressOutOfRange);
                }
                let word = read32(ram, address as usize);
                assert(word == words[i as int]);
                if !gpu.accepts_gp0(word) {
                    return Err(DmaFault::GpuRejected(word));
                }
                let ghost before = *gpu;
                gpu.process_gp0_commands(word);
                proof {
                    assert(words.take(i + 1).drop_last() =~= words.take(i as int));
                    assert(gp0_fed(g0, words.take(i + 1).drop_last(), before) && gp0_effect(&before, &*gpu, words.take(i + 1).last()));
                }
                if decrement {
                    if current_address < 4 {
                        proof {
                            lemma_gpu_word_misfit(old(self).gpu_transfer_start(), old(self).decrements(),
                                old(self).is_burst(), i as int, old(self).gpu_transfer_length(old(self).is_burst(), true),
                                old(ram)@.len() as int);
                        }
                        return Err(DmaFault::AddressOutOfRange);
                    }
                    current_address = current_address - 4;
                } else {
                    if current_address > u32::MAX - 4 {
                        proof {
                            lemma_gpu_word_misfit(old(self).gpu_transfer_start(), old(self).decrements(),
                                old(self).is_burst(), i as int, old(self).gpu_transfer_length(old(self).is_burst(), true),
                                old(ram)@.len() as int);
                        }
                        return Err(DmaFault::AddressOutOfRange);
                    }
                    current_address = current_address + 4;
                }
                assert(gpu_word_fits(start, decrement, burst, i as int, ram0.len() as int));
                i += 1;
            }
            assert(words.take(n) =~= words);
            Ok(())
        }
    }

    /// Moves `block_size` words of the CD-ROM sector buffer to RAM from the base address.
    #[verifier::loop_isolation(false)]
    #[verifier::rlimit(60)]
    pub fn start_cdrom_transfer(&mut self, ram: &mut Vec<u8>, cdrom: &mut CDRom) -> (r: Result<(), DmaFault>)
        requires
            old(cdrom).wf(),
        ensures
            *final(self) == *old(self),
            final(cdrom).wf(),
            final(ram)@.len() == old(ram)@.len(),
            (old(self).control.bits >> 9u32) & 3 != 0 ==> r == Err::<(), DmaFault>(DmaFault::UnsupportedSyncMode),
            (old(self).control.bits >> 9u32) & 3 == 0 && old(self).control.bits & DmaChannelControlRegister::TRANSFER_DIR != 0
                ==> r == Err::<(), DmaFault>(DmaFault::UnsupportedDirection),
            (old(self).control.bits >> 9u32) & 3 == 0 && old(self).control.bits & DmaChannelControlRegister::TRANSFER_DIR == 0
                ==> (r is Ok <==> (forall|i: int| 0 <= i < old(self).block_size ==> #[trigger] buffer_word_fits(
                    old(cdrom).buffer_index as int, old(cdrom).sector_size as int, i))
                    && (forall|i: int| 0 <= i < old(self).block_size ==> #[trigger] word_fits(old(self).base_address as int,
                    old(self).decrements(), i, old(ram)@.len() as int))),
            r == Err::<(), DmaFault>(DmaFault::DeviceBufferEmpty) ==> exists|i: int| #![trigger buffer_word_fits(old(cdrom).buffer_index as int, old(cdrom).sector_size as int, i)] 0 <= i < old(self).block_size
                && !buffer_word_fits(old(cdrom).buffer_index as int, old(cdrom).sector_size as int, i),
            r == Err::<(), DmaFault>(DmaFault::AddressOutOfRange) ==> exists|i: int| #![trigger word_fits(old(self).base_address as int, old(self).decrements(), i, old(ram)@.len() as int)] 0 <= i < old(self).block_size
                && !word_fits(old(self).base_address as int, old(self).decrements(), i, old(ram)@.len() as int),
            r is Ok ==> {
                &&& final(ram)@ == cdrom_fill(old(ram)@, old(self).base_address as int, old(self).decrements(),
                    old(cdrom).output_buffer@, old(cdrom).buffer_index + data_offset(old(cdrom).sector_size), old(self).block_size as nat)
                &&& final(cdrom).buffer_index == old(cdrom).buffer_index + 4 * old(self).block_size
                &&& *final(cdrom) == (CDRom { buffer_index: final(cdrom).buffer_index, ..*old(cdrom) })
            },
    {
        reveal(word_fits);
        reveal(buffer_word_fits);
        reveal(gpu_word_fits);
        if (self.control.bits >> 9u32) & 3 != 0 {
            return Err(DmaFault::UnsupportedSyncMode);
        }
        if self.control.contains(DmaChannelControlRegister::TRANSFER_DIR) {
            return Err(DmaFault::UnsupportedDirection);
        }
        proof {
            lemma_flag_bits(self.control.bits);
        }
        let decrement = self.control.contains(DmaChannelControlRegister::DECREMENT);
        let ghost start = self.base_address as int;
        let ghost from = old(cdrom).buffer_index + data_offset(old(cdrom).sector_size);
        let mut current_address = self.base_address;
        let mut i: u32 = 0;
        while i < self.block_size
            invariant
                i <= self.block_size,
                *self == *old(self),
                decrement == old(self).decrements(),
                start == old(self).base_address,
                from == old(cdrom).buffer_index + data_offset(old(cdrom).sector_size),
                cdrom.wf(),
                cdrom.buffer_index == old(cdrom).buffer_index + 4 * i,
                *cdrom == (CDRom { buffer_index: cdrom.buffer_index, ..*old(cdrom) }),
                current_address as int == word_address(start, decrement, i as int),
                ram@.len() == old(ram)@.len(),
                ram@ == cdrom_fill(old(ram)@, start, decrement, old(cdrom).output_buffer@, from, i as nat),
                forall|j: int| 0 <= j < i ==> #[trigger] buffer_word_fits(old(cdrom).buffer_index as int, old(cdrom).sector_size as int, j),
                forall|j: int| 0 <= j < i ==> #[trigger] word_fits(start, decrement, j, old(ram)@.len() as int),
            decreases self.block_size - i,
        {
            if cdrom.buffer_index > cdrom.sector_size || cdrom.sector_size - cdrom.buffer_index < 4 {
                assert(!buffer_word_fits(old(cdrom).buffer_index as int, old(cdrom).sector_size as int, i as int));
                return Err(DmaFault::DeviceBufferEmpty);
            }
            let value = cdrom.read_data_buffer();
            if current_address as usize > ram.len() || ram.len() - (current_address as usize) < 4 {
                proof {
                    lemma_word_misfit(start, decrement, i as int, old(self).block_size as int, old(ram)@.len() as int);
                }
                return Err(DmaFault::AddressOutOfRange);
            }
            write32(ram, current_address as usize, value);
            assert(value == spec_read32(old(cdrom).output_buffer@, from + 4 * i));
            if decrement {
                if current_address < 4 {
                    proof {
                        lemma_word_misfit(start, decrement, i as int, old(self).block_size as int, old(ram)@.len() as int);
                    }
                    return Err(DmaFault::AddressOutOfRange);
                }
                current_address = current_address - 4;
            } else {
                if current_address > u32::MAX - 4 {
                    proof {
                        lemma_word_misfit(start, decrement, i as int, old(self).block_size as int, old(ram)@.len() as int);
                    }
                    return Err(DmaFault::AddressOutOfRange);
                }
                current_address = current_address + 4;
            }
            assert(buffer_word_fits(old(cdrom).buffer_index as int, old(cdrom).sector_size as int, i as int));
            assert(word_fits(start, decrement, i as int, old(ram)@.len() as int));
            i += 1;
        }
        Ok(())
    }
}

/// The header word of the linked-list node at `a`.
pub open spec fn node_header(ram: Seq<u8>, a: u32) -> u32 {
    spec_read32(ram, a as int)
}

/// How many words the node at `a` sends (its header's top byte).
pub open spec fn node_count(ram: Seq<u8>, a: u32) -> int {
    (node_header(ram, a) / 0x0100_0000) as int
}

/// The words the node at `a` sends, read from the words after its header.
pub open spec fn node_words(ram: Seq<u8>, a: u32) -> Seq<u32> {
    Seq::new(node_count(ram, a) as nat, |k: int| spec_read32(ram, a + 4 * (k + 1)))
}

/// The address of the node after the one at `a` (FFFFFFh ends the list).
pub open spec fn node_next(ram: Seq<u8>, a: u32) -> u32 {
    node_header(ram, a) & 0xffffff
}

/// The ticks the node at `a` takes: its words, the header read and the setup, or only the
/// header read for an empty node.
pub open spec fn node_cost(ram: Seq<u8>, a: u32) -> int {
    if node_count(ram, a) > 0 {
        node_count(ram, a) + DMA_LINKED_LIST_BLOCK_SETUP_TICKS + DMA_LINKED_LIST_HEADER_READ_TICKS
    } else {
        DMA_LINKED_LIST_HEADER_READ_TICKS as int
    }
}

/// Whether the node at `a` and its words lie in RAM of `ram.len()` bytes.
pub open spec fn node_fits(ram: Seq<u8>, a: u32) -> bool {
    &&& a + 4 <= ram.len()
    &&& a + 4 * node_count(ram, a) <= u32::MAX
    &&& a + 4 * node_count(ram, a) + 4 <= ram.len()
}

/// A run of the list from the node at `a` with `budget` ticks: the words it sends to GP0 in
/// order, and where it stops: `None` at the end of the list, or the node it pauses at once
/// the ticks are spent.
pub open spec fn list_run(ram: Seq<u8>, a: u32, budget: int) -> (Seq<u32>, Option<u32>)
    decreases budget,
{
    if budget <= 0 {
        (Seq::empty(), Some(a))
    } else if node_next(ram, a) == 0xffffff {
        (node_words(ram, a), None)
    } else if budget - node_cost(ram, a) <= 0 {
        (node_words(ram, a), Some(node_next(ram, a) & !3u32))
    } else {
        let rest = list_run(ram, node_next(ram, a) & !3u32, budget - node_cost(ram, a));
        (node_words(ram, a) + rest.0, rest.1)
    }
}

/// Whether every node a run from `a` with `budget` ticks visits lies in RAM.
pub open spec fn list_fits(ram: Seq<u8>, a: u32, budget: int) -> bool
    decreases budget,
{
    if budget <= 0 {
        true
    } else if !node_fits(ram, a) {
        false
    } else if node_next(ram, a) == 0xffffff || budget - node_cost(ram, a) <= 0 {
        true
    } else {
        list_fits(ram, node_next(ram, a) & !3u32, budget - node_cost(ram, a))
    }
}

impl Dma {
    /// Runs the GPU channel's linked list: each node's header gives its word count and the
    /// next node; its words go to GP0. The list ends at the node pointing to FFFFFFh, which
    /// finishes the transfer; after its tick budget the channel pauses and resumes later.
    #[verifier::loop_isolation(false)]
    #[verifier::rlimit(80)]
    pub fn process_linked_list(
        &mut self,
        ram: &mut Vec<u8>,
        gpu: &mut GPU,
        interrupt_register: &mut InterruptRegister,
        scheduler: &mut Scheduler,
    ) -> (r: Result<(), DmaFault>)
        requires
            old(self).wf(),
            old(scheduler).wf(),
            old(scheduler).cycles + DMA_HALT_LINKED_LIST_TICKS <= usize::MAX,
        ensures
            final(self).wf(),
            final(scheduler).wf(),
            final(ram)@ == old(ram)@,
            ({
                let a0 = old(self).channels@[DMA_GPU as int].current_address;
                let run = list_run(old(ram)@, a0, DMA_LINKED_LIST_MAX_TICKS as int);
                &&& r is Ok ==> gp0_fed(*old(gpu), run.0, *final(gpu)) && list_fits(old(ram)@, a0, DMA_LINKED_LIST_MAX_TICKS as int)
                &&& r is Ok && run.1 is None ==> !final(self).channels@[DMA_GPU as int].halted
                    && final(self).channels@[DMA_GPU as int].current_address == 0xffffff
                    && *final(scheduler) == *old(scheduler)
                &&& r is Ok && run.1 is Some ==> final(self).channels@[DMA_GPU as int].halted
                    && final(self).channels@[DMA_GPU as int].current_address == run.1->0
                    && final(scheduler).events() == old(scheduler).events().insert(
                        event_code(EventType::UnhaltDma(DMA_GPU)),
                        (old(scheduler).cycles + DMA_HALT_LINKED_LIST_TICKS) as usize,
                    )
                &&& r == Err::<(), DmaFault>(DmaFault::AddressOutOfRange) ==> !list_fits(old(ram)@, a0, DMA_LINKED_LIST_MAX_TICKS as int)
                &&& r matches Err(DmaFault::GpuRejected(w)) ==> exists|k: int| #![trigger run.0[k]] 0 <= k < run.0.len()
                    && w == run.0[k] && gp0_fed(*old(gpu), run.0.take(k), *final(gpu)) && !gpu_takes(&*final(gpu), w)
                &&& r is Err ==> r == Err::<(), DmaFault>(DmaFault::AddressOutOfRange) || (r->Err_0 is GpuRejected)
            }),
    {
        let ghost ram0 = ram@;
        let ghost g0 = *gpu;
        let ghost a0 = self.channels@[DMA_GPU as int].current_address;
        let ghost full = list_run(ram0, a0, DMA_LINKED_LIST_MAX_TICKS as int);
        let ghost mut sent: Seq<u32> = Seq::empty();
        let mut channel = self.channels[DMA_GPU];
        channel.halted = false;
        self.channels.set(DMA_GPU, channel);
        let mut remaining_ticks: usize = DMA_LINKED_LIST_MAX_TICKS;
        proof {
            assert(sent + list_run(ram0, a0, DMA_LINKED_LIST_MAX_TICKS as int).0 =~= full.0);
        }
        while remaining_ticks > 0
            invariant
                self.wf(),
                ram@ == ram0,
                !self.channels@[DMA_GPU as int].halted,
                *scheduler == *old(scheduler),
                full == list_run(ram0, a0, DMA_LINKED_LIST_MAX_TICKS as int),
                full.0 == sent + list_run(ram0, self.channels@[DMA_GPU as int].current_address, remaining_ticks as int).0,
                full.1 == list_run(ram0, self.channels@[DMA_GPU as int].current_address, remaining_ticks as int).1,
                list_fits(ram0, a0, DMA_LINKED_LIST_MAX_TICKS as int)
                    == list_fits(ram0, self.channels@[DMA_GPU as int].current_address, remaining_ticks as int),
                gp0_fed(g0, sent, *gpu),
            decreases remaining_ticks,
        {
            let mut channel = self.channels[DMA_GPU];
            let ghost c = channel.current_address;
            let ghost rt = remaining_ticks as int;
            if channel.current_address as usize > ram.len() || ram.len() - (channel.current_address as usize) < 4 {
                return Err(DmaFault::AddressOutOfRange);
            }
            let packet = read32(ram, channel.current_address as usize);
            let mut word_count = packet / 0x0100_0000;
            let word_ticks = word_count as usize;
            let ghost nw = node_words(ram0, c);
            let ghost mut j: int = 0;
            proof {
                let lr = list_run(ram0, c, rt);
                assert(lr.0.len() >= nw.len());
                assert(forall|i: int| 0 <= i < nw.len() ==> #[trigger] lr.0[i] == nw[i]);
            }
            while word_count > 0
                invariant
                    self.wf(),
                    ram@ == ram0,
                    !channel.halted,
                    !self.channels@[DMA_GPU as int].halted,
                    *scheduler == *old(scheduler),
                    packet == node_header(ram0, c),
                    nw == node_words(ram0, c),
                    0 <= j <= nw.len(),
                    word_count == nw.len() - j,
                    channel.current_address == c + 4 * j,
                    c + 4 * j + 4 <= ram0.len(),
                    gp0_fed(g0, sent + nw.take(j), *gpu),
                    0 < rt,
                    rt == remaining_ticks,
                    c == self.channels@[DMA_GPU as int].current_address,
                    full.0 == sent + list_run(ram0, c, rt).0,
                    list_run(ram0, c, rt).0.len() >= nw.len(),
                    forall|i: int| 0 <= i < nw.len() ==> #[trigger] list_run(ram0, c, rt).0[i] == nw[i],
                    list_fits(ram0, a0, DMA_LINKED_LIST_MAX_TICKS as int) == list_fits(ram0, c, rt),
                decreases word_count,
            {
                if channel.current_address > u32::MAX - 4 {
                    return Err(DmaFault::AddressOutOfRange);
                }
                channel.current_address = channel.current_address + 4;
                if channel.current_address as usize > ram.len() || ram.len() - (channel.current_address as usize) < 4 {
                    return Err(DmaFault::AddressOutOfRange);
                }
                let word = read32(ram, channel.current_address as usize);
                assert(word == nw[j]);
                proof {
                    let k = sent.len() + j;
                    assert(full.0[k] == word);
                    assert(full.0.take(k) =~= sent + nw.take(j));
                }
                word_count -= 1;
                if !gpu.accepts_gp0(word) {
                    return Err(DmaFault::GpuRejected(word));
                }
                let ghost before = *gpu;
                gpu.process_gp0_commands(word);
                proof {
                    let ns = sent + nw.take(j + 1);
                    assert(ns.drop_last() =~= sent + nw.take(j));
                    assert(ns.last() == word);
                    assert(gp0_fed(g0, ns.drop_last(), before) && gp0_effect(&before, &*gpu, ns.last()));
                    j = j + 1;
                }
            }
            proof {
                assert(nw.take(j) =~= nw);
                sent = sent + nw;
            }
            proof {
                assert(node_fits(ram0, c));
            }
            channel.current_address = packet & 0xffffff;
            let tick_count: usize = if word_ticks > 0 {
                word_ticks + DMA_LINKED_LIST_BLOCK_SETUP_TICKS + DMA_LINKED_LIST_HEADER_READ_TICKS
            } else {
                DMA_LINKED_LIST_HEADER_READ_TICKS
            };
            remaining_ticks = remaining_ticks.saturating_sub(tick_count);
            self.channels.set(DMA_GPU, channel);
            if channel.current_address == 0xffffff {
                proof {
                    assert(full.0 =~= sent);
                }
                self.finish_transfer(DMA_GPU, interrupt_register);
                return Ok(());
            }
            channel.current_address = channel.current_address & !3u32;
            self.channels.set(DMA_GPU, channel);
            proof {
                assert(node_next(ram0, c) & !3u32 == channel.current_address);
                assert(node_cost(ram0, c) == tick_count as int);
                if remaining_ticks == 0 {
                    assert(list_run(ram0, channel.current_address, 0).0 =~= Seq::<u32>::empty());
                    assert(sent + list_run(ram0, channel.current_address, 0).0 =~= sent);
                } else {
                    assert(rt - node_cost(ram0, c) == remaining_ticks as int);
                    assert(full.0 =~= sent + list_run(ram0, channel.current_address, remaining_ticks as int).0);
                }
            }
        }
        let mut channel = self.channels[DMA_GPU];
        channel.halted = true;
        self.channels.set(DMA_GPU, channel);
        scheduler.schedule(EventType::UnhaltDma(DMA_GPU), DMA_HALT_LINKED_LIST_TICKS);
        Ok(())
    }
}
} // verus!
