use vstd::prelude::*;
use super::dma_channel_control_register::{DmaChannelControlRegister, SyncMode, spec_sync_mode};
use super::dma_control_register::DmaControlRegister;
use super::dma_interrupt_register::{DmaInterruptRegister, spec_channel_irq, spec_master_flag};
use crate::cpu::bus::registers::interrupt_register::InterruptRegister;
use crate::memory::{spec_write32, write32};

verus! {

pub const DMA_MDEC_IN: usize = 0;
pub const DMA_MDEC_OUT: usize = 1;
pub const DMA_GPU: usize = 2;
pub const DMA_CDROM: usize = 3;
pub const DMA_SPU: usize = 4;
pub const DMA_PIO: usize = 5;
pub const DMA_OTC: usize = 6;

pub const DMA_TICKS_REMAINING: usize = 100;
pub const DMA_HALT_TICKS: usize = 100;
pub const DMA_TICKS_PER_BLOCK: usize = 34;

/// One of the seven DMA channels.
#[derive(Copy, Clone)]
pub struct DmaChannel {
    pub base_address: u32,
    pub block_size: u32,
    pub num_blocks: u32,
    pub control: DmaChannelControlRegister,
    pub halted: bool,
    pub request: bool,
    /// The next linked-list header address.
    pub current_address: u32,
}

/// Whether `register` is one of a channel's three registers (MADR, BCR, CHCR).
pub open spec fn is_channel_register(register: usize) -> bool {
    register == 0 || register == 4 || register == 8
}

/// The address of entry `i` of an ordering table that starts at `start`.
pub open spec fn otc_address(start: int, decrement: bool, i: int) -> int {
    if decrement {
        start - 4 * i
    } else {
        start + 4 * i
    }
}

/// Entry `i` of an ordering table of `len` entries: a link to the entry 4 bytes below, or the
/// end marker 0xffffff for the last one.
pub open spec fn otc_value(start: int, decrement: bool, len: int, i: int) -> u32 {
    if i == len - 1 {
        0xffffff
    } else {
        (otc_address(start, decrement, i) - 4) as u32
    }
}

/// `mem` after the first `n` entries of the ordering table are written.
pub open spec fn otc_fill(mem: Seq<u8>, start: int, decrement: bool, len: int, n: nat) -> Seq<u8>
    decreases n,
{
    if n == 0 {
        mem
    } else {
        spec_write32(
            otc_fill(mem, start, decrement, len, (n - 1) as nat),
            otc_address(start, decrement, n - 1),
            otc_value(start, decrement, len, n - 1),
        )
    }
}

/// Whether an ordering table of `len` entries from `start` stays inside `mem_len` bytes,
/// address arithmetic included.
pub open spec fn otc_fits(start: int, decrement: bool, len: int, mem_len: int) -> bool {
    if decrement {
        &&& start >= 4 * len
        &&& start + 4 <= mem_len
    } else {
        &&& len > 1 ==> start >= 4
        &&& start + 4 * len <= mem_len
        &&& start + 4 * len <= u32::MAX
    }
}

impl DmaChannel {
    /// The channel after the CPU writes `value` to its register `register`.
    pub open spec fn written(self, register: usize, value: u32) -> DmaChannel {
        if register == 0 {
            DmaChannel { base_address: value & 0xffffff, ..self }
        } else if register == 4 {
            DmaChannel { block_size: value & 0xffff, num_blocks: value >> 16, ..self }
        } else {
            DmaChannel { control: DmaChannelControlRegister { bits: value }, ..self }
        }
    }

    /// The value the CPU reads from register `register`.
    pub open spec fn spec_read(self, register: usize) -> u32 {
        if register == 0 {
            self.base_address
        } else if register == 4 {
            match spec_sync_mode(self.control.bits) {
                SyncMode::Burst => self.block_size,
                SyncMode::Slice => (self.block_size & 0xffff) | ((self.num_blocks & 0xffff) << 16),
                SyncMode::LinkedList => 0,
            }
        } else {
            self.control.bits
        }
    }

    /// The number of words a transfer moves; a linked list counts its words as it goes.
    pub open spec fn spec_num_words(self) -> int {
        match spec_sync_mode(self.control.bits) {
            SyncMode::Burst => self.block_size as int,
            SyncMode::Slice => self.block_size * self.num_blocks,
            SyncMode::LinkedList => 0,
        }
    }

    pub fn new() -> (r: Self)
        ensures
            r.base_address == 0,
            r.block_size == 0,
            r.num_blocks == 0,
            r.control.bits == 0,
            !r.halted,
            !r.request,
            r.current_address == 0,
    {
        Self {
            base_address: 0,
            block_size: 0,
            num_blocks: 0,
            control: DmaChannelControlRegister::from_bits_retain(0),
            halted: false,
            request: false,
            current_address: 0,
        }
    }

    pub fn write(&mut self, register: usize, value: u32)
        requires
            is_channel_register(register),
        ensures
            *final(self) == old(self).written(register, value),
    {
        if register == 0 {
            self.base_address = value & 0xffffff;
        } else if register == 4 {
            self.block_size = value & 0xffff;
            self.num_blocks = value >> 16;
        } else {
            self.control = DmaChannelControlRegister::from_bits_retain(value);
        }
    }

    pub fn read(&self, register: usize) -> (r: u32)
        requires
            is_channel_register(register),
            register == 4 ==> self.control.has_valid_sync_mode(),
        ensures
            r == self.spec_read(register),
    {
        if register == 0 {
            self.base_address
        } else if register == 4 {
            match self.control.sync_mode() {
                SyncMode::Burst => self.block_size,
                SyncMode::Slice => self.block_size & 0xffff | (self.num_blocks & 0xffff) << 16,
                SyncMode::LinkedList => 0,
            }
        } else {
            self.control.bits()
        }
    }

    pub fn get_num_words(&self) -> (r: u32)
        requires
            self.control.has_valid_sync_mode(),
            spec_sync_mode(self.control.bits) == SyncMode::Slice ==> self.block_size
                * self.num_blocks <= u32::MAX,
        ensures
            r == self.spec_num_words(),
    {
        match self.control.sync_mode() {
            SyncMode::Burst => self.block_size,
            SyncMode::Slice => self.block_size * self.num_blocks,
            SyncMode::LinkedList => 0,
        }
    }
    /// Builds an ordering table in RAM: each entry links to the entry 4 bytes below, the last
    /// holds the end marker.
    pub fn start_otc_transfer(&mut self, ram: &mut Vec<u8>)
        requires
            old(self).control.has_valid_sync_mode(),
            spec_sync_mode(old(self).control.bits) == SyncMode::Burst,
            otc_fits(
                (old(self).base_address & 0x1ffffc) as int,
                old(self).control.bits & DmaChannelControlRegister::DECREMENT
                    == DmaChannelControlRegister::DECREMENT,
                old(self).block_size as int,
                old(ram).len() as int,
            ),
        ensures
            *final(self) == *old(self),
            final(ram)@ == otc_fill(
                old(ram)@,
                (old(self).base_address & 0x1ffffc) as int,
                old(self).control.bits & DmaChannelControlRegister::DECREMENT
                    == DmaChannelControlRegister::DECREMENT,
                old(self).block_size as int,
                old(self).block_size as nat,
            ),
    {
        let start = self.base_address & 0x1ffffc;
        let decrement = self.control.contains(DmaChannelControlRegister::DECREMENT);
        let len = self.block_size;
        let ghost mem0 = ram@;
        let mut current_address = start;
        let mut i: u32 = 0;
        while i < len
            invariant
                0 <= i <= len,
                otc_fits(start as int, decrement, len as int, mem0.len() as int),
                current_address as int == otc_address(start as int, decrement, i as int),
                ram@ == otc_fill(mem0, start as int, decrement, len as int, i as nat),
                ram@.len() == mem0.len(),
            decreases len - i,
        {
            let value = if i == len - 1 {
                0xffffff
            } else {
                current_address - 4
            };
            write32(ram, current_address as usize, value);
            if decrement {
                current_address = current_address - 4;
            } else {
                current_address = current_address + 4;
            }
            i = i + 1;
        }
    }
}

/// The DMA controller.
pub struct Dma {
    pub channels: Vec<DmaChannel>,
    pub dma_control: DmaControlRegister,
    pub dicr: DmaInterruptRegister,
}

/// The channel that a register address belongs to (7 for the shared registers).
pub open spec fn address_channel(address: usize) -> int {
    (address - 0x1f801080) / 0x10
}

/// The value that DICR holds after the CPU writes `value`: the flag bits (24..30) written as
/// 1 are acknowledged; bits 0..5 and 15..23 are taken from `value`.
pub open spec fn dicr_written(bits: u32, value: u32) -> u32 {
    ((bits & 0xff00_0000) & !(value & 0x7f00_0000)) | (value & 0xff_803f)
}

/// What a CPU write of `value` to DMA register `address` does; `r` is whether it starts a
/// transfer on the channel it addressed.
pub open spec fn write_registers_effect(old: &Dma, new: &Dma, address: usize, value: u32, r: bool) -> bool {
    &&& new.wf()
    &&& address_channel(address) < 7 ==> {
        let ch = address_channel(address);
        let c = old.channels@[ch].written(address & 0xf, value);
        &&& new.channels@ =~= old.channels@.update(ch, c)
        &&& new.dma_control == old.dma_control
        &&& new.dicr == old.dicr
        &&& r == Dma::starts_transfer(
            old.dma_control.bits,
            ch,
            c,
            old.channels@[ch].control.bits & DmaChannelControlRegister::START_TRANSFER
                == DmaChannelControlRegister::START_TRANSFER,
        )
    }
    &&& address == 0x1f8010f0 ==> {
        &&& new.channels@ =~= old.channels@
        &&& new.dma_control.bits == value
        &&& new.dicr == old.dicr
        &&& !r
    }
    &&& address == 0x1f8010f4 ==> {
        &&& new.channels@ =~= old.channels@
        &&& new.dma_control == old.dma_control
        &&& new.dicr.bits == dicr_written(old.dicr.bits, value)
        &&& !r
    }
}

/// Whether a CPU write of `value` to DMA register `address` starts a transfer.
pub open spec fn write_starts_transfer(old: &Dma, address: usize, value: u32) -> bool {
    let ch = address_channel(address);
    if ch < 7 {
        Dma::starts_transfer(
            old.dma_control.bits,
            ch,
            old.channels@[ch].written(address & 0xf, value),
            old.channels@[ch].control.bits & DmaChannelControlRegister::START_TRANSFER
                == DmaChannelControlRegister::START_TRANSFER,
        )
    } else {
        false
    }
}

impl Dma {
    pub open spec fn wf(&self) -> bool {
        self.channels.len() == 7
    }

    /// Whether a read of `address` reaches a register: a channel register, DPCR or DICR.
    pub open spec fn can_read(&self, address: usize) -> bool {
        &&& address >= 0x1f801080
        &&& if address_channel(address) < 7 {
            &&& is_channel_register(address & 0xf)
            &&& (address & 0xf) == 4 ==> self.channels@[address_channel(address)].control.has_valid_sync_mode()
        } else {
            address == 0x1f8010f0 || address == 0x1f8010f4
        }
    }

    /// Whether a write of `address` reaches a register.
    pub open spec fn can_write(address: usize) -> bool {
        &&& address >= 0x1f801080
        &&& if address_channel(address) < 7 {
            is_channel_register(address & 0xf)
        } else {
            address == 0x1f8010f0 || address == 0x1f8010f4
        }
    }

    pub open spec fn spec_read_register(&self, address: usize) -> u32 {
        if address_channel(address) < 7 {
            self.channels@[address_channel(address)].spec_read(address & 0xf)
        } else if address == 0x1f8010f0 {
            self.dma_control.bits
        } else {
            self.dicr.bits
        }
    }

    /// Whether `channel` may start a request transfer now.
    pub open spec fn spec_can_transfer(&self, channel: int) -> bool {
        let c = self.channels@[channel];
        &&& c.control.bits & DmaChannelControlRegister::START_TRANSFER
            == DmaChannelControlRegister::START_TRANSFER
        &&& !c.halted
        &&& c.request
        &&& (self.dma_control.bits >> (channel * 4 + 3) as u32) & 1 == 1
    }

    /// Whether a write that left `c` as channel `channel` starts its transfer: the start bit
    /// was just set, the channel is ready and DPCR enables it.
    pub open spec fn starts_transfer(
        dma_control: u32,
        channel: int,
        c: DmaChannel,
        previous_enable: bool,
    ) -> bool {
        let ready = if channel == DMA_MDEC_IN || channel == DMA_MDEC_OUT {
            c.request && !c.halted
        } else if channel == DMA_GPU {
            !c.halted
        } else {
            true
        };
        &&& c.control.bits & DmaChannelControlRegister::START_TRANSFER
            == DmaChannelControlRegister::START_TRANSFER
        &&& !previous_enable
        &&& ready
        &&& (dma_control >> (channel * 4 + 3) as u32) & 1 == 1
    }

    pub fn new() -> (r: Self)
        ensures
            r.wf(),
            forall|i: int| 0 <= i < 7 ==> r.channels@[i] == (DmaChannel {
                base_address: 0,
                block_size: 0,
                num_blocks: 0,
                control: DmaChannelControlRegister { bits: 0 },
                halted: false,
                request: false,
                current_address: 0,
            }),
            r.dma_control.bits == 0x7654321,
            r.dicr.bits == 0,
    {
        let c = DmaChannel::new();
        Self {
            channels: vec![c, c, c, c, c, c, c],
            dma_control: DmaControlRegister::from_bits_retain(0x7654321),
            dicr: DmaInterruptRegister::from_bits_retain(0),
        }
    }

    /// Whether a read of `address` reaches a register.
    pub fn check_read(&self, address: usize) -> (r: bool)
        requires
            self.wf(),
        ensures
            r == self.can_read(address),
    {
        if address < 0x1f801080 {
            return false;
        }
        let channel = (address - 0x1f801080) / 0x10;
        let register = address & 0xf;
        if channel < 7 {
            (register == 0 || register == 4 || register == 8) && (register != 4 || (
            self.channels[channel].control.bits() >> 9) & 3 != 3)
        } else {
            address == 0x1f8010f0 || address == 0x1f8010f4
        }
    }

    /// Whether a write of `address` reaches a register.
    pub fn check_write(address: usize) -> (r: bool)
        ensures
            r == Self::can_write(address),
    {
        if address < 0x1f801080 {
            return false;
        }
        let channel = (address - 0x1f801080) / 0x10;
        let register = address & 0xf;
        if channel < 7 {
            register == 0 || register == 4 || register == 8
        } else {
            address == 0x1f8010f0 || address == 0x1f8010f4
        }
    }

    pub fn read_registers(&self, address: usize) -> (r: u32)
        requires
            self.wf(),
            self.can_read(address),
        ensures
            r == self.spec_read_register(address),
    {
        let channel = (address - 0x1f801080) / 0x10;
        let register = address & 0xf;
        if channel < 7 {
            self.channels[channel].read(register)
        } else if address == 0x1f8010f0 {
            self.dma_control.bits()
        } else {
            self.dicr.bits()
        }
    }

    /// Whether `channel` may start a request transfer now.
    pub fn can_transfer_dma(&self, channel: usize) -> (r: bool)
        requires
            self.wf(),
            channel < 7,
        ensures
            r == self.spec_can_transfer(channel as int),
    {
        let dma_channel = self.channels[channel];
        let shift = (channel * 4 + 3) as u32;
        dma_channel.control.contains(DmaChannelControlRegister::START_TRANSFER)
            && !dma_channel.halted && dma_channel.request && (self.dma_control.bits() >> shift)
            & 0x1 == 1
    }

    /// Ends a transfer: clears the channel's start and force bits, sets its interrupt flag if
    /// enabled and raises the DMA interrupt if the master flag is then set.
    pub fn finish_transfer(&mut self, channel: usize, interrupt_stat: &mut InterruptRegister)
        requires
            old(self).wf(),
            channel < 7,
        ensures
            final(self).wf(),
            final(self).channels@ == old(self).channels@.update(
                channel as int,
                DmaChannel {
                    control: DmaChannelControlRegister {
                        bits: old(self).channels@[channel as int].control.bits & !(
                        DmaChannelControlRegister::START_TRANSFER
                            | DmaChannelControlRegister::FORCE_TRANSFER),
                    },
                    ..old(self).channels@[channel as int]
                },
            ),
            final(self).dma_control == old(self).dma_control,
            final(self).dicr.bits == spec_channel_irq(old(self).dicr.bits, channel),
            final(interrupt_stat).bits == if spec_master_flag(final(self).dicr.bits) {
                old(interrupt_stat).bits | InterruptRegister::DMA
            } else {
                old(interrupt_stat).bits
            },
    {
        let mut dma_channel = self.channels[channel];
        let b = dma_channel.control.bits;
        dma_channel.control.remove(DmaChannelControlRegister::START_TRANSFER);
        dma_channel.control.remove(DmaChannelControlRegister::FORCE_TRANSFER);
        assert(b & !DmaChannelControlRegister::START_TRANSFER & !DmaChannelControlRegister::FORCE_TRANSFER
            == b & !(DmaChannelControlRegister::START_TRANSFER | DmaChannelControlRegister::FORCE_TRANSFER))
            by (bit_vector);
        self.channels.set(channel, dma_channel);
        self.dicr.set_channel_irq_if_enabled(channel);
        if self.dicr.master_interrupt_flag() {
            interrupt_stat.insert(InterruptRegister::DMA);
        }
    }

    /// Handles a CPU write to a DMA register. Returns whether the write starts a transfer on
    /// the channel it addressed.
    pub fn write_registers(&mut self, address: usize, value: u32) -> (r: bool)
        requires
            old(self).wf(),
            Self::can_write(address),
        ensures
            write_registers_effect(old(self), final(self), address, value, r),
    {
        let channel = (address - 0x1f801080) / 0x10;
        let register = address & 0xf;
        if channel >= 7 {
            if address == 0x1f8010f0 {
                self.dma_control = DmaControlRegister::from_bits_retain(value);
            } else {
                let mut bits = self.dicr.bits();
                bits &= 0xff00_0000;
                bits &= !(value & 0x7f00_0000);
                bits |= value & 0xff_803f;
                self.dicr = DmaInterruptRegister::from_bits_retain(bits);
            }
            return false;
        }
        let mut dma_channel = self.channels[channel];
        let previous_enable = dma_channel.control.contains(DmaChannelControlRegister::START_TRANSFER);
        dma_channel.write(register, value);
        self.channels.set(channel, dma_channel);
        let shift = (channel * 4 + 3) as u32;
        // Only the MDEC channels wait for a request, and the GPU channel for its halt to end.
        let request = if channel == DMA_MDEC_IN || channel == DMA_MDEC_OUT {
            dma_channel.request && !dma_channel.halted
        } else if channel == DMA_GPU {
            !dma_channel.halted
        } else {
            true
        };
        dma_channel.control.contains(DmaChannelControlRegister::START_TRANSFER) && !previous_enable
            && request && (self.dma_control.bits() >> shift) & 0x1 == 1
    }
}


/// Reading a channel register gives back what was written to it: the base address keeps its
/// low 24 bits, the control register all 32, and in slice mode the block control register
/// all 32.
pub proof fn lemma_channel_read_after_write(c: DmaChannel, value: u32)
    ensures
        c.written(0, value).spec_read(0) == value & 0xffffff,
        c.written(8, value).spec_read(8) == value,
        spec_sync_mode(c.control.bits) == SyncMode::Slice ==> c.written(4, value).spec_read(4) == value,
{
    assert(((value & 0xffff) & 0xffff) | (((value >> 16u32) & 0xffff) << 16u32) == value) by (bit_vector);
}

} // verus!
