use vstd::prelude::*;

verus! {

/// Where a memory card stands in the serial protocol.
#[derive(Copy, Clone, PartialEq, Eq, Structural, Debug)]
pub enum CardState {
    Idle,
    AwaitingCommand,
    Writing,
    Reading,
    GetId,
}

/// The size of a memory card in bytes: 1024 sectors of 128 bytes.
pub const MEMORY_SIZE: usize = 0x20000;

/// The bytes of a sector.
pub const SECTOR_SIZE: usize = 128;

/// The card's state as plain values, its contents as a sequence of bytes.
pub struct CardView {
    pub card_state: CardState,
    pub flag_byte: u8,
    pub step: usize,
    pub finished_transferring: bool,
    pub current_sector: u16,
    pub current_byte: usize,
    pub checksum: u8,
    pub checksum_match: bool,
    pub previous: u8,
    pub memory: Option<Seq<u8>>,
}

/// A memory card in slot 1. Its contents, when a card is inserted, are held in `memory_file`;
/// the owner of the card writes them back to storage.
pub struct MemoryCard {
    pub card_state: CardState,
    pub flag_byte: u8,
    pub step: usize,
    pub finished_transferring: bool,
    pub current_sector: u16,
    pub current_byte: usize,
    pub checksum: u8,
    pub checksum_match: bool,
    pub previous: u8,
    pub memory_file: Option<Vec<u8>>,
}

/// The eight bytes a card answers the get-id command (53h) with, by step.
pub open spec fn id_reply(step: usize) -> u8 {
    if step == 0 {
        0x5a
    } else if step == 1 {
        0x5d
    } else if step == 2 {
        0x5c
    } else if step == 3 {
        0x5d
    } else if step == 4 {
        0x4
    } else if step == 7 {
        0x80
    } else {
        0
    }
}

/// The byte offset of byte `byte` of sector `sector`.
pub open spec fn sector_offset(sector: u16, byte: usize) -> int {
    128 * sector + byte
}

impl View for MemoryCard {
    type V = CardView;

    open spec fn view(&self) -> CardView {
        CardView {
            card_state: self.card_state,
            flag_byte: self.flag_byte,
            step: self.step,
            finished_transferring: self.finished_transferring,
            current_sector: self.current_sector,
            current_byte: self.current_byte,
            checksum: self.checksum,
            checksum_match: self.checksum_match,
            previous: self.previous,
            memory: match self.memory_file {
                Some(m) => Some(m@),
                None => None,
            },
        }
    }
}

impl CardView {
    /// The state invariant: each command's step stays within its sequence, and while sector
    /// bytes flow the byte counter stays inside the sector.
    pub open spec fn wf(&self) -> bool {
        &&& self.card_state == CardState::GetId ==> self.step <= 7
        &&& self.card_state == CardState::Writing ==> self.step <= 8
        &&& self.card_state == CardState::Writing && self.step <= 4 ==> self.current_byte < 128
        &&& self.card_state == CardState::Reading ==> self.step <= 10
        &&& self.card_state == CardState::Reading && self.step <= 8 ==> self.current_byte < 128
        &&& self.card_state == CardState::Reading && self.step == 8 ==> self.current_sector
            <= 0x3ff
        &&& self.memory matches Some(m) ==> m.len() == MEMORY_SIZE
    }

    /// Whether the next byte of a write command lands on the card: a sector number past the
    /// card's end cannot be written to.
    pub open spec fn write_in_bounds(&self) -> bool {
        self.card_state == CardState::Writing && self.step == 4 && self.memory is Some
            ==> self.current_sector <= 0x3ff
    }

    /// The card after a new command has been chosen: counters and checksum cleared.
    pub open spec fn command_started(self, state: CardState) -> CardView {
        CardView {
            card_state: state,
            step: 0,
            checksum: 0,
            previous: 0,
            current_byte: 0,
            current_sector: 0,
            finished_transferring: false,
            ..self
        }
    }

    /// The card and its answer after byte `command` of a write command (57h).
    pub open spec fn write_step(self, command: u8) -> (CardView, u8) {
        let s = self.step;
        let (c, r) = if s == 0 {
            (CardView { flag_byte: self.flag_byte & !0x8u8, ..self }, 0x5au8)
        } else if s == 1 {
            (self, 0x5du8)
        } else if s == 2 {
            (
                CardView {
                    previous: command,
                    current_sector: ((command as u16) << 8u16) as u16,
                    checksum: command,
                    ..self
                },
                0u8,
            )
        } else if s == 3 {
            (
                CardView {
                    previous: command,
                    current_sector: self.current_sector | (command as u16),
                    checksum: self.checksum ^ command,
                    ..self
                },
                self.previous,
            )
        } else if s == 4 {
            let byte = (self.current_byte + 1) as usize;
            (
                CardView {
                    previous: command,
                    checksum: self.checksum ^ command,
                    memory: match self.memory {
                        Some(m) => Some(
                            m.update(sector_offset(self.current_sector, self.current_byte), command),
                        ),
                        None => None,
                    },
                    current_byte: byte,
                    finished_transferring: if byte == 128 { true } else { self.finished_transferring },
                    ..self
                },
                self.previous,
            )
        } else if s == 5 {
            (CardView { checksum_match: self.checksum == command, ..self }, self.checksum)
        } else if s == 6 {
            (self, 0x5cu8)
        } else if s == 7 {
            (self, 0x5du8)
        } else {
            (self, if self.checksum_match { 0x47u8 } else { 0x4eu8 })
        };
        let next = if s == 8 {
            CardView { card_state: CardState::Idle, ..c }
        } else if s != 4 || c.finished_transferring {
            CardView { step: (s + 1) as usize, ..c }
        } else {
            c
        };
        (next, r)
    }

    /// The card and its answer after byte `command` of a read command (52h).
    pub open spec fn read_step(self, command: u8) -> (CardView, u8) {
        let s = self.step;
        let (c, r) = if s == 0 {
            (self, 0x5au8)
        } else if s == 1 {
            (self, 0x5du8)
        } else if s == 2 {
            (
                CardView {
                    current_sector: ((command as u16) << 8u16) as u16,
                    checksum: command,
                    previous: command,
                    ..self
                },
                0u8,
            )
        } else if s == 3 {
            (
                CardView {
                    current_sector: self.current_sector | (command as u16),
                    checksum: self.checksum ^ command,
                    ..self
                },
                self.previous,
            )
        } else if s == 4 {
            (self, 0x5cu8)
        } else if s == 5 {
            (self, 0x5du8)
        } else if s == 6 {
            (self, (self.current_sector >> 8u16) as u8)
        } else if s == 7 {
            (
                if self.current_sector > 0x3ff {
                    CardView { card_state: CardState::Idle, ..self }
                } else {
                    self
                },
                self.current_sector as u8,
            )
        } else if s == 8 {
            let data = match self.memory {
                Some(m) => m[sector_offset(self.current_sector, self.current_byte)],
                None => 0xffu8,
            };
            let byte = (self.current_byte + 1) as usize;
            (
                CardView {
                    current_byte: byte,
                    finished_transferring: if byte == 128 { true } else { self.finished_transferring },
                    checksum: self.checksum ^ data,
                    ..self
                },
                data,
            )
        } else if s == 9 {
            (self, self.checksum)
        } else {
            (self, 0x47u8)
        };
        let next = if s == 10 {
            CardView { card_state: CardState::Idle, step: 0, ..c }
        } else if s != 8 || c.finished_transferring {
            CardView { step: (s + 1) as usize, ..c }
        } else {
            c
        };
        (next, r)
    }

    /// The card and its answer after it receives `command`.
    pub open spec fn replied(self, command: u8) -> (CardView, u8) {
        match self.card_state {
            CardState::Idle => (CardView { card_state: CardState::AwaitingCommand, ..self }, 0xffu8),
            CardState::AwaitingCommand => {
                let next = if command == 0x57 {
                    CardView { checksum_match: false, ..self.command_started(CardState::Writing) }
                } else if command == 0x52 {
                    self.command_started(CardState::Reading)
                } else if command == 0x53 {
                    CardView { card_state: CardState::GetId, step: 0, ..self }
                } else {
                    CardView { card_state: CardState::Idle, ..self }
                };
                (next, self.flag_byte)
            },
            CardState::GetId => {
                let next = if self.step == 7 {
                    CardView { card_state: CardState::Idle, step: 0, ..self }
                } else {
                    CardView { step: (self.step + 1) as usize, ..self }
                };
                (next, id_reply(self.step))
            },
            CardState::Reading => self.read_step(command),
            CardState::Writing => self.write_step(command),
        }
    }
}

impl MemoryCard {
    /// Whether the card is in a transfer, and so acknowledges the byte it received.
    pub fn in_ack(&self) -> (r: bool)
        ensures
            r == (self.card_state != CardState::Idle),
    {
        self.card_state != CardState::Idle
    }

    /// A card slot with no card: idle, with the "not yet written" flag set.
    pub fn new() -> (r: Self)
        ensures
            r@.wf(),
            r@.card_state == CardState::Idle,
            r@.flag_byte == 0x8,
            r@.step == 0,
            !r@.finished_transferring,
            r@.current_sector == 0,
            r@.current_byte == 0,
            r@.checksum == 0,
            r@.previous == 0,
            !r@.checksum_match,
            r@.memory is None,
    {
        Self {
            card_state: CardState::Idle,
            flag_byte: 0x8,
            step: 0,
            finished_transferring: false,
            current_sector: 0,
            current_byte: 0,
            checksum: 0,
            previous: 0,
            checksum_match: false,
            memory_file: None,
        }
    }

    fn handle_get_id(&mut self) -> (r: u8)
        requires
            old(self)@.wf(),
            old(self).card_state == CardState::GetId,
        ensures
            (final(self)@, r) == old(self)@.replied(0),
    {
        let return_byte: u8 = match self.step {
            0 => 0x5a,
            1 => 0x5d,
            2 => 0x5c,
            3 => 0x5d,
            4 => 0x4,
            5 => 0x0,
            6 => 0x0,
            _ => 0x80,
        };
        if self.step == 7 {
            self.card_state = CardState::Idle;
            self.step = 0;
        } else {
            self.step += 1;
        }
        return_byte
    }

    fn handle_write_command(&mut self, command: u8) -> (r: u8)
        requires
            old(self)@.wf(),
            old(self)@.write_in_bounds(),
            old(self).card_state == CardState::Writing,
        ensures
            (final(self)@, r) == old(self)@.write_step(command),
    {
        let step = self.step;
        let return_byte: u8 = if step == 0 {
            self.flag_byte &= !0x8u8;
            0x5a
        } else if step == 1 {
            0x5d
        } else if step == 2 {
            self.previous = command;
            self.current_sector = (command as u16) << 8u16;
            self.checksum = command;
            0x0
        } else if step == 3 {
            let previous = self.previous;
            self.previous = command;
            self.current_sector |= command as u16;
            self.checksum ^= command;
            previous
        } else if step == 4 {
            let previous = self.previous;
            self.previous = command;
            self.checksum ^= command;
            let offset = SECTOR_SIZE * (self.current_sector as usize) + self.current_byte;
            match self.memory_file.take() {
                Some(mut memory) => {
                    memory.set(offset, command);
                    self.memory_file = Some(memory);
                },
                None => {},
            }
            self.current_byte += 1;
            if self.current_byte == SECTOR_SIZE {
                self.finished_transferring = true;
            }
            previous
        } else if step == 5 {
            self.checksum_match = self.checksum == command;
            self.checksum
        } else if step == 6 {
            0x5c
        } else if step == 7 {
            0x5d
        } else {
            if self.checksum_match {
                0x47
            } else {
                0x4e
            }
        };
        if step == 8 {
            self.card_state = CardState::Idle;
        } else if (step == 4 && self.finished_transferring) || step != 4 {
            self.step += 1;
        }
        return_byte
    }

    fn handle_read_command(&mut self, command: u8) -> (r: u8)
        requires
            old(self)@.wf(),
            old(self).card_state == CardState::Reading,
        ensures
            (final(self)@, r) == old(self)@.read_step(command),
    {
        let step = self.step;
        let return_byte: u8 = if step == 0 {
            0x5a
        } else if step == 1 {
            0x5d
        } else if step == 2 {
            self.current_sector = (command as u16) << 8u16;
            self.checksum = command;
            self.previous = command;
            0x0
        } else if step == 3 {
            self.current_sector |= command as u16;
            self.checksum ^= command;
            self.previous
        } else if step == 4 {
            0x5c
        } else if step == 5 {
            0x5d
        } else if step == 6 {
            (self.current_sector >> 8u16) as u8
        } else if step == 7 {
            let return_byte = self.current_sector as u8;
            if self.current_sector > 0x3ff {
                self.card_state = CardState::Idle;
            }
            return_byte
        } else if step == 8 {
            let offset = SECTOR_SIZE * (self.current_sector as usize) + self.current_byte;
            let data: u8 = match &self.memory_file {
                Some(memory) => memory[offset],
                None => 0xff,
            };
            self.current_byte += 1;
            if self.current_byte == SECTOR_SIZE {
                self.finished_transferring = true;
            }
            self.checksum ^= data;
            data
        } else if step == 9 {
            self.checksum
        } else {
            0x47
        };
        if step == 10 {
            self.card_state = CardState::Idle;
            self.step = 0;
        } else if (step == 8 && self.finished_transferring) || step != 8 {
            self.step += 1;
        }
        return_byte
    }

    /// Exchanges one byte with the card: answers `command` by the memory card protocol
    /// (read 52h, write 57h, get id 53h) and advances its state.
    pub fn reply(&mut self, command: u8) -> (r: u8)
        requires
            old(self)@.wf(),
            old(self)@.write_in_bounds(),
        ensures
            final(self)@.wf(),
            (final(self)@, r) == old(self)@.replied(command),
    {
        let mut reply: u8 = 0xff;
        match self.card_state {
            CardState::Idle => self.card_state = CardState::AwaitingCommand,
            CardState::AwaitingCommand => {
                reply = self.flag_byte;
                if command == 0x57 {
                    self.card_state = CardState::Writing;
                    self.step = 0;
                    self.checksum = 0;
                    self.previous = 0;
                    self.current_byte = 0;
                    self.current_sector = 0;
                    self.finished_transferring = false;
                    self.checksum_match = false;
                } else if command == 0x52 {
                    self.card_state = CardState::Reading;
                    self.step = 0;
                    self.checksum = 0;
                    self.previous = 0;
                    self.current_byte = 0;
                    self.current_sector = 0;
                    self.finished_transferring = false;
                } else if command == 0x53 {
                    self.card_state = CardState::GetId;
                    self.step = 0;
                } else {
                    self.card_state = CardState::Idle;
                }
            },
            CardState::GetId => {
                reply = self.handle_get_id();
            },
            CardState::Reading => {
                reply = self.handle_read_command(command);
            },
            CardState::Writing => {
                reply = self.handle_write_command(command);
            },
        }
        reply
    }

    /// Ends the current transfer.
    pub fn reset(&mut self)
        requires
            old(self)@.wf(),
        ensures
            final(self)@.wf(),
            final(self)@ == (CardView { card_state: CardState::Idle, step: 0, ..old(self)@ }),
    {
        self.card_state = CardState::Idle;
        self.step = 0;
    }

    /// Inserts a card with the given contents, or removes the card.
    pub fn set_memory_file(&mut self, memory_file: Option<Vec<u8>>)
        requires
            old(self)@.wf(),
            memory_file matches Some(m) ==> m@.len() == MEMORY_SIZE,
        ensures
            final(self)@.wf(),
            final(self)@ == (CardView {
                memory: match memory_file {
                    Some(m) => Some(m@),
                    None => None,
                },
                ..old(self)@
            }),
    {
        self.memory_file = memory_file;
    }

    /// Inserts a card with the given contents.
    pub fn set_memory_bytes(&mut self, memory_bytes: Vec<u8>)
        requires
            old(self)@.wf(),
            memory_bytes@.len() == MEMORY_SIZE,
        ensures
            final(self)@.wf(),
            final(self)@ == (CardView { memory: Some(memory_bytes@), ..old(self)@ }),
    {
        self.memory_file = Some(memory_bytes);
    }
}

} // verus!

verus! {

/// The card after it received the bytes of `commands` in order.
pub open spec fn fed(v: CardView, commands: Seq<u8>) -> CardView
    decreases commands.len(),
{
    if commands.len() == 0 {
        v
    } else {
        fed(v.replied(commands[0]).0, commands.drop_first())
    }
}

/// The card's answers to the bytes of `commands`, in order.
pub open spec fn answers(v: CardView, commands: Seq<u8>) -> Seq<u8>
    decreases commands.len(),
{
    if commands.len() == 0 {
        Seq::empty()
    } else {
        seq![v.replied(commands[0]).1] + answers(v.replied(commands[0]).0, commands.drop_first())
    }
}

/// Feeding `data` to a card that is taking in the data bytes of a write to sector `s` from
/// byte `k` on stores `data` from byte `k` of the sector and moves on to the checksum.
proof fn lemma_write_data(v: CardView, data: Seq<u8>)
    requires
        v.wf(),
        v.card_state == CardState::Writing,
        v.step == 4,
        !v.finished_transferring,
        v.current_sector <= 0x3ff,
        v.current_byte + data.len() == 128,
        data.len() > 0,
        v.memory is Some,
    ensures
        ({
            let w = fed(v, data);
            &&& w.card_state == CardState::Writing
            &&& w.step == 5
            &&& w.current_sector == v.current_sector
            &&& w.memory is Some
            &&& w.memory->0.len() == MEMORY_SIZE
            &&& forall|i: int|
                0 <= i < MEMORY_SIZE ==> #[trigger] w.memory->0[i] == if sector_offset(
                    v.current_sector,
                    v.current_byte,
                ) <= i < sector_offset(v.current_sector, 128) {
                    data[i - sector_offset(v.current_sector, v.current_byte)]
                } else {
                    v.memory->0[i]
                }
        }),
    decreases data.len(),
{
    let n = v.replied(data[0]).0;
    assert(data.drop_first().len() == data.len() - 1);
    if data.len() > 1 {
        lemma_write_data(n, data.drop_first());
    } else {
        assert(fed(n, data.drop_first()) == n);
    }
}

/// Feeding `commands` to a card that is sending out the data bytes of a read of sector `s`
/// from byte `k` on answers with the bytes of the sector from byte `k` on.
proof fn lemma_read_data(v: CardView, commands: Seq<u8>)
    requires
        v.wf(),
        v.card_state == CardState::Reading,
        v.step == 8,
        !v.finished_transferring,
        v.current_byte + commands.len() == 128,
        commands.len() > 0,
        v.memory is Some,
    ensures
        answers(v, commands) == v.memory->0.subrange(
            sector_offset(v.current_sector, v.current_byte),
            sector_offset(v.current_sector, 128),
        ),
        fed(v, commands).memory == v.memory,
        fed(v, commands).card_state == CardState::Reading,
        fed(v, commands).step == 9,
    decreases commands.len(),
{
    let n = v.replied(commands[0]).0;
    let off = sector_offset(v.current_sector, v.current_byte);
    assert(v.replied(commands[0]).1 == v.memory->0[off]);
    assert(commands.drop_first().len() == commands.len() - 1);
    if commands.len() > 1 {
        assert(n.current_byte == v.current_byte + 1 && n.step == 8 && !n.finished_transferring);
        lemma_read_data(n, commands.drop_first());
        assert(answers(v, commands) == seq![v.memory->0[off]] + answers(n, commands.drop_first()));
        assert(answers(v, commands) =~= v.memory->0.subrange(
            sector_offset(v.current_sector, v.current_byte),
            sector_offset(v.current_sector, 128),
        ));
    } else {
        assert(fed(n, commands.drop_first()) == n);
        assert(answers(v, commands) =~= v.memory->0.subrange(
            sector_offset(v.current_sector, v.current_byte),
            sector_offset(v.current_sector, 128),
        ));
    }
}

/// A write command's header (81h 57h, two bytes, the sector number) brings an idle card to
/// the first data byte of that sector.
proof fn lemma_write_header(v: CardView, hi: u8, lo: u8)
    requires
        v.wf(),
        v.card_state == CardState::Idle,
    ensures
        ({
            let u = fed(v, seq![0x81u8, 0x57u8, 0u8, 0u8, hi, lo]);
            &&& u.wf()
            &&& u.card_state == CardState::Writing
            &&& u.step == 4
            &&& u.current_byte == 0
            &&& !u.finished_transferring
            &&& u.current_sector == (((hi as u16) << 8u16) as u16 | (lo as u16))
            &&& u.memory == v.memory
        }),
{
    reveal_with_fuel(fed, 7);
}

/// A write command's trailer (checksum and three bytes) brings a card past the data back to
/// idle.
proof fn lemma_write_trailer(v: CardView, checksum: u8)
    requires
        v.wf(),
        v.card_state == CardState::Writing,
        v.step == 5,
    ensures
        ({
            let u = fed(v, seq![checksum, 0u8, 0u8, 0u8]);
            &&& u.wf()
            &&& u.card_state == CardState::Idle
            &&& u.memory == v.memory
        }),
{
    reveal_with_fuel(fed, 5);
}

/// A read command's header (81h 52h, two bytes, the sector number, four bytes) brings an
/// idle card to the first data byte of that sector, when the sector is on the card.
proof fn lemma_read_header(v: CardView, hi: u8, lo: u8, w: Seq<u8>)
    requires
        v.wf(),
        v.card_state == CardState::Idle,
        w.len() == 4,
        (((hi as u16) << 8u16) as u16 | (lo as u16)) <= 0x3ff,
    ensures
        ({
            let u = fed(v, seq![0x81u8, 0x52u8, 0u8, 0u8, hi, lo] + w);
            &&& u.wf()
            &&& u.card_state == CardState::Reading
            &&& u.step == 8
            &&& u.current_byte == 0
            &&& !u.finished_transferring
            &&& u.current_sector == (((hi as u16) << 8u16) as u16 | (lo as u16))
            &&& u.memory == v.memory
        }),
{
    let h = seq![0x81u8, 0x52u8, 0u8, 0u8, hi, lo];
    lemma_fed_append(v, h, w);
    assert({
        let u = fed(v, h);
        &&& u.wf()
        &&& u.card_state == CardState::Reading
        &&& u.step == 4
        &&& u.current_byte == 0
        &&& !u.finished_transferring
        &&& u.current_sector == (((hi as u16) << 8u16) as u16 | (lo as u16))
        &&& u.memory == v.memory
    }) by {
        reveal_with_fuel(fed, 7);
    }
    let u = fed(v, h);
    assert(fed(u, w) == u.replied(w[0]).0.replied(w[1]).0.replied(w[2]).0.replied(w[3]).0) by {
        reveal_with_fuel(fed, 5);
    }
}

/// A sector read gives back what a sector write stored: after an idle card with contents
/// receives a write command (81h 57h, two bytes, the sector number, 128 data bytes, the
/// checksum and three bytes) for a sector on the card, and then a read command (81h 52h, two
/// bytes, the sector number, four bytes) for the same sector, its next 128 answers are the
/// data that was written.
pub proof fn lemma_sector_read_after_write(
    v: CardView,
    sector: u16,
    data: Seq<u8>,
    checksum: u8,
    w: Seq<u8>,
    pad: Seq<u8>,
)
    requires
        v.wf(),
        v.card_state == CardState::Idle,
        v.memory is Some,
        sector <= 0x3ff,
        data.len() == 128,
        pad.len() == 128,
        w.len() == 4,
    ensures
        ({
            let hi = (sector >> 8u16) as u8;
            let lo = sector as u8;
            let write = seq![0x81u8, 0x57u8, 0u8, 0u8, hi, lo] + data + seq![checksum, 0u8, 0u8, 0u8];
            let after_write = fed(v, write);
            let reading = fed(after_write, seq![0x81u8, 0x52u8, 0u8, 0u8, hi, lo] + w);
            &&& after_write.card_state == CardState::Idle
            &&& reading.card_state == CardState::Reading
            &&& answers(reading, pad) == data
        }),
{
    let hi = (sector >> 8u16) as u8;
    let lo = sector as u8;
    assert((((hi as u16) << 8u16) as u16 | (lo as u16)) == sector) by (bit_vector)
        requires
            hi == (sector >> 8u16) as u8,
            lo == sector as u8,
    ;
    let header = seq![0x81u8, 0x57u8, 0u8, 0u8, hi, lo];
    let trailer = seq![checksum, 0u8, 0u8, 0u8];
    lemma_write_header(v, hi, lo);
    let v6 = fed(v, header);
    lemma_write_data(v6, data);
    let v7 = fed(v6, data);
    lemma_write_trailer(v7, checksum);
    lemma_fed_append(v, header, data);
    lemma_fed_append(v, header + data, trailer);
    let v11 = fed(v7, trailer);
    lemma_read_header(v11, hi, lo, w);
    let u = fed(v11, seq![0x81u8, 0x52u8, 0u8, 0u8, hi, lo] + w);
    lemma_read_data(u, pad);
    assert(v7.memory->0.subrange(sector_offset(sector, 0), sector_offset(sector, 128)) =~= data);
}

/// Feeding two runs of bytes is feeding the first, then the second.
proof fn lemma_fed_append(v: CardView, a: Seq<u8>, b: Seq<u8>)
    ensures
        fed(v, a + b) == fed(fed(v, a), b),
    decreases a.len(),
{
    if a.len() > 0 {
        assert((a + b).drop_first() =~= a.drop_first() + b);
        lemma_fed_append(v.replied(a[0]).0, a.drop_first(), b);
    } else {
        assert(a + b =~= b);
    }
}

} // verus!
