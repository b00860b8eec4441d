pub mod cue;
pub mod registers;

use vstd::prelude::*;
use std::collections::VecDeque;
use crate::bits::lemma_and_le;
use registers::HntmaskRegister;
use super::registers::interrupt_register::InterruptRegister;
use super::scheduler::{EventType, Scheduler, event_code};
use super::spu::voice::{NEG_FILTER_TABLE, POS_FILTER_TABLE};
use super::mdec::divide_toward_zero;
use crate::cpu::instructions::trunc_div;

verus! {

/// The number of bytes in a raw CD sector.
pub const BYTES_PER_SECTOR: usize = 2352;

/// The data mode a sector header declares.
#[derive(Copy, Clone, PartialEq, Eq, Structural)]
pub enum CDMode {
    NoMode,
    Mode1,
    Mode2,
}

pub open spec fn spec_cd_mode(byte: u8) -> CDMode {
    if byte == 1 {
        CDMode::Mode1
    } else if byte == 2 {
        CDMode::Mode2
    } else {
        CDMode::NoMode
    }
}

impl CDMode {
    pub fn from(byte: u8) -> (r: Self)
        ensures
            r == spec_cd_mode(byte),
    {
        match byte {
            1 => CDMode::Mode1,
            2 => CDMode::Mode2,
            _ => CDMode::NoMode,
        }
    }
}

/// What kind of data a Mode 2 sector carries.
#[derive(Copy, Clone, PartialEq, Eq, Structural)]
pub enum CDReadMode {
    Video,
    Audio,
    Data,
}

#[derive(Copy, Clone, PartialEq, Eq, Structural)]
pub enum Mode2Form {
    Form1,
    Form2,
}

#[derive(Copy, Clone, PartialEq, Eq, Structural)]
pub enum SpeakerOutput {
    Mono,
    Stereo,
}

#[derive(Copy, Clone, PartialEq, Eq, Structural)]
pub enum BitsPerSample {
    FourBits,
    EightBits,
}

/// The XA-ADPCM coding information byte of a subheader.
#[derive(Copy, Clone, PartialEq, Eq, Structural)]
pub struct CodingInfo {
    pub speaker_output: SpeakerOutput,
    pub sample_rate: usize,
    pub bits_per_sample: BitsPerSample,
    pub emphasis: bool,
}

/// Whether a coding information byte uses only defined values: mono or stereo, 37800 or
/// 18900 Hz, 4 or 8 bits per sample.
pub open spec fn coding_info_valid(byte: u8) -> bool {
    &&& byte & 3 <= 1
    &&& (byte >> 2) & 3 <= 1
    &&& (byte >> 4) & 3 <= 1
}

pub open spec fn spec_coding_info(byte: u8) -> CodingInfo {
    CodingInfo {
        speaker_output: if byte & 3 == 0 { SpeakerOutput::Mono } else { SpeakerOutput::Stereo },
        sample_rate: if (byte >> 2) & 3 == 0 { 37800 } else { 18900 },
        bits_per_sample: if (byte >> 4) & 3 == 0 { BitsPerSample::FourBits } else { BitsPerSample::EightBits },
        emphasis: (byte >> 6) & 1 == 1,
    }
}

impl CodingInfo {
    pub fn new(byte: u8) -> (r: Self)
        requires
            coding_info_valid(byte),
        ensures
            r == spec_coding_info(byte),
    {
        Self {
            speaker_output: if byte & 0x3 == 0 { SpeakerOutput::Mono } else { SpeakerOutput::Stereo },
            sample_rate: if (byte >> 2) & 0x3 == 0 { 37800 } else { 18900 },
            bits_per_sample: if (byte >> 4) & 0x3 == 0 { BitsPerSample::FourBits } else { BitsPerSample::EightBits },
            emphasis: (byte >> 6) & 1 == 1,
        }
    }
}

/// The subheader of a Mode 2 sector.
#[derive(Copy, Clone, PartialEq, Eq, Structural)]
pub struct CDSubheader {
    pub file_num: u8,
    pub channel_num: u8,
    pub read_mode: CDReadMode,
    pub form: Mode2Form,
    pub realtime: bool,
    pub coding_info: CodingInfo,
}

/// Whether the submode byte names a sector kind: video, audio, data, or none of the three
/// with the end-of-record bit clear.
pub open spec fn submode_valid(submode: u8) -> bool {
    (submode >> 1) & 1 == 1 || (submode >> 2) & 1 == 1 || (submode >> 3) & 1 == 1 || submode & 1 == 0
}

pub open spec fn spec_read_mode(submode: u8) -> CDReadMode {
    if (submode >> 1) & 1 == 1 {
        CDReadMode::Video
    } else if (submode >> 2) & 1 == 1 {
        CDReadMode::Audio
    } else {
        CDReadMode::Data
    }
}

/// Whether `bytes` holds a subheader that `from_buf` takes.
pub open spec fn subheader_valid(bytes: Seq<u8>) -> bool {
    bytes.len() >= 4 && submode_valid(bytes[2]) && coding_info_valid(bytes[3])
}

pub open spec fn spec_subheader(bytes: Seq<u8>) -> CDSubheader {
    CDSubheader {
        file_num: bytes[0],
        channel_num: bytes[1] & 0xf,
        read_mode: spec_read_mode(bytes[2]),
        form: if bytes[2] >> 5 == 0 { Mode2Form::Form1 } else { Mode2Form::Form2 },
        realtime: (bytes[2] >> 6) & 1 == 1,
        coding_info: spec_coding_info(bytes[3]),
    }
}

impl CDSubheader {
    /// Parses the four subheader bytes: file, channel, submode, coding information.
    pub fn from_buf(bytes: &[u8]) -> (r: CDSubheader)
        requires
            subheader_valid(bytes@),
        ensures
            r == spec_subheader(bytes@),
    {
        let file_num = bytes[0];
        let channel_num = bytes[1] & 0xf;
        let submode = bytes[2];
        let read_mode = if (submode >> 1) & 1 == 1 {
            CDReadMode::Video
        } else if (submode >> 2) & 1 == 1 {
            CDReadMode::Audio
        } else {
            CDReadMode::Data
        };
        let form = if (submode >> 5) == 0 { Mode2Form::Form1 } else { Mode2Form::Form2 };
        let realtime = (submode >> 6) & 1 == 1;
        Self { file_num, channel_num, read_mode, form, coding_info: CodingInfo::new(bytes[3]), realtime }
    }

    /// File and channel 0, a Form 1 data sector, mono 4-bit 37800 Hz coding.
    pub fn new() -> (r: Self)
        ensures
            r == (CDSubheader {
                file_num: 0,
                channel_num: 0,
                read_mode: CDReadMode::Data,
                form: Mode2Form::Form1,
                realtime: false,
                coding_info: CodingInfo {
                    speaker_output: SpeakerOutput::Mono,
                    sample_rate: 37800,
                    bits_per_sample: BitsPerSample::FourBits,
                    emphasis: false,
                },
            }),
    {
        assert(0u8 & 3 == 0 && (0u8 >> 2u8) & 3 == 0 && (0u8 >> 4u8) & 3 == 0 && (0u8 >> 6u8) & 1 == 0)
            by (bit_vector);
        Self {
            file_num: 0,
            channel_num: 0,
            read_mode: CDReadMode::Data,
            form: Mode2Form::Form1,
            coding_info: CodingInfo::new(0),
            realtime: false,
        }
    }
}

/// The value of a binary-coded decimal byte.
pub open spec fn spec_bcd_to_u8(value: u8) -> u8 {
    ((value >> 4) * 10 + (value & 0xf)) as u8
}

/// The binary-coded decimal form of `value` (only meaningful below 100).
pub open spec fn spec_u8_to_bcd(value: u8) -> u8 {
    (((value / 10) as u8) << 4u8) | (value % 10)
}

/// The address fields of a sector header.
#[derive(Copy, Clone, PartialEq, Eq, Structural)]
pub struct CDHeader {
    pub mm: u8,
    pub ss: u8,
    pub sect: u8,
    pub mode: CDMode,
}

impl CDHeader {
    pub fn new() -> (r: Self)
        ensures
            r == (CDHeader { mm: 0, ss: 0, sect: 0, mode: CDMode::NoMode }),
    {
        Self { ss: 0, sect: 0, mm: 0, mode: CDMode::NoMode }
    }

    /// Parses a header: minute, second and sector in BCD, then the mode byte.
    pub fn from_buf(buf: &[u8]) -> (r: CDHeader)
        requires
            buf@.len() >= 4,
        ensures
            r == (CDHeader {
                mm: spec_bcd_to_u8(buf@[0]),
                ss: spec_bcd_to_u8(buf@[1]),
                sect: spec_bcd_to_u8(buf@[2]),
                mode: spec_cd_mode(buf@[3]),
            }),
    {
        let mm = bcd_to_u8(buf[0]);
        let ss = bcd_to_u8(buf[1]);
        let sect = bcd_to_u8(buf[2]);
        let mode = CDMode::from(buf[3]);
        Self { mm, ss, sect, mode }
    }
}

/// An absolute disc position: minute, second, sector.
#[derive(Copy, Clone, PartialEq, Eq, Structural)]
pub struct Msf {
    pub ass: u8,
    pub asect: u8,
    pub amm: u8,
}

impl Msf {
    pub fn new() -> (r: Self)
        ensures
            r == (Msf { ass: 0, asect: 0, amm: 0 }),
    {
        Self { ass: 0, amm: 0, asect: 0 }
    }

    /// The sector number of this position, counted from the start of the disc image (which
    /// begins two seconds in).
    pub open spec fn spec_sector(&self) -> int {
        (self.amm * 60 + self.ass) * 75 + self.asect - 150
    }

    /// The byte offset of this position in the disc image.
    pub fn get_pointer(&self) -> (r: usize)
        requires
            self.spec_sector() >= 0,
            self.spec_sector() * BYTES_PER_SECTOR <= usize::MAX,
        ensures
            r == self.spec_sector() * BYTES_PER_SECTOR,
    {
        let mm = self.amm as usize;
        let ss = self.ass as usize;
        let sect = self.asect as usize;
        ((mm * 60 + ss) * 75 + sect - 150) * BYTES_PER_SECTOR
    }
}

pub fn bcd_to_u8(value: u8) -> (r: u8)
    ensures
        r == spec_bcd_to_u8(value),
{
    proof {
        lemma_and_le(value as u32, 0xf);
        assert((value >> 4) <= 15) by (bit_vector);
    }
    ((value >> 4) * 10) + (value & 0xf)
}

pub fn u8_to_bcd(value: u8) -> (r: u8)
    ensures
        r == spec_u8_to_bcd(value),
{
    ((value / 10) << 4) | (value % 10)
}

/// Converting a number below 100 to binary-coded decimal and back gives the number.
pub proof fn lemma_bcd_roundtrip(value: u8)
    requires
        value < 100,
    ensures
        spec_bcd_to_u8(spec_u8_to_bcd(value)) == value,
{
    let t = (value / 10) as u8;
    let o = (value % 10) as u8;
    assert(t < 10 && o < 10);
    assert(((t << 4u8) | o) >> 4u8 == t && ((t << 4u8) | o) & 0xf == o) by (bit_vector)
        requires t < 10, o < 10;
}

/// A binary-coded decimal byte converted to a number and back gives the byte.
pub proof fn lemma_bcd_inverse(b: u8)
    requires
        b >> 4 <= 9,
        b & 0xf <= 9,
    ensures
        spec_u8_to_bcd(spec_bcd_to_u8(b)) == b,
{
    let t = b >> 4;
    let o = b & 0xf;
    assert(b == (t << 4u8) | o) by (bit_vector)
        requires t == b >> 4u8, o == b & 0xf;
    assert(((t << 4u8) | o) >> 4u8 == t && ((t << 4u8) | o) & 0xf == o) by (bit_vector)
        requires t <= 9, o <= 9;
}

} // verus!

verus! {

/// The cycles between two ticks of the drive.
pub const CDROM_CYCLES: usize = 768;

/// The CPU cycles of one sector at single speed.
pub const CD_READ_CYCLES: usize = 451584;

/// The seven 29-tap filters that resample XA audio from 37.8 kHz to 44.1 kHz, row by row.
pub const ZIGZAG_TABLE: [i32; 203] = [
    0, 0x0, 0x0, 0x0, 0x0, -0x0002, 0x000A, -0x0022, 0x0041, -0x0054,
    0x0034, 0x0009, -0x010A, 0x0400, -0x0A78, 0x234C, 0x6794, -0x1780, 0x0BCD, -0x0623,
    0x0350, -0x016D, 0x006B, 0x000A, -0x0010, 0x0011, -0x0008, 0x0003, -0x0001, 0,
    0x0, 0x0, -0x0002, 0x0, 0x0003, -0x0013, 0x003C, -0x004B, 0x00A2, -0x00E3,
    0x0132, -0x0043, -0x0267, 0x0C9D, 0x74BB, -0x11B4, 0x09B8, -0x05BF, 0x0372, -0x01A8,
    0x00A6, -0x001B, 0x0005, 0x0006, -0x0008, 0x0003, -0x0001, 0x0, 0, 0x0,
    -0x0001, 0x0003, -0x0002, -0x0005, 0x001F, -0x004A, 0x00B3, -0x0192, 0x02B1, -0x039E,
    0x04F8, -0x05A6, 0x7939, -0x05A6, 0x04F8, -0x039E, 0x02B1, -0x0192, 0x00B3, -0x004A,
    0x001F, -0x0005, -0x0002, 0x0003, -0x0001, 0x0, 0x0, 0, -0x0001, 0x0003,
    -0x0008, 0x0006, 0x0005, -0x001B, 0x00A6, -0x01A8, 0x0372, -0x05BF, 0x09B8, -0x11B4,
    0x74BB, 0x0C9D, -0x0267, -0x0043, 0x0132, -0x00E3, 0x00A2, -0x004B, 0x003C, -0x0013,
    0x0003, 0x0, -0x0002, 0x0, 0x0, 0x0, -0x0001, 0x0003, -0x0008, 0x0011,
    -0x0010, 0x000A, 0x006B, -0x016D, 0x0350, -0x0623, 0x0BCD, -0x1780, 0x6794, 0x234C,
    -0x0A78, 0x0400, -0x010A, 0x0009, 0x0034, -0x0054, 0x0041, -0x0022, 0x000A, -0x0001,
    0x0, 0x0001, 0x0, 0x0, 0x0, 0x0002, -0x0008, 0x0010, -0x0023, 0x002B,
    0x001A, -0x00EB, 0x027B, -0x0548, 0x0AFA, -0x16FA, 0x53E0, 0x3C07, -0x1249, 0x080E,
    -0x0347, 0x015B, -0x0044, -0x0017, 0x0046, -0x0023, 0x0011, -0x0005, 0x0, 0x0,
    0x0, 0x0, 0x0, 0x0, -0x0005, 0x0011, -0x0023, 0x0046, -0x0017, -0x0044,
    0x015B, -0x0347, 0x080E, -0x1249, 0x3C07, 0x53E0, -0x16FA, 0x0AFA, -0x0548, 0x027B,
    -0x00EB, 0x001A, 0x002B, -0x0023, 0x0010, -0x0008, 0x0002, 0x0, 0x0, 0x0,
    0x0, 0x0, 0x0,
];

/// A track of a cue sheet: its file, number, index points and kind.
pub struct Track {
    pub file_index: usize,
    pub track_num: usize,
    pub indexes: Vec<TrackIndex>,
    pub is_audio: bool,
}

/// An index point of a track.
pub struct TrackIndex {
    pub index_num: usize,
    pub msf: Msf,
}

/// What the controller (the HC05 microcontroller) is doing.
#[derive(Copy, Clone, PartialEq, Eq, Structural, Debug)]
pub enum ControllerMode {
    Idle,
    TransferParams,
    TransferCommand,
    ExecuteCommand,
    ClearResponseFifo,
    TransferResponse,
    LatchInterrupts,
}

/// What the drive mechanism is doing.
#[derive(Copy, Clone, PartialEq, Eq, Structural, Debug)]
pub enum DriveMode {
    Idle,
    Seek,
    Read,
    Play,
    Stat,
}

/// The second response a command still owes.
#[derive(Copy, Clone, PartialEq, Eq, Structural, Debug)]
pub enum SubresponseMode {
    Disabled,
    GetId,
    GetStat,
}

/// The position reported by GetlocP.
#[derive(Copy, Clone, PartialEq, Eq, Structural, Debug)]
pub struct SubchannelQ {
    pub track: u8,
    pub index: u8,
    pub mm: u8,
    pub ss: u8,
    pub sect: u8,
    pub amm: u8,
    pub ass: u8,
    pub asect: u8,
}

impl SubchannelQ {
    pub fn new() -> (r: Self)
        ensures
            r == (SubchannelQ { track: 0, index: 0, mm: 0, ss: 0, sect: 0, amm: 0, ass: 0, asect: 0 }),
    {
        Self { track: 0, index: 0, mm: 0, ss: 0, sect: 0, amm: 0, ass: 0, asect: 0 }
    }
}

/// Where the drive stopped where the hardware would have failed: what the controller was
/// asked, or what it read, is outside what it handles.
#[derive(Copy, Clone, PartialEq, Eq, Structural, Debug)]
pub enum CdFault {
    /// A command byte the controller does not know.
    UnknownCommand(u8),
    /// A sector subheader with an undefined sector kind or coding.
    BadSubheader,
    /// A test subcommand (19h) the controller does not know.
    UnknownSubcommand(u8),
    /// A command was sent without its parameters.
    MissingParameter,
    /// A sector was to be read with no disc image loaded.
    NoGameData,
    /// The sector lies outside the disc image or before its start.
    SectorOutOfRange,
    /// The sector header is not a Mode 2 header.
    NotMode2,
    /// The sector header names another position than the one being read.
    PositionMismatch,
    /// An XA audio sector with 8-bit samples.
    EightBitAudio,
    /// CD audio playback.
    PlayUnsupported,
}

/// The CD-ROM controller and drive: the host interface registers, the command processor
/// and its response FIFOs, the drive's seek and read state, and the XA-ADPCM decoder.
pub struct CDRom {
    pub hntmask: HntmaskRegister,
    pub bank: usize,
    pub parameter_fifo: VecDeque<u8>,
    pub controller_param_fifo: VecDeque<u8>,
    pub controller_response_fifo: VecDeque<u8>,
    pub result_fifo: VecDeque<u8>,
    pub irq_latch: u8,
    pub irqs: u8,
    pub controller_mode: ControllerMode,
    pub drive_mode: DriveMode,
    pub subresponse_mode: SubresponseMode,
    pub command_latch: Option<u8>,
    pub command: u8,
    pub is_playing: bool,
    pub is_seeking: bool,
    pub is_reading: bool,
    pub motor_on: bool,
    pub shell_open: bool,
    pub current_msf: Msf,
    pub msf: Msf,
    pub next_mode: Option<DriveMode>,
    pub double_speed: bool,
    pub send_to_spu: bool,
    pub sector_size: usize,
    pub report_interrupts: bool,
    pub xa_filter: bool,
    pub game_bytes: Option<Vec<u8>>,
    pub current_header: CDHeader,
    pub subheader: CDSubheader,
    pub output_buffer: Vec<u8>,
    pub buffer_index: usize,
    pub pre_seek: bool,
    pub pending_stat: Option<u8>,
    pub left_samples: Vec<i16>,
    pub right_samples: Vec<i16>,
    pub left_ringbuffer: [i16; 32],
    pub right_ringbuffer: [i16; 32],
    pub old_samples: [i16; 2],
    pub older_samples: [i16; 2],
    pub sixstep: usize,
    pub filter_file: u8,
    pub filter_channel: u8,
    pub drive_cycles: usize,
    pub controller_cycles: usize,
    pub subresponse_cycles: usize,
    pub subchannel_q: SubchannelQ,
    pub bin_files: Vec<Vec<u8>>,
    pub tracks: Vec<Track>,
}

/// The status byte: bit 0 error (shell open), 1 motor on, 4 shell open, 5 reading,
/// 6 seeking, 7 playing.
pub open spec fn stat_byte(c: &CDRom) -> u8 {
    ((c.motor_on as u8) << 1u8) | (if c.shell_open { 1u8 } else { 0u8 }) | ((c.shell_open as u8) << 4u8)
        | ((c.is_reading as u8) << 5u8) | ((c.is_seeking as u8) << 6u8) | ((c.is_playing as u8) << 7u8)
}

/// The host status register (1F801800h): bank, parameter FIFO empty and not full, result
/// FIFO not empty, data waiting, controller busy.
pub open spec fn hsts_byte(c: &CDRom) -> u8 {
    (c.bank as u8) | ((c.parameter_fifo@.len() == 0) as u8) << 3u8 | ((c.parameter_fifo@.len() < 16) as u8)
        << 4u8 | ((c.result_fifo@.len() > 0) as u8) << 5u8 | ((c.buffer_index < c.sector_size) as u8) << 6u8
        | ((c.controller_mode != ControllerMode::Idle) as u8) << 7u8
}

/// The byte offset of the data within a raw sector: after the sync and header, and after
/// the subheader too unless whole sectors (924h bytes) are read.
pub open spec fn data_offset(sector_size: usize) -> int {
    if sector_size == 0x924 { 0xc } else { 0x18 }
}

/// The drive cycles of one sector: 44100 / 75, or 44100 / 150 at double speed.
pub open spec fn sector_cycles(double_speed: bool) -> usize {
    if double_speed { 294 } else { 588 }
}

/// The cycles a seek takes.
pub open spec fn seek_cycles(double_speed: bool) -> usize {
    if double_speed { 14 } else { 28 }
}

impl CDRom {
    /// The invariant: the sector buffer has room for a raw sector, the sector size is one of
    /// the two the mode selects, the resampler's phase is in range, a command is latched
    /// while it is being transferred, the bank is one of four.
    pub open spec fn wf(&self) -> bool {
        &&& self.output_buffer@.len() == 0x930
        &&& self.sector_size == 0x800 || self.sector_size == 0x924
        &&& 1 <= self.sixstep <= 6
        &&& self.bank < 4
        &&& self.left_samples@.len() == 0 && self.right_samples@.len() == 0
        &&& (self.controller_mode == ControllerMode::TransferParams || self.controller_mode
            == ControllerMode::TransferCommand) ==> self.command_latch is Some
    }

    /// A drive with no disc loaded, motor on, everything idle, the drive tick scheduled.
    pub fn new(scheduler: &mut Scheduler) -> (r: Self)
        requires
            old(scheduler).wf(),
            old(scheduler).cycles + CDROM_CYCLES <= usize::MAX,
        ensures
            r.wf(),
            final(scheduler).wf(),
            final(scheduler).cycles == old(scheduler).cycles,
            final(scheduler).events() == old(scheduler).events().insert(
                event_code(EventType::TickCDRom),
                (old(scheduler).cycles + CDROM_CYCLES) as usize,
            ),
            r.controller_mode == ControllerMode::Idle,
            r.drive_mode == DriveMode::Idle,
            r.subresponse_mode == SubresponseMode::Disabled,
            r.motor_on && !r.shell_open && !r.is_reading && !r.is_seeking && !r.is_playing,
            r.sector_size == 0x800,
            r.bank == 0,
            r.irqs == 0,
            r.command_latch is None,
            r.game_bytes is None,
            r.parameter_fifo@.len() == 0 && r.result_fifo@.len() == 0,
            r.buffer_index == 0,
    {
        scheduler.schedule(EventType::TickCDRom, CDROM_CYCLES);
        Self {
            hntmask: HntmaskRegister::from_bits_retain(0),
            bank: 0,
            parameter_fifo: VecDeque::new(),
            result_fifo: VecDeque::new(),
            irq_latch: 0,
            controller_mode: ControllerMode::Idle,
            drive_mode: DriveMode::Idle,
            subresponse_mode: SubresponseMode::Disabled,
            irqs: 0,
            controller_param_fifo: VecDeque::new(),
            command: 0,
            command_latch: None,
            controller_response_fifo: VecDeque::new(),
            is_playing: false,
            is_reading: false,
            is_seeking: false,
            motor_on: true,
            shell_open: false,
            current_msf: Msf::new(),
            msf: Msf::new(),
            next_mode: None,
            double_speed: false,
            xa_filter: false,
            send_to_spu: false,
            sector_size: 0x800,
            report_interrupts: false,
            game_bytes: None,
            current_header: CDHeader::new(),
            subheader: CDSubheader::new(),
            buffer_index: 0,
            output_buffer: vec![0u8; 0x930],
            pre_seek: false,
            pending_stat: None,
            left_samples: Vec::new(),
            right_samples: Vec::new(),
            old_samples: [0; 2],
            older_samples: [0; 2],
            sixstep: 6,
            filter_file: 0,
            filter_channel: 0,
            drive_cycles: 1,
            controller_cycles: 1,
            subresponse_cycles: 1,
            left_ringbuffer: [0; 32],
            right_ringbuffer: [0; 32],
            subchannel_q: SubchannelQ::new(),
            bin_files: Vec::new(),
            tracks: Vec::new(),
        }
    }

    /// Loads a disc image.
    pub fn load_game_web(&mut self, game_bytes: Vec<u8>)
        ensures
            final(self).game_bytes == Some(game_bytes),
            *final(self) == (CDRom { game_bytes: Some(game_bytes), ..*old(self) }),
    {
        self.game_bytes = Some(game_bytes);
    }

    /// What `transfer_response` does: `new` (and the other outputs) from `self`.
    pub open spec fn transfer_response_done(self, new: CDRom) -> bool {
        &&& self.result_fifo@.len() < 16 && self.controller_response_fifo@.len() > 0 ==> {
            &&& new.result_fifo@ == self.result_fifo@.push(self.controller_response_fifo@[0])
            &&& new.controller_response_fifo@ == self.controller_response_fifo@.drop_first()
            &&& new.controller_mode == ControllerMode::TransferResponse
        }
        &&& !(self.result_fifo@.len() < 16 && self.controller_response_fifo@.len() > 0) ==> {
            &&& new.result_fifo@ == self.result_fifo@
            &&& new.controller_response_fifo@ == self.controller_response_fifo@
            &&& new.controller_mode == ControllerMode::LatchInterrupts
        }
        &&& new.controller_cycles == self.controller_cycles.wrapping_add(10)
        &&& new == (CDRom {
            result_fifo: new.result_fifo,
            controller_response_fifo: new.controller_response_fifo,
            controller_mode: new.controller_mode,
            controller_cycles: new.controller_cycles,
            ..self
        })
    }

    /// Moves one response byte to the result FIFO while it has room, else goes on to latch
    /// the interrupt.
    #[verifier::rlimit(40)]
    fn transfer_response(&mut self)
        requires
            old(self).wf(),
        ensures
            final(self).wf(),
            old(self).transfer_response_done(*final(self)),
    {
        if self.result_fifo.len() < 16 && self.controller_response_fifo.len() > 0 {
            let value = match self.controller_response_fifo.pop_front() {
                Some(v) => v,
                None => 0,
            };
            self.result_fifo.push_back(value);
            self.controller_mode = ControllerMode::TransferResponse;
        } else {
            self.controller_mode = ControllerMode::LatchInterrupts;
        }
        self.controller_cycles = self.controller_cycles.wrapping_add(10);
    }

    /// The interrupt flag register: the pending interrupts with bits 5..7 set.
    fn read_hintsts(&self) -> (r: u8)
        ensures
            r == self.irqs | 0xe0,
    {
        self.irqs | 0xe0
    }

    /// The next result byte, or 0 when none is waiting.
    fn read_response(&mut self) -> (r: u8)
        ensures
            old(self).result_fifo@.len() > 0 ==> r == old(self).result_fifo@[0]
                && final(self).result_fifo@ == old(self).result_fifo@.drop_first(),
            old(self).result_fifo@.len() == 0 ==> r == 0 && final(self).result_fifo@ == old(self).result_fifo@,
            *final(self) == (CDRom { result_fifo: final(self).result_fifo, ..*old(self) }),
    {
        match self.result_fifo.pop_front() {
            Some(v) => v,
            None => 0,
        }
    }

    /// Whether the data buffer has been read out.
    pub fn output_buffer_empty(&self) -> (r: bool)
        ensures
            r == (self.buffer_index >= self.sector_size),
    {
        self.buffer_index >= self.sector_size
    }

    /// The next byte of the sector's data.
    fn read_data_buffer_byte(&mut self) -> (r: u8)
        requires
            old(self).wf(),
            old(self).buffer_index < old(self).sector_size,
        ensures
            final(self).wf(),
            r == old(self).output_buffer@[old(self).buffer_index + data_offset(old(self).sector_size)],
            *final(self) == (CDRom { buffer_index: (old(self).buffer_index + 1) as usize, ..*old(self) }),
    {
        let offset: usize = if self.sector_size == 0x924 { 0xc } else { 0x18 };
        let value = self.output_buffer[self.buffer_index + offset];
        self.buffer_index += 1;
        value
    }

    /// The next four bytes of the sector's data as a little-endian word.
    pub fn read_data_buffer(&mut self) -> (r: u32)
        requires
            old(self).wf(),
            old(self).buffer_index + 4 <= old(self).sector_size,
        ensures
            final(self).wf(),
            ({
                let d = |i: int| old(self).output_buffer@[old(self).buffer_index + data_offset(old(self).sector_size) + i] as u32;
                r == (d(0) | d(1) << 8u32 | d(2) << 16u32 | d(3) << 24u32)
            }),
            *final(self) == (CDRom { buffer_index: (old(self).buffer_index + 4) as usize, ..*old(self) }),
    {
        let b0 = self.read_data_buffer_byte() as u32;
        let b1 = self.read_data_buffer_byte() as u32;
        let b2 = self.read_data_buffer_byte() as u32;
        let b3 = self.read_data_buffer_byte() as u32;
        b0 | b1 << 8u32 | b2 << 16u32 | b3 << 24u32
    }

    fn read_hsts(&self) -> (r: u8)
        requires
            self.wf(),
        ensures
            r == hsts_byte(self),
    {
        (self.bank as u8) | ((self.parameter_fifo.len() == 0) as u8) << 3u8 | ((self.parameter_fifo.len()
            < 16) as u8) << 4u8 | ((self.result_fifo.len() > 0) as u8) << 5u8 | ((self.buffer_index
            < self.sector_size) as u8) << 6u8 | ((self.controller_mode != ControllerMode::Idle) as u8)
            << 7u8
    }

    /// Reads a host register: status (1F801800h), result (1801h), data (1802h), and at
    /// 1803h the interrupt mask (banks 0 and 2) or flags (banks 1 and 3).
    pub fn read(&mut self, address: usize) -> (r: u8)
        requires
            old(self).wf(),
            0x1f801800 <= address <= 0x1f801803,
            address == 0x1f801802 ==> old(self).buffer_index < old(self).sector_size,
        ensures
            final(self).wf(),
            address == 0x1f801800 ==> r == hsts_byte(&*old(self)) && *final(self) == *old(self),
            address == 0x1f801801 ==> (old(self).result_fifo@.len() > 0 ==> r == old(self).result_fifo@[0]
                && final(self).result_fifo@ == old(self).result_fifo@.drop_first()) && (old(self).result_fifo@.len()
                == 0 ==> r == 0) && *final(self) == (CDRom { result_fifo: final(self).result_fifo, ..*old(self) }),
            address == 0x1f801802 ==> r == old(self).output_buffer@[old(self).buffer_index + data_offset(old(self).sector_size)]
                && *final(self) == (CDRom { buffer_index: (old(self).buffer_index + 1) as usize, ..*old(self) }),
            address == 0x1f801803 ==> *final(self) == *old(self) && r == (if old(self).bank == 0 || old(self).bank == 2 {
                old(self).hntmask.bits
            } else {
                old(self).irqs | 0xe0
            }),
    {
        if address == 0x1f801800 {
            self.read_hsts()
        } else if address == 0x1f801801 {
            self.read_response()
        } else if address == 0x1f801802 {
            self.read_data_buffer_byte()
        } else if self.bank == 0 || self.bank == 2 {
            self.hntmask.bits()
        } else {
            self.read_hintsts()
        }
    }

    /// Queues the status byte as a response.
    fn stat(&mut self)
        ensures
            final(self).controller_response_fifo@ == old(self).controller_response_fifo@.push(stat_byte(&*old(self))),
            *final(self) == (CDRom { controller_response_fifo: final(self).controller_response_fifo, ..*old(self) }),
    {
        let val: u8 = ((self.motor_on as u8) << 1u8) | (if self.shell_open { 1u8 } else { 0u8 }) | ((
        self.shell_open as u8) << 4u8) | ((self.is_reading as u8) << 5u8) | ((self.is_seeking as u8)
            << 6u8) | ((self.is_playing as u8) << 7u8);
        self.controller_response_fifo.push_back(val);
    }

    /// Raises the CD-ROM interrupt when a pending interrupt is enabled.
    fn process_irqs(&self, interrupt_register: &mut InterruptRegister)
        ensures
            final(interrupt_register).bits == (if self.irqs & (self.hntmask.bits & 0x1f) != 0 {
                old(interrupt_register).bits | InterruptRegister::CDROM
            } else {
                old(interrupt_register).bits
            }),
    {
        if self.irqs & self.hntmask.enable_irq() != 0 {
            interrupt_register.insert(InterruptRegister::CDROM);
        }
    }

    /// Opens the lid: the drive stops, the FIFOs empty, the disc is gone, and an error
    /// response (status, 08h) with interrupt 5 is delivered.
    pub fn open_shell(&mut self, interrupt_register: &mut InterruptRegister)
        requires
            old(self).wf(),
        ensures
            final(self).wf(),
            final(self).shell_open,
            !final(self).is_playing && !final(self).is_reading && !final(self).is_seeking,
            final(self).drive_mode == DriveMode::Idle,
            final(self).controller_mode == ControllerMode::Idle,
            final(self).subresponse_mode == SubresponseMode::Disabled,
            final(self).parameter_fifo@.len() == 0,
            final(self).controller_param_fifo@.len() == 0,
            final(self).result_fifo@.len() == 0,
            final(self).controller_response_fifo@ == seq![stat_byte(&*final(self)), 0x08u8],
            final(self).game_bytes is None,
            final(self).bin_files@.len() == 0,
            final(self).tracks@.len() == 0,
            final(self).irq_latch == 0,
            final(self).irqs == 5,
            final(interrupt_register).bits == (if 5 & (old(self).hntmask.bits & 0x1f) != 0 {
                old(interrupt_register).bits | InterruptRegister::CDROM
            } else {
                old(interrupt_register).bits
            }),
    {
        self.shell_open = true;
        self.is_playing = false;
        self.is_reading = false;
        self.is_seeking = false;
        self.drive_mode = DriveMode::Idle;
        self.controller_mode = ControllerMode::Idle;
        self.subresponse_mode = SubresponseMode::Disabled;
        self.parameter_fifo.clear();
        self.controller_param_fifo.clear();
        self.controller_response_fifo.clear();
        self.result_fifo.clear();
        self.game_bytes = None;
        self.bin_files = Vec::new();
        self.tracks = Vec::new();
        self.stat();
        self.controller_response_fifo.push_back(0x08);
        self.irq_latch = 0;
        self.irqs = 0x5;
        self.process_irqs(interrupt_register);
    }

    /// Closes the lid.
    pub fn close_shell(&mut self)
        ensures
            *final(self) == (CDRom { shell_open: false, ..*old(self) }),
    {
        self.shell_open = false;
    }

    /// Writes the interrupt flag register: acknowledges the interrupts of bits 0..4, clears
    /// the parameter FIFO on bit 6, empties the result FIFO, and delivers a pending status
    /// once no interrupt is left.
    #[verifier::rlimit(60)]
    fn write_control(&mut self, value: u8, interrupt_register: &mut InterruptRegister)
        requires
            old(self).wf(),
        ensures
            final(self).wf(),
            ({
                let irqs = old(self).irqs & !(value & 0x1f);
                let delivers = irqs == 0 && old(self).pending_stat is Some;
                &&& final(self).irqs == (if delivers { 1u8 } else { irqs })
                &&& final(self).parameter_fifo@ == (if (value >> 6u8) & 1 == 1 { Seq::empty() } else { old(self).parameter_fifo@ })
                &&& final(self).result_fifo@ == (if delivers { seq![old(self).pending_stat->0] } else { Seq::empty() })
                &&& final(self).pending_stat == (if irqs == 0 { None } else { old(self).pending_stat })
                &&& final(interrupt_register).bits == (if delivers && 1 & (old(self).hntmask.bits & 0x1f) != 0 {
                    old(interrupt_register).bits | InterruptRegister::CDROM
                } else {
                    old(interrupt_register).bits
                })
                &&& *final(self) == (CDRom {
                    irqs: final(self).irqs,
                    parameter_fifo: final(self).parameter_fifo,
                    result_fifo: final(self).result_fifo,
                    pending_stat: final(self).pending_stat,
                    ..*old(self)
                })
            }),
    {
        self.irqs &= !(value & 0x1f);
        if (value >> 6u8) & 1 == 1 {
            self.parameter_fifo.clear();
        }
        self.result_fifo.clear();
        if self.irqs == 0 {
            match self.pending_stat.take() {
                Some(stat) => {
                    self.result_fifo.push_back(stat);
                    self.irqs = 0x1;
                    self.process_irqs(interrupt_register);
                },
                None => {},
            }
        }
    }

    /// Writes a host register. In bank 0: the command (1801h), a parameter (1802h), the data
    /// request (1803h: bit 7 makes the sector's data readable, else the buffer reads as
    /// empty); in bank 1: the interrupt mask (1802h) and flags (1803h). Banks 2 and 3 hold
    /// the CD audio volumes, which are ignored.
    #[verifier::rlimit(60)]
    pub fn write(&mut self, address: usize, value: u8, interrupt_register: &mut InterruptRegister)
        requires
            old(self).wf(),
            0x1f801801 <= address <= 0x1f801803,
            address == 0x1f801801 ==> old(self).bank != 1,
        ensures
            final(self).wf(),
            address == 0x1f801801 && old(self).bank == 0 ==> *final(self) == (CDRom { command_latch: Some(value), ..*old(self) }),
            address == 0x1f801802 && old(self).bank == 0 ==> final(self).parameter_fifo@ == old(self).parameter_fifo@.push(value)
                && *final(self) == (CDRom { parameter_fifo: final(self).parameter_fifo, ..*old(self) }),
            address == 0x1f801802 && old(self).bank == 1 ==> *final(self) == (CDRom { hntmask: HntmaskRegister { bits: value }, ..*old(self) })
                && final(interrupt_register).bits == (if old(self).irqs & (value & 0x1f) != 0 {
                    old(interrupt_register).bits | InterruptRegister::CDROM
                } else {
                    old(interrupt_register).bits
                }),
            address == 0x1f801803 && old(self).bank == 0 ==> *final(self) == (CDRom {
                buffer_index: if (value >> 7u8) & 1 == 0 { 0x930 } else if old(self).buffer_index >= old(self).sector_size { 0 } else { old(self).buffer_index },
                ..*old(self)
            }),
            old(self).bank >= 2 ==> *final(self) == *old(self),
    {
        if self.bank >= 2 {
            return;
        }
        if address == 0x1f801801 {
            self.command_latch = Some(value);
        } else if address == 0x1f801802 {
            if self.bank == 0 {
                self.parameter_fifo.push_back(value);
            } else {
                self.hntmask.write(value);
                self.process_irqs(interrupt_register);
            }
        } else {
            if self.bank == 0 {
                if (value >> 7u8) & 1 == 0 {
                    self.buffer_index = 0x930;
                } else if self.output_buffer_empty() {
                    self.buffer_index = 0;
                }
            } else {
                self.write_control(value, interrupt_register);
            }
        }
    }

    /// Selects the register bank.
    pub fn write_bank(&mut self, value: u8)
        ensures
            *final(self) == (CDRom { bank: (value % 4) as usize, ..*old(self) }),
            final(self).bank < 4,
    {
        self.bank = (value % 4) as usize;
    }
}


/// The position one sector after `m`: 75 sectors to a second, 60 seconds to a minute,
/// wrapping after 74 minutes.
pub open spec fn next_msf(m: Msf) -> Msf {
    let sect = m.asect + 1;
    if sect >= 75 {
        let ss = m.ass + 1;
        if ss >= 60 {
            Msf { asect: (sect - 75) as u8, ass: 0, amm: if m.amm + 1 == 74 { 0 } else { (m.amm + 1) as u8 } }
        } else {
            Msf { asect: (sect - 75) as u8, ass: ss as u8, amm: m.amm }
        }
    } else {
        Msf { asect: sect as u8, ..m }
    }
}

/// The subchannel Q data of a position: track 1, index 1, the track-relative time two
/// seconds less than the absolute one.
pub open spec fn subchannel_at(mm: u8, ss: u8, sect: u8) -> SubchannelQ {
    SubchannelQ { track: 1, index: 1, mm, ss: ss.wrapping_sub(2), sect, amm: mm, ass: ss, asect: sect }
}

/// The status byte delivered with a data sector: motor on, and the read, seek and play
/// bits.
pub open spec fn data_stat(c: &CDRom) -> u8 {
    2u8 | ((c.is_reading as u8) << 5u8) | ((c.is_seeking as u8) << 6u8) | ((c.is_playing as u8) << 7u8)
}

/// One XA-ADPCM sample from its nibble and the channel's two previous samples.
pub open spec fn xa_sample(header: u8, nibble: i16, old: i16, older: i16) -> i16 {
    let shift = if header & 0xf > 12 { 9u8 } else { header & 0xf };
    let filter = ((header >> 4u8) % 4) as int;
    let base = ((nibble << 12u16) >> (shift as i16)) as i32;
    let f = trunc_div(old * POS_FILTER_TABLE@[filter] + older * NEG_FILTER_TABLE@[filter] + 32, 64);
    let sum = base + f;
    (if sum < -0x8000 { -0x8000 } else if sum > 0x7fff { 0x7fff } else { sum }) as i16
}

fn submode_ok(submode: u8) -> (r: bool)
    ensures
        r == submode_valid(submode),
{
    (submode >> 1u8) & 1 == 1 || (submode >> 2u8) & 1 == 1 || (submode >> 3u8) & 1 == 1 || submode & 1 == 0
}

fn coding_ok(byte: u8) -> (r: bool)
    ensures
        r == coding_info_valid(byte),
{
    byte & 3 <= 1 && (byte >> 2u8) & 3 <= 1 && (byte >> 4u8) & 3 <= 1
}

impl CDRom {
    /// What `check_commands` does: `new` (and the other outputs) from `self`.
    pub open spec fn check_commands_done(self, new: CDRom) -> bool {
        &&& new == (CDRom {
            controller_mode: if self.command_latch is Some {
                if self.parameter_fifo@.len() > 0 { ControllerMode::TransferParams } else { ControllerMode::TransferCommand }
            } else {
                self.controller_mode
            },
            controller_cycles: self.controller_cycles.wrapping_add(1),
            ..self
        })
    }

    /// Starts the transfer of a latched command: its parameters first, if any.
    fn check_commands(&mut self)
        requires
            old(self).wf(),
        ensures
            final(self).wf(),
            old(self).check_commands_done(*final(self)),
    {
        if self.command_latch.is_some() {
            if self.parameter_fifo.len() > 0 {
                self.controller_mode = ControllerMode::TransferParams;
            } else {
                self.controller_mode = ControllerMode::TransferCommand;
            }
        }
        self.controller_cycles = self.controller_cycles.wrapping_add(1);
    }

    /// What `transfer_command` does: `new` (and the other outputs) from `self`.
    pub open spec fn transfer_command_done(self, new: CDRom) -> bool {
        &&& new == (CDRom {
            command: self.command_latch->0,
            command_latch: None,
            controller_mode: ControllerMode::ExecuteCommand,
            controller_cycles: self.controller_cycles.wrapping_add(10),
            ..self
        })
    }

    /// Takes the latched command for execution.
    fn transfer_command(&mut self)
        requires
            old(self).wf(),
            old(self).command_latch is Some,
        ensures
            final(self).wf(),
            old(self).transfer_command_done(*final(self)),
    {
        self.command = match self.command_latch.take() {
            Some(c) => c,
            None => 0,
        };
        self.controller_mode = ControllerMode::ExecuteCommand;
        self.controller_cycles = self.controller_cycles.wrapping_add(10);
    }

    /// What `transfer_params` does: `new` (and the other outputs) from `self`.
    pub open spec fn transfer_params_done(self, new: CDRom) -> bool {
        &&& self.parameter_fifo@.len() > 0 ==> new.parameter_fifo@ == self.parameter_fifo@.drop_first()
            && new.controller_param_fifo@ == self.controller_param_fifo@.push(self.parameter_fifo@[0])
            && new.controller_mode == self.controller_mode
        &&& self.parameter_fifo@.len() == 0 ==> new.parameter_fifo@ == self.parameter_fifo@
            && new.controller_param_fifo@ == self.controller_param_fifo@
            && new.controller_mode == ControllerMode::TransferCommand
        &&& new == (CDRom {
            parameter_fifo: new.parameter_fifo,
            controller_param_fifo: new.controller_param_fifo,
            controller_mode: new.controller_mode,
            controller_cycles: self.controller_cycles.wrapping_add(10),
            ..self
        })
    }

    /// Moves one parameter to the controller, or goes on to the command once none is left.
    fn transfer_params(&mut self)
        requires
            old(self).wf(),
            old(self).command_latch is Some,
        ensures
            final(self).wf(),
            old(self).transfer_params_done(*final(self)),
    {
        if self.parameter_fifo.len() > 0 {
            let byte = match self.parameter_fifo.pop_front() {
                Some(b) => b,
                None => 0,
            };
            self.controller_param_fifo.push_back(byte);
        } else {
            self.controller_mode = ControllerMode::TransferCommand;
        }
        self.controller_cycles = self.controller_cycles.wrapping_add(10);
    }

    /// What `transfer_interrupts` does: `new` (and the other outputs) from `self`.
    pub open spec fn transfer_interrupts_done(self, new: CDRom, ir0: u32, ir1: u32) -> bool {
        &&& self.irqs == 0 ==> new == (CDRom {
            irqs: self.irq_latch,
            controller_mode: ControllerMode::Idle,
            controller_cycles: self.controller_cycles.wrapping_add(10),
            ..self
        }) && ir1 == (if self.irq_latch & (self.hntmask.bits & 0x1f) != 0 {
            ir0 | InterruptRegister::CDROM
        } else {
            ir0
        })
        &&& self.irqs != 0 ==> new == (CDRom {
            controller_cycles: self.controller_cycles.wrapping_add(1),
            ..self
        }) && ir1 == ir0
    }

    /// Raises the latched interrupt once the previous one is acknowledged.
    fn transfer_interrupts(&mut self, interrupt_register: &mut InterruptRegister)
        requires
            old(self).wf(),
        ensures
            final(self).wf(),
            old(self).transfer_interrupts_done(*final(self), old(interrupt_register).bits, final(interrupt_register).bits),
    {
        if self.irqs == 0 {
            self.irqs = self.irq_latch;
            self.process_irqs(interrupt_register);
            self.controller_mode = ControllerMode::Idle;
            self.controller_cycles = self.controller_cycles.wrapping_add(10);
        } else {
            self.controller_cycles = self.controller_cycles.wrapping_add(1);
        }
    }

    /// What `clear_response` does: `new` (and the other outputs) from `self`.
    pub open spec fn clear_response_done(self, new: CDRom) -> bool {
        &&& self.result_fifo@.len() > 0 ==> new.result_fifo@ == self.result_fifo@.drop_last()
            && new.controller_mode == self.controller_mode
        &&& self.result_fifo@.len() == 0 ==> new.result_fifo@ == self.result_fifo@
            && new.controller_mode == ControllerMode::TransferResponse
        &&& new == (CDRom {
            result_fifo: new.result_fifo,
            controller_mode: new.controller_mode,
            controller_cycles: self.controller_cycles.wrapping_add(10),
            ..self
        })
    }

    /// Drops the newest result byte, or goes on to transfer the response once none is left.
    fn clear_response(&mut self)
        requires
            old(self).wf(),
        ensures
            final(self).wf(),
            old(self).clear_response_done(*final(self)),
    {
        if self.result_fifo.len() > 0 {
            self.result_fifo.pop_back();
        } else {
            self.controller_mode = ControllerMode::TransferResponse;
        }
        self.controller_cycles = self.controller_cycles.wrapping_add(10);
    }

    /// The next parameter, or a fault when the command was sent without it.
    fn next_param(&mut self) -> (r: Result<u8, CdFault>)
        ensures
            old(self).controller_param_fifo@.len() > 0 ==> r == Ok::<u8, CdFault>(old(self).controller_param_fifo@[0])
                && final(self).controller_param_fifo@ == old(self).controller_param_fifo@.drop_first(),
            old(self).controller_param_fifo@.len() == 0 ==> r == Err::<u8, CdFault>(CdFault::MissingParameter)
                && final(self).controller_param_fifo@ == old(self).controller_param_fifo@,
            *final(self) == (CDRom { controller_param_fifo: final(self).controller_param_fifo, ..*old(self) }),
    {
        match self.controller_param_fifo.pop_front() {
            Some(b) => Ok(b),
            None => Err(CdFault::MissingParameter),
        }
    }

    /// Setmode (0Eh): speed, XA to the SPU, whole sectors, the XA filter, report interrupts.
    fn set_mode(&mut self) -> (r: Result<(), CdFault>)
        requires
            old(self).wf(),
        ensures
            final(self).wf(),
            final(self).controller_response_fifo@ == old(self).controller_response_fifo@.push(stat_byte(&*old(self))),
            r is Ok <==> old(self).controller_param_fifo@.len() > 0,
            r is Ok ==> final(self).controller_param_fifo@ == old(self).controller_param_fifo@.drop_first(),
            r is Ok ==> ({
                let b = old(self).controller_param_fifo@[0];
                *final(self) == (CDRom {
                    controller_response_fifo: final(self).controller_response_fifo,
                    controller_param_fifo: final(self).controller_param_fifo,
                    double_speed: (b >> 7u8) & 1 == 1,
                    send_to_spu: (b >> 6u8) & 1 == 1,
                    sector_size: if (b >> 5u8) & 1 == 1 { 0x924 } else { 0x800 },
                    xa_filter: (b >> 3u8) & 1 == 1,
                    report_interrupts: (b >> 2u8) & 1 == 1,
                    ..*old(self)
                })
            }),
    {
        self.stat();
        let byte = self.next_param()?;
        self.double_speed = (byte >> 7u8) & 1 == 1;
        self.send_to_spu = (byte >> 6u8) & 1 == 1;
        self.sector_size = if (byte >> 5u8) & 1 == 1 { 0x924 } else { 0x800 };
        self.xa_filter = (byte >> 3u8) & 1 == 1;
        self.report_interrupts = (byte >> 2u8) & 1 == 1;
        Ok(())
    }
}


impl CDRom {
    /// The drive cycles of one sector at the current speed.
    fn get_drive_cycles(&self) -> (r: usize)
        ensures
            r == sector_cycles(self.double_speed),
    {
        let divisor: usize = if self.double_speed { 150 } else { 75 };
        44100 / divisor
    }

    /// Stop (08h): the motor stops, the position returns to the start, a second status
    /// response follows.
    fn stop(&mut self)
        ensures
            final(self).controller_response_fifo@ == old(self).controller_response_fifo@.push(stat_byte(&*old(self))),
            *final(self) == (CDRom {
                controller_response_fifo: final(self).controller_response_fifo,
                is_playing: false,
                is_seeking: false,
                is_reading: false,
                drive_mode: DriveMode::Idle,
                motor_on: false,
                current_msf: Msf { ass: 0, asect: 0, amm: 0 },
                subresponse_mode: SubresponseMode::GetStat,
                subresponse_cycles: old(self).subresponse_cycles.wrapping_add(44100),
                ..*old(self)
            }),
    {
        self.stat();
        self.is_playing = false;
        self.is_seeking = false;
        self.is_reading = false;
        self.drive_mode = DriveMode::Idle;
        self.motor_on = false;
        self.current_msf = Msf::new();
        self.subresponse_mode = SubresponseMode::GetStat;
        self.subresponse_cycles = self.subresponse_cycles.wrapping_add(44100);
    }

    /// Pause (09h): reading, seeking and playing stop; the second response comes sooner when
    /// the drive was already still.
    fn pause(&mut self)
        ensures
            final(self).controller_response_fifo@ == old(self).controller_response_fifo@.push(stat_byte(&*old(self))),
            *final(self) == (CDRom {
                controller_response_fifo: final(self).controller_response_fifo,
                subresponse_cycles: old(self).subresponse_cycles.wrapping_add(
                    if !old(self).is_playing && !old(self).is_reading && !old(self).is_seeking { 10 } else if old(self).double_speed { 1400 } else { 2800 },
                ),
                is_playing: false,
                is_seeking: false,
                is_reading: false,
                subresponse_mode: SubresponseMode::GetStat,
                ..*old(self)
            }),
    {
        self.stat();
        if !self.is_playing && !self.is_reading && !self.is_seeking {
            self.subresponse_cycles = self.subresponse_cycles.wrapping_add(10);
        } else {
            let cycles: usize = if self.double_speed { 1400 } else { 2800 };
            self.subresponse_cycles = self.subresponse_cycles.wrapping_add(cycles);
        }
        self.is_playing = false;
        self.is_seeking = false;
        self.is_reading = false;
        self.subresponse_mode = SubresponseMode::GetStat;
    }

    /// Init (0Ah): single speed, 800h-byte sectors, motor on, the drive still.
    fn init(&mut self)
        ensures
            final(self).controller_response_fifo@ == old(self).controller_response_fifo@.push(stat_byte(&*old(self))),
            *final(self) == (CDRom {
                controller_response_fifo: final(self).controller_response_fifo,
                double_speed: false,
                sector_size: 0x800,
                motor_on: true,
                is_playing: false,
                is_seeking: false,
                is_reading: false,
                subresponse_mode: SubresponseMode::GetStat,
                subresponse_cycles: old(self).subresponse_cycles.wrapping_add(10),
                ..*old(self)
            }),
    {
        self.stat();
        self.double_speed = false;
        self.sector_size = 0x800;
        self.motor_on = true;
        self.is_playing = false;
        self.is_seeking = false;
        self.is_reading = false;
        self.subresponse_mode = SubresponseMode::GetStat;
        self.subresponse_cycles = self.subresponse_cycles.wrapping_add(10);
    }

    /// MotorOn (07h): status, then 20h with interrupt 5.
    fn motor_on(&mut self)
        ensures
            final(self).controller_response_fifo@ == old(self).controller_response_fifo@.push(stat_byte(&*old(self))).push(0x20),
            *final(self) == (CDRom {
                controller_response_fifo: final(self).controller_response_fifo,
                motor_on: true,
                irq_latch: 5,
                ..*old(self)
            }),
    {
        self.stat();
        self.motor_on = true;
        self.controller_response_fifo.push_back(0x20);
        self.irq_latch = 0x5;
    }

    /// Setfilter (0Dh): the file and channel XA audio is filtered by.
    fn setfilter(&mut self) -> (r: Result<(), CdFault>)
        ensures
            *final(self) == (CDRom {
                controller_param_fifo: final(self).controller_param_fifo,
                filter_file: final(self).filter_file,
                filter_channel: final(self).filter_channel,
                ..*old(self)
            }),
            r is Ok <==> old(self).controller_param_fifo@.len() >= 2,
            r is Ok ==> *final(self) == (CDRom {
                controller_param_fifo: final(self).controller_param_fifo,
                filter_file: old(self).controller_param_fifo@[0],
                filter_channel: old(self).controller_param_fifo@[1],
                ..*old(self)
            }) && final(self).controller_param_fifo@ == old(self).controller_param_fifo@.subrange(2, old(self).controller_param_fifo@.len() as int),
    {
        let file = self.next_param()?;
        let filter = self.next_param()?;
        self.filter_file = file;
        self.filter_channel = filter;
        proof {
            assert(old(self).controller_param_fifo@.drop_first().drop_first() =~= old(self).controller_param_fifo@.subrange(2, old(self).controller_param_fifo@.len() as int));
        }
        Ok(())
    }

    /// GetTN (13h): status, first track 1, last track 1.
    fn gettn(&mut self)
        ensures
            final(self).controller_response_fifo@ == old(self).controller_response_fifo@.push(stat_byte(&*old(self))).push(1).push(1),
            *final(self) == (CDRom { controller_response_fifo: final(self).controller_response_fifo, ..*old(self) }),
    {
        self.stat();
        self.controller_response_fifo.push_back(1);
        self.controller_response_fifo.push_back(1);
    }

    /// GetTD (14h): status and a zero track start.
    fn gettd(&mut self)
        ensures
            final(self).controller_response_fifo@ == old(self).controller_response_fifo@.push(stat_byte(&*old(self))).push(0).push(0),
            *final(self) == (CDRom { controller_response_fifo: final(self).controller_response_fifo, ..*old(self) }),
    {
        self.stat();
        self.controller_response_fifo.push_back(0);
        self.controller_response_fifo.push_back(0);
    }

    /// GetlocP (11h): track, index, and the track-relative and absolute positions in BCD.
    fn getloc_p(&mut self)
        ensures
            ({
                let q = old(self).subchannel_q;
                final(self).controller_response_fifo@ == old(self).controller_response_fifo@ + seq![
                    q.track, q.index, spec_u8_to_bcd(q.mm), spec_u8_to_bcd(q.ss), spec_u8_to_bcd(q.sect),
                    spec_u8_to_bcd(q.amm), spec_u8_to_bcd(q.ass), spec_u8_to_bcd(q.asect)]
            }),
            *final(self) == (CDRom { controller_response_fifo: final(self).controller_response_fifo, ..*old(self) }),
    {
        let q = self.subchannel_q;
        self.controller_response_fifo.push_back(q.track);
        self.controller_response_fifo.push_back(q.index);
        self.controller_response_fifo.push_back(u8_to_bcd(q.mm));
        self.controller_response_fifo.push_back(u8_to_bcd(q.ss));
        self.controller_response_fifo.push_back(u8_to_bcd(q.sect));
        self.controller_response_fifo.push_back(u8_to_bcd(q.amm));
        self.controller_response_fifo.push_back(u8_to_bcd(q.ass));
        self.controller_response_fifo.push_back(u8_to_bcd(q.asect));
        proof {
            assert(self.controller_response_fifo@ =~= old(self).controller_response_fifo@ + seq![
                q.track, q.index, spec_u8_to_bcd(q.mm), spec_u8_to_bcd(q.ss), spec_u8_to_bcd(q.sect),
                spec_u8_to_bcd(q.amm), spec_u8_to_bcd(q.ass), spec_u8_to_bcd(q.asect)]);
        }
    }

    /// ReadTOC (1Eh): status now, another after the table of contents is read.
    fn toc(&mut self)
        ensures
            final(self).controller_response_fifo@ == old(self).controller_response_fifo@.push(stat_byte(&*old(self))),
            *final(self) == (CDRom {
                controller_response_fifo: final(self).controller_response_fifo,
                subresponse_mode: SubresponseMode::GetStat,
                subresponse_cycles: old(self).subresponse_cycles.wrapping_add(44100),
                ..*old(self)
            }),
    {
        self.stat();
        self.subresponse_mode = SubresponseMode::GetStat;
        self.subresponse_cycles = self.subresponse_cycles.wrapping_add(44100);
    }

    /// SeekL/SeekP (15h, 16h): seek to the set location, then report status.
    fn seek(&mut self)
        ensures
            final(self).controller_response_fifo@ == old(self).controller_response_fifo@.push(stat_byte(&*old(self))),
            *final(self) == (CDRom {
                controller_response_fifo: final(self).controller_response_fifo,
                is_playing: false,
                is_reading: false,
                is_seeking: true,
                next_mode: Some(DriveMode::Stat),
                drive_cycles: old(self).drive_cycles.wrapping_add(seek_cycles(old(self).double_speed)),
                drive_mode: DriveMode::Seek,
                ..*old(self)
            }),
    {
        self.stat();
        self.is_playing = false;
        self.is_reading = false;
        self.is_seeking = true;
        self.next_mode = Some(DriveMode::Stat);
        let cycles: usize = if self.double_speed { 14 } else { 28 };
        self.drive_cycles = self.drive_cycles.wrapping_add(cycles);
        self.drive_mode = DriveMode::Seek;
    }

    /// Setloc (02h): the target position, three BCD bytes; a seek is due before reading.
    #[verifier::rlimit(80)]
    fn set_loc(&mut self) -> (r: Result<(), CdFault>)
        ensures
            *final(self) == (CDRom {
                controller_response_fifo: final(self).controller_response_fifo,
                controller_param_fifo: final(self).controller_param_fifo,
                msf: final(self).msf,
                pre_seek: final(self).pre_seek,
                ..*old(self)
            }),
            final(self).controller_response_fifo@ == old(self).controller_response_fifo@.push(stat_byte(&*old(self))),
            r is Ok <==> old(self).controller_param_fifo@.len() >= 3,
            r is Ok ==> ({
                let p = old(self).controller_param_fifo@;
                &&& final(self).controller_param_fifo@ == p.subrange(3, p.len() as int)
                &&& *final(self) == (CDRom {
                    controller_response_fifo: final(self).controller_response_fifo,
                    controller_param_fifo: final(self).controller_param_fifo,
                    msf: Msf { amm: spec_bcd_to_u8(p[0]), ass: spec_bcd_to_u8(p[1]), asect: spec_bcd_to_u8(p[2]) },
                    pre_seek: true,
                    ..*old(self)
                })
            }),
    {
        self.stat();
        let mm = self.next_param()?;
        let ss = self.next_param()?;
        let sect = self.next_param()?;
        self.msf.amm = bcd_to_u8(mm);
        self.msf.ass = bcd_to_u8(ss);
        self.msf.asect = bcd_to_u8(sect);
        self.pre_seek = true;
        proof {
            let p = old(self).controller_param_fifo@;
            assert(p.drop_first().drop_first().drop_first() =~= p.subrange(3, p.len() as int));
        }
        Ok(())
    }

    /// GetID (1Ah): status now, the disc identification later.
    fn get_id(&mut self)
        ensures
            final(self).controller_response_fifo@ == old(self).controller_response_fifo@.push(stat_byte(&*old(self))),
            *final(self) == (CDRom {
                controller_response_fifo: final(self).controller_response_fifo,
                subresponse_mode: SubresponseMode::GetId,
                subresponse_cycles: old(self).subresponse_cycles.wrapping_add(50),
                ..*old(self)
            }),
    {
        self.stat();
        self.subresponse_mode = SubresponseMode::GetId;
        self.subresponse_cycles = self.subresponse_cycles.wrapping_add(50);
    }

    /// What `read_id` does: `new` (and the other outputs) from `self`.
    pub open spec fn read_id_done(self, new: CDRom) -> bool {
        &&& self.irqs == 0 ==> new == (CDRom {
            irq_latch: 2,
            controller_response_fifo: new.controller_response_fifo,
            controller_mode: ControllerMode::ClearResponseFifo,
            subresponse_mode: SubresponseMode::Disabled,
            controller_cycles: self.controller_cycles.wrapping_add(10),
            ..self
        }) && new.controller_response_fifo@ == self.controller_response_fifo@ + seq![2u8, 0u8, 0x20u8, 0u8, 0x53u8, 0x43u8, 0x45u8, 0x41u8]
        &&& self.irqs != 0 ==> new == (CDRom {
            subresponse_cycles: self.subresponse_cycles.wrapping_add(1),
            controller_cycles: self.controller_cycles.wrapping_add(10),
            ..self
        })
    }

    /// The second GetID response, once the first is acknowledged: a licensed "SCEA" data
    /// disc, with interrupt 2.
    #[verifier::rlimit(80)]
    fn read_id(&mut self)
        requires
            old(self).wf(),
        ensures
            final(self).wf(),
            old(self).read_id_done(*final(self)),
    {
        if self.irqs == 0 {
            self.irq_latch = 0x2;
            self.controller_response_fifo.push_back(0x2);
            self.controller_response_fifo.push_back(0x0);
            self.controller_response_fifo.push_back(0x20);
            self.controller_response_fifo.push_back(0x0);
            self.controller_response_fifo.push_back(0x53);
            self.controller_response_fifo.push_back(0x43);
            self.controller_response_fifo.push_back(0x45);
            self.controller_response_fifo.push_back(0x41);
            self.controller_mode = ControllerMode::ClearResponseFifo;
            self.subresponse_mode = SubresponseMode::Disabled;
            proof {
                assert(self.controller_response_fifo@ =~= old(self).controller_response_fifo@ + seq![2u8, 0u8, 0x20u8, 0u8, 0x53u8, 0x43u8, 0x45u8, 0x41u8]);
            }
        } else {
            self.subresponse_cycles = self.subresponse_cycles.wrapping_add(1);
        }
        self.controller_cycles = self.controller_cycles.wrapping_add(10);
    }

    /// What `sub_stat` does: `new` (and the other outputs) from `self`.
    pub open spec fn sub_stat_done(self, new: CDRom) -> bool {
        &&& self.irqs == 0 ==> new == (CDRom {
            irq_latch: 2,
            controller_response_fifo: new.controller_response_fifo,
            controller_cycles: self.controller_cycles.wrapping_add(10),
            controller_mode: ControllerMode::ClearResponseFifo,
            subresponse_mode: SubresponseMode::Disabled,
            ..self
        }) && new.controller_response_fifo@ == self.controller_response_fifo@.push(stat_byte(&self))
        &&& self.irqs != 0 ==> new == self
    }

    /// A second status response, once the first is acknowledged, with interrupt 2.
    fn sub_stat(&mut self)
        requires
            old(self).wf(),
        ensures
            final(self).wf(),
            old(self).sub_stat_done(*final(self)),
    {
        if self.irqs == 0 {
            self.irq_latch = 2;
            self.stat();
            self.controller_cycles = self.controller_cycles.wrapping_add(10);
            self.controller_mode = ControllerMode::ClearResponseFifo;
            self.subresponse_mode = SubresponseMode::Disabled;
        }
    }

    /// What `cd_stat` does: `new` (and the other outputs) from `self`.
    pub open spec fn cd_stat_done(self, new: CDRom) -> bool {
        &&& self.irqs == 0 ==> new == (CDRom {
            controller_response_fifo: new.controller_response_fifo,
            irq_latch: 2,
            controller_cycles: self.controller_cycles.wrapping_add(10),
            controller_mode: ControllerMode::ClearResponseFifo,
            drive_mode: DriveMode::Idle,
            subresponse_mode: SubresponseMode::Disabled,
            ..self
        }) && new.controller_response_fifo@ == self.controller_response_fifo@.push(stat_byte(&self))
        &&& self.irqs != 0 ==> new == (CDRom {
            drive_cycles: self.drive_cycles.wrapping_add(1),
            ..self
        })
    }

    /// The drive's status response after a seek, with interrupt 2; waits while an interrupt
    /// is pending.
    #[verifier::rlimit(80)]
    fn cd_stat(&mut self)
        requires
            old(self).wf(),
        ensures
            final(self).wf(),
            old(self).cd_stat_done(*final(self)),
    {
        if self.irqs == 0 {
            self.stat();
            self.irq_latch = 0x2;
            self.controller_cycles = self.controller_cycles.wrapping_add(10);
            self.controller_mode = ControllerMode::ClearResponseFifo;
            self.drive_mode = DriveMode::Idle;
            self.subresponse_mode = SubresponseMode::Disabled;
        } else {
            self.drive_cycles = self.drive_cycles.wrapping_add(1);
        }
    }

    /// ReadN/ReadS (06h, 1Bh): read from the current position, or seek to the set location
    /// first.
    fn cd_read_command(&mut self)
        ensures
            ({
                let moved = if !old(self).pre_seek {
                    CDRom {
                        is_reading: true,
                        is_seeking: false,
                        is_playing: false,
                        drive_cycles: old(self).drive_cycles.wrapping_add(sector_cycles(old(self).double_speed)),
                        drive_mode: DriveMode::Read,
                        ..*old(self)
                    }
                } else {
                    CDRom {
                        is_seeking: true,
                        is_reading: false,
                        is_playing: false,
                        next_mode: Some(DriveMode::Read),
                        drive_cycles: old(self).drive_cycles.wrapping_add(seek_cycles(old(self).double_speed)),
                        drive_mode: DriveMode::Seek,
                        ..*old(self)
                    }
                };
                &&& final(self).controller_response_fifo@ == old(self).controller_response_fifo@.push(stat_byte(&moved))
                &&& *final(self) == (CDRom { controller_response_fifo: final(self).controller_response_fifo, ..moved })
            }),
    {
        if !self.pre_seek {
            self.is_reading = true;
            self.is_seeking = false;
            self.is_playing = false;
            let cycles = self.get_drive_cycles();
            self.drive_cycles = self.drive_cycles.wrapping_add(cycles);
            self.drive_mode = DriveMode::Read;
        } else {
            self.is_seeking = true;
            self.is_reading = false;
            self.is_playing = false;
            self.next_mode = Some(DriveMode::Read);
            let cycles: usize = if self.double_speed { 14 } else { 28 };
            self.drive_cycles = self.drive_cycles.wrapping_add(cycles);
            self.drive_mode = DriveMode::Seek;
        }
        self.stat();
    }

    /// What `seek_cd` does: `new` (and the other outputs) from `self`.
    pub open spec fn seek_cd_done(self, new: CDRom) -> bool {
        &&& ({
            let m = self.msf;
            let base = CDRom {
                pre_seek: false,
                current_msf: m,
                subchannel_q: subchannel_at(m.amm, m.ass, m.asect),
                is_seeking: false,
                is_playing: false,
                is_reading: false,
                next_mode: None,
                ..self
            };
            new == match self.next_mode {
                Some(DriveMode::Play) => CDRom {
                    drive_mode: DriveMode::Play,
                    is_playing: true,
                    drive_cycles: self.drive_cycles.wrapping_add(sector_cycles(self.double_speed)),
                    ..base
                },
                Some(DriveMode::Read) => CDRom {
                    drive_mode: DriveMode::Read,
                    is_reading: true,
                    drive_cycles: self.drive_cycles.wrapping_add(sector_cycles(self.double_speed)),
                    ..base
                },
                Some(mode) => CDRom { drive_mode: mode, drive_cycles: self.drive_cycles.wrapping_add(10), ..base },
                None => base,
            }
        })
    }

    /// The end of a seek: the set location becomes the current one and the drive goes on to
    /// what was asked after the seek.
    fn seek_cd(&mut self)
        ensures
            old(self).seek_cd_done(*final(self)),
    {
        self.pre_seek = false;
        self.current_msf = self.msf;
        self.subchannel_q.track = 1;
        self.subchannel_q.index = 1;
        self.subchannel_q.mm = self.msf.amm;
        self.subchannel_q.ss = self.msf.ass.wrapping_sub(2);
        self.subchannel_q.sect = self.msf.asect;
        self.subchannel_q.amm = self.msf.amm;
        self.subchannel_q.ass = self.msf.ass;
        self.subchannel_q.asect = self.msf.asect;
        self.is_seeking = false;
        self.is_playing = false;
        self.is_reading = false;
        match self.next_mode.take() {
            Some(mode) => {
                self.drive_mode = mode;
                match mode {
                    DriveMode::Play => {
                        self.is_playing = true;
                        let cycles = self.get_drive_cycles();
                        self.drive_cycles = self.drive_cycles.wrapping_add(cycles);
                    },
                    DriveMode::Read => {
                        self.is_reading = true;
                        let cycles = self.get_drive_cycles();
                        self.drive_cycles = self.drive_cycles.wrapping_add(cycles);
                    },
                    _ => {
                        self.drive_cycles = self.drive_cycles.wrapping_add(10);
                    },
                }
            },
            None => {},
        }
    }

    /// Test command (19h) subcommands: 20h reports the controller's date (99h 02h 01h C3h).
    fn execute_subcommand(&mut self, subcommand: u8) -> (r: Result<(), CdFault>)
        ensures
            subcommand == 0x20 ==> r is Ok && final(self).controller_response_fifo@ == old(self).controller_response_fifo@ + seq![0x99u8, 0x2u8, 0x1u8, 0xc3u8],
            subcommand != 0x20 ==> r == Err::<(), CdFault>(CdFault::UnknownSubcommand(subcommand)) && final(self).controller_response_fifo@ == old(self).controller_response_fifo@,
            *final(self) == (CDRom { controller_response_fifo: final(self).controller_response_fifo, ..*old(self) }),
    {
        if subcommand == 0x20 {
            self.controller_response_fifo.push_back(0x99);
            self.controller_response_fifo.push_back(0x2);
            self.controller_response_fifo.push_back(0x1);
            self.controller_response_fifo.push_back(0xc3);
            proof {
                assert(self.controller_response_fifo@ =~= old(self).controller_response_fifo@ + seq![0x99u8, 0x2u8, 0x1u8, 0xc3u8]);
            }
            Ok(())
        } else {
            Err(CdFault::UnknownSubcommand(subcommand))
        }
    }

    /// Test (19h): runs the subcommand given as parameter.
    fn commandx19(&mut self) -> (r: Result<(), CdFault>)
        ensures
            old(self).controller_param_fifo@.len() == 0 ==> r == Err::<(), CdFault>(CdFault::MissingParameter),
            old(self).controller_param_fifo@.len() > 0 ==> {
                let sub = old(self).controller_param_fifo@[0];
                &&& final(self).controller_param_fifo@ == old(self).controller_param_fifo@.drop_first()
                &&& sub == 0x20 ==> r is Ok && final(self).controller_response_fifo@ == old(self).controller_response_fifo@ + seq![0x99u8, 0x2u8, 0x1u8, 0xc3u8]
                &&& sub != 0x20 ==> r == Err::<(), CdFault>(CdFault::UnknownSubcommand(sub))
            },
            *final(self) == (CDRom {
                controller_response_fifo: final(self).controller_response_fifo,
                controller_param_fifo: final(self).controller_param_fifo,
                ..*old(self)
            }),
    {
        let subcommand = self.next_param()?;
        self.execute_subcommand(subcommand)
    }
}


/// Tap `i` of the resampling filter `table` at input position `p`.
pub open spec fn zigzag_term(ring: Seq<i16>, p: int, table: int, i: int) -> int {
    trunc_div(ring[(p - i) % 32] * ZIGZAG_TABLE@[table * 29 + i], 0x8000)
}

/// The first `n` taps of the resampling filter, summed.
pub open spec fn zigzag_sum(ring: Seq<i16>, p: int, table: int, n: int) -> int
    decreases n,
{
    if n <= 0 { 0 } else { zigzag_sum(ring, p, table, n - 1) + zigzag_term(ring, p, table, n - 1) }
}

impl CDRom {
    /// Decodes one XA-ADPCM nibble of channel `channel_index` into its sample buffer.
    #[verifier::rlimit(40)]
    fn decode_nibble(&mut self, header: u8, nibble: i16, channel_index: usize)
        requires
            channel_index < 2,
            0 <= nibble < 16,
        ensures
            ({
                let s = xa_sample(header, nibble, old(self).old_samples[channel_index as int], old(self).older_samples[channel_index as int]);
                &&& final(self).old_samples@ == old(self).old_samples@.update(channel_index as int, s)
                &&& final(self).older_samples@ == old(self).older_samples@.update(channel_index as int, old(self).old_samples[channel_index as int])
                &&& final(self).left_samples@ == (if channel_index == 0 { old(self).left_samples@.push(s) } else { old(self).left_samples@ })
                &&& final(self).right_samples@ == (if channel_index == 1 { old(self).right_samples@.push(s) } else { old(self).right_samples@ })
                &&& *final(self) == (CDRom {
                    old_samples: final(self).old_samples,
                    older_samples: final(self).older_samples,
                    left_samples: final(self).left_samples,
                    right_samples: final(self).right_samples,
                    ..*old(self)
                })
            }),
    {
        let mut shift = header & 0xf;
        let filter = (header >> 4u8) % 4;
        if shift > 12 {
            shift = 9;
        }
        let f0 = POS_FILTER_TABLE[filter as usize] as i32;
        let f1 = NEG_FILTER_TABLE[filter as usize] as i32;
        let base = ((nibble << 12u16) >> (shift as u16)) as i32;
        let old = self.old_samples[channel_index] as i32;
        let older = self.older_samples[channel_index] as i32;
        assert(-128 <= f0 <= 127 && -128 <= f1 <= 127);
        assert(-0x40_0000 <= old * f0 <= 0x40_0000) by (nonlinear_arith)
            requires -0x8000 <= old <= 0x7fff, -128 <= f0 <= 127;
        assert(-0x40_0000 <= older * f1 <= 0x40_0000) by (nonlinear_arith)
            requires -0x8000 <= older <= 0x7fff, -128 <= f1 <= 127;
        let f = divide_toward_zero(old * f0 + older * f1 + 32, 64);
        assert(-0x3_0000 <= f <= 0x3_0000);
        let mut sample: i32 = base + f;
        if sample < -0x8000 {
            sample = -0x8000;
        } else if sample > 0x7fff {
            sample = 0x7fff;
        }
        if channel_index == 0 {
            self.left_samples.push(sample as i16);
        } else {
            self.right_samples.push(sample as i16);
        }
        self.older_samples[channel_index] = self.old_samples[channel_index];
        self.old_samples[channel_index] = sample as i16;
    }

    /// Decodes one 128-byte sound group of an XA sector starting at `start` in `data`: eight
    /// sound units of 28 nibbles, alternating left and right in stereo.
    fn decode_section(&mut self, data: &Vec<u8>, start: usize)
        requires
            start + 128 <= data.len(),
        ensures
            final(self).sixstep == old(self).sixstep,
            *final(self) == (CDRom {
                left_samples: final(self).left_samples,
                right_samples: final(self).right_samples,
                left_ringbuffer: final(self).left_ringbuffer,
                right_ringbuffer: final(self).right_ringbuffer,
                old_samples: final(self).old_samples,
                older_samples: final(self).older_samples,
                sixstep: final(self).sixstep,
                ..*old(self)
            }),
            final(self).left_samples@.len() + final(self).right_samples@.len() == old(self).left_samples@.len() + old(self).right_samples@.len() + 224,
    {
        let mut block: usize = 0;
        while block < 8
            invariant
                block <= 8,
                start + 128 <= data.len(),
                self.sixstep == old(self).sixstep,
                *self == (CDRom {
                    left_samples: self.left_samples,
                    right_samples: self.right_samples,
                    left_ringbuffer: self.left_ringbuffer,
                    right_ringbuffer: self.right_ringbuffer,
                    old_samples: self.old_samples,
                    older_samples: self.older_samples,
                    sixstep: self.sixstep,
                    ..*old(self)
                }),
                self.left_samples@.len() + self.right_samples@.len() == old(self).left_samples@.len() + old(self).right_samples@.len() + 28 * block,
            decreases 8 - block,
        {
            let header = data[start + 4 + block];
            let mut i: usize = 0;
            while i < 28
                invariant
                    i <= 28,
                    block < 8,
                    start + 128 <= data.len(),
                    self.sixstep == old(self).sixstep,
                    *self == (CDRom {
                        left_samples: self.left_samples,
                        right_samples: self.right_samples,
                        left_ringbuffer: self.left_ringbuffer,
                        right_ringbuffer: self.right_ringbuffer,
                        old_samples: self.old_samples,
                        older_samples: self.older_samples,
                        sixstep: self.sixstep,
                        ..*old(self)
                    }),
                    self.left_samples@.len() + self.right_samples@.len() == old(self).left_samples@.len() + old(self).right_samples@.len() + 28 * block + i,
                decreases 28 - i,
            {
                let byte = data[start + 16 + block / 2 + i * 4];
                let nibble = if block % 2 == 0 {
                    byte % 16
                } else {
                    byte / 16
                };
                let channel_index = if self.subheader.coding_info.speaker_output == SpeakerOutput::Stereo {
                    block % 2
                } else {
                    0
                };
                self.decode_nibble(header, nibble as i16, channel_index);
                i += 1;
            }
            block += 1;
        }
    }

    /// The resampled output sample of filter `table` at input position `p`.
    fn zigzag_interpolate(&self, p: usize, table: usize, ringbuffer: [i16; 32]) -> (r: i16)
        requires
            table < 7,
            p < 0x1_0000,
        ensures
            r == ({
                let sum = zigzag_sum(ringbuffer@, p as int, table as int, 29);
                if sum < -0x8000 { -0x8000 } else if sum > 0x7fff { 0x7fff } else { sum }
            }),
    {
        let mut sum: i64 = 0;
        let mut i: usize = 0;
        while i < 29
            invariant
                i <= 29,
                table < 7,
                p < 0x1_0000,
                sum == zigzag_sum(ringbuffer@, p as int, table as int, i as int),
                -0x1_0000_0000 * i <= sum <= 0x1_0000_0000 * i,
            decreases 29 - i,
        {
            let index = (p + 32 - i) % 32;
            assert(index == (p - i) % 32);
            let sample = ringbuffer[index] as i64;
            let weight = ZIGZAG_TABLE[table * 29 + i] as i64;
            assert(-0x4000_0000_0000 <= sample * weight <= 0x4000_0000_0000) by (nonlinear_arith)
                requires -0x8000 <= sample <= 0x7fff, -0x8000_0000 <= weight <= 0x7fff_ffff;
            let product = sample * weight;
            let an: u64 = if product >= 0 { product as u64 } else { (-product) as u64 };
            let q = (an / 0x8000) as i64;
            let term: i64 = if product >= 0 { q } else { -q };
            assert(term == trunc_div(product as int, 0x8000));
            assert(-0x1_0000_0000 <= term <= 0x1_0000_0000);
            sum = sum + term;
            i += 1;
        }
        if sum < -0x8000 {
            -0x8000
        } else if sum > 0x7fff {
            0x7fff
        } else {
            sum as i16
        }
    }
}


impl CDRom {
    /// Resamples the decoded XA audio to 44.1 kHz (seven outputs for every six inputs,
    /// each input twice at 18.9 kHz) into the SPU's CD audio queues; mono goes to both.
    fn resample(&mut self, left_out: &mut VecDeque<i16>, right_out: &mut VecDeque<i16>)
        requires
            old(self).output_buffer@.len() == 0x930,
            old(self).sector_size == 0x800 || old(self).sector_size == 0x924,
            1 <= old(self).sixstep <= 6,
            old(self).bank < 4,
            old(self).left_samples@.len() < 0x1_0000,
            old(self).right_samples@.len() < 0x1_0000,
            (old(self).controller_mode == ControllerMode::TransferParams || old(self).controller_mode
                == ControllerMode::TransferCommand) ==> old(self).command_latch is Some,
        ensures
            final(self).wf(),
            *final(self) == (CDRom {
                left_samples: final(self).left_samples,
                right_samples: final(self).right_samples,
                left_ringbuffer: final(self).left_ringbuffer,
                right_ringbuffer: final(self).right_ringbuffer,
                old_samples: final(self).old_samples,
                older_samples: final(self).older_samples,
                sixstep: final(self).sixstep,
                ..*old(self)
            }),
    {
        let is_stereo = self.subheader.coding_info.speaker_output == SpeakerOutput::Stereo;
        let repeat: usize = if self.subheader.coding_info.sample_rate == 37800 { 1 } else { 2 };
        let channels: usize = if is_stereo { 2 } else { 1 };
        let mut r: usize = 0;
        while r < repeat
            invariant
                r <= repeat,
                channels <= 2,
                1 <= self.sixstep <= 6,
                self.left_samples@.len() < 0x1_0000,
                self.right_samples@.len() < 0x1_0000,
                self.left_samples == old(self).left_samples,
                self.right_samples == old(self).right_samples,
                *self == (CDRom {
                    left_samples: self.left_samples,
                    right_samples: self.right_samples,
                    left_ringbuffer: self.left_ringbuffer,
                    right_ringbuffer: self.right_ringbuffer,
                    old_samples: self.old_samples,
                    older_samples: self.older_samples,
                    sixstep: self.sixstep,
                    ..*old(self)
                }),
            decreases repeat - r,
        {
            let mut channel: usize = 0;
            while channel < channels
                invariant
                    channel <= channels,
                    channels <= 2,
                    1 <= self.sixstep <= 6,
                    self.left_samples@.len() < 0x1_0000,
                    self.right_samples@.len() < 0x1_0000,
                    self.left_samples == old(self).left_samples,
                    self.right_samples == old(self).right_samples,
                    *self == (CDRom {
                        left_samples: self.left_samples,
                        right_samples: self.right_samples,
                        left_ringbuffer: self.left_ringbuffer,
                        right_ringbuffer: self.right_ringbuffer,
                        old_samples: self.old_samples,
                        older_samples: self.older_samples,
                        sixstep: self.sixstep,
                        ..*old(self)
                    }),
                decreases channels - channel,
            {
                let len = if channel == 0 { self.left_samples.len() } else { self.right_samples.len() };
                let mut p: usize = 0;
                while p < len
                    invariant
                        p <= len,
                        len < 0x1_0000,
                        channel < 2,
                        channels <= 2,
                        len == (if channel == 0 { self.left_samples@.len() } else { self.right_samples@.len() }),
                        1 <= self.sixstep <= 6,
                        self.left_samples@.len() < 0x1_0000,
                        self.right_samples@.len() < 0x1_0000,
                        self.left_samples == old(self).left_samples,
                        self.right_samples == old(self).right_samples,
                        *self == (CDRom {
                            left_samples: self.left_samples,
                            right_samples: self.right_samples,
                            left_ringbuffer: self.left_ringbuffer,
                            right_ringbuffer: self.right_ringbuffer,
                            old_samples: self.old_samples,
                            older_samples: self.older_samples,
                            sixstep: self.sixstep,
                            ..*old(self)
                        }),
                    decreases len - p,
                {
                    let slot = p % 32;
                    if channel == 0 {
                        self.left_ringbuffer[slot] = self.left_samples[p];
                    } else {
                        self.right_ringbuffer[slot] = self.right_samples[p];
                    }
                    self.sixstep -= 1;
                    if self.sixstep == 0 {
                        self.sixstep = 6;
                        let ring = if channel == 0 { self.left_ringbuffer } else { self.right_ringbuffer };
                        let mut i: usize = 0;
                        while i < 7
                            invariant
                                i <= 7,
                                p < 0x1_0000,
                                channel < 2,
                            decreases 7 - i,
                        {
                            let sample = self.zigzag_interpolate(p, i, ring);
                            if channels == 1 {
                                left_out.push_back(sample);
                                right_out.push_back(sample);
                            } else if channel == 0 {
                                left_out.push_back(sample);
                            } else {
                                right_out.push_back(sample);
                            }
                            i += 1;
                        }
                    }
                    p += 1;
                }
                channel += 1;
            }
            r += 1;
        }
        self.left_samples.clear();
        self.right_samples.clear();
    }

    /// Decodes an XA audio sector at `pointer` of `data` (18 sound groups after the
    /// 24-byte header) and resamples it into the SPU's CD audio queues.
    fn read_audio(&mut self, data: &Vec<u8>, pointer: usize, left_out: &mut VecDeque<i16>, right_out: &mut VecDeque<i16>) -> (r: Result<(), CdFault>)
        requires
            old(self).wf(),
            pointer + 24 + 0x914 <= data.len(),
        ensures
            final(self).wf(),
            r is Err <==> old(self).subheader.coding_info.bits_per_sample == BitsPerSample::EightBits,
            *final(self) == (CDRom {
                left_samples: final(self).left_samples,
                right_samples: final(self).right_samples,
                left_ringbuffer: final(self).left_ringbuffer,
                right_ringbuffer: final(self).right_ringbuffer,
                old_samples: final(self).old_samples,
                older_samples: final(self).older_samples,
                sixstep: final(self).sixstep,
                ..*old(self)
            }),
    {
        if self.subheader.coding_info.bits_per_sample == BitsPerSample::EightBits {
            return Err(CdFault::EightBitAudio);
        }
        let mut i: usize = 0;
        while i < 0x12
            invariant
                i <= 0x12,
                pointer + 24 + 0x914 <= data.len(),
                self.output_buffer@.len() == 0x930,
                self.sector_size == 0x800 || self.sector_size == 0x924,
                1 <= self.sixstep <= 6,
                self.bank < 4,
                self.left_samples@.len() + self.right_samples@.len() == 224 * i,
                *self == (CDRom {
                    left_samples: self.left_samples,
                    right_samples: self.right_samples,
                    left_ringbuffer: self.left_ringbuffer,
                    right_ringbuffer: self.right_ringbuffer,
                    old_samples: self.old_samples,
                    older_samples: self.older_samples,
                    sixstep: self.sixstep,
                    ..*old(self)
                }),
                (self.controller_mode == ControllerMode::TransferParams || self.controller_mode
                    == ControllerMode::TransferCommand) ==> self.command_latch is Some,
            decreases 0x12 - i,
        {
            self.decode_section(data, pointer + 24 + i * 128);
            i += 1;
        }
        self.resample(left_out, right_out);
        Ok(())
    }

    /// Copies a data sector at `pointer` of `data` into the sector buffer and delivers its
    /// status with interrupt 1, or keeps the status pending while an interrupt is.
    #[verifier::rlimit(60)]
    fn read_data(&mut self, data: &Vec<u8>, pointer: usize, interrupt_register: &mut InterruptRegister)
        requires
            old(self).wf(),
            pointer + 0x930 <= data.len(),
        ensures
            final(self).wf(),
            final(self).output_buffer@ == data@.subrange(pointer as int, pointer + 0x930),
            old(self).irqs == 0 ==> final(self).irqs == 1 && final(self).result_fifo@ == old(self).result_fifo@.push(data_stat(&*old(self)))
                && final(self).pending_stat == old(self).pending_stat
                && final(interrupt_register).bits == (if 1 & (old(self).hntmask.bits & 0x1f) != 0 {
                    old(interrupt_register).bits | InterruptRegister::CDROM
                } else {
                    old(interrupt_register).bits
                }),
            old(self).irqs != 0 ==> final(self).irqs == old(self).irqs && final(self).result_fifo@ == old(self).result_fifo@
                && final(self).pending_stat == Some(data_stat(&*old(self))) && *final(interrupt_register) == *old(interrupt_register),
            *final(self) == (CDRom {
                output_buffer: final(self).output_buffer,
                irqs: final(self).irqs,
                result_fifo: final(self).result_fifo,
                pending_stat: final(self).pending_stat,
                ..*old(self)
            }),
    {
        copy_sector(&mut self.output_buffer, data, pointer);
        let val: u8 = 2u8 | ((self.is_reading as u8) << 5u8) | ((self.is_seeking as u8) << 6u8) | ((
        self.is_playing as u8) << 7u8);
        if self.irqs == 0 {
            self.irqs = 1;
            self.process_irqs(interrupt_register);
            self.result_fifo.push_back(val);
        } else {
            self.pending_stat = Some(val);
        }
    }
}


/// Copies the raw sector at `pointer` of `data` into `buffer`.
fn copy_sector(buffer: &mut Vec<u8>, data: &Vec<u8>, pointer: usize)
    requires
        old(buffer)@.len() == 0x930,
        pointer + 0x930 <= data.len(),
    ensures
        final(buffer)@ == data@.subrange(pointer as int, pointer + 0x930),
{
    let mut i: usize = 0;
    while i < 0x930
        invariant
            i <= 0x930,
            pointer + 0x930 <= data.len(),
            buffer@.len() == 0x930,
            forall|j: int| 0 <= j < i ==> buffer@[j] == data@[pointer + j],
        decreases 0x930 - i,
    {
        buffer.set(i, data[pointer + i]);
        i += 1;
    }
    assert(buffer@ =~= data@.subrange(pointer as int, pointer + 0x930));
}


/// Whether the status and position fields of `new` are `old`'s after reading the sector at
/// the current position: the position moves on by one sector and the subchannel reports
/// the sector read.
pub open spec fn sector_advanced(old: &CDRom, new: &CDRom) -> bool {
    let m = old.current_msf;
    &&& new.current_msf == next_msf(m)
    &&& new.subchannel_q == subchannel_at(m.amm, m.ass, m.asect)
    &&& new.drive_cycles == (if new.is_reading { old.drive_cycles.wrapping_add(sector_cycles(old.double_speed)) } else { old.drive_cycles })
}

impl CDRom {
    /// Reads the sector at the current position from `data`: checks its header, then
    /// delivers a data sector or decodes an XA audio sector of the selected file and channel,
    /// and moves on to the next position.
    #[verifier::rlimit(80)]
    fn read_sector_from(
        &mut self,
        data: &Vec<u8>,
        left_out: &mut VecDeque<i16>,
        right_out: &mut VecDeque<i16>,
        interrupt_register: &mut InterruptRegister,
    ) -> (r: Result<(), CdFault>)
        requires
            old(self).wf(),
            old(self).is_reading,
        ensures
            final(self).wf(),
            r is Ok ==> sector_advanced(&*old(self), &*final(self)),
            r is Ok ==> final(self).is_reading == old(self).is_reading,
    {
        let m = self.current_msf;
        let n: u64 = ((m.amm as u64) * 60 + (m.ass as u64)) * 75 + (m.asect as u64);
        if n < 150 {
            return Err(CdFault::SectorOutOfRange);
        }
        let offset: u64 = (n - 150) * 2352;
        if offset + 0x930 > data.len() as u64 {
            return Err(CdFault::SectorOutOfRange);
        }
        let pointer = self.current_msf.get_pointer();
        self.stat();
        let header_bytes: Vec<u8> = vec![data[pointer + 0xc], data[pointer + 0xd], data[pointer + 0xe], data[pointer + 0xf]];
        let sub_bytes: Vec<u8> = vec![data[pointer + 0x10], data[pointer + 0x11], data[pointer + 0x12], data[pointer + 0x13]];
        if !submode_ok(sub_bytes[2]) || !coding_ok(sub_bytes[3]) {
            return Err(CdFault::BadSubheader);
        }
        let header = CDHeader::from_buf(header_bytes.as_slice());
        let subheader = CDSubheader::from_buf(sub_bytes.as_slice());
        self.current_header = header;
        self.subheader = subheader;
        if header.mode != CDMode::Mode2 {
            return Err(CdFault::NotMode2);
        }
        self.subchannel_q = SubchannelQ {
            track: 1,
            index: 1,
            mm: header.mm,
            ss: header.ss.wrapping_sub(2),
            sect: header.sect,
            amm: header.mm,
            ass: header.ss,
            asect: header.sect,
        };
        if header.mm != self.current_msf.amm || header.ss != self.current_msf.ass || header.sect != self.current_msf.asect {
            return Err(CdFault::PositionMismatch);
        }
        if (self.subheader.read_mode == CDReadMode::Audio && (!self.send_to_spu || !self.subheader.realtime))
            || self.subheader.read_mode == CDReadMode::Video {
            self.subheader.read_mode = CDReadMode::Data;
        }
        if self.subheader.read_mode == CDReadMode::Data {
            self.read_data(data, pointer, interrupt_register);
        } else if !self.xa_filter || (self.filter_file == self.subheader.file_num && self.subheader.channel_num
            == self.filter_channel) {
            self.read_audio(data, pointer, left_out, right_out)?;
        }
        proof {
            lemma_bcd_bound(header_bytes@[0]);
            lemma_bcd_bound(header_bytes@[1]);
            lemma_bcd_bound(header_bytes@[2]);
        }
        let mut msf = m;
        msf.asect = msf.asect + 1;
        if msf.asect >= 75 {
            msf.asect = msf.asect - 75;
            msf.ass = msf.ass + 1;
            if msf.ass >= 60 {
                msf.amm = msf.amm + 1;
                msf.ass = 0;
                if msf.amm == 74 {
                    msf.amm = 0;
                }
            }
        }
        self.current_msf = msf;
        if self.is_reading {
            let cycles = self.get_drive_cycles();
            self.drive_cycles = self.drive_cycles.wrapping_add(cycles);
        }
        Ok(())
    }
}


/// A BCD byte's value is at most 165 (FFh).
proof fn lemma_bcd_bound(v: u8)
    ensures
        spec_bcd_to_u8(v) <= 165,
{
    assert((v >> 4u8) <= 15 && (v & 0xf) <= 15) by (bit_vector);
}


impl CDRom {
    /// What `cd_read_sector` does: `new` (and the other outputs) from `self`.
    pub open spec fn cd_read_sector_done(self, new: CDRom, l0: Seq<i16>, l1: Seq<i16>, r0: Seq<i16>, r1: Seq<i16>, ir0: u32, ir1: u32, r: Result<(), CdFault>) -> bool {
        &&& !self.is_reading ==> r is Ok && new == (CDRom {
            drive_mode: DriveMode::Idle,
            drive_cycles: self.drive_cycles.wrapping_add(1),
            ..self
        })
        &&& self.is_reading && self.game_bytes is None && self.bin_files@.len() == 0
            ==> r == Err::<(), CdFault>(CdFault::NoGameData)
        &&& self.is_reading && r is Ok ==> sector_advanced(&self, &new)
        &&& new.game_bytes == self.game_bytes
        &&& new.bin_files == self.bin_files
    }

    /// The drive's read tick: reads the sector at the current position from the disc image
    /// (or the first track file), or goes idle when reading stopped.
    fn cd_read_sector(
        &mut self,
        left_out: &mut VecDeque<i16>,
        right_out: &mut VecDeque<i16>,
        interrupt_register: &mut InterruptRegister,
    ) -> (r: Result<(), CdFault>)
        requires
            old(self).wf(),
        ensures
            final(self).wf(),
            old(self).cd_read_sector_done(*final(self), old(left_out)@, final(left_out)@, old(right_out)@, final(right_out)@, old(interrupt_register).bits, final(interrupt_register).bits, r),
    {
        if !self.is_reading {
            self.drive_mode = DriveMode::Idle;
            self.drive_cycles = self.drive_cycles.wrapping_add(1);
            return Ok(());
        }
        let game = self.game_bytes.take();
        let mut files: Vec<Vec<u8>> = Vec::new();
        std::mem::swap(&mut files, &mut self.bin_files);
        let result = match &game {
            Some(data) => self.read_sector_from(data, left_out, right_out, interrupt_register),
            None => {
                if files.len() > 0 {
                    self.read_sector_from(&files[0], left_out, right_out, interrupt_register)
                } else {
                    Err(CdFault::NoGameData)
                }
            },
        };
        self.game_bytes = game;
        std::mem::swap(&mut files, &mut self.bin_files);
        result
    }

    /// What `execute_command` does: `new` (and the other outputs) from `self`.
    pub open spec fn execute_command_done(self, new: CDRom, r: Result<(), CdFault>) -> bool {
        &&& r is Ok ==> {
            &&& new.controller_mode == ControllerMode::ClearResponseFifo
            &&& new.controller_param_fifo@.len() == 0
            &&& new.controller_cycles == self.controller_cycles.wrapping_add(10)
            &&& new.irq_latch == (if self.command == 0x7 { 5u8 } else { 3u8 })
        }
        &&& r is Ok && (self.command == 0x1 || self.command == 0xb || self.command == 0xc)
            ==> new.controller_response_fifo@ == seq![stat_byte(&self)]
        &&& !(0x1 <= self.command <= 0x2 || self.command == 0x6 || 0x7 <= self.command <= 0xe
            || self.command == 0x11 || self.command == 0x13 || self.command == 0x14
            || self.command == 0x15 || self.command == 0x16 || self.command == 0x19
            || self.command == 0x1a || self.command == 0x1b || self.command == 0x1e)
            ==> r == Err::<(), CdFault>(CdFault::UnknownCommand(self.command))
    }

    /// Executes the transferred command: the response FIFO is cleared, the interrupt to
    /// raise is 3 unless the command says otherwise, the command runs, and the controller
    /// goes on to deliver the response.
    fn execute_command(&mut self) -> (r: Result<(), CdFault>)
        requires
            old(self).wf(),
        ensures
            final(self).wf(),
            old(self).execute_command_done(*final(self), r),
    {
        self.controller_response_fifo.clear();
        self.irq_latch = 3;
        let command = self.command;
        if command == 0x1 || command == 0xb || command == 0xc {
            self.stat();
        } else if command == 0x2 {
            self.set_loc()?;
        } else if command == 0x6 || command == 0x1b {
            self.cd_read_command();
        } else if command == 0x7 {
            self.motor_on();
        } else if command == 0x8 {
            self.stop();
        } else if command == 0x9 {
            self.pause();
        } else if command == 0xa {
            self.init();
        } else if command == 0xd {
            self.setfilter()?;
        } else if command == 0xe {
            self.set_mode()?;
        } else if command == 0x11 {
            self.getloc_p();
        } else if command == 0x13 {
            self.gettn();
        } else if command == 0x14 {
            self.gettd();
        } else if command == 0x15 || command == 0x16 {
            self.seek();
        } else if command == 0x19 {
            self.commandx19()?;
        } else if command == 0x1a {
            self.get_id();
        } else if command == 0x1e {
            self.toc();
        } else {
            return Err(CdFault::UnknownCommand(command));
        }
        self.controller_mode = ControllerMode::ClearResponseFifo;
        self.controller_cycles = self.controller_cycles.wrapping_add(10);
        self.controller_param_fifo.clear();
        Ok(())
    }

    /// What one controller step does, by the controller's mode.
    pub open spec fn controller_ticked(self, new: CDRom, ir0: u32, ir1: u32, r: Result<(), CdFault>) -> bool {
        match self.controller_mode {
            ControllerMode::ExecuteCommand => self.execute_command_done(new, r) && ir1 == ir0,
            ControllerMode::LatchInterrupts => self.transfer_interrupts_done(new, ir0, ir1) && r is Ok,
            ControllerMode::Idle => self.check_commands_done(new) && ir1 == ir0 && r is Ok,
            ControllerMode::TransferCommand => self.transfer_command_done(new) && ir1 == ir0 && r is Ok,
            ControllerMode::TransferParams => self.transfer_params_done(new) && ir1 == ir0 && r is Ok,
            ControllerMode::ClearResponseFifo => self.clear_response_done(new) && ir1 == ir0 && r is Ok,
            ControllerMode::TransferResponse => self.transfer_response_done(new) && ir1 == ir0 && r is Ok,
        }
    }

    /// The state after the pending second response's countdown, and its delivery when
    /// the count reaches zero.
    pub open spec fn subresponse_ticked(self, new: CDRom) -> bool {
        let a1 = if self.subresponse_mode != SubresponseMode::Disabled {
            CDRom { subresponse_cycles: self.subresponse_cycles.wrapping_sub(1), ..self }
        } else {
            self
        };
        if a1.subresponse_cycles == 0 {
            match a1.subresponse_mode {
                SubresponseMode::Disabled => new == a1,
                SubresponseMode::GetId => a1.read_id_done(new),
                SubresponseMode::GetStat => a1.sub_stat_done(new),
            }
        } else {
            new == a1
        }
    }

    /// The state after the drive's countdown, and its operation when the count reaches
    /// zero: end of seek, status, sector read; playing audio is refused.
    pub open spec fn drive_ticked(self, new: CDRom, l0: Seq<i16>, l1: Seq<i16>, r0: Seq<i16>, r1: Seq<i16>,
        ir0: u32, ir1: u32, r: Result<(), CdFault>) -> bool {
        let a1 = if self.drive_mode != DriveMode::Idle {
            CDRom { drive_cycles: self.drive_cycles.wrapping_sub(1), ..self }
        } else {
            self
        };
        let unchanged = l1 == l0 && r1 == r0 && ir1 == ir0;
        if a1.drive_cycles == 0 {
            match a1.drive_mode {
                DriveMode::Idle => new == a1 && unchanged && r is Ok,
                DriveMode::Seek => a1.seek_cd_done(new) && unchanged && r is Ok,
                DriveMode::Stat => a1.cd_stat_done(new) && unchanged && r is Ok,
                DriveMode::Read => a1.cd_read_sector_done(new, l0, l1, r0, r1, ir0, ir1, r),
                DriveMode::Play => new == a1 && unchanged && r == Err::<(), CdFault>(CdFault::PlayUnsupported),
            }
        } else {
            new == a1 && unchanged && r is Ok
        }
    }

    /// One step of the controller: look for a command, move parameters and the command,
    /// execute it, clear the result FIFO, move the response, latch its interrupt.
    fn tick_controller(&mut self, interrupt_register: &mut InterruptRegister) -> (r: Result<(), CdFault>)
        requires
            old(self).wf(),
        ensures
            final(self).wf(),
            old(self).controller_ticked(*final(self), old(interrupt_register).bits, final(interrupt_register).bits, r),
    {
        match self.controller_mode {
            ControllerMode::Idle => self.check_commands(),
            ControllerMode::ExecuteCommand => self.execute_command()?,
            ControllerMode::LatchInterrupts => self.transfer_interrupts(interrupt_register),
            ControllerMode::TransferCommand => self.transfer_command(),
            ControllerMode::TransferParams => self.transfer_params(),
            ControllerMode::ClearResponseFifo => self.clear_response(),
            ControllerMode::TransferResponse => self.transfer_response(),
        }
        Ok(())
    }

    /// Counts down to a pending second response and delivers it.
    #[verifier::rlimit(60)]
    fn tick_subresponse(&mut self)
        requires
            old(self).wf(),
        ensures
            final(self).wf(),
            old(self).subresponse_ticked(*final(self)),
    {
        if self.subresponse_mode != SubresponseMode::Disabled {
            self.subresponse_cycles = self.subresponse_cycles.wrapping_sub(1);
        }
        if self.subresponse_cycles == 0 {
            match self.subresponse_mode {
                SubresponseMode::Disabled => {},
                SubresponseMode::GetId => self.read_id(),
                SubresponseMode::GetStat => self.sub_stat(),
            }
        }
    }

    /// Counts down the drive's current operation and carries it out: end of seek, status
    /// after seek, sector read.
    fn tick_drive(
        &mut self,
        left_out: &mut VecDeque<i16>,
        right_out: &mut VecDeque<i16>,
        interrupt_register: &mut InterruptRegister,
    ) -> (r: Result<(), CdFault>)
        requires
            old(self).wf(),
        ensures
            final(self).wf(),
            old(self).drive_ticked(*final(self), old(left_out)@, final(left_out)@, old(right_out)@, final(right_out)@,
                old(interrupt_register).bits, final(interrupt_register).bits, r),
    {
        if self.drive_mode != DriveMode::Idle {
            self.drive_cycles = self.drive_cycles.wrapping_sub(1);
        }
        if self.drive_cycles == 0 {
            match self.drive_mode {
                DriveMode::Idle => {},
                DriveMode::Seek => self.seek_cd(),
                DriveMode::Stat => self.cd_stat(),
                DriveMode::Read => self.cd_read_sector(left_out, right_out, interrupt_register)?,
                DriveMode::Play => {
                    return Err(CdFault::PlayUnsupported);
                },
            }
        }
        Ok(())
    }

    /// One CD-ROM tick, `cycles_left` cycles late: the second response, the drive, the
    /// controller, the interrupt line, and the next tick is scheduled.
    pub fn tick(
        &mut self,
        scheduler: &mut Scheduler,
        left_out: &mut VecDeque<i16>,
        right_out: &mut VecDeque<i16>,
        interrupt_register: &mut InterruptRegister,
        cycles_left: usize,
    ) -> (r: Result<(), CdFault>)
        requires
            old(self).wf(),
            old(scheduler).wf(),
            cycles_left <= CDROM_CYCLES,
            old(scheduler).cycles + CDROM_CYCLES <= usize::MAX,
        ensures
            final(self).wf(),
            final(scheduler).wf(),
            r is Ok ==> final(scheduler).events() == old(scheduler).events().insert(
                event_code(EventType::TickCDRom),
                (old(scheduler).cycles + CDROM_CYCLES - cycles_left) as usize,
            ) && final(scheduler).cycles == old(scheduler).cycles,
            r is Err ==> *final(scheduler) == *old(scheduler),
            exists|m1: CDRom, m2: CDRom, i2: u32, rd: Result<(), CdFault>|
                #![trigger old(self).subresponse_ticked(m1), m1.drive_ticked(m2, old(left_out)@, final(left_out)@, old(right_out)@, final(right_out)@, old(interrupt_register).bits, i2, rd)]
            {
                &&& old(self).subresponse_ticked(m1)
                &&& m1.drive_ticked(m2, old(left_out)@, final(left_out)@, old(right_out)@, final(right_out)@,
                    old(interrupt_register).bits, i2, rd)
                &&& rd is Err ==> r == rd && *final(self) == m2 && final(interrupt_register).bits == i2
                &&& rd is Ok ==> exists|m3: CDRom, i3: u32, rc: Result<(), CdFault>|
                    #![trigger m2.controller_ticked(m3, i2, i3, rc)]
                {
                    &&& m2.controller_ticked(m3, i2, i3, rc)
                    &&& *final(self) == m3
                    &&& rc is Err ==> r == rc && final(interrupt_register).bits == i3
                    &&& rc is Ok ==> r is Ok && final(interrupt_register).bits == (if m3.irqs & (m3.hntmask.bits & 0x1f) != 0 {
                        i3 | InterruptRegister::CDROM
                    } else {
                        i3
                    })
                }
            },
    {
        self.tick_subresponse();
        let ghost m1 = *self;
        let ghost i1 = interrupt_register.bits;
        let rd = self.tick_drive(left_out, right_out, interrupt_register);
        let ghost m2 = *self;
        let ghost i2 = interrupt_register.bits;
        if rd.is_err() {
            return rd;
        }
        let rc = self.tick_controller(interrupt_register);
        let ghost m3 = *self;
        let ghost i3 = interrupt_register.bits;
        assert(m2.controller_ticked(m3, i2, i3, rc));
        if rc.is_err() {
            return rc;
        }
        self.process_irqs(interrupt_register);
        scheduler.schedule(EventType::TickCDRom, CDROM_CYCLES - cycles_left);
        Ok(())
    }
}

} // verus!
