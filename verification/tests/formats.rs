use rsx_redux::cpu::bus::cdrom::cue::{parse_cue_sheet, CueError};
use rsx_redux::cpu::bus::cdrom::CDRom;
use rsx_redux::cpu::bus::dma::dma_channel::DmaChannel;
use rsx_redux::cpu::bus::dma::transfers::DmaFault;
use rsx_redux::cpu::bus::scheduler::Scheduler;

const SHEET: &str = "FILE \"game.bin\" BINARY\r\n  TRACK 01 MODE2/2352\r\n    INDEX 01 00:00:00\r\n  TRACK 02 AUDIO\r\n    INDEX 00 01:02:03\r\n    INDEX 01 +1:04:03\r\n";

#[test]
fn cue_sheet_lists_files_and_tracks() {
    let (files, tracks) = parse_cue_sheet(&SHEET.as_bytes().to_vec()).unwrap();
    assert_eq!(files, vec![b"game.bin".to_vec()]);
    assert_eq!(tracks.len(), 2);
    assert_eq!((tracks[0].file_index, tracks[0].track_num, tracks[0].is_audio), (0, 1, false));
    assert_eq!(tracks[0].indexes.len(), 1);
    assert_eq!(tracks[0].indexes[0].index_num, 1);
    assert_eq!((tracks[0].indexes[0].msf.amm, tracks[0].indexes[0].msf.ass, tracks[0].indexes[0].msf.asect), (0, 0, 0));
    assert_eq!((tracks[1].file_index, tracks[1].track_num, tracks[1].is_audio), (0, 2, true));
    assert_eq!(tracks[1].indexes.len(), 2);
    assert_eq!(tracks[1].indexes[0].index_num, 0);
    assert_eq!((tracks[1].indexes[0].msf.amm, tracks[1].indexes[0].msf.ass, tracks[1].indexes[0].msf.asect), (1, 2, 3));
    assert_eq!((tracks[1].indexes[1].msf.amm, tracks[1].indexes[1].msf.ass, tracks[1].indexes[1].msf.asect), (1, 4, 3));
}

#[test]
fn cue_file_name_needs_quotes() {
    assert_eq!(parse_cue_sheet(&b"FILE game.bin BINARY\n".to_vec()).err(), Some(CueError::InvalidFileLine));
}

#[test]
fn cue_index_needs_three_fields() {
    let sheet = b"FILE \"a.bin\" BINARY\nTRACK 01 MODE2/2352\nINDEX 01\n".to_vec();
    assert_eq!(parse_cue_sheet(&sheet).err(), Some(CueError::InvalidIndexLine));
    let sheet = b"FILE \"a.bin\" BINARY\nTRACK 01 MODE2/2352\nINDEX 01 00:00\n".to_vec();
    assert_eq!(parse_cue_sheet(&sheet).err(), Some(CueError::InvalidIndexLine));
}

#[test]
fn cue_index_needs_numbers() {
    let sheet = b"FILE \"a.bin\" BINARY\nTRACK 01 MODE2/2352\nINDEX 01 00:0x:00\n".to_vec();
    assert_eq!(parse_cue_sheet(&sheet).err(), Some(CueError::InvalidNumber));
    let sheet = b"FILE \"a.bin\" BINARY\nTRACK 01 MODE2/2352\nINDEX 01 00:300:00\n".to_vec();
    assert_eq!(parse_cue_sheet(&sheet).err(), Some(CueError::InvalidNumber));
}

#[test]
fn cdrom_parse_cue_keeps_tracks() {
    let mut scheduler = Scheduler::new();
    let mut cd = CDRom::new(&mut scheduler);
    let files = cd.parse_cue(&SHEET.as_bytes().to_vec()).unwrap();
    assert_eq!(files, vec![b"game.bin".to_vec()]);
    assert_eq!(cd.tracks.len(), 2);
    cd.set_bin_files(vec![vec![0; 16]]);
    assert_eq!(cd.bin_files.len(), 1);
}

#[test]
fn dma_moves_cdrom_data_to_ram() {
    let mut scheduler = Scheduler::new();
    let mut cd = CDRom::new(&mut scheduler);
    for i in 0..0x930 {
        cd.output_buffer[i] = i as u8;
    }
    let mut channel = DmaChannel::new();
    channel.base_address = 0x100;
    channel.block_size = 2;
    let mut ram = vec![0u8; 0x200000];
    assert_eq!(channel.start_cdrom_transfer(&mut ram, &mut cd), Ok(()));
    assert_eq!(&ram[0x100..0x108], &[0x18, 0x19, 0x1a, 0x1b, 0x1c, 0x1d, 0x1e, 0x1f]);
    assert_eq!(cd.buffer_index, 8);
}

#[test]
fn dma_cdrom_transfer_stops_when_the_buffer_is_empty() {
    let mut scheduler = Scheduler::new();
    let mut cd = CDRom::new(&mut scheduler);
    cd.buffer_index = 0x800;
    let mut channel = DmaChannel::new();
    channel.block_size = 1;
    let mut ram = vec![0u8; 0x200000];
    assert_eq!(channel.start_cdrom_transfer(&mut ram, &mut cd), Err(DmaFault::DeviceBufferEmpty));
}
