# rsx_redux

A PlayStation emulator core whose hardware model is verified with Verus.

## Layout

- `src/` — the verified library.
  - `cpu` — the R3000A processor: instruction decoding and execution, load delays,
    exceptions and COP0.
  - `cpu::bus` — the memory map: main RAM, BIOS, scratchpad, memory control, the interrupt
    controller, and the devices behind it:
    - `dma` — the seven DMA channels, their registers and the GPU/CD-ROM transfers;
    - `gpu` — GP0/GP1 command decoding, display state, VRAM transfers, the command list
      handed to a renderer, and the video timing (horizontal and vertical blanks, counted
      in GPU cycles) with the timer clocking it drives;
    - `timer` — the three root counters;
    - `scheduler` — the event queue driving the devices, with save and restore of its
      pending events;
    - `spu` — sound RAM, the 24 ADPCM voices with their envelopes, the transfer FIFO, key
      on/off, the mixing of one output sample (voices, CD audio, capture buffers, main
      volume) and the reverb registers;
    - `mdec` — the macroblock decoder up to colour conversion;
    - `cdrom` — the drive controller, its commands, XA-ADPCM audio and cue-sheet parsing;
    - `peripherals` — the serial port with a digital/analog pad and a memory card.
- `tests/` — tests of the library on concrete values.
- `app/` — a command-line frontend: it loads the BIOS, an executable or disc image and a
  memory card file, runs the event loop, and performs the floating-point parts that the
  library leaves to its host: converting GPU cycles to CPU cycles. The CD-ROM drive is
  held and ticked here, its audio going to the SPU's CD queues; the memory map does not
  reach the drive or the MDEC. The reverb's floating-point filter is not run; the mixer is
  handed a silent reverb output.

Every function in `src/` carries a contract that Verus checks; the few calls into the
`priority-queue` crate are declared at the top of `scheduler.rs` with the contracts the
library relies on.
