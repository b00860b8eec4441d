use std::collections::VecDeque;
use crate::bits::lemma_and_le;
use crate::cpu::bus::registers::interrupt_register::InterruptRegister;
use crate::cpu::bus::scheduler::EventType;
use crate::cpu::bus::timer::{ClockSource, Timer, tick_effect, tick_in_range};

use vstd::prelude::*;

verus! {

pub const VRAM_WIDTH: usize = 1024;
pub const VRAM_HEIGHT: usize = 512;
pub const FPS_INTERVAL: u128 = 1000 / 60;
pub const SCREEN_WIDTH: usize = 640;
pub const SCREEN_HEIGHT: usize = 480;
pub const VBLANK_LINE_START: usize = 240;

/// A drawing or transfer request, queued for the renderer.
pub enum GPUCommand {
    CPUtoVram(VRamTransferParams),
    VRAMtoCPU(CPUTransferParams),
    FillVRAM(FillVramParams),
    VramToVram(VramToVramTransferParams),
    RenderPolygon(Polygon),
}

#[derive(Copy, Clone)]
pub struct VramToVramTransferParams {
    pub source_start_x: u32,
    pub source_start_y: u32,
    pub destination_start_x: u32,
    pub destination_start_y: u32,
    pub width: u32,
    pub height: u32,
}

pub struct VRamTransferParams {
    pub halfwords: Vec<u16>,
    pub start_x: u32,
    pub start_y: u32,
    pub width: u32,
    pub height: u32,
}

#[derive(Copy, Clone)]
pub struct CPUTransferParams {
    pub start_x: u32,
    pub start_y: u32,
    pub width: u32,
    pub height: u32,
}

#[derive(Copy, Clone)]
pub struct FillVramParams {
    pub start_x: u32,
    pub start_y: u32,
    pub width: u32,
    pub height: u32,
    pub pixel: u16,
}

#[derive(Copy, Clone, PartialEq, Eq, Structural)]
pub enum DmaDirection {
    Off,
    Fifo,
    ToGP0,
    ToCPU,
}

#[derive(Copy, Clone, PartialEq, Eq, Structural)]
pub enum DisplayMode {
    Ntsc,
    Pal,
}

#[derive(Copy, Clone, PartialEq, Eq, Structural)]
pub enum DisplayDepth {
    Bit15,
    Bit24,
}

#[derive(Copy, Clone, PartialEq, Eq, Structural)]
pub enum Semitransparency {
    Half,
    Add,
    Subtract,
    Quarter,
}

#[derive(Copy, Clone, PartialEq, Eq, Structural)]
pub enum RectangleSize {
    Variable,
    Single,
    EightxEight,
    SixteenxSixteen,
}

#[derive(Copy, Clone, PartialEq, Eq, Structural)]
pub enum TransferType {
    FromVram,
    ToVram,
}

#[derive(Copy, Clone, PartialEq, Eq, Structural)]
pub enum TexturePageColors {
    Bit4,
    Bit8,
    Bit15,
}

/// The register value of a direction (bits 29..30 of GPUSTAT).
pub open spec fn dma_direction_value(d: DmaDirection) -> u32 {
    match d {
        DmaDirection::Off => 0,
        DmaDirection::Fifo => 1,
        DmaDirection::ToGP0 => 2,
        DmaDirection::ToCPU => 3,
    }
}

pub open spec fn semitransparency_value(s: Semitransparency) -> u32 {
    match s {
        Semitransparency::Half => 0,
        Semitransparency::Add => 1,
        Semitransparency::Subtract => 2,
        Semitransparency::Quarter => 3,
    }
}

pub open spec fn texture_page_colors_value(c: TexturePageColors) -> u32 {
    match c {
        TexturePageColors::Bit4 => 0,
        TexturePageColors::Bit8 => 1,
        TexturePageColors::Bit15 => 2,
    }
}

impl DmaDirection {
    pub fn value(&self) -> (r: u32)
        ensures
            r == dma_direction_value(*self),
    {
        match self {
            DmaDirection::Off => 0,
            DmaDirection::Fifo => 1,
            DmaDirection::ToGP0 => 2,
            DmaDirection::ToCPU => 3,
        }
    }
}

impl Semitransparency {
    pub fn value(&self) -> (r: u32)
        ensures
            r == semitransparency_value(*self),
    {
        match self {
            Semitransparency::Half => 0,
            Semitransparency::Add => 1,
            Semitransparency::Subtract => 2,
            Semitransparency::Quarter => 3,
        }
    }
}

impl TexturePageColors {
    pub fn value(&self) -> (r: u32)
        ensures
            r == texture_page_colors_value(*self),
    {
        match self {
            TexturePageColors::Bit4 => 0,
            TexturePageColors::Bit8 => 1,
            TexturePageColors::Bit15 => 2,
        }
    }
}


/// A vertex: screen position, texture coordinate and colour.
#[derive(Copy, Clone)]
pub struct Vertex {
    pub x: i32,
    pub y: i32,
    pub u: u32,
    pub v: u32,
    pub color: Color,
}

/// The texture page attribute (GP0(E1h) or the texpage field of a textured polygon).
#[derive(Copy, Clone)]
pub struct Texpage {
    pub x_base: u32,
    pub y_base1: u32,
    pub semi_transparency: Semitransparency,
    pub texture_page_colors: TexturePageColors,
    pub dither: bool,
    pub draw_to_display_area: bool,
    pub y_base2: u32,
    pub x_flip: bool,
    pub y_flip: bool,
    pub value: u32,
}

impl Texpage {
    /// All fields zero or off, half transparency, 4-bit colours.
    pub fn new() -> (r: Self)
        ensures
            r == Self::spec_new(),
    {
        Self {
            x_base: 0,
            y_base1: 0,
            semi_transparency: Semitransparency::Half,
            texture_page_colors: TexturePageColors::Bit4,
            dither: false,
            draw_to_display_area: false,
            y_base2: 0,
            x_flip: false,
            y_flip: false,
            value: 0,
        }
    }

    /// The fields hold what their bits can: X base 0..15, Y base 0 or 10h, the extra Y bit 0
    /// or 1.
    pub open spec fn wf(&self) -> bool {
        &&& self.x_base <= 0xf
        &&& self.y_base1 == 0 || self.y_base1 == 0x10
        &&& self.y_base2 <= 1
    }

    pub open spec fn spec_new() -> Self {
        Texpage {
            x_base: 0,
            y_base1: 0,
            semi_transparency: Semitransparency::Half,
            texture_page_colors: TexturePageColors::Bit4,
            dither: false,
            draw_to_display_area: false,
            y_base2: 0,
            x_flip: false,
            y_flip: false,
            value: 0,
        }
    }
}

/// A triangle or line to render, with the drawing state that applies to it.
pub struct Polygon {
    pub vertices: Vec<Vertex>,
    pub is_line: bool,
    pub is_shaded: bool,
    pub semitransparent: bool,
    pub textured: bool,
    pub texpage: Option<Texpage>,
    pub modulate: bool,
    pub transparent_mode: u32,
    pub clut: (u32, u32),
    pub texture_mask_x: u32,
    pub texture_mask_y: u32,
    pub texture_offset_x: u32,
    pub texture_offset_y: u32,
    pub x1: u32,
    pub x2: u32,
    pub y1: u32,
    pub y2: u32,
    pub force_mask_bit: bool,
    pub preserve_masked_pixels: bool,
}

impl Polygon {
    /// A polygon with the given vertices and every other attribute zero or off.
    pub fn new(vertices: Vec<Vertex>, is_line: bool) -> (r: Self)
        ensures
            r.vertices@ == vertices@,
            r.is_line == is_line,
            !r.is_shaded && !r.semitransparent && !r.textured && !r.modulate,
            r.texpage.is_none(),
            r.transparent_mode == 0,
            r.clut == (0u32, 0u32),
            r.texture_mask_x == 0 && r.texture_mask_y == 0,
            r.texture_offset_x == 0 && r.texture_offset_y == 0,
            r.x1 == 0 && r.x2 == 0 && r.y1 == 0 && r.y2 == 0,
            !r.force_mask_bit && !r.preserve_masked_pixels,
    {
        Self {
            vertices,
            is_line,
            semitransparent: false,
            textured: false,
            is_shaded: false,
            texpage: None,
            clut: (0, 0),
            transparent_mode: 0,
            modulate: false,
            texture_mask_x: 0,
            texture_mask_y: 0,
            texture_offset_x: 0,
            texture_offset_y: 0,
            x1: 0,
            x2: 0,
            y1: 0,
            y2: 0,
            force_mask_bit: false,
            preserve_masked_pixels: false,
        }
    }
}

/// An RGB colour with a mask bit `a`.
#[derive(Copy, Clone)]
pub struct Color {
    pub r: u8,
    pub g: u8,
    pub b: u8,
    pub a: u8,
}

/// Widens a 5-bit channel to 8 bits by copying its top bits into the low bits.
pub open spec fn widen5(c: u16) -> u8 {
    (((c as u8) << 3u8) | ((c as u8) >> 2u8)) as u8
}

/// The colour of a 15-bit pixel.
pub open spec fn spec_translate15(val: u16) -> Color {
    Color {
        r: widen5(val & 0x1f),
        g: widen5((val >> 5) & 0x1f),
        b: widen5((val >> 10) & 0x1f),
        a: ((val >> 15) & 1) as u8,
    }
}

/// The 15-bit pixel of a colour.
pub open spec fn spec_color_to_u16(color: Color) -> u16 {
    (((color.r as u16) & 0xf8) >> 3u16) | (((color.g as u16) & 0xf8) << 2u16) | (((color.b as u16) & 0xf8) << 7u16) | ((color.a as u16) << 15u16)
}

impl Color {
    /// Expands a 15-bit pixel (5 bits per channel, mask bit 15) to 8 bits per channel.
    pub fn translate15bit_to_24(val: u16) -> (r: Color)
        ensures
            r == spec_translate15(val),
    {
        let r0 = (val & 0x1f) as u8;
        let g0 = ((val >> 5) & 0x1f) as u8;
        let b0 = ((val >> 10) & 0x1f) as u8;
        let a = ((val >> 15) & 0b1) as u8;

        let r = (r0 << 3) | (r0 >> 2);
        let g = (g0 << 3) | (g0 >> 2);
        let b = (b0 << 3) | (b0 >> 2);
        assert(a == (val >> 15) & 1) by (bit_vector)
            requires a == ((val >> 15) & 1) as u8;

        Self { r, g, b, a }
    }

    /// Packs a colour into a 15-bit pixel: the top 5 bits of each channel and the mask bit.
    pub fn color_to_u16(color: Color) -> (r: u16)
        ensures
            r == spec_color_to_u16(color),
    {
        let (cr, cg, cb, ca) = (color.r, color.g, color.b, color.a);
        let mut pixel: u16 = 0;

        pixel |= ((cr as u16) & 0xf8) >> 3;
        pixel |= ((cg as u16) & 0xf8) << 2;
        pixel |= ((cb as u16) & 0xf8) << 7;
        pixel |= (ca as u16) << 15;

        assert(pixel == ((((cr as u16) & 0xf8) >> 3u16) | (((cg as u16) & 0xf8) << 2u16) | (((cb as u16) & 0xf8) << 7u16) | ((ca as u16) << 15u16))) by (bit_vector)
            requires pixel == (((0u16 | (((cr as u16) & 0xf8) >> 3u16)) | (((cg as u16) & 0xf8) << 2u16)) | (((cb as u16) & 0xf8) << 7u16)) | ((ca as u16) << 15u16);
        pixel
    }
}



/// Every attribute of a polygon but its vertices.
#[derive(Copy, Clone)]
pub struct PolygonAttributes {
    pub is_line: bool,
    pub is_shaded: bool,
    pub semitransparent: bool,
    pub textured: bool,
    pub texpage: Option<Texpage>,
    pub modulate: bool,
    pub transparent_mode: u32,
    pub clut: (u32, u32),
    pub texture_mask_x: u32,
    pub texture_mask_y: u32,
    pub texture_offset_x: u32,
    pub texture_offset_y: u32,
    pub x1: u32,
    pub x2: u32,
    pub y1: u32,
    pub y2: u32,
    pub force_mask_bit: bool,
    pub preserve_masked_pixels: bool,
}

pub open spec fn polygon_attributes(p: Polygon) -> PolygonAttributes {
    PolygonAttributes {
        is_line: p.is_line,
        is_shaded: p.is_shaded,
        semitransparent: p.semitransparent,
        textured: p.textured,
        texpage: p.texpage,
        modulate: p.modulate,
        transparent_mode: p.transparent_mode,
        clut: p.clut,
        texture_mask_x: p.texture_mask_x,
        texture_mask_y: p.texture_mask_y,
        texture_offset_x: p.texture_offset_x,
        texture_offset_y: p.texture_offset_y,
        x1: p.x1,
        x2: p.x2,
        y1: p.y1,
        y2: p.y2,
        force_mask_bit: p.force_mask_bit,
        preserve_masked_pixels: p.preserve_masked_pixels,
    }
}

/// The command renders a polygon with exactly these vertices and attributes.
pub open spec fn renders(c: GPUCommand, vertices: Seq<Vertex>, a: PolygonAttributes) -> bool {
    match c {
        GPUCommand::RenderPolygon(p) => p.vertices@ == vertices && polygon_attributes(p) == a,
        _ => false,
    }
}

/// The low 11 bits of `v` as a signed number.
pub open spec fn sign11(v: u32) -> int {
    let m = v & 0x7ff;
    if m < 0x400 { m as int } else { m - 0x800 }
}

/// A vertex position word: two signed 11-bit coordinates, moved by the drawing offset.
pub open spec fn spec_position(e: DrawingEnvironment, word: u32) -> (i32, i32) {
    ((sign11(word & 0xffff) + e.x_offset) as i32, (sign11(word >> 16) + e.y_offset) as i32)
}

/// A colour word: 8-bit red, green and blue.
pub open spec fn spec_color(word: u32) -> Color {
    Color { r: word as u8, g: (word >> 8) as u8, b: (word >> 16) as u8, a: 0 }
}

/// A CLUT attribute: the palette's x (in units of 16 halfwords) and y position in VRAM.
pub open spec fn spec_clut(word: u32) -> (usize, usize) {
    (((word & 0x3f) * 16) as usize, ((word >> 6) & 0x1ff) as usize)
}

pub open spec fn spec_semitransparency(v: u32) -> Semitransparency {
    if v & 3 == 0 {
        Semitransparency::Half
    } else if v & 3 == 1 {
        Semitransparency::Add
    } else if v & 3 == 2 {
        Semitransparency::Subtract
    } else {
        Semitransparency::Quarter
    }
}

/// A texture page decoded from a word keeps its fields within their bits.
pub proof fn lemma_texpage_wf(word: u32)
    ensures
        spec_texpage(word).wf(),
{
    lemma_and_le(word, 0xf);
    lemma_and_le(word >> 11u32, 1);
}

/// A texture page attribute word.
pub open spec fn spec_texpage(word: u32) -> Texpage {
    Texpage {
        x_base: word & 0xf,
        y_base1: word & 0x10,
        semi_transparency: spec_semitransparency(word >> 5),
        texture_page_colors: if (word >> 7) & 3 == 0 {
            TexturePageColors::Bit4
        } else if (word >> 7) & 3 == 1 {
            TexturePageColors::Bit8
        } else {
            TexturePageColors::Bit15
        },
        dither: (word >> 9) & 1 == 1,
        draw_to_display_area: (word >> 10) & 1 == 1,
        y_base2: (word >> 11) & 1,
        x_flip: (word >> 12) & 1 == 1,
        y_flip: (word >> 13) & 1 == 1,
        value: word,
    }
}

pub open spec fn spec_rectangle_size(word: u32) -> RectangleSize {
    if (word >> 27) & 3 == 0 {
        RectangleSize::Variable
    } else if (word >> 27) & 3 == 1 {
        RectangleSize::Single
    } else if (word >> 27) & 3 == 2 {
        RectangleSize::EightxEight
    } else {
        RectangleSize::SixteenxSixteen
    }
}

/// The number of FIFO words (command word included) a GP0 command takes.
pub open spec fn words_for(word: u32) -> nat {
    let upper = word >> 29;
    let shaded = (word >> 28) & 1 == 1;
    let textured = (word >> 26) & 1 == 1;
    if upper == 1 {
        let nv: nat = if (word >> 27) & 1 == 1 { 4 } else { 3 };
        let texture_words: nat = if textured { nv } else { 0 };
        if shaded { 2 * nv + texture_words } else { nv + texture_words + 1 }
    } else if upper == 2 {
        if shaded { 4 } else { 3 }
    } else if upper == 3 {
        2 + (if textured { 1nat } else { 0 }) + (if (word >> 27) & 3 == 0 { 1nat } else { 0 })
    } else if upper == 4 {
        4
    } else if upper == 5 || upper == 6 {
        3
    } else if word >> 24 == 2 {
        3
    } else {
        1
    }
}

/// The primitive attributes once the command word `word` has been decoded.
pub open spec fn decode_primitive(p: PrimitiveState, word: u32) -> PrimitiveState {
    let upper = word >> 29;
    if upper == 1 {
        PrimitiveState {
            num_vertices: if (word >> 27) & 1 == 1 { 4 } else { 3 },
            is_shaded: (word >> 28) & 1 == 1,
            is_textured: (word >> 26) & 1 == 1,
            is_semitransparent: (word >> 25) & 1 == 1,
            modulate: (word >> 24) & 1 == 0,
            ..p
        }
    } else if upper == 2 {
        PrimitiveState {
            is_shaded: (word >> 28) & 1 == 1,
            is_polyline: (word >> 27) & 1 == 1,
            is_semitransparent: (word >> 25) & 1 == 1,
            previous_line_color: None,
            previous_line_vertex: None,
            ..p
        }
    } else if upper == 3 {
        PrimitiveState {
            is_textured: (word >> 26) & 1 == 1,
            is_semitransparent: (word >> 25) & 1 == 1,
            modulate: (word >> 24) & 1 == 0,
            rectangle_size: spec_rectangle_size(word),
            ..p
        }
    } else {
        p
    }
}

/// The GP0 command numbers the GPU implements (GP0(1Fh) and GP0(E0h) are not).
pub open spec fn gp0_supported(word: u32) -> bool {
    let upper = word >> 29;
    let command = word >> 24;
    (1 <= upper && upper <= 6) || command <= 0x1e || command >= 0xe1
}

/// The words a polygon command takes, given its decoded attributes.
pub open spec fn polygon_words(p: PrimitiveState) -> nat {
    let nv = p.num_vertices as nat;
    let texture_words: nat = if p.is_textured { nv } else { 0 };
    if p.is_shaded { 2 * nv + texture_words } else { 1 + nv + texture_words }
}

/// Index of the position word of polygon vertex `i`.
pub open spec fn polygon_position_index(p: PrimitiveState, i: int) -> int {
    let texture_words: int = if p.is_textured { i } else { 0 };
    if p.is_shaded { 2 * i + texture_words + 1 } else { 1 + i + texture_words }
}

/// Vertex `i` of a polygon command held in `b`.
pub open spec fn polygon_vertex(e: DrawingEnvironment, p: PrimitiveState, b: Seq<u32>, i: int) -> Vertex {
    let pi = polygon_position_index(p, i);
    let ci = if p.is_shaded { pi - 1 } else { 0 };
    let pos = spec_position(e, b[pi]);
    Vertex {
        x: pos.0,
        y: pos.1,
        u: if p.is_textured { b[pi + 1] & 0xff } else { 0 },
        v: if p.is_textured { (b[pi + 1] >> 8) & 0xff } else { 0 },
        color: spec_color(b[ci]),
    }
}

/// The palette a polygon command selects (the current one when untextured).
pub open spec fn polygon_clut(p: PrimitiveState, b: Seq<u32>) -> (usize, usize) {
    if p.is_textured {
        spec_clut(b[polygon_position_index(p, 0) + 1] >> 16)
    } else {
        (p.clut_x, p.clut_y)
    }
}

/// The texture page a textured polygon command carries in its second vertex.
pub open spec fn polygon_texpage(p: PrimitiveState, b: Seq<u32>) -> Option<Texpage> {
    if p.is_textured {
        Some(spec_texpage(b[polygon_position_index(p, 1) + 1] >> 16))
    } else {
        None
    }
}

/// The attributes of the triangles of a polygon command.
pub open spec fn polygon_command_attributes(e: DrawingEnvironment, p: PrimitiveState, b: Seq<u32>) -> PolygonAttributes {
    let tp = polygon_texpage(p, b);
    let clut = polygon_clut(p, b);
    PolygonAttributes {
        is_line: false,
        is_shaded: p.is_shaded,
        semitransparent: p.is_semitransparent,
        textured: p.is_textured,
        texpage: tp,
        modulate: p.modulate,
        transparent_mode: match tp {
            Some(t) => semitransparency_value(t.semi_transparency),
            None => semitransparency_value(e.texpage.semi_transparency),
        },
        clut: (clut.0 as u32, clut.1 as u32),
        texture_mask_x: e.texture_window_mask_x,
        texture_mask_y: e.texture_window_mask_y,
        texture_offset_x: e.texture_window_offset_x,
        texture_offset_y: e.texture_window_offset_y,
        x1: e.x1,
        x2: e.x2,
        y1: e.y1,
        y2: e.y2,
        force_mask_bit: e.force_mask_bit,
        preserve_masked_pixels: e.preserve_masked_pixels,
    }
}

/// The attributes of a line.
pub open spec fn line_attributes(e: DrawingEnvironment, p: PrimitiveState) -> PolygonAttributes {
    PolygonAttributes {
        is_line: true,
        is_shaded: p.is_shaded,
        semitransparent: p.is_semitransparent,
        textured: false,
        texpage: None,
        modulate: false,
        transparent_mode: semitransparency_value(e.texpage.semi_transparency),
        clut: (0, 0),
        texture_mask_x: 0,
        texture_mask_y: 0,
        texture_offset_x: 0,
        texture_offset_y: 0,
        x1: e.x1,
        x2: e.x2,
        y1: e.y1,
        y2: e.y2,
        force_mask_bit: e.force_mask_bit,
        preserve_masked_pixels: e.preserve_masked_pixels,
    }
}

/// The line a line command held in `b` draws.
pub open spec fn line_vertices(e: DrawingEnvironment, p: PrimitiveState, b: Seq<u32>) -> Seq<Vertex> {
    let c0 = spec_color(b[0]);
    let p0 = spec_position(e, b[1]);
    let c1 = if p.is_shaded { spec_color(b[2]) } else { c0 };
    let p1 = spec_position(e, if p.is_shaded { b[3] } else { b[2] });
    seq![
        Vertex { x: p0.0, y: p0.1, u: 0, v: 0, color: c0 },
        Vertex { x: p1.0, y: p1.1, u: 0, v: 0, color: c1 },
    ]
}

/// The words a rectangle command takes, given its decoded attributes.
pub open spec fn rectangle_words(p: PrimitiveState) -> nat {
    2 + (if p.is_textured { 1nat } else { 0 }) + (if p.rectangle_size == RectangleSize::Variable { 1nat } else { 0 })
}

/// The size of a rectangle command held in `b`.
pub open spec fn rectangle_dimensions(p: PrimitiveState, b: Seq<u32>) -> (int, int) {
    match p.rectangle_size {
        RectangleSize::Variable => {
            let w = b[if p.is_textured { 3int } else { 2int }];
            ((w & 0x3ff) as int, ((w >> 16) & 0x1ff) as int)
        },
        RectangleSize::EightxEight => (8, 8),
        RectangleSize::SixteenxSixteen => (16, 16),
        RectangleSize::Single => (1, 1),
    }
}

/// The four corners of a rectangle command held in `b`.
pub open spec fn rectangle_corner(e: DrawingEnvironment, p: PrimitiveState, b: Seq<u32>, i: int) -> Vertex {
    let color = spec_color(b[0]);
    let pos = spec_position(e, b[1]);
    let u: u32 = if p.is_textured { b[2] & 0xff } else { 0 };
    let v: u32 = if p.is_textured { (b[2] >> 8) & 0xff } else { 0 };
    let (w, h) = rectangle_dimensions(p, b);
    let dx: int = if i == 1 || i == 3 { w } else { 0 };
    let dy: int = if i == 2 || i == 3 { h } else { 0 };
    Vertex {
        x: (pos.0 + dx) as i32,
        y: (pos.1 + dy) as i32,
        u: (u + dx) as u32,
        v: (v + dy) as u32,
        color,
    }
}

/// The palette a rectangle command selects.
pub open spec fn rectangle_clut(p: PrimitiveState, b: Seq<u32>) -> (usize, usize) {
    if p.is_textured { spec_clut(b[2] >> 16) } else { (p.clut_x, p.clut_y) }
}

/// The attributes of the triangles of a rectangle command.
pub open spec fn rectangle_attributes(e: DrawingEnvironment, p: PrimitiveState, b: Seq<u32>) -> PolygonAttributes {
    let clut = rectangle_clut(p, b);
    PolygonAttributes {
        is_line: false,
        is_shaded: p.is_shaded,
        semitransparent: p.is_semitransparent,
        textured: p.is_textured,
        texpage: if p.is_textured { Some(e.texpage) } else { None },
        modulate: p.modulate,
        transparent_mode: semitransparency_value(e.texpage.semi_transparency),
        clut: (clut.0 as u32, clut.1 as u32),
        texture_mask_x: e.texture_window_mask_x,
        texture_mask_y: e.texture_window_mask_y,
        texture_offset_x: e.texture_window_offset_x,
        texture_offset_y: e.texture_window_offset_y,
        x1: e.x1,
        x2: e.x2,
        y1: e.y1,
        y2: e.y2,
        force_mask_bit: e.force_mask_bit,
        preserve_masked_pixels: e.preserve_masked_pixels,
    }
}

/// The display control registers that GP1 sets.
#[derive(Copy, Clone)]
pub struct DisplayState {
    pub irq_enabled: bool,
    pub display_width: u32,
    pub display_height: u32,
    pub interlaced: bool,
    pub video_mode: DisplayMode,
    pub display_depth: DisplayDepth,
    pub horizontal_flip: bool,
    pub dma_direction: DmaDirection,
    pub horizontal_bits1: u32,
    pub horizontal_bit2: u32,
    pub display_start_x: u32,
    pub display_start_y: u32,
    pub display_range_x: (u32, u32),
    pub display_range_y: (u32, u32),
    pub display_on: bool,
    pub resolution_changed: bool,
}

/// The drawing environment that GP0(E1h..E6h) set.
#[derive(Copy, Clone)]
pub struct DrawingEnvironment {
    pub texpage: Texpage,
    pub x1: u32,
    pub x2: u32,
    pub y1: u32,
    pub y2: u32,
    pub x_offset: i32,
    pub y_offset: i32,
    pub texture_window_mask_x: u32,
    pub texture_window_offset_x: u32,
    pub texture_window_mask_y: u32,
    pub texture_window_offset_y: u32,
    pub force_mask_bit: bool,
    pub preserve_masked_pixels: bool,
}

/// The attributes of the primitive being received, decoded from its command word.
#[derive(Copy, Clone)]
pub struct PrimitiveState {
    pub num_vertices: usize,
    pub is_shaded: bool,
    pub is_textured: bool,
    pub clut_x: usize,
    pub clut_y: usize,
    pub is_semitransparent: bool,
    pub modulate: bool,
    pub rectangle_size: RectangleSize,
    pub is_polyline: bool,
    pub previous_line_vertex: Option<Vertex>,
    pub previous_line_color: Option<Color>,
}

/// The position of a CPU-to-VRAM or VRAM-to-CPU transfer.
#[derive(Copy, Clone)]
pub struct TransferState {
    pub transfer_x: u32,
    pub transfer_y: u32,
    pub transfer_width: u32,
    pub transfer_height: u32,
    pub transfer_type: Option<TransferType>,
    pub read_x: u32,
    pub read_y: u32,
    pub cpu_transfer_x: u32,
    pub cpu_transfer_y: u32,
    pub cpu_transfer_width: u32,
    pub cpu_transfer_height: u32,
    pub transfer_params: Option<CPUTransferParams>,
}

/// The display state of a GPU after power-on.
pub open spec fn initial_display() -> DisplayState {
    DisplayState {
        irq_enabled: false,
        display_width: 320,
        display_height: 240,
        interlaced: false,
        video_mode: DisplayMode::Ntsc,
        display_depth: DisplayDepth::Bit15,
        horizontal_flip: false,
        dma_direction: DmaDirection::Off,
        horizontal_bits1: 0,
        horizontal_bit2: 0,
        display_start_x: 0,
        display_start_y: 0,
        display_range_x: (512, 3072),
        display_range_y: (16, 256),
        display_on: true,
        resolution_changed: false,
    }
}

/// The drawing environment state of a GPU after power-on.
pub open spec fn initial_environment() -> DrawingEnvironment {
    DrawingEnvironment {
        texpage: Texpage::spec_new(),
        x1: 0,
        x2: 0,
        y1: 0,
        y2: 0,
        x_offset: 0,
        y_offset: 0,
        texture_window_mask_x: 0,
        texture_window_offset_x: 0,
        texture_window_mask_y: 0,
        texture_window_offset_y: 0,
        force_mask_bit: false,
        preserve_masked_pixels: false,
    }
}

/// The primitive state of a GPU after power-on.
pub open spec fn initial_primitive() -> PrimitiveState {
    PrimitiveState {
        num_vertices: 0,
        is_shaded: false,
        is_textured: false,
        clut_x: 0,
        clut_y: 0,
        is_semitransparent: false,
        modulate: false,
        rectangle_size: RectangleSize::Single,
        is_polyline: false,
        previous_line_vertex: None,
        previous_line_color: None,
    }
}

/// The transfer state of a GPU after power-on.
pub open spec fn initial_transfer() -> TransferState {
    TransferState {
        transfer_x: 0,
        transfer_y: 0,
        transfer_width: 0,
        transfer_height: 0,
        transfer_type: None,
        read_x: 0,
        read_y: 0,
        cpu_transfer_x: 0,
        cpu_transfer_y: 0,
        cpu_transfer_width: 0,
        cpu_transfer_height: 0,
        transfer_params: None,
    }
}

/// The graphics processor: its command FIFO state machine, drawing environment and display
/// registers. Drawing commands are handed on, fully decoded, in `gpu_commands`.
pub struct GPU {
    pub frame_finished: bool,
    pub current_line: usize,
    pub even_flag: u32,
    pub gpuread: u32,
    pub previous_time: u128,
    pub debug_on: bool,
    pub dotclock_cycles: usize,
    pub display: DisplayState,
    pub env: DrawingEnvironment,
    pub primitive: PrimitiveState,
    pub transfer: TransferState,
    pub current_command_buffer: VecDeque<u32>,
    pub words_left: usize,
    pub commands_ready: bool,
    pub gpu_commands: Vec<GPUCommand>,
    pub gpuread_fifo: VecDeque<u16>,
    pub vram_transfer_halfwords: Vec<u16>,
    pub vram_read_tex: Vec<u8>,
    pub vram_write_tex: Vec<u8>,
}

/// The horizontal resolutions GP1(08h) can select.
pub open spec fn valid_display_width(w: u32) -> bool {
    w == 256 || w == 320 || w == 368 || w == 512 || w == 640
}

/// Dots per video clock period of a horizontal resolution.
pub open spec fn spec_dotclock(w: u32) -> u32 {
    if w == 320 {
        8
    } else if w == 640 {
        4
    } else if w == 256 {
        10
    } else if w == 512 {
        5
    } else {
        7
    }
}

/// The horizontal resolution GP1(08h) selects.
pub open spec fn mode_width(word: u32) -> u32 {
    if (word >> 6) & 1 == 1 {
        368
    } else if word & 3 == 0 {
        256
    } else if word & 3 == 1 {
        320
    } else if word & 3 == 2 {
        512
    } else {
        640
    }
}

/// GP1(08h) without the 368-dot bit (bit 6) selects the width by bits 0-1 from 256, 320,
/// 512, 640 dots, with dot clock dividers 10, 8, 5, 4; with bit 6 the width is 368 dots.
pub proof fn lemma_display_mode_width(d: DisplayState, word: u32)
    ensures
        (word >> 6) & 1 == 0 ==> spec_display_mode(d, word).display_width
            == seq![256u32, 320u32, 512u32, 640u32][(word & 3) as int],
        (word >> 6) & 1 == 0 ==> spec_dotclock(spec_display_mode(d, word).display_width)
            == seq![10u32, 8u32, 5u32, 4u32][(word & 3) as int],
        (word >> 6) & 1 == 1 ==> spec_display_mode(d, word).display_width == 368,
        word >> 24 == 8 && (word >> 6) & 1 == 0 ==> spec_gp1_display(d, word).display_width
            == seq![256u32, 320u32, 512u32, 640u32][(word & 3) as int],
{
    lemma_and_le(word, 3);
}

/// The vertical resolution GP1(08h) selects: 480 lines only when interlaced.
pub open spec fn mode_height(word: u32) -> u32 {
    if (word >> 5) & 1 == 1 && (word >> 2) & 1 == 1 { 480 } else { 240 }
}

/// The display state after GP1(08h) (display mode).
pub open spec fn spec_display_mode(d: DisplayState, word: u32) -> DisplayState {
    DisplayState {
        display_width: mode_width(word),
        display_height: mode_height(word),
        horizontal_bits1: word & 3,
        horizontal_bit2: (word >> 6) & 1,
        interlaced: (word >> 5) & 1 == 1,
        resolution_changed: d.resolution_changed || d.display_width != mode_width(word)
            || d.display_height != mode_height(word),
        video_mode: if (word >> 3) & 1 == 0 { DisplayMode::Ntsc } else { DisplayMode::Pal },
        display_depth: if (word >> 4) & 1 == 0 { DisplayDepth::Bit15 } else { DisplayDepth::Bit24 },
        horizontal_flip: (word >> 7) & 1 == 1,
        ..d
    }
}

/// The DMA direction GP1(04h) selects.
pub open spec fn spec_dma_direction(word: u32) -> DmaDirection {
    if word & 3 == 0 {
        DmaDirection::Off
    } else if word & 3 == 1 {
        DmaDirection::Fifo
    } else if word & 3 == 2 {
        DmaDirection::ToGP0
    } else {
        DmaDirection::ToCPU
    }
}

/// The GP1 command numbers the GPU implements.
pub open spec fn gp1_supported(word: u32) -> bool {
    let command = word >> 24;
    command <= 0x8 || (0x10 <= command && command <= 0x1f)
}

/// The display state after a GP1 command.
pub open spec fn spec_gp1_display(d: DisplayState, word: u32) -> DisplayState {
    let command = word >> 24;
    if command == 2 {
        DisplayState { irq_enabled: false, ..d }
    } else if command == 3 {
        DisplayState { display_on: word & 1 == 1, ..d }
    } else if command == 4 {
        DisplayState { dma_direction: spec_dma_direction(word), ..d }
    } else if command == 5 {
        DisplayState { display_start_x: word & 0x3ff, display_start_y: (word >> 10) & 0x1ff, ..d }
    } else if command == 6 {
        DisplayState { display_range_x: (word & 0xfff, (word >> 12) & 0xfff), ..d }
    } else if command == 7 {
        DisplayState { display_range_y: (word & 0x3ff, (word >> 10) & 0x3ff), ..d }
    } else if command == 8 {
        spec_display_mode(d, word)
    } else {
        d
    }
}

/// The value GP1(10h..1Fh) latches into GPUREAD, if the register number is one it reports:
/// the texture window, a drawing area corner or the drawing offset.
pub open spec fn internal_register_value(e: DrawingEnvironment, word: u32) -> Option<u32> {
    if word & 7 == 2 {
        Some(e.texture_window_mask_x | (e.texture_window_mask_y << 5u32) | (e.texture_window_offset_x << 10u32) | (e.texture_window_offset_y << 15u32))
    } else if word & 7 == 3 {
        Some(e.x1 | (e.y1 << 10u32))
    } else if word & 7 == 4 {
        Some(e.x2 | (e.y2 << 10u32))
    } else if word & 7 == 5 {
        Some((e.x_offset as u32) | ((e.y_offset as u32) << 11u32))
    } else {
        None
    }
}

/// The effect of a GP1 (display control) command on the GPU state.
pub open spec fn gp1_effect(old: &GPU, new: &GPU, word: u32) -> bool {
    let command = word >> 24;
    &&& new.display == spec_gp1_display(old.display, word)
    &&& new.current_command_buffer@ == (if command <= 1 { Seq::<u32>::empty() } else { old.current_command_buffer@ })
    &&& new.transfer == (if command == 0 { TransferState { transfer_type: None, ..old.transfer } } else { old.transfer })
    &&& new.env == (if command == 0 {
        DrawingEnvironment {
            texpage: Texpage::spec_new(),
            texture_window_mask_x: 0,
            texture_window_mask_y: 0,
            texture_window_offset_x: 0,
            texture_window_offset_y: 0,
            ..old.env
        }
    } else {
        old.env
    })
    &&& new.gpuread == (if 0x10 <= command <= 0x1f {
        match internal_register_value(old.env, word) {
            Some(v) => v,
            None => old.gpuread,
        }
    } else {
        old.gpuread
    })
    &&& new.primitive == old.primitive
    &&& new.words_left == old.words_left
    &&& new.gpu_commands@ == old.gpu_commands@
    &&& new.commands_ready == old.commands_ready
    &&& new.gpuread_fifo@ == old.gpuread_fifo@
    &&& new.vram_transfer_halfwords@ == old.vram_transfer_halfwords@
    &&& new.frame_finished == old.frame_finished
    &&& new.current_line == old.current_line
    &&& new.even_flag == old.even_flag
    &&& new.previous_time == old.previous_time
    &&& new.debug_on == old.debug_on
    &&& new.dotclock_cycles == old.dotclock_cycles
    &&& new.vram_read_tex@ == old.vram_read_tex@
    &&& new.vram_write_tex@ == old.vram_write_tex@
}


/// The command uploads these halfwords into this VRAM rectangle.
pub open spec fn uploads(c: GPUCommand, halfwords: Seq<u16>, t: TransferState) -> bool {
    match c {
        GPUCommand::CPUtoVram(params) => {
            &&& params.halfwords@ == halfwords
            &&& params.start_x == t.transfer_x
            &&& params.start_y == t.transfer_y
            &&& params.width == t.transfer_width
            &&& params.height == t.transfer_height
        },
        _ => false,
    }
}

/// Whether the next halfword is the last one of a CPU-to-VRAM transfer.
pub open spec fn vram_step_completes(t: TransferState) -> bool {
    t.read_x + 1 == t.transfer_width && t.read_y + 1 == t.transfer_height
}

/// The transfer position after one more halfword of a CPU-to-VRAM transfer.
pub open spec fn vram_step(t: TransferState) -> TransferState {
    if t.read_x + 1 == t.transfer_width {
        if t.read_y + 1 == t.transfer_height {
            TransferState {
                transfer_type: None,
                read_x: 0,
                read_y: 0,
                transfer_width: 0,
                transfer_height: 0,
                transfer_x: 0,
                transfer_y: 0,
                ..t
            }
        } else {
            TransferState { read_x: 0, read_y: (t.read_y + 1) as u32, ..t }
        }
    } else {
        TransferState { read_x: (t.read_x + 1) as u32, ..t }
    }
}

/// The effect of one halfword of a CPU-to-VRAM transfer: it is collected, and with the last
/// one the whole rectangle is queued for upload.
pub open spec fn vram_halfword_effect(old: &GPU, new: &GPU, halfword: u16) -> bool {
    let h = old.vram_transfer_halfwords@.push(halfword);
    &&& new.transfer == vram_step(old.transfer)
    &&& if vram_step_completes(old.transfer) {
        &&& new.vram_transfer_halfwords@ == Seq::<u16>::empty()
        &&& new.gpu_commands@.len() == old.gpu_commands@.len() + 1
        &&& new.gpu_commands@.subrange(0, old.gpu_commands@.len() as int) == old.gpu_commands@
        &&& uploads(new.gpu_commands@.last(), h, old.transfer)
        &&& new.commands_ready
    } else {
        &&& new.vram_transfer_halfwords@ == h
        &&& new.gpu_commands@ == old.gpu_commands@
        &&& new.commands_ready == old.commands_ready
    }
}

/// The fields a GP0 command never touches agree.
pub open spec fn same_context(a: &GPU, b: &GPU) -> bool {
    &&& a.frame_finished == b.frame_finished
    &&& a.current_line == b.current_line
    &&& a.even_flag == b.even_flag
    &&& a.gpuread == b.gpuread
    &&& a.previous_time == b.previous_time
    &&& a.debug_on == b.debug_on
    &&& a.dotclock_cycles == b.dotclock_cycles
    &&& a.display == b.display
    &&& a.gpuread_fifo@ == b.gpuread_fifo@
    &&& a.vram_read_tex@ == b.vram_read_tex@
    &&& a.vram_write_tex@ == b.vram_write_tex@
}

/// `new` holds the commands of `old` followed by exactly these rendered triangles/lines.
pub open spec fn appends_renders(old: Seq<GPUCommand>, new: Seq<GPUCommand>, polys: Seq<Seq<Vertex>>, a: PolygonAttributes) -> bool {
    &&& new.len() == old.len() + polys.len()
    &&& new.subrange(0, old.len() as int) == old
    &&& forall|k: int| 0 <= k < polys.len() ==> #[trigger] renders(new[old.len() + k], polys[k], a)
}

/// The triangles a polygon command held in `b` is split into.
pub open spec fn polygon_triangles(e: DrawingEnvironment, p: PrimitiveState, b: Seq<u32>) -> Seq<Seq<Vertex>> {
    let v = |i: int| polygon_vertex(e, p, b, i);
    if p.num_vertices > 3 {
        seq![seq![v(0), v(1), v(2)], seq![v(1), v(2), v(3)]]
    } else {
        seq![seq![v(0), v(1), v(2)]]
    }
}

/// The two triangles a rectangle command held in `b` is split into.
pub open spec fn rectangle_triangles(e: DrawingEnvironment, p: PrimitiveState, b: Seq<u32>) -> Seq<Seq<Vertex>> {
    let v = |i: int| rectangle_corner(e, p, b, i);
    seq![seq![v(0), v(1), v(2)], seq![v(1), v(2), v(3)]]
}

/// The fill colour of GP0(02h): the top 5 bits of each channel.
pub open spec fn fill_pixel(word: u32) -> u16 {
    ((((word & 0xff) >> 3u32) | ((((word >> 8) & 0xff) >> 3u32) << 5u32) | ((((word >> 16) & 0xff) >> 3u32) << 10u32))) as u16
}

/// The effect of executing the complete command held in `b` whose attributes were decoded
/// into `p`, on every part of the state but the command FIFO.
pub open spec fn execute_effect(old: &GPU, new: &GPU, p: PrimitiveState, b: Seq<u32>) -> bool {
    let w = b[0];
    let upper = w >> 29;
    let command = w >> 24;
    let e = old.env;
    &&& same_context(old, new)
    &&& if upper == 1 {
        let clut = polygon_clut(p, b);
        &&& new.primitive == PrimitiveState { num_vertices: 0, clut_x: clut.0, clut_y: clut.1, ..p }
        &&& appends_renders(old.gpu_commands@, new.gpu_commands@, polygon_triangles(e, p, b), polygon_command_attributes(e, p, b))
        &&& new.commands_ready
        &&& new.env == e
        &&& new.transfer == old.transfer
        &&& new.vram_transfer_halfwords@ == old.vram_transfer_halfwords@
    } else if upper == 2 {
        &&& new.primitive == p
        &&& appends_renders(old.gpu_commands@, new.gpu_commands@, seq![line_vertices(e, p, b)], line_attributes(e, p))
        &&& new.commands_ready
        &&& new.env == e
        &&& new.transfer == old.transfer
        &&& new.vram_transfer_halfwords@ == old.vram_transfer_halfwords@
    } else if upper == 3 {
        let clut = rectangle_clut(p, b);
        &&& new.primitive == PrimitiveState { num_vertices: 0, clut_x: clut.0, clut_y: clut.1, ..p }
        &&& appends_renders(old.gpu_commands@, new.gpu_commands@, rectangle_triangles(e, p, b), rectangle_attributes(e, p, b))
        &&& new.commands_ready
        &&& new.env == e
        &&& new.transfer == old.transfer
        &&& new.vram_transfer_halfwords@ == old.vram_transfer_halfwords@
    } else if upper == 4 {
        &&& new.primitive == p
        &&& new.gpu_commands@.len() == old.gpu_commands@.len() + 1
        &&& new.gpu_commands@.subrange(0, old.gpu_commands@.len() as int) == old.gpu_commands@
        &&& new.gpu_commands@.last() == GPUCommand::VramToVram(VramToVramTransferParams {
            source_start_x: b[1] & 0x3ff,
            source_start_y: (b[1] >> 16) & 0x1ff,
            destination_start_x: b[2] & 0x3ff,
            destination_start_y: (b[2] >> 16) & 0x1ff,
            width: b[3] & 0x3ff,
            height: (b[3] >> 16) & 0x1ff,
        })
        &&& new.commands_ready
        &&& new.env == e
        &&& new.transfer == old.transfer
        &&& new.vram_transfer_halfwords@ == old.vram_transfer_halfwords@
    } else if upper == 5 {
        &&& new.primitive == p
        &&& new.gpu_commands@ == old.gpu_commands@
        &&& new.commands_ready == old.commands_ready
        &&& new.env == e
        &&& new.transfer == TransferState {
            transfer_type: Some(TransferType::ToVram),
            transfer_x: b[1] & 0x3ff,
            transfer_y: (b[1] >> 16) & 0x3ff,
            transfer_width: if b[2] & 0x3ff == 0 { 0x400 } else { b[2] & 0x3ff },
            transfer_height: if (b[2] >> 16) & 0x1ff == 0 { 0x200 } else { (b[2] >> 16) & 0x1ff },
            read_x: 0,
            read_y: 0,
            ..old.transfer
        }
        &&& new.vram_transfer_halfwords@ == old.vram_transfer_halfwords@
    } else if upper == 6 {
        &&& new.primitive == p
        &&& new.gpu_commands@.len() == old.gpu_commands@.len() + 1
        &&& new.gpu_commands@.subrange(0, old.gpu_commands@.len() as int) == old.gpu_commands@
        &&& new.gpu_commands@.last() == GPUCommand::VRAMtoCPU(CPUTransferParams {
            start_x: b[1] & 0x3ff,
            start_y: (b[1] >> 16) & 0x1ff,
            width: b[2] & 0x3ff,
            height: (b[2] >> 16) & 0x1ff,
        })
        &&& new.commands_ready
        &&& new.env == e
        &&& new.transfer == TransferState {
            transfer_type: Some(TransferType::FromVram),
            read_x: 0,
            read_y: 0,
            ..old.transfer
        }
        &&& new.vram_transfer_halfwords@ == old.vram_transfer_halfwords@
    } else if command == 0x2 {
        &&& new.primitive == p
        &&& new.gpu_commands@.len() == old.gpu_commands@.len() + 1
        &&& new.gpu_commands@.subrange(0, old.gpu_commands@.len() as int) == old.gpu_commands@
        &&& new.gpu_commands@.last() == GPUCommand::FillVRAM(FillVramParams {
            start_x: b[1] & 0x3f0,
            start_y: (b[1] >> 16) & 0x3ff,
            width: ((b[2] & 0x3ff) + 0xf) as u32 & !0xfu32,
            height: (b[2] >> 16) & 0x1ff,
            pixel: fill_pixel(w),
        })
        &&& new.commands_ready
        &&& new.env == e
        &&& new.transfer == old.transfer
        &&& new.vram_transfer_halfwords@ == old.vram_transfer_halfwords@
    } else {
        &&& new.primitive == p
        &&& new.gpu_commands@ == old.gpu_commands@
        &&& new.commands_ready == old.commands_ready
        &&& new.transfer == old.transfer
        &&& new.vram_transfer_halfwords@ == old.vram_transfer_halfwords@
        &&& new.env == (if command == 0xe1 {
            DrawingEnvironment { texpage: spec_texpage(w), ..e }
        } else if command == 0xe2 {
            DrawingEnvironment {
                texture_window_mask_x: ((w & 0x1f) * 8) as u32,
                texture_window_mask_y: (((w >> 5) & 0x1f) * 8) as u32,
                texture_window_offset_x: (((w >> 10) & 0x1f) * 8) as u32,
                texture_window_offset_y: (((w >> 15) & 0x1f) * 8) as u32,
                ..e
            }
        } else if command == 0xe3 {
            DrawingEnvironment { x1: w & 0x3ff, y1: (w >> 10) & 0x3ff, ..e }
        } else if command == 0xe4 {
            DrawingEnvironment { x2: w & 0x3ff, y2: (w >> 10) & 0x3ff, ..e }
        } else if command == 0xe5 {
            DrawingEnvironment { x_offset: sign11(w) as i32, y_offset: sign11(w >> 11) as i32, ..e }
        } else if command == 0xe6 {
            DrawingEnvironment { force_mask_bit: w & 1 == 1, preserve_masked_pixels: (w >> 1) & 1 == 1, ..e }
        } else {
            e
        })
    }
}


/// The words a polyline segment still takes: the first segment carries its start vertex.
pub open spec fn polyline_segment_words(p: PrimitiveState) -> nat {
    if p.previous_line_color.is_none() {
        if p.is_shaded { 4 } else { 3 }
    } else {
        if p.is_shaded { 2 } else { 1 }
    }
}

/// The segment of a polyline whose remaining words are held in `b`: it starts where the
/// previous segment ended, or at the first vertex of `b`.
pub open spec fn polyline_segment(e: DrawingEnvironment, p: PrimitiveState, b: Seq<u32>) -> (Vertex, Vertex) {
    let k0: int = if p.previous_line_color.is_some() { 0 } else { 1 };
    let color0 = match p.previous_line_color {
        Some(c) => c,
        None => spec_color(b[0]),
    };
    let vertex0 = match p.previous_line_vertex {
        Some(v) => v,
        None => {
            let pos = spec_position(e, b[k0]);
            Vertex { x: pos.0, y: pos.1, u: 0, v: 0, color: color0 }
        },
    };
    let k1: int = if p.previous_line_vertex.is_some() { k0 } else { k0 + 1 };
    let color1 = if p.is_shaded { spec_color(b[k1]) } else { color0 };
    let k2: int = if p.is_shaded { k1 + 1 } else { k1 };
    let pos1 = spec_position(e, b[k2]);
    (vertex0, Vertex { x: pos1.0, y: pos1.1, u: 0, v: 0, color: color1 })
}

/// The polyline terminator word (5000_5000h pattern).
pub open spec fn is_polyline_terminator(word: u32) -> bool {
    word & 0xf000f000 == 0x50005000
}

/// The effect of a GP0 word received while a polyline is being drawn.
pub open spec fn polyline_word_effect(old: &GPU, new: &GPU, word: u32) -> bool {
    let p = old.primitive;
    let e = old.env;
    let b1 = old.current_command_buffer@.push(word);
    &&& same_context(old, new)
    &&& new.env == e
    &&& new.transfer == old.transfer
    &&& new.vram_transfer_halfwords@ == old.vram_transfer_halfwords@
    &&& if is_polyline_terminator(word) {
        &&& new.primitive == PrimitiveState { is_polyline: false, previous_line_color: None, previous_line_vertex: None, ..p }
        &&& new.words_left == 0
        &&& new.current_command_buffer@ == old.current_command_buffer@
        &&& new.gpu_commands@ == old.gpu_commands@
        &&& new.commands_ready == old.commands_ready
    } else if old.words_left == 1 {
        let (v0, v1) = polyline_segment(e, p, b1);
        &&& new.primitive == PrimitiveState { previous_line_color: Some(v1.color), previous_line_vertex: Some(v1), ..p }
        &&& new.words_left == (if p.is_shaded { 2usize } else { 1 })
        &&& new.current_command_buffer@ == Seq::<u32>::empty()
        &&& appends_renders(old.gpu_commands@, new.gpu_commands@, seq![seq![v0, v1]], line_attributes(e, p))
        &&& new.commands_ready
    } else {
        &&& new.primitive == p
        &&& new.words_left == old.words_left - 1
        &&& new.current_command_buffer@ == b1
        &&& new.gpu_commands@ == old.gpu_commands@
        &&& new.commands_ready == old.commands_ready
    }
}

/// The effect of a GP0 word received during a CPU-to-VRAM transfer: its low halfword, and its
/// high halfword unless the low one completed the transfer, go to VRAM.
pub open spec fn vram_word_effect(old: &GPU, new: &GPU, word: u32) -> bool {
    let t = old.transfer;
    let t1 = vram_step(t);
    let h = old.vram_transfer_halfwords@;
    let lo = word as u16;
    let hi = (word >> 16) as u16;
    &&& same_context(old, new)
    &&& new.env == old.env
    &&& new.primitive == old.primitive
    &&& new.current_command_buffer@ == old.current_command_buffer@
    &&& new.words_left == old.words_left
    &&& if vram_step_completes(t) {
        &&& new.transfer == t1
        &&& new.vram_transfer_halfwords@ == Seq::<u16>::empty()
        &&& new.gpu_commands@.len() == old.gpu_commands@.len() + 1
        &&& new.gpu_commands@.subrange(0, old.gpu_commands@.len() as int) == old.gpu_commands@
        &&& uploads(new.gpu_commands@.last(), h.push(lo), t)
        &&& new.commands_ready
    } else {
        &&& new.transfer == vram_step(t1)
        &&& if vram_step_completes(t1) {
            &&& new.vram_transfer_halfwords@ == Seq::<u16>::empty()
            &&& new.gpu_commands@.len() == old.gpu_commands@.len() + 1
            &&& new.gpu_commands@.subrange(0, old.gpu_commands@.len() as int) == old.gpu_commands@
            &&& uploads(new.gpu_commands@.last(), h.push(lo).push(hi), t1)
            &&& new.commands_ready
        } else {
            &&& new.vram_transfer_halfwords@ == h.push(lo).push(hi)
            &&& new.gpu_commands@ == old.gpu_commands@
            &&& new.commands_ready == old.commands_ready
        }
    }
}

/// The effect of a GP0 word that belongs to a command: it joins the FIFO (its first word is
/// decoded), and the command is executed once complete.
pub open spec fn command_word_effect(old: &GPU, new: &GPU, word: u32) -> bool {
    let p = old.primitive;
    let p1 = if old.words_left == 0 { decode_primitive(p, word) } else { p };
    let wl1 = if old.words_left == 0 { words_for(word) } else { old.words_left as nat };
    let b1 = old.current_command_buffer@.push(word);
    if wl1 == 1 {
        &&& new.current_command_buffer@ == Seq::<u32>::empty()
        &&& new.words_left == 0
        &&& execute_effect(old, new, p1, b1)
    } else {
        &&& new.current_command_buffer@ == b1
        &&& new.words_left == wl1 - 1
        &&& new.primitive == p1
        &&& same_context(old, new)
        &&& new.env == old.env
        &&& new.transfer == old.transfer
        &&& new.vram_transfer_halfwords@ == old.vram_transfer_halfwords@
        &&& new.gpu_commands@ == old.gpu_commands@
        &&& new.commands_ready == old.commands_ready
    }
}

/// The effect of a GP0 (drawing) word on the GPU state.
pub open spec fn gp0_effect(old: &GPU, new: &GPU, word: u32) -> bool {
    let p = old.primitive;
    if old.transfer.transfer_type == Some(TransferType::ToVram) {
        vram_word_effect(old, new, word)
    } else if p.is_polyline {
        polyline_word_effect(old, new, word)
    } else {
        command_word_effect(old, new, word)
    }
}

/// Bits 0..1 of GP1(04h): the DMA direction.
fn decode_dma_direction(word: u32) -> (r: DmaDirection)
    ensures
        r == spec_dma_direction(word),
{
    proof { lemma_and_le(word, 3); }
    match word & 0x3 {
        0 => DmaDirection::Off,
        1 => DmaDirection::Fifo,
        2 => DmaDirection::ToGP0,
        _ => DmaDirection::ToCPU,
    }
}

/// Bits 0..1 and 6 of GP1(08h): the horizontal resolution.
fn decode_mode_width(word: u32) -> (r: u32)
    ensures
        r == mode_width(word),
{
    proof { lemma_and_le(word, 3); }
    if (word >> 6) & 0x1 == 1 {
        368
    } else {
        match word & 0x3 {
            0 => 256,
            1 => 320,
            2 => 512,
            _ => 640,
        }
    }
}

/// Bits 2 and 5 of GP1(08h): the vertical resolution.
fn decode_mode_height(word: u32) -> (r: u32)
    ensures
        r == mode_height(word),
{
    proof { lemma_and_le(word >> 2, 1); }
    let interlaced = (word >> 5) & 0x1 == 1;
    let mut height: u32 = if (word >> 2) & 0x1 == 0 { 240 } else { 480 };
    if !interlaced {
        height = 240;
    }
    height
}

impl DisplayState {
    /// GP1(08h): sets the resolution, video mode, colour depth and interlacing, and notes
    /// whether the resolution changed.
    fn display_mode(&mut self, word: u32)
        ensures
            *final(self) == spec_display_mode(*old(self), word),
    {
        let width = decode_mode_width(word);
        let height = decode_mode_height(word);
        let changed = self.display_width != width || self.display_height != height;
        self.display_width = width;
        self.horizontal_bits1 = word & 0x3;
        self.horizontal_bit2 = (word >> 6) & 0x1;
        self.interlaced = (word >> 5) & 0x1 == 1;
        self.display_height = height;
        self.resolution_changed = self.resolution_changed || changed;
        self.video_mode = if (word >> 3) & 0x1 == 0 { DisplayMode::Ntsc } else { DisplayMode::Pal };
        self.display_depth = if (word >> 4) & 0x1 == 0 { DisplayDepth::Bit15 } else { DisplayDepth::Bit24 };
        self.horizontal_flip = (word >> 7) & 0x1 == 1;
    }

    /// The display part of a GP1 command.
    fn apply_gp1(&mut self, word: u32)
        ensures
            *final(self) == spec_gp1_display(*old(self), word),
    {
        let command = word >> 24;
        if command == 0x2 {
            self.irq_enabled = false;
        } else if command == 0x3 {
            self.display_on = word & 1 == 1;
        } else if command == 0x4 {
            self.dma_direction = decode_dma_direction(word);
        } else if command == 0x5 {
            self.display_start_x = word & 0x3ff;
            self.display_start_y = (word >> 10) & 0x1ff;
        } else if command == 0x6 {
            self.display_range_x = (word & 0xfff, (word >> 12) & 0xfff);
        } else if command == 0x7 {
            self.display_range_y = (word & 0x3ff, (word >> 10) & 0x3ff);
        } else if command == 0x8 {
            self.display_mode(word);
        }
    }
}

impl DrawingEnvironment {
    /// The value a GP1(10h..1Fh) request latches into GPUREAD.
    fn internal_register(&self, word: u32) -> (r: Option<u32>)
        ensures
            r == internal_register_value(*self, word),
    {
        match word & 0x7 {
            0x2 => Some(
                self.texture_window_mask_x | (self.texture_window_mask_y) << 5
                    | (self.texture_window_offset_x) << 10 | (self.texture_window_offset_y) << 15,
            ),
            0x3 => Some(self.x1 | self.y1 << 10),
            0x4 => Some(self.x2 | self.y2 << 10),
            0x5 => Some(self.x_offset as u32 | (self.y_offset as u32) << 11),
            _ => None,
        }
    }
}

impl GPU {
    /// The display registers hold values GP1 can set: a supported width and 10-bit vertical
    /// display range bounds.
    pub open spec fn display_wf(&self) -> bool {
        &&& valid_display_width(self.display.display_width)
        &&& self.display.display_range_y.0 <= 0x3ff
        &&& self.display.display_range_y.1 <= 0x3ff
    }

    /// Dots per video clock period at the current horizontal resolution.
    pub fn get_dotclock(&self) -> (r: usize)
        requires
            valid_display_width(self.display.display_width),
        ensures
            r == spec_dotclock(self.display.display_width),
    {
        match self.display.display_width {
            320 => 8,
            640 => 4,
            256 => 10,
            512 => 5,
            _ => 7,
        }
    }

    /// The size of the displayed picture: the horizontal display range in dots, rounded to a
    /// multiple of 4, and the vertical range in lines (doubled when interlaced).
    pub fn get_dimensions(&self) -> (r: (u32, u32))
        requires
            self.display_wf(),
            self.display.display_range_y.0 <= self.display.display_range_y.1,
        ensures
            ({
                let rx = self.display.display_range_x;
                let ry = self.display.display_range_y;
                let w: u32 = if rx.0 <= rx.1 { (rx.1 - rx.0) as u32 } else { 50 };
                let h: int = ry.1 - ry.0;
                &&& r.0 == (((w / spec_dotclock(self.display.display_width) + 2) as u32) & !3u32)
                &&& r.1 == (if self.display.interlaced { (2 * h) as u32 } else { h as u32 })
            }),
    {
        let dotclock = self.get_dotclock() as u32;
        let mut w = if self.display.display_range_x.0 <= self.display.display_range_x.1 {
            self.display.display_range_x.1 - self.display.display_range_x.0
        } else {
            50
        };

        assert(w / dotclock + 2 <= u32::MAX) by (nonlinear_arith)
            requires dotclock >= 4;
        w = ((w / dotclock) + 2) & !0b11;
        let mut h = self.display.display_range_y.1 - self.display.display_range_y.0;

        if self.display.interlaced {
            h *= 2;
        }

        (w, h)
    }

    /// GP1(00h): clears the command FIFO, cancels a VRAM transfer, and resets the texture
    /// window and texture page.
    pub fn reset_gpu(&mut self, word: u32)
        ensures
            word >> 24 == 0 ==> gp1_effect(old(self), final(self), word),
            final(self).current_command_buffer@.len() == 0,
            *final(self) == (GPU {
                current_command_buffer: final(self).current_command_buffer,
                transfer: TransferState { transfer_type: None, ..old(self).transfer },
                env: DrawingEnvironment {
                    texpage: Texpage::spec_new(),
                    texture_window_mask_x: 0,
                    texture_window_mask_y: 0,
                    texture_window_offset_x: 0,
                    texture_window_offset_y: 0,
                    ..old(self).env
                },
                ..*old(self)
            }),
    {
        self.current_command_buffer.clear();
        self.transfer.transfer_type = None;

        self.env.texture_window_mask_x = 0;
        self.env.texture_window_mask_y = 0;
        self.env.texture_window_offset_x = 0;
        self.env.texture_window_offset_y = 0;

        self.env.texpage = Texpage::new();
    }

    /// Executes a GP1 (display control) command.
    pub fn process_gp1_commands(&mut self, word: u32)
        requires
            gp1_supported(word),
        ensures
            gp1_effect(old(self), final(self), word),
    {
        let command = word >> 24;
        if command == 0x0 {
            self.reset_gpu(word);
        } else if command == 0x1 {
            self.current_command_buffer.clear();
        } else if command >= 0x10 {
            match self.env.internal_register(word) {
                Some(v) => self.gpuread = v,
                None => (),
            }
        } else {
            self.display.apply_gp1(word);
        }
    }
}


/// Sign-extends the low 11 bits of `v`.
fn sign_extend11(v: u32) -> (r: i32)
    ensures
        r == sign11(v),
        -0x400 <= r < 0x400,
{
    let m = v & 0x7ff;
    proof { lemma_and_le(v, 0x7ff); }
    if m < 0x400 {
        m as i32
    } else {
        m as i32 - 0x800
    }
}

fn parse_color(word: u32) -> (r: Color)
    ensures
        r == spec_color(word),
{
    let r = word as u8;
    let g = (word >> 8) as u8;
    let b = (word >> 16) as u8;

    Color { r, g, b, a: 0 }
}

fn parse_clut(word: u32) -> (r: (usize, usize))
    ensures
        r == spec_clut(word),
        r.0 <= 0x3f0,
{
    let xw = word & 0x3f;
    proof { lemma_and_le(word, 0x3f); }
    let x = xw * 16;
    let y = (word >> 6) & 0x1ff;

    (x as usize, y as usize)
}

fn decode_semitransparency(v: u32) -> (r: Semitransparency)
    ensures
        r == spec_semitransparency(v),
{
    proof { lemma_and_le(v, 3); }
    match v & 0x3 {
        0 => Semitransparency::Half,
        1 => Semitransparency::Add,
        2 => Semitransparency::Subtract,
        _ => Semitransparency::Quarter,
    }
}

fn parse_texpage(word: u32) -> (r: Texpage)
    ensures
        r == spec_texpage(word),
        r.wf(),
{
    proof {
        lemma_texpage_wf(word);
    }
    let mut texpage = Texpage::new();

    texpage.x_base = word & 0xf;
    texpage.y_base1 = word & 0x10;
    texpage.semi_transparency = decode_semitransparency(word >> 5);
    texpage.texture_page_colors = match (word >> 7) & 0x3 {
        0 => TexturePageColors::Bit4,
        1 => TexturePageColors::Bit8,
        _ => TexturePageColors::Bit15,
    };
    texpage.dither = (word >> 9) & 0x1 == 1;
    texpage.draw_to_display_area = (word >> 10) & 0x1 == 1;
    texpage.y_base2 = (word >> 11) & 0x1;
    texpage.x_flip = (word >> 12) & 0x1 == 1;
    texpage.y_flip = (word >> 13) & 0x1 == 1;

    texpage.value = word;

    texpage
}

fn decode_rectangle_size(word: u32) -> (r: RectangleSize)
    ensures
        r == spec_rectangle_size(word),
{
    proof { lemma_and_le(word >> 27, 3); }
    match (word >> 27) & 0x3 {
        0 => RectangleSize::Variable,
        1 => RectangleSize::Single,
        2 => RectangleSize::EightxEight,
        _ => RectangleSize::SixteenxSixteen,
    }
}

/// Builds a polygon from its vertices and attributes.
fn polygon_from(vertices: Vec<Vertex>, a: &PolygonAttributes) -> (r: Polygon)
    ensures
        r.vertices@ == vertices@,
        polygon_attributes(r) == *a,
{
    Polygon {
        vertices,
        is_line: a.is_line,
        is_shaded: a.is_shaded,
        semitransparent: a.semitransparent,
        textured: a.textured,
        texpage: a.texpage,
        modulate: a.modulate,
        transparent_mode: a.transparent_mode,
        clut: a.clut,
        texture_mask_x: a.texture_mask_x,
        texture_mask_y: a.texture_mask_y,
        texture_offset_x: a.texture_offset_x,
        texture_offset_y: a.texture_offset_y,
        x1: a.x1,
        x2: a.x2,
        y1: a.y1,
        y2: a.y2,
        force_mask_bit: a.force_mask_bit,
        preserve_masked_pixels: a.preserve_masked_pixels,
    }
}

impl DrawingEnvironment {
    /// The drawing offset is a signed 11-bit value; the texture page's fields are within
    /// their bits.
    pub open spec fn wf(&self) -> bool {
        &&& -0x400 <= self.x_offset < 0x400
        &&& -0x400 <= self.y_offset < 0x400
        &&& self.texpage.wf()
    }

    /// A vertex position word, moved by the drawing offset.
    fn parse_position(&self, word: u32) -> (r: (i32, i32))
        requires
            self.wf(),
        ensures
            r == spec_position(*self, word),
            -0x800 <= r.0 < 0x800,
            -0x800 <= r.1 < 0x800,
    {
        let x = sign_extend11(word & 0xffff);
        let y = sign_extend11(word >> 16);

        (x + self.x_offset, y + self.y_offset)
    }
}

impl PrimitiveState {
    /// Decodes the command word of a new GP0 command: records the attributes of the
    /// primitive it draws and returns the number of words the command takes.
    fn decode(&mut self, word: u32) -> (r: usize)
        ensures
            r == words_for(word),
            *final(self) == decode_primitive(*old(self), word),
    {
        let upper_bits = word >> 29;

        if upper_bits == 0x1 {
            let is_textured = (word >> 26) & 1 == 1;
            let is_semitransparent = (word >> 25) & 1 == 1;
            let is_shaded = (word >> 28) & 1 == 1;
            let modulate = (word >> 24) & 1 == 0;

            let num_vertices: usize = if (word >> 27) & 1 == 1 { 4 } else { 3 };

            let mut multiplier: usize = 1;

            if is_shaded {
                multiplier += 1;
            }
            if is_textured {
                multiplier += 1;
            }

            self.num_vertices = num_vertices;
            self.is_shaded = is_shaded;
            self.is_textured = is_textured;
            self.is_semitransparent = is_semitransparent;
            self.modulate = modulate;

            assert(num_vertices * multiplier == (if is_shaded { 2 * num_vertices } else { num_vertices as int }) + (if is_textured { num_vertices as int } else { 0 })) by (nonlinear_arith)
                requires
                    multiplier == 1 + (if is_shaded { 1int } else { 0 }) + (if is_textured { 1int } else { 0 }),
                    num_vertices <= 4;
            if !is_shaded {
                return num_vertices * multiplier + 1;
            }
            num_vertices * multiplier
        } else if upper_bits == 0x2 {
            self.is_shaded = (word >> 28) & 1 == 1;
            self.is_polyline = (word >> 27) & 1 == 1;
            self.is_semitransparent = (word >> 25) & 1 == 1;

            self.previous_line_color = None;
            self.previous_line_vertex = None;

            if self.is_shaded { 4 } else { 3 }
        } else if upper_bits == 0x3 {
            let mut num_words: usize = 2;
            self.is_textured = (word >> 26) & 1 == 1;
            self.is_semitransparent = (word >> 25) & 1 == 1;
            self.modulate = (word >> 24) & 1 == 0;

            self.rectangle_size = decode_rectangle_size(word);

            if self.is_textured {
                num_words += 1;
            }
            if self.rectangle_size == RectangleSize::Variable {
                num_words += 1;
            }
            num_words
        } else if upper_bits == 0x4 {
            4
        } else if upper_bits == 5 || upper_bits == 6 {
            3
        } else {
            if (word >> 24) == 0x2 { 3 } else { 1 }
        }
    }
}

/// Vertex `i` of the polygon command held in `b`.
fn polygon_vertex_at(e: &DrawingEnvironment, p: &PrimitiveState, b: &VecDeque<u32>, i: usize) -> (r: Vertex)
    requires
        e.wf(),
        p.num_vertices == 3 || p.num_vertices == 4,
        i < p.num_vertices,
        b@.len() >= polygon_words(*p),
    ensures
        r == polygon_vertex(*e, *p, b@, i as int),
{
    let t: usize = if p.is_textured { 1 } else { 0 };
    let stride: usize = if p.is_shaded { 2 + t } else { 1 + t };
    assert(i * stride <= 9) by (nonlinear_arith)
        requires i <= 3, stride <= 3;
    assert(p.num_vertices * stride >= (i + 1) * stride) by (nonlinear_arith)
        requires i < p.num_vertices;
    assert((i + 1) * stride == i * stride + stride) by (nonlinear_arith);
    let pi: usize = if p.is_shaded { i * stride + 1 } else { 1 + i * stride };
    let ci: usize = if p.is_shaded { pi - 1 } else { 0 };
    let (x, y) = e.parse_position(b[pi]);
    let mut u: u32 = 0;
    let mut v: u32 = 0;
    if p.is_textured {
        let word = b[pi + 1];
        u = word & 0xff;
        v = (word >> 8) & 0xff;
    }
    Vertex { x, y, u, v, color: parse_color(b[ci]) }
}

/// The triangles of a polygon with 3 or 4 vertices.
pub open spec fn triangles_of(v: Seq<Vertex>) -> Seq<Seq<Vertex>> {
    if v.len() > 3 {
        seq![seq![v[0], v[1], v[2]], seq![v[1], v[2], v[3]]]
    } else {
        seq![seq![v[0], v[1], v[2]]]
    }
}

/// Queues the triangles of a polygon with 3 or 4 vertices.
fn push_triangles(commands: &mut Vec<GPUCommand>, vertices: &Vec<Vertex>, attributes: &PolygonAttributes)
    requires
        vertices@.len() == 3 || vertices@.len() == 4,
    ensures
        appends_renders(old(commands)@, final(commands)@, triangles_of(vertices@), *attributes),
{
    let ghost cmds0 = commands@;
    if vertices.len() > 3 {
        let vertices1 = vec![vertices[0], vertices[1], vertices[2]];
        let vertices2 = vec![vertices[1], vertices[2], vertices[3]];
        commands.push(GPUCommand::RenderPolygon(polygon_from(vertices1, attributes)));
        commands.push(GPUCommand::RenderPolygon(polygon_from(vertices2, attributes)));
        proof {
            let tris = triangles_of(vertices@);
            assert(commands@.subrange(0, cmds0.len() as int) =~= cmds0);
            assert forall|k: int| 0 <= k < tris.len() implies #[trigger] renders(commands@[cmds0.len() + k], tris[k], *attributes) by {
                assert(tris[0] =~= seq![vertices@[0], vertices@[1], vertices@[2]]);
                assert(tris[1] =~= seq![vertices@[1], vertices@[2], vertices@[3]]);
            }
        }
    } else {
        let vertices1 = vec![vertices[0], vertices[1], vertices[2]];
        commands.push(GPUCommand::RenderPolygon(polygon_from(vertices1, attributes)));
        proof {
            let tris = triangles_of(vertices@);
            assert(commands@.subrange(0, cmds0.len() as int) =~= cmds0);
            assert forall|k: int| 0 <= k < tris.len() implies #[trigger] renders(commands@[cmds0.len() + k], tris[k], *attributes) by {
                assert(tris[0] =~= seq![vertices@[0], vertices@[1], vertices@[2]]);
            }
        }
    }
}

/// The texture page and palette of the polygon command held in `b`.
fn polygon_texture_fields(p: &PrimitiveState, b: &VecDeque<u32>) -> (r: (Option<Texpage>, (usize, usize)))
    requires
        p.num_vertices == 3 || p.num_vertices == 4,
        b@.len() >= polygon_words(*p),
    ensures
        r.0 == polygon_texpage(*p, b@),
        r.1 == polygon_clut(*p, b@),
        r.1.0 <= 0x3f0 || !p.is_textured,
{
    if p.is_textured {
        let stride: usize = if p.is_shaded { 3 } else { 2 };
        let uv0: usize = 2;
        let uv1: usize = if p.is_shaded { stride + 2 } else { 1 + stride + 1 };
        let clut = parse_clut(b[uv0] >> 16);
        let texpage = parse_texpage(b[uv1] >> 16);
        (Some(texpage), clut)
    } else {
        (None, (p.clut_x, p.clut_y))
    }
}

/// The attributes of the triangles of a polygon command, given its texture page and palette.
fn polygon_attributes_for(e: &DrawingEnvironment, p: &PrimitiveState, texpage: Option<Texpage>, clut: (usize, usize)) -> (r: PolygonAttributes)
    ensures
        forall|b: Seq<u32>| polygon_texpage(*p, b) == texpage && polygon_clut(*p, b) == clut ==> r == #[trigger] polygon_command_attributes(*e, *p, b),
{
    let transparent_mode = match texpage {
        Some(t) => t.semi_transparency.value(),
        None => e.texpage.semi_transparency.value(),
    };
    PolygonAttributes {
        is_line: false,
        is_shaded: p.is_shaded,
        semitransparent: p.is_semitransparent,
        textured: p.is_textured,
        texpage,
        modulate: p.modulate,
        transparent_mode,
        clut: (clut.0 as u32, clut.1 as u32),
        texture_mask_x: e.texture_window_mask_x,
        texture_mask_y: e.texture_window_mask_y,
        texture_offset_x: e.texture_window_offset_x,
        texture_offset_y: e.texture_window_offset_y,
        x1: e.x1,
        x2: e.x2,
        y1: e.y1,
        y2: e.y2,
        force_mask_bit: e.force_mask_bit,
        preserve_masked_pixels: e.preserve_masked_pixels,
    }
}

/// Two states that agree on what executing a command reads of the state before it have
/// the same execution effects.
proof fn lemma_execute_effect_frame(a: GPU, a2: GPU, new: GPU, p: PrimitiveState, b: Seq<u32>)
    requires
        same_context(&a, &a2),
        a.env == a2.env,
        a.transfer == a2.transfer,
        a.gpu_commands@ == a2.gpu_commands@,
        a.commands_ready == a2.commands_ready,
        a.vram_transfer_halfwords@ == a2.vram_transfer_halfwords@,
        execute_effect(&a, &new, p, b),
    ensures
        execute_effect(&a2, &new, p, b),
{
}

/// Decoding a command word twice gives what decoding it once gives.
proof fn lemma_decode_idempotent(p: PrimitiveState, word: u32)
    ensures
        decode_primitive(decode_primitive(p, word), word) == decode_primitive(p, word),
{
}

impl GPU {
    /// The command FIFO invariant: the FIFO holds the beginning of exactly one command, whose
    /// attributes have been decoded; a CPU-to-VRAM transfer has a position inside its
    /// rectangle; a polyline knows how many words its next segment takes.
    pub open spec fn fifo_wf(&self) -> bool {
        let b = self.current_command_buffer@;
        let p = self.primitive;
        let t = self.transfer;
        &&& self.env.wf()
        &&& t.transfer_type == Some(TransferType::ToVram) ==> {
            &&& 0 < t.transfer_width <= 0x400
            &&& 0 < t.transfer_height <= 0x200
            &&& t.read_x < t.transfer_width
            &&& t.read_y < t.transfer_height
            &&& !p.is_polyline
            &&& b.len() == 0
            &&& self.words_left == 0
        }
        &&& !p.is_polyline && b.len() == 0 ==> self.words_left == 0
        &&& !p.is_polyline && b.len() > 0 ==> {
            &&& self.words_left >= 1
            &&& b.len() + self.words_left == words_for(b[0])
            &&& p == decode_primitive(p, b[0])
            &&& gp0_supported(b[0])
        }
        &&& p.is_polyline ==> {
            &&& self.words_left >= 1
            &&& p.previous_line_color.is_some() == p.previous_line_vertex.is_some()
            &&& b.len() + self.words_left == (if p.previous_line_color.is_none() {
                if p.is_shaded { 4nat } else { 3 }
            } else {
                if p.is_shaded { 2nat } else { 1 }
            })
        }
    }

    /// The state invariant: valid display registers and a consistent command FIFO.
    pub open spec fn wf(&self) -> bool {
        self.display_wf() && self.fifo_wf()
    }

    /// Queues the triangles of the polygon command in the FIFO (a quad is split into two).
    fn push_polygon(&mut self)
        requires
            old(self).env.wf(),
            old(self).primitive.num_vertices == 3 || old(self).primitive.num_vertices == 4,
            old(self).current_command_buffer@.len() >= polygon_words(old(self).primitive),
        ensures
            ({
                let b = old(self).current_command_buffer@;
                let p = old(self).primitive;
                let e = old(self).env;
                let clut = polygon_clut(p, b);
                &&& final(self).primitive == PrimitiveState { num_vertices: 0, clut_x: clut.0, clut_y: clut.1, ..p }
                &&& appends_renders(old(self).gpu_commands@, final(self).gpu_commands@, polygon_triangles(e, p, b), polygon_command_attributes(e, p, b))
            }),
            final(self).commands_ready,
            final(self).env == old(self).env,
            final(self).transfer == old(self).transfer,
            final(self).vram_transfer_halfwords@ == old(self).vram_transfer_halfwords@,
            final(self).current_command_buffer@ == old(self).current_command_buffer@,
            final(self).words_left == old(self).words_left,
            same_context(old(self), final(self)),
    {
        let ghost b = self.current_command_buffer@;
        let ghost p0 = self.primitive;
        let nv = self.primitive.num_vertices;
        let mut vertices: Vec<Vertex> = Vec::new();
        let mut i: usize = 0;
        while i < nv
            invariant
                0 <= i <= nv,
                nv == p0.num_vertices,
                self.primitive == p0,
                self.current_command_buffer@ == b,
                self.env.wf(),
                p0.num_vertices == 3 || p0.num_vertices == 4,
                b.len() >= polygon_words(p0),
                vertices@.len() == i,
                forall|k: int| 0 <= k < i ==> vertices@[k] == polygon_vertex(self.env, p0, b, k),
            decreases nv - i,
        {
            let vertex = polygon_vertex_at(&self.env, &self.primitive, &self.current_command_buffer, i);
            vertices.push(vertex);
            i += 1;
        }

        let (texpage, clut) = polygon_texture_fields(&self.primitive, &self.current_command_buffer);
        let attributes = polygon_attributes_for(&self.env, &self.primitive, texpage, clut);
        proof {
            assert(vertices@.len() == nv);
            assert(forall|k: int| 0 <= k < nv ==> vertices@[k] == polygon_vertex(self.env, p0, b, k));
        }
        push_triangles(&mut self.gpu_commands, &vertices, &attributes);
        assert(polygon_triangles(self.env, p0, b) == triangles_of(vertices@)) by {
            assert(polygon_triangles(self.env, p0, b) =~= triangles_of(vertices@));
        }
        self.primitive.clut_x = clut.0;
        self.primitive.clut_y = clut.1;
        self.commands_ready = true;
        self.primitive.num_vertices = 0;
    }
}


/// Takes the first word of the command FIFO.
fn pop_word(buffer: &mut VecDeque<u32>) -> (r: u32)
    requires
        old(buffer)@.len() > 0,
    ensures
        r == old(buffer)@[0],
        final(buffer)@ == old(buffer)@.subrange(1, old(buffer)@.len() as int),
{
    buffer.pop_front().unwrap()
}

/// Queues one polygon.
fn push_render(commands: &mut Vec<GPUCommand>, vertices: Vec<Vertex>, attributes: &PolygonAttributes)
    ensures
        appends_renders(old(commands)@, final(commands)@, seq![vertices@], *attributes),
{
    let ghost cmds0 = commands@;
    let ghost vs = vertices@;
    commands.push(GPUCommand::RenderPolygon(polygon_from(vertices, attributes)));
    proof {
        assert(commands@.subrange(0, cmds0.len() as int) =~= cmds0);
        assert forall|k: int| 0 <= k < 1 implies #[trigger] renders(commands@[cmds0.len() + k], seq![vs][k], *attributes) by {
            assert(k == 0);
        }
    }
}

fn line_attributes_for(e: &DrawingEnvironment, p: &PrimitiveState) -> (r: PolygonAttributes)
    ensures
        r == line_attributes(*e, *p),
{
    PolygonAttributes {
        is_line: true,
        is_shaded: p.is_shaded,
        semitransparent: p.is_semitransparent,
        textured: false,
        texpage: None,
        modulate: false,
        transparent_mode: e.texpage.semi_transparency.value(),
        clut: (0, 0),
        texture_mask_x: 0,
        texture_mask_y: 0,
        texture_offset_x: 0,
        texture_offset_y: 0,
        x1: e.x1,
        x2: e.x2,
        y1: e.y1,
        y2: e.y2,
        force_mask_bit: e.force_mask_bit,
        preserve_masked_pixels: e.preserve_masked_pixels,
    }
}

fn rectangle_attributes_for(e: &DrawingEnvironment, p: &PrimitiveState, clut: (usize, usize)) -> (r: PolygonAttributes)
    ensures
        forall|b: Seq<u32>| rectangle_clut(*p, b) == clut ==> r == #[trigger] rectangle_attributes(*e, *p, b),
{
    PolygonAttributes {
        is_line: false,
        is_shaded: p.is_shaded,
        semitransparent: p.is_semitransparent,
        textured: p.is_textured,
        texpage: if p.is_textured { Some(e.texpage) } else { None },
        modulate: p.modulate,
        transparent_mode: e.texpage.semi_transparency.value(),
        clut: (clut.0 as u32, clut.1 as u32),
        texture_mask_x: e.texture_window_mask_x,
        texture_mask_y: e.texture_window_mask_y,
        texture_offset_x: e.texture_window_offset_x,
        texture_offset_y: e.texture_window_offset_y,
        x1: e.x1,
        x2: e.x2,
        y1: e.y1,
        y2: e.y2,
        force_mask_bit: e.force_mask_bit,
        preserve_masked_pixels: e.preserve_masked_pixels,
    }
}

impl DrawingEnvironment {
    /// GP0(E2h): the texture window mask and offset, in units of 8 texels.
    fn texture_window(&mut self, word: u32)
        ensures
            *final(self) == (DrawingEnvironment {
                texture_window_mask_x: ((word & 0x1f) * 8) as u32,
                texture_window_mask_y: (((word >> 5) & 0x1f) * 8) as u32,
                texture_window_offset_x: (((word >> 10) & 0x1f) * 8) as u32,
                texture_window_offset_y: (((word >> 15) & 0x1f) * 8) as u32,
                ..*old(self)
            }),
    {
        let a = word & 0x1f;
        let b = (word >> 5) & 0x1f;
        let c = (word >> 10) & 0x1f;
        let d = (word >> 15) & 0x1f;
        proof {
            lemma_and_le(word, 0x1f);
            lemma_and_le(word >> 5, 0x1f);
            lemma_and_le(word >> 10, 0x1f);
            lemma_and_le(word >> 15, 0x1f);
        }
        self.texture_window_mask_x = a * 8;
        self.texture_window_mask_y = b * 8;
        self.texture_window_offset_x = c * 8;
        self.texture_window_offset_y = d * 8;
    }

    /// GP0(E3h)/GP0(E4h): the top-left or bottom-right corner of the drawing area.
    fn set_drawing_area(&mut self, word: u32, is_bottom_right: bool)
        ensures
            *final(self) == (if is_bottom_right {
                DrawingEnvironment { x2: word & 0x3ff, y2: (word >> 10) & 0x3ff, ..*old(self) }
            } else {
                DrawingEnvironment { x1: word & 0x3ff, y1: (word >> 10) & 0x3ff, ..*old(self) }
            }),
    {
        if is_bottom_right {
            self.x2 = word & 0x3ff;
            self.y2 = (word >> 10) & 0x3ff;
        } else {
            self.x1 = word & 0x3ff;
            self.y1 = (word >> 10) & 0x3ff;
        }
    }

    /// GP0(E5h): the drawing offset, two signed 11-bit values.
    fn set_drawing_offset(&mut self, word: u32)
        requires
            old(self).texpage.wf(),
        ensures
            *final(self) == (DrawingEnvironment { x_offset: sign11(word) as i32, y_offset: sign11(word >> 11) as i32, ..*old(self) }),
            final(self).wf(),
    {
        self.x_offset = sign_extend11(word);
        self.y_offset = sign_extend11(word >> 11);
    }

    /// GP0(E6h): the mask bit settings.
    fn mask_bit(&mut self, word: u32)
        ensures
            *final(self) == (DrawingEnvironment { force_mask_bit: word & 1 == 1, preserve_masked_pixels: (word >> 1) & 1 == 1, ..*old(self) }),
    {
        self.force_mask_bit = word & 1 == 1;
        self.preserve_masked_pixels = (word >> 1) & 1 == 1;
    }
}

impl GPU {
    /// GP0(40h..5Fh), single segment: queues the line held in the FIFO.
    fn draw_line(&mut self)
        requires
            old(self).env.wf(),
            old(self).current_command_buffer@.len() >= (if old(self).primitive.is_shaded { 4nat } else { 3 }),
        ensures
            appends_renders(old(self).gpu_commands@, final(self).gpu_commands@, seq![line_vertices(old(self).env, old(self).primitive, old(self).current_command_buffer@)], line_attributes(old(self).env, old(self).primitive)),
            final(self).commands_ready,
            final(self).primitive == old(self).primitive,
            final(self).env == old(self).env,
            final(self).transfer == old(self).transfer,
            final(self).vram_transfer_halfwords@ == old(self).vram_transfer_halfwords@,
            final(self).words_left == old(self).words_left,
            same_context(old(self), final(self)),
    {
        let ghost b = self.current_command_buffer@;
        let color0 = parse_color(pop_word(&mut self.current_command_buffer));
        let word = pop_word(&mut self.current_command_buffer);
        let (x0, y0) = self.env.parse_position(word);

        let mut color1 = color0;
        if self.primitive.is_shaded {
            color1 = parse_color(pop_word(&mut self.current_command_buffer));
        }

        let word = pop_word(&mut self.current_command_buffer);
        let (x1, y1) = self.env.parse_position(word);

        let vertex0 = Vertex { x: x0, y: y0, u: 0, v: 0, color: color0 };
        let vertex1 = Vertex { x: x1, y: y1, u: 0, v: 0, color: color1 };
        let attributes = line_attributes_for(&self.env, &self.primitive);
        assert(seq![vertex0, vertex1] == line_vertices(self.env, self.primitive, b));
        push_render(&mut self.gpu_commands, vec![vertex0, vertex1], &attributes);
        self.commands_ready = true;
    }

    /// Draws the next segment of a polyline from the words in the FIFO.
    fn draw_polyline(&mut self)
        requires
            old(self).env.wf(),
            old(self).primitive.previous_line_color.is_some() == old(self).primitive.previous_line_vertex.is_some(),
            old(self).current_command_buffer@.len() == polyline_segment_words(old(self).primitive),
        ensures
            ({
                let (v0, v1) = polyline_segment(old(self).env, old(self).primitive, old(self).current_command_buffer@);
                &&& final(self).primitive == PrimitiveState { previous_line_color: Some(v1.color), previous_line_vertex: Some(v1), ..old(self).primitive }
                &&& appends_renders(old(self).gpu_commands@, final(self).gpu_commands@, seq![seq![v0, v1]], line_attributes(old(self).env, old(self).primitive))
            }),
            final(self).current_command_buffer@ == Seq::<u32>::empty(),
            final(self).commands_ready,
            final(self).env == old(self).env,
            final(self).transfer == old(self).transfer,
            final(self).vram_transfer_halfwords@ == old(self).vram_transfer_halfwords@,
            final(self).words_left == old(self).words_left,
            same_context(old(self), final(self)),
    {
        let ghost b = self.current_command_buffer@;
        let ghost p = self.primitive;
        let color0 = match self.primitive.previous_line_color {
            Some(color0) => color0,
            None => parse_color(pop_word(&mut self.current_command_buffer)),
        };

        let vertex0 = match self.primitive.previous_line_vertex {
            Some(vertex0) => vertex0,
            None => {
                let word = pop_word(&mut self.current_command_buffer);
                let (x, y) = self.env.parse_position(word);
                Vertex { x, y, u: 0, v: 0, color: color0 }
            },
        };

        let mut color1 = color0;

        if self.primitive.is_shaded {
            color1 = parse_color(pop_word(&mut self.current_command_buffer));
        }

        let word = pop_word(&mut self.current_command_buffer);
        let (x, y) = self.env.parse_position(word);
        let vertex1 = Vertex { x, y, u: 0, v: 0, color: color1 };

        assert((vertex0, vertex1) == polyline_segment(self.env, p, b));
        assert(self.current_command_buffer@ =~= Seq::<u32>::empty());

        let attributes = line_attributes_for(&self.env, &self.primitive);
        push_render(&mut self.gpu_commands, vec![vertex0, vertex1], &attributes);
        self.commands_ready = true;

        self.primitive.previous_line_color = Some(color1);
        self.primitive.previous_line_vertex = Some(vertex1);
    }

    /// A GP0 word while a polyline is drawn: either the terminator, or a word of the next
    /// segment, which is drawn once complete.
    fn process_polyline(&mut self, word: u32)
        requires
            old(self).fifo_wf(),
            old(self).primitive.is_polyline,
        ensures
            polyline_word_effect(old(self), final(self), word),
            final(self).fifo_wf() || (is_polyline_terminator(word) && old(self).current_command_buffer@.len() > 0),
    {
        if (word & 0xf000f000) == 0x50005000 {
            self.primitive.is_polyline = false;
            self.words_left = 0;
            self.primitive.previous_line_color = None;
            self.primitive.previous_line_vertex = None;

            return;
        }

        self.current_command_buffer.push_back(word);
        self.words_left -= 1;

        if self.words_left == 0 {
            self.draw_polyline();
            self.words_left = if self.primitive.is_shaded { 2 } else { 1 };
        }
    }

    /// GP0(60h..7Fh): queues the rectangle held in the FIFO as two triangles.
    fn push_rectangle(&mut self)
        requires
            old(self).env.wf(),
            old(self).current_command_buffer@.len() >= rectangle_words(old(self).primitive),
        ensures
            ({
                let b = old(self).current_command_buffer@;
                let p = old(self).primitive;
                let e = old(self).env;
                let clut = rectangle_clut(p, b);
                &&& final(self).primitive == PrimitiveState { num_vertices: 0, clut_x: clut.0, clut_y: clut.1, ..p }
                &&& appends_renders(old(self).gpu_commands@, final(self).gpu_commands@, rectangle_triangles(e, p, b), rectangle_attributes(e, p, b))
            }),
            final(self).commands_ready,
            final(self).env == old(self).env,
            final(self).transfer == old(self).transfer,
            final(self).vram_transfer_halfwords@ == old(self).vram_transfer_halfwords@,
            final(self).words_left == old(self).words_left,
            same_context(old(self), final(self)),
    {
        let ghost b = self.current_command_buffer@;
        let ghost p = self.primitive;
        let word = pop_word(&mut self.current_command_buffer);
        let color = parse_color(word);

        let word = pop_word(&mut self.current_command_buffer);
        let (x, y) = self.env.parse_position(word);

        let mut u: u32 = 0;
        let mut v: u32 = 0;
        let mut clut = (self.primitive.clut_x, self.primitive.clut_y);

        if self.primitive.is_textured {
            let word = pop_word(&mut self.current_command_buffer);

            u = word & 0xff;
            v = (word >> 8) & 0xff;

            clut = parse_clut(word >> 16);
        }

        let (width, height): (i32, i32) = match self.primitive.rectangle_size {
            RectangleSize::Variable => {
                let word = pop_word(&mut self.current_command_buffer);
                let wv = word & 0x3ff;
                let hv = (word >> 16) & 0x1ff;
                proof {
                    lemma_and_le(word, 0x3ff);
                    lemma_and_le(word >> 16, 0x1ff);
                }
                (wv as i32, hv as i32)
            },
            RectangleSize::EightxEight => (8, 8),
            RectangleSize::SixteenxSixteen => (16, 16),
            RectangleSize::Single => (1, 1),
        };
        assert(u <= 0xff && v <= 0xff) by {
            if p.is_textured {
                let w2 = b[2];
                lemma_and_le(w2, 0xff);
                lemma_and_le(w2 >> 8, 0xff);
            }
        }

        let v0 = Vertex { x, y, u, v, color };
        let v1 = Vertex { x: x + width, y, u: u + width as u32, v, color };
        let v2 = Vertex { x, y: y + height, u, v: v + height as u32, color };
        let v3 = Vertex { x: x + width, y: y + height, u: u + width as u32, v: v + height as u32, color };

        let vertices = vec![v0, v1, v2, v3];
        let attributes = rectangle_attributes_for(&self.env, &self.primitive, clut);
        proof {
            assert(clut == rectangle_clut(p, b));
            assert(attributes == rectangle_attributes(self.env, p, b));
            assert(rectangle_triangles(self.env, p, b) =~= triangles_of(vertices@));
        }
        push_triangles(&mut self.gpu_commands, &vertices, &attributes);
        self.commands_ready = true;
        self.primitive.clut_x = clut.0;
        self.primitive.clut_y = clut.1;
        self.primitive.num_vertices = 0;
    }
}


impl GPU {
    /// GP0(80h..9Fh): queues a VRAM-to-VRAM copy.
    fn vram_to_vram_transfer(&mut self)
        requires
            old(self).current_command_buffer@.len() >= 4,
            old(self).current_command_buffer@[0] >> 29 == 4,
        ensures
            final(self).words_left == old(self).words_left,
            execute_effect(old(self), final(self), old(self).primitive, old(self).current_command_buffer@),
    {
        pop_word(&mut self.current_command_buffer);

        let source = pop_word(&mut self.current_command_buffer);
        let destination = pop_word(&mut self.current_command_buffer);
        let dimensions = pop_word(&mut self.current_command_buffer);

        let params = VramToVramTransferParams {
            source_start_x: source & 0x3ff,
            source_start_y: (source >> 16) & 0x1ff,
            destination_start_x: destination & 0x3ff,
            destination_start_y: (destination >> 16) & 0x1ff,
            width: dimensions & 0x3ff,
            height: (dimensions >> 16) & 0x1ff,
        };
        let ghost cmds0 = self.gpu_commands@;
        self.gpu_commands.push(GPUCommand::VramToVram(params));
        assert(self.gpu_commands@.subrange(0, cmds0.len() as int) =~= cmds0);
        self.commands_ready = true;
    }

    /// GP0(A0h..BFh): starts a CPU-to-VRAM transfer into the given rectangle; a zero width or
    /// height means the whole 1024 or 512.
    fn cpu_to_vram_transfer(&mut self)
        requires
            old(self).current_command_buffer@.len() >= 3,
            old(self).current_command_buffer@[0] >> 29 == 5,
        ensures
            final(self).words_left == old(self).words_left,
            execute_effect(old(self), final(self), old(self).primitive, old(self).current_command_buffer@),
            final(self).transfer.transfer_type == Some(TransferType::ToVram),
            0 < final(self).transfer.transfer_width <= 0x400,
            0 < final(self).transfer.transfer_height <= 0x200,
    {
        pop_word(&mut self.current_command_buffer);

        let destination = pop_word(&mut self.current_command_buffer);
        let dimensions = pop_word(&mut self.current_command_buffer);

        let mut width = dimensions & 0x3ff;
        let mut height = (dimensions >> 16) & 0x1ff;
        proof {
            lemma_and_le(dimensions, 0x3ff);
            lemma_and_le(dimensions >> 16, 0x1ff);
        }
        if width == 0 {
            width = 0x400;
        }
        if height == 0 {
            height = 0x200;
        }

        self.transfer.transfer_type = Some(TransferType::ToVram);
        self.transfer.transfer_x = destination & 0x3ff;
        self.transfer.transfer_y = (destination >> 16) & 0x3ff;
        self.transfer.transfer_width = width;
        self.transfer.transfer_height = height;
        self.transfer.read_y = 0;
        self.transfer.read_x = 0;
    }

    /// GP0(C0h..DFh): starts a VRAM-to-CPU transfer of the given rectangle.
    fn vram_to_cpu_transfer(&mut self)
        requires
            old(self).current_command_buffer@.len() >= 3,
            old(self).current_command_buffer@[0] >> 29 == 6,
        ensures
            final(self).words_left == old(self).words_left,
            execute_effect(old(self), final(self), old(self).primitive, old(self).current_command_buffer@),
    {
        self.transfer.transfer_type = Some(TransferType::FromVram);

        pop_word(&mut self.current_command_buffer);

        let source = pop_word(&mut self.current_command_buffer);
        let dimensions = pop_word(&mut self.current_command_buffer);

        let params = CPUTransferParams {
            start_x: source & 0x3ff,
            start_y: (source >> 16) & 0x1ff,
            width: dimensions & 0x3ff,
            height: (dimensions >> 16) & 0x1ff,
        };
        let ghost cmds0 = self.gpu_commands@;
        self.gpu_commands.push(GPUCommand::VRAMtoCPU(params));
        assert(self.gpu_commands@.subrange(0, cmds0.len() as int) =~= cmds0);
        self.commands_ready = true;

        self.transfer.read_y = 0;
        self.transfer.read_x = 0;
    }

    /// GP0(02h): queues a fill of a VRAM rectangle (x in units of 16 pixels, width rounded up
    /// to a multiple of 16) with a 15-bit colour.
    fn fill_vram(&mut self)
        requires
            old(self).current_command_buffer@.len() >= 3,
            old(self).current_command_buffer@[0] >> 24 == 2,
        ensures
            final(self).words_left == old(self).words_left,
            execute_effect(old(self), final(self), old(self).primitive, old(self).current_command_buffer@),
    {
        let color = pop_word(&mut self.current_command_buffer);
        assert(color >> 29 == 0) by (bit_vector)
            requires color >> 24 == 2;

        let mut r = color & 0xff;
        let mut g = (color >> 8) & 0xff;
        let mut b = (color >> 16) & 0xff;

        r >>= 3;
        g >>= 3;
        b >>= 3;

        let pixel_word = r | (g << 5) | (b << 10);
        assert(pixel_word <= 0x7fff) by (bit_vector)
            requires pixel_word == ((color & 0xff) >> 3u32) | ((((color >> 8) & 0xff) >> 3u32) << 5u32) | ((((color >> 16) & 0xff) >> 3u32) << 10u32);
        let pixel = pixel_word as u16;
        assert(pixel == fill_pixel(color));

        let destination = pop_word(&mut self.current_command_buffer);
        let dimensions = pop_word(&mut self.current_command_buffer);

        let start_x = destination & 0x3f0;
        let start_y = (destination >> 16) & 0x3ff;

        let wd = dimensions & 0x3ff;
        proof { lemma_and_le(dimensions, 0x3ff); }
        let w = (wd + 0xf) & !0xf;
        let h = (dimensions >> 16) & 0x1ff;

        let params = FillVramParams { start_x, start_y, width: w, height: h, pixel };
        let ghost cmds0 = self.gpu_commands@;
        self.gpu_commands.push(GPUCommand::FillVRAM(params));
        assert(self.gpu_commands@.subrange(0, cmds0.len() as int) =~= cmds0);
        self.commands_ready = true;
    }

    /// Executes the complete command held in the FIFO, whose first word is `word`.
    fn execute_command(&mut self, word: u32)
        requires
            old(self).env.wf(),
            old(self).current_command_buffer@.len() == words_for(word),
            old(self).current_command_buffer@[0] == word,
            old(self).primitive == decode_primitive(old(self).primitive, word),
            gp0_supported(word),
        ensures
            final(self).words_left == old(self).words_left,
            execute_effect(old(self), final(self), old(self).primitive, old(self).current_command_buffer@),
            final(self).env.wf(),
            final(self).transfer.transfer_type == Some(TransferType::ToVram) ==> {
                &&& 0 < final(self).transfer.transfer_width <= 0x400
                &&& 0 < final(self).transfer.transfer_height <= 0x200
                &&& final(self).transfer.read_x == 0
                &&& final(self).transfer.read_y == 0
            } || old(self).transfer.transfer_type == Some(TransferType::ToVram),
    {
        let command = word >> 24;
        let upper = word >> 29;
        if upper == 1 {
            self.push_polygon();
        } else if upper == 2 {
            self.draw_line();
        } else if upper == 3 {
            self.push_rectangle();
        } else if upper == 4 {
            self.vram_to_vram_transfer();
        } else if upper == 5 {
            self.cpu_to_vram_transfer();
        } else if upper == 6 {
            self.vram_to_cpu_transfer();
        } else if command == 0x2 {
            self.fill_vram();
        } else if command == 0xe1 {
            self.env.texpage = parse_texpage(word);
        } else if command == 0xe2 {
            self.env.texture_window(word);
        } else if command == 0xe3 {
            self.env.set_drawing_area(word, false);
        } else if command == 0xe4 {
            self.env.set_drawing_area(word, true);
        } else if command == 0xe5 {
            self.env.set_drawing_offset(word);
        } else if command == 0xe6 {
            self.env.mask_bit(word);
        }
    }
}



impl GPU {
    /// One halfword of a CPU-to-VRAM transfer.
    fn transfer_to_vram(&mut self, halfword: u16)
        requires
            old(self).transfer.read_x < old(self).transfer.transfer_width,
            old(self).transfer.read_y < old(self).transfer.transfer_height,
        ensures
            vram_halfword_effect(old(self), final(self), halfword),
            same_context(old(self), final(self)),
            final(self).env == old(self).env,
            final(self).primitive == old(self).primitive,
            final(self).current_command_buffer@ == old(self).current_command_buffer@,
            final(self).words_left == old(self).words_left,
    {
        self.transfer.read_x += 1;

        self.vram_transfer_halfwords.push(halfword);

        if self.transfer.read_x == self.transfer.transfer_width {
            self.transfer.read_x = 0;

            self.transfer.read_y += 1;

            if self.transfer.read_y == self.transfer.transfer_height {
                self.transfer.transfer_type = None;

                let ghost h = self.vram_transfer_halfwords@;
                let mut halfwords: Vec<u16> = Vec::new();
                std::mem::swap(&mut halfwords, &mut self.vram_transfer_halfwords);
                let params = VRamTransferParams {
                    halfwords,
                    start_x: self.transfer.transfer_x,
                    start_y: self.transfer.transfer_y,
                    width: self.transfer.transfer_width,
                    height: self.transfer.transfer_height,
                };
                let ghost cmds0 = self.gpu_commands@;
                self.gpu_commands.push(GPUCommand::CPUtoVram(params));
                assert(self.gpu_commands@.subrange(0, cmds0.len() as int) =~= cmds0);
                self.commands_ready = true;

                self.transfer.read_y = 0;
                self.transfer.transfer_width = 0;
                self.transfer.transfer_height = 0;
                self.transfer.transfer_x = 0;
                self.transfer.transfer_y = 0;
            }
        }
    }

    /// Receives one word on GP0: data of a CPU-to-VRAM transfer, a word of a polyline, or a
    /// word of a command, which is executed once all its words have arrived.
    pub fn process_gp0_commands(&mut self, word: u32)
        requires
            old(self).fifo_wf(),
            old(self).transfer.transfer_type != Some(TransferType::ToVram) && !old(self).primitive.is_polyline
                && old(self).words_left == 0 ==> gp0_supported(word),
        ensures
            gp0_effect(old(self), final(self), word),
            final(self).fifo_wf() || (old(self).primitive.is_polyline && is_polyline_terminator(word)
                && old(self).current_command_buffer@.len() > 0),
    {
        if let Some(transfer_type) = self.transfer.transfer_type {
            if transfer_type == TransferType::ToVram {
                self.transfer_word(word);
                return;
            }
        }

        if self.primitive.is_polyline {
            self.process_polyline(word);
            return;
        }

        self.command_word(word);
    }

    /// A GP0 word during a CPU-to-VRAM transfer.
    fn transfer_word(&mut self, word: u32)
        requires
            old(self).fifo_wf(),
            old(self).transfer.transfer_type == Some(TransferType::ToVram),
        ensures
            vram_word_effect(old(self), final(self), word),
            final(self).fifo_wf(),
    {
        self.transfer_to_vram(word as u16);

        if self.transfer.transfer_type.is_some() {
            self.transfer_to_vram((word >> 16) as u16);
        }
    }

    /// A GP0 word of a command.
    fn command_word(&mut self, word: u32)
        requires
            old(self).fifo_wf(),
            old(self).transfer.transfer_type != Some(TransferType::ToVram),
            !old(self).primitive.is_polyline,
            old(self).words_left == 0 ==> gp0_supported(word),
        ensures
            command_word_effect(old(self), final(self), word),
            final(self).fifo_wf(),
    {
        let ghost old_gpu: GPU = *self;
        self.current_command_buffer.push_back(word);

        if self.words_left == 0 {
            let ghost p = self.primitive;
            self.words_left = self.primitive.decode(word);
            proof {
                lemma_decode_idempotent(p, word);
            }
        }
        assert(self.current_command_buffer@.len() == words_for(self.current_command_buffer@[0]) - self.words_left + 1);
        assert(self.primitive == decode_primitive(self.primitive, self.current_command_buffer@[0]));
        if self.words_left == 1 {
            let first = self.current_command_buffer[0];
            let ghost mid: GPU = *self;

            self.execute_command(first);
            proof {
                lemma_execute_effect_frame(mid, old_gpu, *self, mid.primitive, mid.current_command_buffer@);
            }

            self.current_command_buffer = VecDeque::new();
        }

        if self.words_left > 0 {
            self.words_left -= 1;
        }
    }

    /// Reads GPUREAD: during a VRAM-to-CPU transfer, the next two halfwords of VRAM data
    /// (0 for any the renderer has not supplied); otherwise the latched register value.
    pub fn read_gpu(&mut self) -> (r: u32)
        ensures
            read_gpu_effect(old(self), final(self), r),
    {
        if let Some(transfer_type) = self.transfer.transfer_type {
            if transfer_type == TransferType::FromVram {
                let ghost f = self.gpuread_fifo@;
                let lower = self.transfer_to_cpu();
                let upper = self.transfer_to_cpu();
                proof {
                    if f.len() >= 2 {
                        assert(self.gpuread_fifo@ =~= f.subrange(2, f.len() as int));
                    } else {
                        assert(self.gpuread_fifo@ =~= Seq::<u16>::empty());
                    }
                }
                return lower as u32 | (upper as u32) << 16;
            }
        }

        self.gpuread
    }

    /// Takes the next halfword of a VRAM-to-CPU transfer; the transfer ends with the last one.
    fn transfer_to_cpu(&mut self) -> (r: u16)
        ensures
            ({
                let f = old(self).gpuread_fifo@;
                if f.len() > 0 {
                    &&& r == f[0]
                    &&& final(self).gpuread_fifo@ == f.subrange(1, f.len() as int)
                    &&& final(self).transfer == (if f.len() == 1 { TransferState { transfer_type: None, ..old(self).transfer } } else { old(self).transfer })
                } else {
                    &&& r == 0
                    &&& final(self).gpuread_fifo@ == f
                    &&& final(self).transfer == old(self).transfer
                }
            }),
            final(self).display == old(self).display,
            final(self).env == old(self).env,
            final(self).primitive == old(self).primitive,
            final(self).current_command_buffer@ == old(self).current_command_buffer@,
            final(self).words_left == old(self).words_left,
            final(self).gpu_commands@ == old(self).gpu_commands@,
            final(self).commands_ready == old(self).commands_ready,
            final(self).vram_transfer_halfwords@ == old(self).vram_transfer_halfwords@,
            final(self).gpuread == old(self).gpuread,
    {
        if self.gpuread_fifo.len() > 0 {
            let value = self.gpuread_fifo.pop_front().unwrap();

            if self.gpuread_fifo.len() == 0 {
                self.transfer.transfer_type = None;
            }

            return value;
        }

        0
    }
}



/// Whether the GPU implements the GP1 command `word`.
pub fn is_gp1_supported(word: u32) -> (r: bool)
    ensures
        r == gp1_supported(word),
{
    let command = word >> 24;
    command <= 0x8 || (0x10 <= command && command <= 0x1f)
}

/// Whether `p` already holds the attributes that decoding `word` sets.
fn primitive_matches(p: &PrimitiveState, word: u32) -> (r: bool)
    ensures
        r == (*p == decode_primitive(*p, word)),
{
    let upper = word >> 29;
    if upper == 1 {
        let nv: usize = if (word >> 27) & 1 == 1 { 4 } else { 3 };
        p.num_vertices == nv && p.is_shaded == ((word >> 28) & 1 == 1) && p.is_textured == ((
        word >> 26) & 1 == 1) && p.is_semitransparent == ((word >> 25) & 1 == 1) && p.modulate
            == ((word >> 24) & 1 == 0)
    } else if upper == 2 {
        p.is_shaded == ((word >> 28) & 1 == 1) && p.is_polyline == ((word >> 27) & 1 == 1)
            && p.is_semitransparent == ((word >> 25) & 1 == 1) && p.previous_line_color.is_none()
            && p.previous_line_vertex.is_none()
    } else if upper == 3 {
        p.is_textured == ((word >> 26) & 1 == 1) && p.is_semitransparent == ((word >> 25) & 1
            == 1) && p.modulate == ((word >> 24) & 1 == 0) && p.rectangle_size
            == decode_rectangle_size(word)
    } else {
        true
    }
}

/// Whether the GPU implements the GP0 command that `word` starts.
fn is_gp0_supported(word: u32) -> (r: bool)
    ensures
        r == gp0_supported(word),
{
    let upper = word >> 29;
    let command = word >> 24;
    (1 <= upper && upper <= 6) || command <= 0x1e || command >= 0xe1
}

/// The number of words the command that `word` starts takes.
fn command_words(word: u32) -> (r: usize)
    ensures
        r == words_for(word),
{
    let mut p = PrimitiveState {
        num_vertices: 0,
        is_shaded: false,
        is_textured: false,
        clut_x: 0,
        clut_y: 0,
        is_semitransparent: false,
        modulate: false,
        rectangle_size: RectangleSize::Variable,
        is_polyline: false,
        previous_line_vertex: None,
        previous_line_color: None,
    };
    p.decode(word)
}

impl GPU {
    /// Whether the GPU takes `word` on GP0 now: its command FIFO is consistent and a word
    /// that starts a command names one it implements.
    pub fn accepts_gp0(&self, word: u32) -> (r: bool)
        ensures
            r == (self.fifo_wf() && (self.transfer.transfer_type != Some(TransferType::ToVram)
                && !self.primitive.is_polyline && self.words_left == 0 ==> gp0_supported(word))),
    {
        let len = self.current_command_buffer.len();
        let p = self.primitive;
        let t = self.transfer;
        let env_ok = -0x400 <= self.env.x_offset && self.env.x_offset < 0x400 && -0x400
            <= self.env.y_offset && self.env.y_offset < 0x400 && self.env.texpage.x_base <= 0xf
            && (self.env.texpage.y_base1 == 0 || self.env.texpage.y_base1 == 0x10)
            && self.env.texpage.y_base2 <= 1;
        let to_vram = match t.transfer_type {
            Some(TransferType::ToVram) => true,
            _ => false,
        };
        let transfer_ok = !to_vram || (0 < t.transfer_width && t.transfer_width <= 0x400 && 0
            < t.transfer_height && t.transfer_height <= 0x200 && t.read_x < t.transfer_width
            && t.read_y < t.transfer_height && !p.is_polyline && len == 0 && self.words_left
            == 0);
        let idle_ok = p.is_polyline || len > 0 || self.words_left == 0;
        let command_ok = if !p.is_polyline && len > 0 {
            let first = self.current_command_buffer[0];
            let needed = command_words(first);
            self.words_left >= 1 && self.words_left <= needed && len == needed - self.words_left
                && primitive_matches(&p, first) && is_gp0_supported(first)
        } else {
            true
        };
        let polyline_ok = if p.is_polyline {
            let segment: usize = if p.previous_line_color.is_none() {
                if p.is_shaded { 4 } else { 3 }
            } else {
                if p.is_shaded { 2 } else { 1 }
            };
            self.words_left >= 1 && p.previous_line_color.is_some() == p.previous_line_vertex.is_some()
                && self.words_left <= segment && len == segment - self.words_left
        } else {
            true
        };
        let word_ok = to_vram || p.is_polyline || self.words_left != 0 || is_gp0_supported(word);
        env_ok && transfer_ok && idle_ok && command_ok && polyline_ok && word_ok
    }
}

/// A read of GPUREAD: during a VRAM-to-CPU transfer, the next two halfwords of VRAM data (0 for
/// any the renderer has not supplied), the transfer ending with its last halfword; otherwise
/// the latched register value. The FIFO and drawing state stay as they were.
pub open spec fn read_gpu_effect(old: &GPU, new: &GPU, r: u32) -> bool {
    let f = old.gpuread_fifo@;
    &&& if old.transfer.transfer_type == Some(TransferType::FromVram) {
        let lower: u32 = if f.len() >= 1 { f[0] as u32 } else { 0 };
        let upper: u32 = if f.len() >= 2 { f[1] as u32 } else { 0 };
        &&& r == lower | (upper << 16u32)
        &&& new.gpuread_fifo@ == (if f.len() >= 2 { f.subrange(2, f.len() as int) } else { Seq::<u16>::empty() })
        &&& new.transfer == (if 1 <= f.len() <= 2 { TransferState { transfer_type: None, ..old.transfer } } else { old.transfer })
    } else {
        &&& r == old.gpuread
        &&& new.gpuread_fifo@ == f
        &&& new.transfer == old.transfer
    }
    &&& new.display == old.display
    &&& new.env == old.env
    &&& new.primitive == old.primitive
    &&& new.current_command_buffer@ == old.current_command_buffer@
    &&& new.words_left == old.words_left
    &&& new.gpu_commands@ == old.gpu_commands@
    &&& new.commands_ready == old.commands_ready
    &&& new.vram_transfer_halfwords@ == old.vram_transfer_halfwords@
    &&& new.gpuread == old.gpuread
}

/// GPUSTAT as the GPU reports it.
pub open spec fn spec_read_stat(g: &GPU) -> u32 {
    let d = g.display;
    let e = g.env;
    let vertical_bits: u32 = if d.display_height == 480 { 1 } else { 0 };
    let bit31: u32 = if g.current_line < VBLANK_LINE_START { g.even_flag } else { 0 };
    (g.even_flag << 31u32) | e.texpage.x_base | (e.texpage.y_base1 << 4u32)
        | (semitransparency_value(e.texpage.semi_transparency) << 5u32)
        | (texture_page_colors_value(e.texpage.texture_page_colors) << 7u32)
        | ((if e.texpage.dither { 1u32 } else { 0 }) << 9u32)
        | ((if e.texpage.draw_to_display_area { 1u32 } else { 0 }) << 10u32)
        | ((if e.force_mask_bit { 1u32 } else { 0 }) << 11u32)
        | ((if e.preserve_masked_pixels { 1u32 } else { 0 }) << 12u32)
        | ((if d.interlaced { 1u32 } else { 0 }) << 13u32)
        | ((if d.horizontal_flip { 1u32 } else { 0 }) << 14u32)
        | (e.texpage.y_base2 << 15u32)
        | (d.horizontal_bit2 << 16u32)
        | (d.horizontal_bits1 << 17u32)
        | (vertical_bits << 19u32)
        | ((if d.video_mode == DisplayMode::Pal { 1u32 } else { 0 }) << 20u32)
        | ((if d.display_depth == DisplayDepth::Bit24 { 1u32 } else { 0 }) << 21u32)
        | ((if d.interlaced { 1u32 } else { 0 }) << 22u32)
        | ((if d.display_on { 1u32 } else { 0 }) << 23u32)
        | ((if d.irq_enabled { 1u32 } else { 0 }) << 24u32)
        | (0x7u32 << 26u32)
        | (dma_direction_value(d.dma_direction) << 29u32)
        | (bit31 << 31u32)
}

/// Twice the signed area of the triangle `v[0]`, `v[1]`, `v[2]` (positive when counter-clockwise
/// in screen coordinates).
pub open spec fn spec_cross_product(v: Seq<Vertex>) -> int {
    (v[1].x - v[0].x) * (v[2].y - v[0].y) - (v[1].y - v[0].y) * (v[2].x - v[0].x)
}

impl GPU {
    /// A GPU after power-on: 320x240 NTSC 15-bit display, display range (512..3072, 16..256),
    /// display enabled, no command pending. The VRAM textures the renderers share are zeroed.
    pub fn new() -> (r: Self)
        ensures
            r.wf(),
            r.display == initial_display(),
            r.env == initial_environment(),
            r.primitive == initial_primitive(),
            r.transfer == initial_transfer(),
            !r.frame_finished && r.current_line == 0 && r.even_flag == 0 && r.gpuread == 0,
            r.previous_time == 0 && !r.debug_on && r.dotclock_cycles == 0,
            r.current_command_buffer@.len() == 0,
            r.words_left == 0,
            !r.commands_ready,
            r.gpu_commands@.len() == 0,
            r.gpuread_fifo@.len() == 0,
            r.vram_transfer_halfwords@.len() == 0,
            r.vram_read_tex@ == Seq::new((VRAM_WIDTH * VRAM_HEIGHT * 2) as nat, |i: int| 0u8),
            r.vram_write_tex@ == Seq::new((VRAM_WIDTH * VRAM_HEIGHT * 4) as nat, |i: int| 0u8),
    {
        GPU {
            frame_finished: false,
            current_line: 0,
            even_flag: 0,
            gpuread: 0,
            previous_time: 0,
            debug_on: false,
            dotclock_cycles: 0,
            display: DisplayState {
                irq_enabled: false,
                display_width: 320,
                display_height: 240,
                interlaced: false,
                video_mode: DisplayMode::Ntsc,
                display_depth: DisplayDepth::Bit15,
                horizontal_flip: false,
                dma_direction: DmaDirection::Off,
                horizontal_bits1: 0,
                horizontal_bit2: 0,
                display_start_x: 0,
                display_start_y: 0,
                display_range_x: (512, 3072),
                display_range_y: (16, 256),
                display_on: true,
                resolution_changed: false,
            },
            env: DrawingEnvironment {
                texpage: Texpage::new(),
                x1: 0,
                x2: 0,
                y1: 0,
                y2: 0,
                x_offset: 0,
                y_offset: 0,
                texture_window_mask_x: 0,
                texture_window_offset_x: 0,
                texture_window_mask_y: 0,
                texture_window_offset_y: 0,
                force_mask_bit: false,
                preserve_masked_pixels: false,
            },
            primitive: PrimitiveState {
                num_vertices: 0,
                is_shaded: false,
                is_textured: false,
                clut_x: 0,
                clut_y: 0,
                is_semitransparent: false,
                modulate: false,
                rectangle_size: RectangleSize::Single,
                is_polyline: false,
                previous_line_vertex: None,
                previous_line_color: None,
            },
            transfer: TransferState {
                transfer_x: 0,
                transfer_y: 0,
                transfer_width: 0,
                transfer_height: 0,
                transfer_type: None,
                read_x: 0,
                read_y: 0,
                cpu_transfer_x: 0,
                cpu_transfer_y: 0,
                cpu_transfer_width: 0,
                cpu_transfer_height: 0,
                transfer_params: None,
            },
            current_command_buffer: VecDeque::new(),
            words_left: 0,
            commands_ready: false,
            gpu_commands: Vec::new(),
            gpuread_fifo: VecDeque::new(),
            vram_transfer_halfwords: Vec::new(),
            vram_read_tex: vec![0; VRAM_WIDTH * VRAM_HEIGHT * 2],
            vram_write_tex: vec![0; VRAM_WIDTH * VRAM_HEIGHT * 4],
        }
    }

    /// GPUSTAT: texture page, drawing flags, display mode, DMA direction and the interlace
    /// field (bit 31, which is 0 during vertical blank).
    pub fn read_stat(&self) -> (r: u32)
        ensures
            r == spec_read_stat(self),
    {
        let vertical_bits: u32 = match self.display.display_height {
            480 => 1,
            _ => 0,
        };

        let bit31 = if self.current_line < VBLANK_LINE_START { self.even_flag } else { 0 };

        let d = self.display;
        let e = self.env;
        (self.even_flag << 31) | e.texpage.x_base | e.texpage.y_base1 << 4
            | e.texpage.semi_transparency.value() << 5
            | e.texpage.texture_page_colors.value() << 7
            | (if e.texpage.dither { 1u32 } else { 0 }) << 9
            | (if e.texpage.draw_to_display_area { 1u32 } else { 0 }) << 10
            | (if e.force_mask_bit { 1u32 } else { 0 }) << 11
            | (if e.preserve_masked_pixels { 1u32 } else { 0 }) << 12
            | (if d.interlaced { 1u32 } else { 0 }) << 13
            | (if d.horizontal_flip { 1u32 } else { 0 }) << 14
            | e.texpage.y_base2 << 15
            | d.horizontal_bit2 << 16
            | d.horizontal_bits1 << 17
            | vertical_bits << 19
            | (if d.video_mode == DisplayMode::Pal { 1u32 } else { 0 }) << 20
            | (if d.display_depth == DisplayDepth::Bit24 { 1u32 } else { 0 }) << 21
            | (if d.interlaced { 1u32 } else { 0 }) << 22
            | (if d.display_on { 1u32 } else { 0 }) << 23
            | (if d.irq_enabled { 1u32 } else { 0 }) << 24
            | 0x7 << 26
            | d.dma_direction.value() << 29
            | bit31 << 31
    }

    /// Twice the signed area of the first three vertices.
    pub fn cross_product(v: &[Vertex]) -> (r: i32)
        requires
            v@.len() >= 3,
            i32::MIN <= v@[1].x - v@[0].x <= i32::MAX,
            i32::MIN <= v@[2].y - v@[0].y <= i32::MAX,
            i32::MIN <= v@[1].y - v@[0].y <= i32::MAX,
            i32::MIN <= v@[2].x - v@[0].x <= i32::MAX,
            i32::MIN <= (v@[1].x - v@[0].x) * (v@[2].y - v@[0].y) <= i32::MAX,
            i32::MIN <= (v@[1].y - v@[0].y) * (v@[2].x - v@[0].x) <= i32::MAX,
            i32::MIN <= spec_cross_product(v@) <= i32::MAX,
        ensures
            r == spec_cross_product(v@),
    {
        (v[1].x - v[0].x) * (v[2].y - v[0].y) - (v[1].y - v[0].y) * (v[2].x - v[0].x)
    }
}

/// Converting a 15-bit pixel to a colour and back gives the pixel again.
pub proof fn lemma_pixel_roundtrip(val: u16)
    ensures
        spec_color_to_u16(spec_translate15(val)) == val,
{
    let r = widen5(val & 0x1f);
    let g = widen5((val >> 5) & 0x1f);
    let b = widen5((val >> 10) & 0x1f);
    let a = ((val >> 15) & 1) as u8;
    assert(((((r as u16) & 0xf8) >> 3u16) | (((g as u16) & 0xf8) << 2u16) | (((b as u16) & 0xf8) << 7u16) | ((a as u16) << 15u16)) == val) by (bit_vector)
        requires
            r == (((((val & 0x1f) as u8) << 3u8) | (((val & 0x1f) as u8) >> 2u8)) as u8),
            g == ((((((val >> 5) & 0x1f) as u8) << 3u8) | ((((val >> 5) & 0x1f) as u8) >> 2u8)) as u8),
            b == ((((((val >> 10) & 0x1f) as u8) << 3u8) | ((((val >> 10) & 0x1f) as u8) >> 2u8)) as u8),
            a == ((val >> 15) & 1) as u8;
}

/// GPU cycles from the start of a line to its horizontal blank.
pub const HBLANK_START: usize = 2813;
/// GPU cycles per scanline.
pub const CYCLES_PER_SCANLINE: usize = 3413;
/// GPU cycles of a horizontal blank.
pub const HBLANK_END: usize = 600;
/// The lines of a frame.
pub const NUM_SCANLINES: usize = 262;

/// Whether `event` is one of the video timing events.
pub open spec fn is_video_event(event: EventType) -> bool {
    event == EventType::HblankStart || event == EventType::HblankEnd || event == EventType::Vblank
}

/// Timer 0 at the end of a horizontal blank: out of its blank, and, when it counts dots, on
/// by the whole dots of `dots` GPU cycles; with the interrupt status that gives.
pub open spec fn dot_timer_ticked(t: Timer, dots: usize, stat: u32) -> (Timer, u32) {
    let t1 = Timer { in_xblank: false, ..t };
    if t1.clock_source == ClockSource::DotClock {
        tick_effect(t1, dots, stat)
    } else {
        (t1, stat)
    }
}

/// Timer 1 at the end of a horizontal blank: one count when it counts lines.
pub open spec fn line_timer_ticked(t: Timer, stat: u32) -> (Timer, u32) {
    if t.clock_source == ClockSource::Hblank {
        tick_effect(t, 1, stat)
    } else {
        (t, stat)
    }
}

impl GPU {
    /// Whether the timers can take a video event: for the end of a horizontal blank their
    /// counts stay in range and the dot and line counters do not overflow.
    pub open spec fn video_event_fits(&self, event: EventType, timers: [Timer; 3], elapsed: usize) -> bool {
        &&& event == EventType::HblankEnd ==> {
            let total = self.dotclock_cycles + elapsed;
            &&& total <= usize::MAX
            &&& self.current_line < usize::MAX
            &&& timers[0].clock_source == ClockSource::DotClock
                ==> tick_in_range(timers[0], (total / spec_dotclock(self.display.display_width) as int) as usize)
            &&& timers[1].clock_source == ClockSource::Hblank ==> tick_in_range(timers[1], 1)
        }
        &&& event == EventType::Vblank ==> self.current_line < usize::MAX
    }

    /// Runs a video timing event, `elapsed` GPU cycles being the length of the line just
    /// ended (for the end of a horizontal blank). The start of a horizontal blank puts timer
    /// 0 in its blank and timer 1 out of it; its end counts the dots for a dot-clocked timer
    /// 0 and one line for an hblank-clocked timer 1, toggles the interlace field, and after
    /// the last visible line starts the vertical blank (frame done, VBLANK interrupt); the
    /// blank lines count up to the end of the frame. Returns the next video event and its
    /// delay in GPU cycles.
    #[verifier::rlimit(60)]
    pub fn handle_video_event(
        &mut self,
        event: EventType,
        timers: &mut [Timer; 3],
        interrupt_stat: &mut InterruptRegister,
        elapsed: usize,
    ) -> (r: (EventType, usize))
        requires
            old(self).display_wf(),
            is_video_event(event),
            old(timers)[0].timer_id == 0 && old(timers)[1].timer_id == 1 && old(timers)[2].timer_id == 2,
            old(self).video_event_fits(event, *old(timers), elapsed),
        ensures
            final(self).display_wf(),
            final(timers)[0].timer_id == 0 && final(timers)[1].timer_id == 1 && final(timers)[2].timer_id == 2,
            event == EventType::HblankStart ==> {
                &&& *final(self) == *old(self)
                &&& *final(timers) == [
                    Timer { in_xblank: true, ..old(timers)[0] },
                    Timer { in_xblank: false, ..old(timers)[1] },
                    old(timers)[2],
                ]
                &&& final(interrupt_stat).bits == old(interrupt_stat).bits
                &&& r == (EventType::HblankEnd, HBLANK_END)
            },
            event == EventType::HblankEnd ==> ({
                let total = (old(self).dotclock_cycles + elapsed) as int;
                let d = spec_dotclock(old(self).display.display_width) as int;
                let (t0, s1) = dot_timer_ticked(old(timers)[0], (total / d) as usize, old(interrupt_stat).bits);
                let (t1, s2) = line_timer_ticked(old(timers)[1], s1);
                let vblank = old(self).current_line >= VBLANK_LINE_START;
                &&& *final(timers) == [t0, if vblank { Timer { in_xblank: true, ..t1 } } else { t1 }, old(timers)[2]]
                &&& final(interrupt_stat).bits == if vblank { s2 | InterruptRegister::VBLANK } else { s2 }
                &&& *final(self) == (GPU {
                    dotclock_cycles: (total % d) as usize,
                    frame_finished: vblank || old(self).frame_finished,
                    even_flag: if old(self).display.interlaced { old(self).even_flag ^ 1 } else { 1 },
                    current_line: (old(self).current_line + 1) as usize,
                    ..*old(self)
                })
                &&& r == if vblank { (EventType::Vblank, CYCLES_PER_SCANLINE) } else { (EventType::HblankStart, HBLANK_START) }
            }),
            event == EventType::Vblank ==> {
                &&& *final(timers) == [old(timers)[0], Timer { in_xblank: true, ..old(timers)[1] }, old(timers)[2]]
                &&& final(interrupt_stat).bits == old(interrupt_stat).bits
                &&& if old(self).current_line == NUM_SCANLINES {
                    &&& *final(self) == (GPU { current_line: 0, ..*old(self) })
                    &&& r == (EventType::HblankStart, HBLANK_START)
                } else {
                    &&& *final(self) == (GPU { current_line: (old(self).current_line + 1) as usize, ..*old(self) })
                    &&& r == (EventType::Vblank, CYCLES_PER_SCANLINE)
                }
            },
    {
        match event {
            EventType::HblankStart => {
                let mut t0 = timers[0];
                t0.in_xblank = true;
                timers[0] = t0;
                let mut t1 = timers[1];
                t1.in_xblank = false;
                timers[1] = t1;
                (EventType::HblankEnd, HBLANK_END)
            },
            EventType::HblankEnd => {
                let mut t0 = timers[0];
                t0.in_xblank = false;
                let dotclock = self.get_dotclock();
                self.dotclock_cycles = self.dotclock_cycles + elapsed;
                if t0.clock_source == ClockSource::DotClock {
                    t0.tick(self.dotclock_cycles / dotclock, interrupt_stat);
                }
                self.dotclock_cycles = self.dotclock_cycles % dotclock;
                timers[0] = t0;
                let mut t1 = timers[1];
                if t1.clock_source == ClockSource::Hblank {
                    t1.tick(1, interrupt_stat);
                }
                let next = if self.current_line < VBLANK_LINE_START {
                    (EventType::HblankStart, HBLANK_START)
                } else {
                    t1.in_xblank = true;
                    self.frame_finished = true;
                    interrupt_stat.insert(InterruptRegister::VBLANK);
                    (EventType::Vblank, CYCLES_PER_SCANLINE)
                };
                timers[1] = t1;
                if self.display.interlaced {
                    self.even_flag = self.even_flag ^ 1;
                } else {
                    self.even_flag = 1;
                }
                self.current_line = self.current_line + 1;
                next
            },
            _ => {
                let mut t1 = timers[1];
                t1.in_xblank = true;
                timers[1] = t1;
                if self.current_line == NUM_SCANLINES {
                    self.current_line = 0;
                    (EventType::HblankStart, HBLANK_START)
                } else {
                    self.current_line = self.current_line + 1;
                    (EventType::Vblank, CYCLES_PER_SCANLINE)
                }
            },
        }
    }
}

} // verus!
