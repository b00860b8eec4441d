use vstd::prelude::*;

verus! {

/// The reverb unit's registers: the work area in sound RAM, the buffer offsets and the
/// volumes of each stage. The filter arithmetic itself runs on these values outside the
/// library.
#[derive(Copy, Clone)]
pub struct Reverb {
    pub m_base: u32,
    pub d_apf1: u32,
    pub d_apf2: u32,
    pub v_iir: i16,
    pub v_comb1: i16,
    pub v_comb2: i16,
    pub v_comb3: i16,
    pub v_comb4: i16,
    pub v_wall: i16,
    pub v_apf1: i16,
    pub v_apf2: i16,
    pub ml_same: u32,
    pub mr_same: u32,
    pub m_l_comb1: u32,
    pub m_r_comb1: u32,
    pub m_l_comb2: u32,
    pub m_r_comb2: u32,
    pub d_l_same: u32,
    pub d_r_same: u32,
    pub m_l_diff: u32,
    pub m_r_diff: u32,
    pub m_l_comb3: u32,
    pub m_r_comb3: u32,
    pub m_l_comb4: u32,
    pub m_r_comb4: u32,
    pub d_l_diff: u32,
    pub d_r_diff: u32,
    pub m_lapf1: u32,
    pub m_rapf1: u32,
    pub m_lapf2: u32,
    pub m_rapf2: u32,
    pub v_lin: i16,
    pub v_rin: i16,
    pub v_l_out: i16,
    pub v_r_out: i16,
    pub buffer_address: u32,
    pub is_left: bool,
}

/// Whether `address` is a register that the reverb unit accepts.
pub open spec fn is_reverb_register(address: usize) -> bool {
    ||| address == 0x1f801d84
    ||| address == 0x1f801d86
    ||| address == 0x1f801da2
    ||| (0x1f801dc0 <= address <= 0x1f801dfe && address % 2 == 0)
}

impl Reverb {
    /// The unit after `value` is written to the register at `address`: offsets and
    /// addresses are given in units of 8 bytes, volumes as signed halfwords.
    pub open spec fn written(self, address: usize, value: u16) -> Reverb {
        if address == 0x1f801da2 {
            Reverb { m_base: (value as u32 * 8) as u32, buffer_address: (value as u32 * 8) as u32, ..self }
        } else if address == 0x1f801d84 {
            Reverb { v_l_out: value as i16, ..self }
        } else if address == 0x1f801d86 {
            Reverb { v_r_out: value as i16, ..self }
        } else if address == 0x1f801dc0 {
            Reverb { d_apf1: (value as u32 * 8) as u32, ..self }
        } else if address == 0x1f801dc2 {
            Reverb { d_apf2: (value as u32 * 8) as u32, ..self }
        } else if address == 0x1f801dc4 {
            Reverb { v_iir: value as i16, ..self }
        } else if address == 0x1f801dc6 {
            Reverb { v_comb1: value as i16, ..self }
        } else if address == 0x1f801dc8 {
            Reverb { v_comb2: value as i16, ..self }
        } else if address == 0x1f801dca {
            Reverb { v_comb3: value as i16, ..self }
        } else if address == 0x1f801dcc {
            Reverb { v_comb4: value as i16, ..self }
        } else if address == 0x1f801dce {
            Reverb { v_wall: value as i16, ..self }
        } else if address == 0x1f801dd0 {
            Reverb { v_apf1: value as i16, ..self }
        } else if address == 0x1f801dd2 {
            Reverb { v_apf2: value as i16, ..self }
        } else if address == 0x1f801dd4 {
            Reverb { ml_same: (value as u32 * 8) as u32, ..self }
        } else if address == 0x1f801dd6 {
            Reverb { mr_same: (value as u32 * 8) as u32, ..self }
        } else if address == 0x1f801dd8 {
            Reverb { m_l_comb1: (value as u32 * 8) as u32, ..self }
        } else if address == 0x1f801dda {
            Reverb { m_r_comb1: (value as u32 * 8) as u32, ..self }
        } else if address == 0x1f801ddc {
            Reverb { m_l_comb2: (value as u32 * 8) as u32, ..self }
        } else if address == 0x1f801dde {
            Reverb { m_r_comb2: (value as u32 * 8) as u32, ..self }
        } else if address == 0x1f801de0 {
            Reverb { d_l_same: (value as u32 * 8) as u32, ..self }
        } else if address == 0x1f801de2 {
            Reverb { d_r_same: (value as u32 * 8) as u32, ..self }
        } else if address == 0x1f801de4 {
            Reverb { m_l_diff: (value as u32 * 8) as u32, ..self }
        } else if address == 0x1f801de6 {
            Reverb { m_r_diff: (value as u32 * 8) as u32, ..self }
        } else if address == 0x1f801de8 {
            Reverb { m_l_comb3: (value as u32 * 8) as u32, ..self }
        } else if address == 0x1f801dea {
            Reverb { m_r_comb3: (value as u32 * 8) as u32, ..self }
        } else if address == 0x1f801dec {
            Reverb { m_l_comb4: (value as u32 * 8) as u32, ..self }
        } else if address == 0x1f801dee {
            Reverb { m_r_comb4: (value as u32 * 8) as u32, ..self }
        } else if address == 0x1f801df0 {
            Reverb { d_l_diff: (value as u32 * 8) as u32, ..self }
        } else if address == 0x1f801df2 {
            Reverb { d_r_diff: (value as u32 * 8) as u32, ..self }
        } else if address == 0x1f801df4 {
            Reverb { m_lapf1: (value as u32 * 8) as u32, ..self }
        } else if address == 0x1f801df6 {
            Reverb { m_rapf1: (value as u32 * 8) as u32, ..self }
        } else if address == 0x1f801df8 {
            Reverb { m_lapf2: (value as u32 * 8) as u32, ..self }
        } else if address == 0x1f801dfa {
            Reverb { m_rapf2: (value as u32 * 8) as u32, ..self }
        } else if address == 0x1f801dfc {
            Reverb { v_lin: value as i16, ..self }
        } else {
            Reverb { v_rin: value as i16, ..self }
        }
    }

    pub fn new() -> (r: Self)
        ensures
            r.m_base == 0 && r.buffer_address == 0 && r.is_left,
            r.v_l_out == 0 && r.v_r_out == 0 && r.v_lin == 0 && r.v_rin == 0,
    {
        Reverb {
            m_base: 0,
            d_apf1: 0,
            d_apf2: 0,
            v_iir: 0,
            v_comb1: 0,
            v_comb2: 0,
            v_comb3: 0,
            v_comb4: 0,
            v_wall: 0,
            v_apf1: 0,
            v_apf2: 0,
            ml_same: 0,
            mr_same: 0,
            m_l_comb1: 0,
            m_r_comb1: 0,
            m_l_comb2: 0,
            m_r_comb2: 0,
            d_l_same: 0,
            d_r_same: 0,
            m_l_diff: 0,
            m_r_diff: 0,
            m_l_comb3: 0,
            m_r_comb3: 0,
            m_l_comb4: 0,
            m_r_comb4: 0,
            d_l_diff: 0,
            d_r_diff: 0,
            m_lapf1: 0,
            m_rapf1: 0,
            m_lapf2: 0,
            m_rapf2: 0,
            v_lin: 0,
            v_rin: 0,
            v_l_out: 0,
            v_r_out: 0,
            buffer_address: 0,
            is_left: true,
        }
    }

    /// A write of one of the reverb registers.
    pub fn write16(&mut self, address: usize, value: u16)
        requires
            is_reverb_register(address),
        ensures
            *final(self) == old(self).written(address, value),
    {
        let scaled: u32 = value as u32 * 8;
        if address == 0x1f801da2 {
            self.m_base = scaled;
            self.buffer_address = self.m_base;
        } else if address == 0x1f801d84 {
            self.v_l_out = value as i16;
        } else if address == 0x1f801d86 {
            self.v_r_out = value as i16;
        } else if address == 0x1f801dc0 {
            self.d_apf1 = scaled;
        } else if address == 0x1f801dc2 {
            self.d_apf2 = scaled;
        } else if address == 0x1f801dc4 {
            self.v_iir = value as i16;
        } else if address == 0x1f801dc6 {
            self.v_comb1 = value as i16;
        } else if address == 0x1f801dc8 {
            self.v_comb2 = value as i16;
        } else if address == 0x1f801dca {
            self.v_comb3 = value as i16;
        } else if address == 0x1f801dcc {
            self.v_comb4 = value as i16;
        } else if address == 0x1f801dce {
            self.v_wall = value as i16;
        } else if address == 0x1f801dd0 {
            self.v_apf1 = value as i16;
        } else if address == 0x1f801dd2 {
            self.v_apf2 = value as i16;
        } else if address == 0x1f801dd4 {
            self.ml_same = scaled;
        } else if address == 0x1f801dd6 {
            self.mr_same = scaled;
        } else if address == 0x1f801dd8 {
            self.m_l_comb1 = scaled;
        } else if address == 0x1f801dda {
            self.m_r_comb1 = scaled;
        } else if address == 0x1f801ddc {
            self.m_l_comb2 = scaled;
        } else if address == 0x1f801dde {
            self.m_r_comb2 = scaled;
        } else if address == 0x1f801de0 {
            self.d_l_same = scaled;
        } else if address == 0x1f801de2 {
            self.d_r_same = scaled;
        } else if address == 0x1f801de4 {
            self.m_l_diff = scaled;
        } else if address == 0x1f801de6 {
            self.m_r_diff = scaled;
        } else if address == 0x1f801de8 {
            self.m_l_comb3 = scaled;
        } else if address == 0x1f801dea {
            self.m_r_comb3 = scaled;
        } else if address == 0x1f801dec {
            self.m_l_comb4 = scaled;
        } else if address == 0x1f801dee {
            self.m_r_comb4 = scaled;
        } else if address == 0x1f801df0 {
            self.d_l_diff = scaled;
        } else if address == 0x1f801df2 {
            self.d_r_diff = scaled;
        } else if address == 0x1f801df4 {
            self.m_lapf1 = scaled;
        } else if address == 0x1f801df6 {
            self.m_rapf1 = scaled;
        } else if address == 0x1f801df8 {
            self.m_lapf2 = scaled;
        } else if address == 0x1f801dfa {
            self.m_rapf2 = scaled;
        } else if address == 0x1f801dfc {
            self.v_lin = value as i16;
        } else {
            self.v_rin = value as i16;
        }
    }

    /// The sound RAM address `offset` bytes into the reverb buffer: the halfword-aligned sum
    /// within sound RAM, but never below the start of the work area.
    pub fn calculate_address(&self, offset: usize) -> (r: usize)
        requires
            self.buffer_address + offset <= usize::MAX,
        ensures
            r == (if self.m_base as usize >= ((self.buffer_address as usize + offset) as usize & 0x7fffe) {
                self.m_base as usize
            } else {
                (self.buffer_address as usize + offset) as usize & 0x7fffe
            }),
    {
        let address = (self.buffer_address as usize + offset) & 0x7_fffe;
        if self.m_base as usize >= address {
            self.m_base as usize
        } else {
            address
        }
    }
}

} // verus!
