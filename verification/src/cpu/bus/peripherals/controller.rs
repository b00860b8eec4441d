use vstd::prelude::*;

verus! {

/// A digital/analog joypad on the serial port.
///
/// `state` counts the bytes of the current transfer (0 = waiting for the address byte).
pub struct Controller {
    pub state: usize,
    pub digital_mode: bool,
    pub buttons: u16,
    pub left_joy_x: u8,
    pub left_joy_y: u8,
    pub right_joy_x: u8,
    pub right_joy_y: u8,
    pub rumble_on: bool,
    pub config_mode: bool,
    pub controller_command: u8,
    pub variable_byte: u8,
    pub current_vibration: [u8; 6],
    pub vibration_latch: [u8; 6],
    pub small_motor: bool,
    pub large_motor: u8,
}

/// The commands the pad answers to; any other command byte ends the transfer.
pub open spec fn is_known_command(command: u8) -> bool {
    command == 0x42 || command == 0x43 || command == 0x45 || command == 0x46 || command == 0x47
        || command == 0x4c || command == 0x4d
}

/// The byte a pad in mode `digital` reports as its identity (5A41h digital, 5A73h analog).
pub open spec fn id_byte(digital: bool) -> u8 {
    if digital { 0x41 } else { 0x73 }
}

impl Controller {
    /// The state invariant: a transfer has at most 9 bytes, and from its third byte on the
    /// latched command is one the pad knows.
    pub open spec fn wf(&self) -> bool {
        &&& self.state <= 8
        &&& self.state >= 2 ==> is_known_command(self.controller_command)
    }

    /// The byte the pad answers with when it receives `command` in its present state.
    pub open spec fn spec_reply_byte(&self, command: u8) -> u8 {
        let s = self.state;
        let c = self.controller_command;
        if s == 0 {
            0xff
        } else if s == 1 {
            if command == 0x42 {
                id_byte(self.digital_mode)
            } else if command == 0x43 {
                if self.config_mode { 0xf3 } else { id_byte(self.digital_mode) }
            } else if command == 0x45 || command == 0x4c || command == 0x46 || command == 0x47
                || command == 0x4d {
                0xf3
            } else {
                0xff
            }
        } else if s == 2 {
            0x5a
        } else if c == 0x4d {
            self.current_vibration@[s - 3]
        } else if s == 3 {
            if c == 0x42 {
                self.buttons as u8
            } else if c == 0x43 {
                if self.config_mode { 0 } else { self.buttons as u8 }
            } else if c == 0x45 {
                1
            } else {
                0
            }
        } else if s == 4 {
            if c == 0x43 {
                if self.config_mode { 0 } else { (self.buttons >> 8) as u8 }
            } else if c == 0x45 {
                2
            } else if c == 0x42 {
                (self.buttons >> 8) as u8
            } else {
                0
            }
        } else if s == 5 {
            if c == 0x43 {
                if self.config_mode { 0 } else { self.right_joy_x }
            } else if c == 0x45 {
                if self.digital_mode { 0 } else { 1 }
            } else if c == 0x46 {
                if self.variable_byte == 0 || self.variable_byte == 1 { 1 } else { 0 }
            } else if c == 0x47 {
                2
            } else if c == 0x42 {
                self.right_joy_x
            } else {
                0
            }
        } else if s == 6 {
            if c == 0x43 {
                if self.config_mode { 0 } else { self.right_joy_y }
            } else if c == 0x45 {
                2
            } else if c == 0x46 {
                if self.variable_byte == 0 { 2 } else if self.variable_byte == 1 { 1 } else { 0 }
            } else if c == 0x4c {
                if self.variable_byte == 0 { 4 } else if self.variable_byte == 1 { 7 } else { 0 }
            } else if c == 0x42 {
                self.right_joy_y
            } else {
                0
            }
        } else if s == 7 {
            if c == 0x43 {
                if self.config_mode { 0 } else { self.left_joy_x }
            } else if c == 0x45 {
                1
            } else if c == 0x46 {
                if self.variable_byte == 1 { 1 } else { 0 }
            } else if c == 0x47 {
                1
            } else if c == 0x42 {
                self.left_joy_x
            } else {
                0
            }
        } else {
            if c == 0x43 {
                if self.config_mode { 0 } else { self.left_joy_y }
            } else if c == 0x46 {
                if self.variable_byte == 0 { 0xa } else if self.variable_byte == 1 { 0x14 } else { 0 }
            } else if c == 0x42 {
                self.left_joy_y
            } else {
                0
            }
        }
    }

    /// Whether the transfer ends with this byte: an unknown command, the ninth byte, or the
    /// fifth byte of a poll (42h) in digital mode outside configuration mode.
    pub open spec fn spec_ends_transfer(&self, command: u8) -> bool {
        ||| self.state == 1 && !is_known_command(command)
        ||| self.state == 8
        ||| self.state == 4 && self.controller_command == 0x42 && self.digital_mode
            && !self.config_mode
    }

    /// A new pad: digital mode, no button pressed, sticks centred, motors off.
    pub fn new() -> (r: Self)
        ensures
            r.wf(),
            r.state == 0,
            r.digital_mode,
            r.buttons == 0xffff,
            r.left_joy_x == 0x80 && r.left_joy_y == 0x80,
            r.right_joy_x == 0x80 && r.right_joy_y == 0x80,
            !r.rumble_on,
            !r.config_mode,
            r.controller_command == 0,
            r.variable_byte == 0,
            r.current_vibration@ == seq![0xffu8; 6],
            r.vibration_latch@ == seq![0xffu8; 6],
            !r.small_motor,
            r.large_motor == 0,
    {
        let r = Self {
            state: 0,
            digital_mode: true,
            buttons: 0xffff,
            left_joy_x: 0x80,
            right_joy_x: 0x80,
            left_joy_y: 0x80,
            right_joy_y: 0x80,
            rumble_on: false,
            config_mode: false,
            controller_command: 0,
            variable_byte: 0,
            current_vibration: [0xff; 6],
            vibration_latch: [0xff; 6],
            small_motor: false,
            large_motor: 0,
        };
        assert(r.current_vibration@ == seq![0xffu8; 6]);
        assert(r.vibration_latch@ == seq![0xffu8; 6]);
        r
    }

    /// Whether the pad is in the middle of a transfer (and so acknowledges a byte).
    pub fn in_ack(&self) -> (r: bool)
        ensures
            r == (self.state != 0),
    {
        self.state != 0
    }

    /// Presses (`is_pressed`) or releases the button at bit `index`; buttons are active low.
    pub fn update_input(&mut self, index: usize, is_pressed: bool)
        requires
            index < 16,
        ensures
            *final(self) == (Controller {
                buttons: if is_pressed { old(self).buttons & !((1u16 << index) as u16) } else { old(self).buttons | ((1u16 << index) as u16) },
                ..*old(self)
            }),
    {
        let bit: u16 = 1u16 << (index as u16);
        if is_pressed {
            self.buttons &= !bit;
        } else {
            self.buttons |= bit;
        }
    }

    /// Ends the current transfer.
    pub fn reset(&mut self)
        ensures
            *final(self) == (Controller { state: 0, ..*old(self) }),
    {
        self.state = 0;
    }

    pub fn set_leftx(&mut self, value: u8)
        ensures
            *final(self) == (Controller { left_joy_x: value, ..*old(self) }),
    {
        self.left_joy_x = value;
    }

    pub fn set_lefty(&mut self, value: u8)
        ensures
            *final(self) == (Controller { left_joy_y: value, ..*old(self) }),
    {
        self.left_joy_y = value;
    }

    pub fn set_rightx(&mut self, value: u8)
        ensures
            *final(self) == (Controller { right_joy_x: value, ..*old(self) }),
    {
        self.right_joy_x = value;
    }

    pub fn set_righty(&mut self, value: u8)
        ensures
            *final(self) == (Controller { right_joy_y: value, ..*old(self) }),
    {
        self.right_joy_y = value;
    }

    /// The motor state: whether the small motor runs, and the large motor's speed.
    pub fn get_rumble(&self) -> (r: (bool, u8))
        ensures
            r == (self.small_motor, self.large_motor),
    {
        (self.small_motor, self.large_motor)
    }

    /// Whether `new` is the pad after it answered `r` to `command` in state `self`.
    pub open spec fn replied(&self, new: &Controller, command: u8, r: u8) -> bool {
        &&& r == self.spec_reply_byte(command)
        &&& new.state == (if self.spec_ends_transfer(command) { 0 } else { self.state + 1 })
        &&& new.controller_command == (if self.state == 1 { command } else { self.controller_command })
        &&& new.variable_byte == (if self.state == 3 && (self.controller_command == 0x43 || self.controller_command == 0x46 || self.controller_command == 0x4c) { command } else { self.variable_byte })
        &&& new.config_mode == (if self.state == 8 && self.controller_command == 0x43 && self.variable_byte == 1 { true } else if self.state == 8 && self.controller_command == 0x43 && self.variable_byte == 0 { false } else { self.config_mode })
        &&& new.vibration_latch@ == (if self.state >= 3 && self.controller_command == 0x4d { self.vibration_latch@.update(self.state - 3, command) } else { self.vibration_latch@ })
        &&& new.current_vibration@ == (if self.state == 8 && self.controller_command == 0x4d { self.vibration_latch@.update(5, command) } else { self.current_vibration@ })
        &&& new.small_motor == (if self.state >= 3 && self.controller_command == 0x42 && self.current_vibration@[self.state - 3] == 0 { command & 1 == 1 } else { self.small_motor })
        &&& new.large_motor == (if self.state >= 3 && self.controller_command == 0x42 && self.current_vibration@[self.state - 3] == 1 { command } else { self.large_motor })
        &&& new.buttons == self.buttons
        &&& new.digital_mode == self.digital_mode
        &&& new.left_joy_x == self.left_joy_x
        &&& new.left_joy_y == self.left_joy_y
        &&& new.right_joy_x == self.right_joy_x
        &&& new.right_joy_y == self.right_joy_y
        &&& new.rumble_on == self.rumble_on
    }

    /// Exchanges one byte of a transfer: answers `command` according to the pad protocol
    /// (poll 42h, config 43h, set mode 44h-47h, 4Ch, 4Dh) and advances the byte counter,
    /// or ends the transfer.
    pub fn reply(&mut self, command: u8) -> (r: u8)
        requires
            old(self).wf(),
        ensures
            final(self).wf(),
            old(self).replied(&*final(self), command, r),
    {
        let mut reset_state = false;
        let state = self.state;
        let reply: u8 = if state == 0 {
            0xff
        } else if state == 1 {
            self.controller_command = command;
            match command {
                0x42 => if self.digital_mode { 0x41 } else { 0x73 },
                0x43 => if self.config_mode {
                    0xf3
                } else {
                    if self.digital_mode { 0x41 } else { 0x73 }
                },
                0x45 | 0x4c | 0x46 | 0x47 | 0x4d => 0xf3,
                _ => {
                    reset_state = true;
                    0xff
                },
            }
        } else if state == 2 {
            0x5a
        } else if state == 3 {
            match self.controller_command {
                0x42 => {
                    self.update_vibration(command);
                    self.buttons as u8
                },
                0x43 => {
                    self.variable_byte = command;
                    if self.config_mode { 0x0 } else { self.buttons as u8 }
                },
                0x45 => 0x1,
                0x46 => {
                    self.variable_byte = command;
                    0x0
                },
                0x4c => {
                    self.variable_byte = command;
                    0x0
                },
                0x47 => 0,
                _ => {
                    self.vibration_latch[state - 3] = command;
                    self.current_vibration[state - 3]
                },
            }
        } else if state == 4 {
            match self.controller_command {
                0x43 => if self.config_mode { 0x0 } else { (self.buttons >> 8) as u8 },
                0x45 => 0x2,
                0x46 => 0x0,
                0x4c => 0x0,
                0x47 => 0x0,
                0x4d => {
                    self.vibration_latch[state - 3] = command;
                    self.current_vibration[state - 3]
                },
                _ => {
                    self.update_vibration(command);
                    if self.digital_mode && !self.config_mode {
                        reset_state = true;
                    }
                    (self.buttons >> 8) as u8
                },
            }
        } else if state == 5 {
            match self.controller_command {
                0x43 => if self.config_mode { 0x0 } else { self.right_joy_x },
                0x45 => if self.digital_mode { 0 } else { 1 },
                0x4c => 0x0,
                0x46 => match self.variable_byte {
                    0x0 | 0x1 => 0x1,
                    _ => 0x0,
                },
                0x47 => 0x2,
                0x4d => {
                    self.vibration_latch[state - 3] = command;
                    self.current_vibration[state - 3]
                },
                _ => {
                    self.update_vibration(command);
                    self.right_joy_x
                },
            }
        } else if state == 6 {
            match self.controller_command {
                0x43 => if self.config_mode { 0x0 } else { self.right_joy_y },
                0x45 => 0x2,
                0x46 => match self.variable_byte {
                    0x0 => 0x2,
                    0x1 => 0x1,
                    _ => 0x0,
                },
                0x4c => match self.variable_byte {
                    0x0 => 0x4,
                    0x1 => 0x7,
                    _ => 0x0,
                },
                0x47 => 0x0,
                0x4d => {
                    self.vibration_latch[state - 3] = command;
                    self.current_vibration[state - 3]
                },
                _ => {
                    self.update_vibration(command);
                    self.right_joy_y
                },
            }
        } else if state == 7 {
            match self.controller_command {
                0x43 => if self.config_mode { 0x0 } else { self.left_joy_x },
                0x45 => 0x1,
                0x46 => match self.variable_byte {
                    0x0 => 0x0,
                    0x1 => 0x1,
                    _ => 0x0,
                },
                0x4c => 0x0,
                0x47 => 0x1,
                0x4d => {
                    self.vibration_latch[state - 3] = command;
                    self.current_vibration[state - 3]
                },
                _ => {
                    self.update_vibration(command);
                    self.left_joy_x
                },
            }
        } else {
            reset_state = true;
            match self.controller_command {
                0x43 => {
                    let return_byte = if self.config_mode { 0x0 } else { self.left_joy_y };
                    if self.variable_byte == 0x1 {
                        self.config_mode = true;
                    } else if self.variable_byte == 0x0 {
                        self.config_mode = false;
                    }
                    return_byte
                },
                0x45 => 0x0,
                0x46 => match self.variable_byte {
                    0x0 => 0xa,
                    0x1 => 0x14,
                    _ => 0x0,
                },
                0x4c => 0x0,
                0x47 => 0x0,
                0x4d => {
                    self.vibration_latch[state - 3] = command;
                    let reply = self.current_vibration[state - 3];
                    self.current_vibration = self.vibration_latch;
                    assert(self.current_vibration@ =~= old(self).vibration_latch@.update(5, command));
                    reply
                },
                _ => {
                    self.update_vibration(command);
                    self.left_joy_y
                },
            }
        };

        self.state = if reset_state { 0 } else { state + 1 };

        proof {
            assert(self.vibration_latch@ =~= (if old(self).state >= 3 && old(self).controller_command == 0x4d { old(self).vibration_latch@.update(old(self).state - 3, command) } else { old(self).vibration_latch@ }));
        }
        reply
    }

    /// Latches a motor byte of a poll: the vibration slot of this byte position decides which
    /// motor, if any, the byte drives.
    fn update_vibration(&mut self, value: u8)
        requires
            3 <= old(self).state <= 8,
        ensures
            final(self).small_motor == (if old(self).current_vibration@[old(self).state - 3] == 0 { value & 1 == 1 } else { old(self).small_motor }),
            final(self).large_motor == (if old(self).current_vibration@[old(self).state - 3] != 0 && old(self).current_vibration@[old(self).state - 3] == 1 { value } else { old(self).large_motor }),
            final(self).state == old(self).state,
            final(self).controller_command == old(self).controller_command,
            final(self).variable_byte == old(self).variable_byte,
            final(self).config_mode == old(self).config_mode,
            final(self).digital_mode == old(self).digital_mode,
            final(self).current_vibration == old(self).current_vibration,
            final(self).vibration_latch == old(self).vibration_latch,
            final(self).buttons == old(self).buttons,
            final(self).left_joy_x == old(self).left_joy_x,
            final(self).left_joy_y == old(self).left_joy_y,
            final(self).right_joy_x == old(self).right_joy_x,
            final(self).right_joy_y == old(self).right_joy_y,
            final(self).rumble_on == old(self).rumble_on,
    {
        let slot = self.current_vibration[self.state - 3];
        if slot == 0x0 {
            self.small_motor = value & 1 == 1;
        } else if slot == 0x1 {
            self.large_motor = value;
        }
    }
}

} // verus!
