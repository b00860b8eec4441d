pub mod controller;
pub mod memory_card;
pub mod sio_control;
pub mod sio_mode;

use vstd::prelude::*;
use std::collections::VecDeque;
use controller::Controller;
use memory_card::{CardView, MemoryCard};
use sio_control::SIOControl;
use sio_mode::SIOMode;
use crate::cpu::bus::registers::interrupt_register::InterruptRegister;
use crate::cpu::bus::scheduler::{EventType, Scheduler, event_code};

verus! {

/// The cycles between a byte's acknowledge and its interrupt.
pub const CONTROLLER_CYCLES: usize = 338;

/// The device a transfer on port 0 talks to, chosen by its first byte.
#[derive(Copy, Clone, PartialEq, Eq, Structural, Debug)]
pub enum SelectedPeripheral {
    NoDevice,
    MemoryCard,
    Controller,
}

/// Where a byte transfer stands.
#[derive(Copy, Clone, PartialEq, Eq, Structural, Debug)]
pub enum PeripheralState {
    Idle,
    Transferring,
    Acknowledge,
}

/// The device a transfer talks to after its byte `command` when `selected` was chosen
/// before: 01h opens the pad, 81h the memory card.
pub open spec fn selected_after(selected: SelectedPeripheral, command: u8) -> SelectedPeripheral {
    if selected == SelectedPeripheral::NoDevice {
        if command == 0x1 {
            SelectedPeripheral::Controller
        } else if command == 0x81 {
            SelectedPeripheral::MemoryCard
        } else {
            SelectedPeripheral::NoDevice
        }
    } else {
        selected
    }
}

/// The serial I/O port 0 (JOY_*): its registers, its FIFOs and the pad and memory card on it.
pub struct Peripherals {
    pub ctrl: SIOControl,
    pub baudrate_timer: u16,
    pub mode: SIOMode,
    pub tx_fifo: VecDeque<u8>,
    pub rx_fifo: VecDeque<u8>,
    pub tx_idle: bool,
    pub tx_ready: bool,
    pub state: PeripheralState,
    pub selected_peripheral: SelectedPeripheral,
    pub controller: Controller,
    pub memory_card: MemoryCard,
    pub interrupt: bool,
    pub rx_parity_error: bool,
}

impl Peripherals {
    /// The invariant: the pad and the card are each in a consistent state.
    pub open spec fn wf(&self) -> bool {
        &&& self.controller.wf()
        &&& self.memory_card@.wf()
    }

    /// JOY_STAT: TX ready (bit 0), RX not empty (1), TX idle (2), parity error (3),
    /// acknowledge (7), interrupt (9), and the baud timer from bit 11.
    pub open spec fn stat_bits(&self) -> u16 {
        (self.tx_ready as u16) | ((self.rx_fifo@.len() > 0) as u16) << 1u16 | (self.tx_idle as u16)
            << 2u16 | (self.rx_parity_error as u16) << 3u16 | ((self.state
            == PeripheralState::Acknowledge) as u16) << 7u16 | (self.interrupt as u16) << 9u16
            | self.baudrate_timer << 11u16
    }

    /// `new` is what a read of JOY_DATA that returned `r` leaves of `self`: the oldest
    /// received byte leaves the queue, or 0 is read from an empty one; the rest of the port
    /// is as it was.
    pub open spec fn byte_read(&self, new: &Peripherals, r: u8) -> bool {
        &&& self.rx_fifo@.len() > 0 ==> r == self.rx_fifo@[0] && new.rx_fifo@ == self.rx_fifo@.drop_first()
        &&& self.rx_fifo@.len() == 0 ==> r == 0 && new.rx_fifo@ == self.rx_fifo@
        &&& new.tx_fifo@ == self.tx_fifo@
        &&& new.state == self.state
        &&& new.selected_peripheral == self.selected_peripheral
        &&& new.controller == self.controller
        &&& new.memory_card@ == self.memory_card@
        &&& new.ctrl == self.ctrl
        &&& new.interrupt == self.interrupt
    }

    /// `new` and the scheduler `s1` are what writing `value` to JOY_DATA leaves of `self`
    /// and `s0`: the byte is queued when nothing waits to be sent, and its transfer is
    /// scheduled after eight baud periods.
    pub open spec fn byte_written(&self, new: &Peripherals, value: u8, s0: &Scheduler, s1: &Scheduler) -> bool {
        &&& s1.wf()
        &&& s1.cycles == s0.cycles
        &&& s1.events() == s0.events().insert(
            event_code(EventType::ControllerByteTransfer),
            (s0.cycles + (self.baudrate_timer & !1u16) * 8) as usize,
        )
        &&& new.tx_fifo@ == (if self.tx_fifo@.len() == 0 { seq![value] } else { self.tx_fifo@ })
        &&& new.state == PeripheralState::Transferring
        &&& !new.tx_idle
        &&& new.tx_ready
        &&& new.rx_fifo@ == self.rx_fifo@
        &&& new.ctrl == self.ctrl
        &&& new.baudrate_timer == self.baudrate_timer
        &&& new.selected_peripheral == self.selected_peripheral
        &&& new.controller == self.controller
        &&& new.memory_card@ == self.memory_card@
        &&& new.interrupt == self.interrupt
    }

    /// `new` and the scheduler `s1` are what writing `value` to JOY_CTRL leaves of `self`
    /// and `s0`.
    pub open spec fn ctrl_written(&self, new: &Peripherals, value: u16, s0: &Scheduler, s1: &Scheduler) -> bool {
        &&& new.wf()
        &&& s1.wf()
        &&& s1.cycles == s0.cycles
        &&& value & SIOControl::DTR_OUT == 0 || value & SIOControl::RESET != 0
            ==> s1.events() == s0.events().remove(
            event_code(EventType::ControllerByteTransfer),
        ) && self.disconnected(new)
        &&& value & SIOControl::DTR_OUT != 0 && value & SIOControl::RESET == 0 ==> {
            &&& s1.events() == s0.events()
            &&& new.selected_peripheral == self.selected_peripheral
            &&& new.state == self.state
            &&& new.controller == self.controller
            &&& new.memory_card@ == self.memory_card@
        }
        &&& value & SIOControl::RESET != 0 ==> {
            &&& new.ctrl.bits == 0
            &&& new.mode.value == 0
            &&& new.baudrate_timer == 0
            &&& new.tx_fifo@.len() == 0
            &&& new.rx_fifo@.len() == 0
            &&& new.tx_idle
            &&& new.tx_ready
            &&& new.interrupt == self.interrupt
            &&& new.rx_parity_error == self.rx_parity_error
        }
        &&& value & SIOControl::RESET == 0 ==> {
            &&& new.ctrl.bits == value
            &&& new.mode == self.mode
            &&& new.baudrate_timer == self.baudrate_timer
            &&& new.tx_fifo@ == self.tx_fifo@
            &&& new.rx_fifo@ == self.rx_fifo@
            &&& new.tx_idle == self.tx_idle
            &&& new.tx_ready == self.tx_ready
            &&& new.interrupt == (if value & SIOControl::ACK != 0
                && new.state != PeripheralState::Acknowledge {
                false
            } else {
                self.interrupt
            })
            &&& new.rx_parity_error == (if value & SIOControl::ACK != 0
                && new.state != PeripheralState::Acknowledge {
                false
            } else {
                self.rx_parity_error
            })
        }
    }

    /// Whether a due transfer event can be handled: a byte is under way, the byte to send is
    /// queued, and a memory card write stays on the card.
    pub open spec fn can_handle(&self) -> bool {
        &&& self.state != PeripheralState::Idle
        &&& self.state == PeripheralState::Transferring ==> self.tx_fifo@.len() > 0
        &&& self.memory_card@.write_in_bounds()
    }

    /// The port with the pad and card ended their transfers, as a cleared DTR leaves it.
    pub open spec fn disconnected(&self, new: &Peripherals) -> bool {
        &&& new.selected_peripheral == SelectedPeripheral::NoDevice
        &&& new.state == PeripheralState::Idle
        &&& new.controller == (Controller { state: 0, ..self.controller })
        &&& new.memory_card@ == (CardView {
            card_state: memory_card::CardState::Idle,
            step: 0,
            ..self.memory_card@
        })
    }

    pub fn new() -> (r: Self)
        ensures
            r.wf(),
            r.ctrl.bits == 0,
            r.baudrate_timer == 0,
            r.mode.value == 0,
            r.tx_fifo@.len() == 0,
            r.rx_fifo@.len() == 0,
            !r.tx_idle,
            !r.tx_ready,
            r.state == PeripheralState::Idle,
            r.selected_peripheral == SelectedPeripheral::NoDevice,
            r.controller.state == 0,
            r.memory_card@.card_state == memory_card::CardState::Idle,
            r.memory_card@.memory is None,
            !r.interrupt,
            !r.rx_parity_error,
    {
        Self {
            ctrl: SIOControl::from_bits_retain(0),
            baudrate_timer: 0,
            mode: SIOMode::new(),
            tx_fifo: VecDeque::new(),
            rx_fifo: VecDeque::new(),
            tx_idle: false,
            tx_ready: false,
            state: PeripheralState::Idle,
            selected_peripheral: SelectedPeripheral::NoDevice,
            controller: Controller::new(),
            memory_card: MemoryCard::new(),
            interrupt: false,
            rx_parity_error: false,
        }
    }

    /// Ends any transfer: the pending byte event is dropped, the pad and card are released.
    fn disconnect(&mut self, scheduler: &mut Scheduler)
        requires
            old(self).wf(),
            old(scheduler).wf(),
        ensures
            final(self).wf(),
            old(self).disconnected(&*final(self)),
            final(self).ctrl == old(self).ctrl,
            final(self).baudrate_timer == old(self).baudrate_timer,
            final(self).mode == old(self).mode,
            final(self).tx_fifo@ == old(self).tx_fifo@,
            final(self).rx_fifo@ == old(self).rx_fifo@,
            final(self).tx_idle == old(self).tx_idle,
            final(self).tx_ready == old(self).tx_ready,
            final(self).interrupt == old(self).interrupt,
            final(self).rx_parity_error == old(self).rx_parity_error,
            final(scheduler).wf(),
            final(scheduler).cycles == old(scheduler).cycles,
            final(scheduler).events() == old(scheduler).events().remove(
                event_code(EventType::ControllerByteTransfer),
            ),
    {
        scheduler.remove(EventType::ControllerByteTransfer);
        self.selected_peripheral = SelectedPeripheral::NoDevice;
        self.state = PeripheralState::Idle;
        self.controller.reset();
        self.memory_card.reset();
    }

    /// Writes JOY_CTRL. A cleared DTR ends any transfer; the reset bit clears the register,
    /// the mode, the baud rate and both FIFOs; the acknowledge bit clears the interrupt
    /// unless a byte is being acknowledged.
    pub fn write_ctrl(&mut self, value: u16, scheduler: &mut Scheduler)
        requires
            old(self).wf(),
            old(scheduler).wf(),
        ensures
            final(self).wf(),
            final(scheduler).wf(),
            final(scheduler).cycles == old(scheduler).cycles,
            value & SIOControl::DTR_OUT == 0 || value & SIOControl::RESET != 0
                ==> final(scheduler).events() == old(scheduler).events().remove(
                event_code(EventType::ControllerByteTransfer),
            ) && old(self).disconnected(&*final(self)),
            value & SIOControl::DTR_OUT != 0 && value & SIOControl::RESET == 0 ==> {
                &&& final(scheduler).events() == old(scheduler).events()
                &&& final(self).selected_peripheral == old(self).selected_peripheral
                &&& final(self).state == old(self).state
                &&& final(self).controller == old(self).controller
                &&& final(self).memory_card@ == old(self).memory_card@
            },
            value & SIOControl::RESET != 0 ==> {
                &&& final(self).ctrl.bits == 0
                &&& final(self).mode.value == 0
                &&& final(self).baudrate_timer == 0
                &&& final(self).tx_fifo@.len() == 0
                &&& final(self).rx_fifo@.len() == 0
                &&& final(self).tx_idle
                &&& final(self).tx_ready
                &&& final(self).interrupt == old(self).interrupt
                &&& final(self).rx_parity_error == old(self).rx_parity_error
            },
            value & SIOControl::RESET == 0 ==> {
                &&& final(self).ctrl.bits == value
                &&& final(self).mode == old(self).mode
                &&& final(self).baudrate_timer == old(self).baudrate_timer
                &&& final(self).tx_fifo@ == old(self).tx_fifo@
                &&& final(self).rx_fifo@ == old(self).rx_fifo@
                &&& final(self).tx_idle == old(self).tx_idle
                &&& final(self).tx_ready == old(self).tx_ready
                &&& final(self).interrupt == (if value & SIOControl::ACK != 0
                    && final(self).state != PeripheralState::Acknowledge {
                    false
                } else {
                    old(self).interrupt
                })
                &&& final(self).rx_parity_error == (if value & SIOControl::ACK != 0
                    && final(self).state != PeripheralState::Acknowledge {
                    false
                } else {
                    old(self).rx_parity_error
                })
            },
    {
        proof {
            assert((value & 2 == 2) == (value & 2 != 0) && (value & 0x40 == 0x40) == (value & 0x40 != 0)
                && (value & 0x10 == 0x10) == (value & 0x10 != 0) && 0u16 & 2 == 0 && 0u16 & 0x40 == 0
                && 0u16 & 0x10 == 0) by (bit_vector);
        }
        self.ctrl = SIOControl::from_bits_retain(value);
        if !self.ctrl.contains(SIOControl::DTR_OUT) {
            self.disconnect(scheduler);
        }
        if self.ctrl.contains(SIOControl::RESET) {
            self.ctrl = SIOControl::from_bits_retain(0);
            if !self.ctrl.contains(SIOControl::DTR_OUT) {
                self.disconnect(scheduler);
            }
            self.write_mode(0);
            self.write_reload_rate(0);
            self.tx_fifo.clear();
            self.rx_fifo.clear();
            self.tx_idle = true;
            self.tx_ready = true;
        }
        if self.ctrl.contains(SIOControl::ACK) && self.state != PeripheralState::Acknowledge {
            self.rx_parity_error = false;
            self.interrupt = false;
        }
    }

    /// Reads JOY_DATA: the oldest received byte, or 0 when none is waiting.
    pub fn read_byte(&mut self) -> (r: u8)
        ensures
            old(self).rx_fifo@.len() > 0 ==> r == old(self).rx_fifo@[0] && final(self).rx_fifo@
                == old(self).rx_fifo@.drop_first(),
            old(self).rx_fifo@.len() == 0 ==> r == 0 && final(self).rx_fifo@ == old(self).rx_fifo@,
            final(self).tx_fifo@ == old(self).tx_fifo@,
            final(self).state == old(self).state,
            final(self).selected_peripheral == old(self).selected_peripheral,
            final(self).controller == old(self).controller,
            final(self).memory_card@ == old(self).memory_card@,
            final(self).ctrl == old(self).ctrl,
            final(self).interrupt == old(self).interrupt,
    {
        match self.rx_fifo.pop_front() {
            Some(byte) => byte,
            None => 0,
        }
    }

    /// Runs the due byte event: finishes an acknowledge by raising the interrupt, or sends
    /// the queued byte to the selected device.
    pub fn handle_peripherals(&mut self, interrupt: &mut InterruptRegister, scheduler: &mut Scheduler)
        requires
            old(self).wf(),
            old(self).can_handle(),
            old(scheduler).wf(),
            old(scheduler).cycles + CONTROLLER_CYCLES <= usize::MAX,
        ensures
            final(self).wf(),
            final(scheduler).wf(),
            old(self).state == PeripheralState::Acknowledge ==> {
                &&& final(self).state == PeripheralState::Idle
                &&& final(self).interrupt
                &&& final(interrupt).bits == old(interrupt).bits | InterruptRegister::PERIPHERAL
                &&& *final(scheduler) == *old(scheduler)
                &&& final(self).tx_fifo@ == old(self).tx_fifo@
                &&& final(self).rx_fifo@ == old(self).rx_fifo@
            },
            old(self).state == PeripheralState::Transferring ==> {
                &&& *final(interrupt) == *old(interrupt)
                &&& Self::transferred(&*old(self), &*final(self), &*old(scheduler), &*final(scheduler))
            },
    {
        match self.state {
            PeripheralState::Acknowledge => self.handle_ack(interrupt),
            _ => self.handle_transfer(scheduler),
        }
    }

    /// Whether `new` and `new_scheduler` are the port and the scheduler after `old` sent its
    /// queued byte: the byte goes to the device chosen for the transfer, its answer is
    /// received, and the transfer goes on to an acknowledge while the device takes part.
    pub open spec fn transferred(
        old: &Peripherals,
        new: &Peripherals,
        old_scheduler: &Scheduler,
        new_scheduler: &Scheduler,
    ) -> bool {
        let command = old.tx_fifo@[0];
        let selected = selected_after(old.selected_peripheral, command);
        &&& new.tx_fifo@ == old.tx_fifo@.drop_first()
        &&& new.ctrl == old.ctrl
        &&& if old.ctrl.bits & SIOControl::SIO_PORT_SELECT == SIOControl::SIO_PORT_SELECT {
            &&& new.rx_fifo@ == old.rx_fifo@.push(0xff)
            &&& new.state == old.state
            &&& new.selected_peripheral == old.selected_peripheral
            &&& new.tx_idle == old.tx_idle
            &&& new.controller == old.controller
            &&& new.memory_card@ == old.memory_card@
            &&& *new_scheduler == *old_scheduler
        } else {
            let (card, card_reply) = old.memory_card@.replied(command);
            let (reply, in_ack) = if selected == SelectedPeripheral::Controller {
                (old.controller.spec_reply_byte(command), new.controller.state != 0)
            } else if selected == SelectedPeripheral::MemoryCard {
                (card_reply, card.card_state != memory_card::CardState::Idle)
            } else {
                (0xffu8, false)
            };
            &&& selected == SelectedPeripheral::Controller ==> old.controller.replied(
                &new.controller,
                command,
                reply,
            ) && new.memory_card@ == old.memory_card@
            &&& selected == SelectedPeripheral::MemoryCard ==> new.memory_card@ == card
                && new.controller == old.controller
            &&& selected == SelectedPeripheral::NoDevice ==> new.memory_card@ == old.memory_card@
                && new.controller == old.controller
            &&& new.rx_fifo@ == old.rx_fifo@.push(reply)
            &&& new.tx_idle
            &&& in_ack ==> new.state == PeripheralState::Acknowledge && new.selected_peripheral
                == selected && new_scheduler.events() == old_scheduler.events().insert(
                event_code(EventType::ControllerByteTransfer),
                (old_scheduler.cycles + CONTROLLER_CYCLES) as usize,
            )
            &&& !in_ack ==> new.state == PeripheralState::Idle && new.selected_peripheral
                == SelectedPeripheral::NoDevice && *new_scheduler == *old_scheduler
            &&& new_scheduler.cycles == old_scheduler.cycles
        }
    }

    fn handle_transfer(&mut self, scheduler: &mut Scheduler)
        requires
            old(self).wf(),
            old(self).can_handle(),
            old(self).state == PeripheralState::Transferring,
            old(scheduler).wf(),
            old(scheduler).cycles + CONTROLLER_CYCLES <= usize::MAX,
        ensures
            final(self).wf(),
            final(scheduler).wf(),
            Self::transferred(&*old(self), &*final(self), &*old(scheduler), &*final(scheduler)),
    {
        let command = match self.tx_fifo.pop_front() {
            Some(c) => c,
            None => 0,
        };
        if self.ctrl.contains(SIOControl::SIO_PORT_SELECT) {
            self.rx_fifo.push_back(0xff);
            return;
        }
        if self.selected_peripheral == SelectedPeripheral::NoDevice {
            if command == 0x1 {
                self.selected_peripheral = SelectedPeripheral::Controller;
            } else if command == 0x81 {
                self.selected_peripheral = SelectedPeripheral::MemoryCard;
            }
        }
        let (reply, in_ack) = match self.selected_peripheral {
            SelectedPeripheral::Controller => {
                let r = self.controller.reply(command);
                (r, self.controller.in_ack())
            },
            SelectedPeripheral::MemoryCard => {
                let r = self.memory_card.reply(command);
                (r, self.memory_card.in_ack())
            },
            _ => (0xff, false),
        };
        if in_ack {
            self.state = PeripheralState::Acknowledge;
            scheduler.schedule(EventType::ControllerByteTransfer, CONTROLLER_CYCLES);
        } else {
            self.selected_peripheral = SelectedPeripheral::NoDevice;
            self.state = PeripheralState::Idle;
        }
        self.rx_fifo.push_back(reply);
        self.tx_idle = true;
    }

    fn handle_ack(&mut self, interrupt: &mut InterruptRegister)
        ensures
            *final(self) == (Peripherals { state: PeripheralState::Idle, interrupt: true, ..*old(self) }),
            final(interrupt).bits == old(interrupt).bits | InterruptRegister::PERIPHERAL,
    {
        self.state = PeripheralState::Idle;
        self.interrupt = true;
        interrupt.insert(InterruptRegister::PERIPHERAL);
    }

    /// Writes JOY_DATA: queues `value` when nothing waits to be sent, and schedules the byte's
    /// transfer after eight baud periods.
    pub fn write_byte(&mut self, value: u8, scheduler: &mut Scheduler)
        requires
            old(scheduler).wf(),
            old(scheduler).cycles + (old(self).baudrate_timer & !1u16) * 8 <= usize::MAX,
        ensures
            final(scheduler).wf(),
            final(scheduler).cycles == old(scheduler).cycles,
            final(scheduler).events() == old(scheduler).events().insert(
                event_code(EventType::ControllerByteTransfer),
                (old(scheduler).cycles + (old(self).baudrate_timer & !1u16) * 8) as usize,
            ),
            final(self).tx_fifo@ == (if old(self).tx_fifo@.len() == 0 {
                seq![value]
            } else {
                old(self).tx_fifo@
            }),
            final(self).state == PeripheralState::Transferring,
            !final(self).tx_idle,
            final(self).tx_ready,
            final(self).rx_fifo@ == old(self).rx_fifo@,
            final(self).ctrl == old(self).ctrl,
            final(self).baudrate_timer == old(self).baudrate_timer,
            final(self).selected_peripheral == old(self).selected_peripheral,
            final(self).controller == old(self).controller,
            final(self).memory_card@ == old(self).memory_card@,
            final(self).interrupt == old(self).interrupt,
    {
        if self.tx_fifo.len() == 0 {
            self.tx_fifo.push_back(value);
        }
        let cycles: usize = ((self.baudrate_timer & !1u16) as usize) * 8;
        scheduler.schedule(EventType::ControllerByteTransfer, cycles);
        self.state = PeripheralState::Transferring;
        self.tx_idle = false;
        self.tx_ready = true;
    }

    /// Reads JOY_STAT: TX ready (bit 0), RX not empty (1), TX idle (2), parity error (3),
    /// acknowledge (7), interrupt (9), and the baud timer from bit 11.
    pub fn read_stat(&self) -> (r: u16)
        ensures
            r == self.stat_bits(),
    {
        (self.tx_ready as u16) | ((self.rx_fifo.len() > 0) as u16) << 1u16 | (self.tx_idle as u16)
            << 2u16 | (self.rx_parity_error as u16) << 3u16 | ((self.state
            == PeripheralState::Acknowledge) as u16) << 7u16 | (self.interrupt as u16) << 9u16
            | self.baudrate_timer << 11u16
    }

    /// Writes JOY_BAUD.
    pub fn write_reload_rate(&mut self, value: u16)
        ensures
            *final(self) == (Peripherals { baudrate_timer: value, ..*old(self) }),
    {
        self.baudrate_timer = value;
    }

    /// Reads JOY_CTRL.
    pub fn read_ctrl(&self) -> (r: u16)
        ensures
            r == self.ctrl.bits,
    {
        self.ctrl.bits()
    }

    /// Writes JOY_MODE.
    pub fn write_mode(&mut self, value: u16)
        ensures
            *final(self) == (Peripherals { mode: SIOMode { value }, ..*old(self) }),
    {
        self.mode.write(value);
    }
}

} // verus!
