//! The SIO0 serial port: joypads and memory cards behind the JOY_DATA/STAT/MODE/CTRL/BAUD
//! registers. A written byte is exchanged with the selected device at once; the reply is
//! delivered by a scheduled event after the transfer time.
use vstd::prelude::*;
use crate::interrupt_controller::{Interrupt, InterruptController, interrupt_bit};
use crate::scheduler::{Scheduler, SchedulerEvent};
use crate::sio0::joypad::{InputProvider, Joypad, JoyPadState};
use crate::sio0::memory_card::MemoryCard;

pub mod sio_device;
pub mod joypad;
pub mod memory_card;

verus! {

/// The device that the current transfer talks to.
#[derive(Debug, Clone, Copy, PartialEq, Eq, Structural)]
pub enum ActiveDevice {
    Unselected,
    Joypad1,
    Joypad2,
    MemoryCard1,
    MemoryCard2,
}

pub struct SioController {
    pub joypad1: Joypad,
    pub joypad2: Joypad,
    pub memory_card1: MemoryCard,
    pub memory_card2: MemoryCard,
    pub active_device: ActiveDevice,
    pub transfer_active: bool,
    /// false: port 1, true: port 2.
    pub port_select: bool,
    pub stat: u16,
    pub mode: u16,
    pub ctrl: u16,
    pub baud: u16,
    pub rx_data: u8,
}

/// The device that the first byte of a transfer addresses: 01h a joypad, 81h a memory card,
/// on the selected port.
pub open spec fn addressed_device(byte: u8, port2: bool) -> ActiveDevice {
    if byte == 0x01 {
        if port2 { ActiveDevice::Joypad2 } else { ActiveDevice::Joypad1 }
    } else if byte == 0x81 {
        if port2 { ActiveDevice::MemoryCard2 } else { ActiveDevice::MemoryCard1 }
    } else {
        ActiveDevice::Unselected
    }
}

/// Cycles until the reply to a written byte arrives: 16 per baud-reload unit, at least one.
pub open spec fn transfer_delay(baud: u16) -> u64 {
    if baud == 0 { 1 } else { (16 * baud) as u64 }
}

/// STAT bits 3, 4, 5 and 9, cleared by the acknowledge bit of CTRL.
pub const STAT_ACK_CLEARED: u16 = 0x0238;

impl SioController {
    pub open spec fn wf(&self) -> bool {
        self.memory_card1.wf() && self.memory_card2.wf()
    }

    /// `post` differs from `self` at most in the devices.
    pub open spec fn same_registers(self, post: Self) -> bool {
        &&& post.active_device == self.active_device
        &&& post.transfer_active == self.transfer_active
        &&& post.port_select == self.port_select
        &&& post.stat == self.stat
        &&& post.mode == self.mode
        &&& post.ctrl == self.ctrl
        &&& post.baud == self.baud
        &&& post.rx_data == self.rx_data
    }

    pub open spec fn same_devices(self, post: Self) -> bool {
        &&& post.joypad1 == self.joypad1
        &&& post.joypad2 == self.joypad2
        &&& post.memory_card1 == self.memory_card1
        &&& post.memory_card2 == self.memory_card2
    }

    /// Device `dev` exchanged `byte` for `r`; the other devices are unchanged.
    pub open spec fn device_step(self, dev: ActiveDevice, byte: u8, post: Self, r: (u8, bool)) -> bool {
        match dev {
            ActiveDevice::Joypad1 => self.joypad1.exchange_spec(byte, post.joypad1, r)
                && post.joypad2 == self.joypad2 && post.memory_card1 == self.memory_card1
                && post.memory_card2 == self.memory_card2,
            ActiveDevice::Joypad2 => self.joypad2.exchange_spec(byte, post.joypad2, r)
                && post.joypad1 == self.joypad1 && post.memory_card1 == self.memory_card1
                && post.memory_card2 == self.memory_card2,
            ActiveDevice::MemoryCard1 => self.memory_card1.exchange_spec(byte, post.memory_card1, r)
                && post.joypad1 == self.joypad1 && post.joypad2 == self.joypad2
                && post.memory_card2 == self.memory_card2,
            ActiveDevice::MemoryCard2 => self.memory_card2.exchange_spec(byte, post.memory_card2, r)
                && post.joypad1 == self.joypad1 && post.joypad2 == self.joypad2
                && post.memory_card1 == self.memory_card1,
            ActiveDevice::Unselected => false,
        }
    }

    pub fn new(joy1_input: Box<dyn InputProvider>, joy2_input: Box<dyn InputProvider>) -> (r: Self)
        ensures
            r.wf(),
            r.active_device == ActiveDevice::Unselected,
            !r.transfer_active,
            !r.port_select,
            r.stat == 0 && r.mode == 0 && r.ctrl == 0 && r.baud == 0 && r.rx_data == 0,
            r.joypad1.fsm == JoyPadState::Idle && r.joypad2.fsm == JoyPadState::Idle,
            r.memory_card1.data@ == Seq::new(131072, |i: int| 0u8),
            r.memory_card2.data@ == Seq::new(131072, |i: int| 0u8),
    {
        Self {
            joypad1: Joypad::new(joy1_input),
            joypad2: Joypad::new(joy2_input),
            memory_card1: MemoryCard::new(),
            memory_card2: MemoryCard::new(),
            active_device: ActiveDevice::Unselected,
            transfer_active: false,
            port_select: false,
            stat: 0,
            mode: 0,
            ctrl: 0,
            baud: 0,
            rx_data: 0,
        }
    }

    /// What a register read returns and does to the controller.
    pub open spec fn register_read(self, post: SioController, offset: u32, r: u32) -> bool {
        &&& post.same_devices(self)
        &&& offset == 0 ==> r == self.rx_data as u32 && post.stat == self.stat & !2u16
        &&& offset == 4 ==> r == (self.stat | 5u16) as u32 && post.stat == self.stat & !0x80u16
        &&& offset == 8 ==> r == self.mode as u32
        &&& offset == 0xA ==> r == self.ctrl as u32
        &&& offset == 0xE ==> r == self.baud as u32
        &&& offset != 0 && offset != 4 && offset != 8 && offset != 0xA && offset != 0xE ==> r == 0
        &&& offset != 0 && offset != 4 ==> post.stat == self.stat
        &&& post.rx_data == self.rx_data && post.mode == self.mode
            && post.ctrl == self.ctrl && post.baud == self.baud
            && post.active_device == self.active_device
            && post.transfer_active == self.transfer_active
            && post.port_select == self.port_select
    }

    /// Register read at `offset` within the port: data (0), STAT (4), MODE (8), CTRL (Ah),
    /// BAUD (Eh); any other offset reads 0.
    pub fn read_register(&mut self, offset: u32) -> (r: u32)
        requires
            old(self).wf(),
        ensures
            final(self).wf(),
            old(self).register_read(*final(self), offset, r),
    {
        match offset {
            0x0 => self.read_data() as u32,
            0x4 => self.read_stat(),
            0x8 => self.read_mode() as u32,
            0xA => self.read_ctrl() as u32,
            0xE => self.read_baud() as u32,
            _ => 0,
        }
    }

    /// What a register write does to the controller and the scheduler.
    pub open spec fn written(self, post: SioController, sched: Scheduler, post_sched: Scheduler, offset: u32, value: u32) -> bool {
        &&& offset == 0 ==> self.write_data_spec(value as u8, post, sched, post_sched)
        &&& offset == 8 ==> post == (SioController { mode: value as u16, ..self })
        &&& offset == 0xA ==> self.write_ctrl_spec(value as u16, post)
        &&& offset == 0xE ==> post == (SioController { baud: value as u16, ..self })
        &&& offset != 0 ==> post_sched == sched
        &&& offset != 0 && offset != 8 && offset != 0xA && offset != 0xE ==> post == self
    }

    /// Register write at `offset`: data (0), MODE (8), CTRL (Ah), BAUD (Eh); STAT and other
    /// offsets ignore writes.
    pub fn write_register(&mut self, offset: u32, value: u32, scheduler: &mut Scheduler)
        requires
            old(self).wf(),
            old(scheduler).wf(),
        ensures
            final(self).wf(),
            final(scheduler).wf(),
            old(self).written(*final(self), *old(scheduler), *final(scheduler), offset, value),
    {
        match offset {
            0x0 => self.write_data(value as u8, scheduler),
            0x8 => self.write_mode(value as u16),
            0xA => self.write_ctrl(value as u16),
            0xE => self.write_baud(value as u16),
            _ => {},
        }
    }

    /// What a CTRL write does. Bit 6 resets the port (registers and all four devices); bit 4
    /// acknowledges (clears STAT bits 3, 4, 5, 9); bit 13 selects the port; bit 1 asserts the
    /// select line, and clearing it resets and releases the device of the transfer.
    pub open spec fn write_ctrl_spec(self, value: u16, post: Self) -> bool {
        let reset = value & 0x40 != 0;
        let selecting = value & 2 != 0;
        let stat0 = if reset { 0u16 } else { self.stat };
        let released = |d: ActiveDevice| reset || (!selecting && self.active_device == d);
        &&& post.ctrl == (if reset { 0u16 } else { value })
        &&& post.port_select == ((value >> 13u16) & 1 != 0)
        &&& post.stat == (if value & 0x10 != 0 { stat0 & !STAT_ACK_CLEARED } else { stat0 })
        &&& post.mode == (if reset { 0u16 } else { self.mode })
        &&& post.baud == (if reset { 0u16 } else { self.baud })
        &&& post.rx_data == self.rx_data
        &&& post.transfer_active == selecting
        &&& post.active_device == (if reset || !selecting { ActiveDevice::Unselected } else { self.active_device })
        &&& post.joypad1 == (if released(ActiveDevice::Joypad1) { self.joypad1.after_reset() } else { self.joypad1 })
        &&& post.joypad2 == (if released(ActiveDevice::Joypad2) { self.joypad2.after_reset() } else { self.joypad2 })
        &&& post.memory_card1 == (if released(ActiveDevice::MemoryCard1) { self.memory_card1.after_reset() } else { self.memory_card1 })
        &&& post.memory_card2 == (if released(ActiveDevice::MemoryCard2) { self.memory_card2.after_reset() } else { self.memory_card2 })
    }

    fn reset_device(&mut self, dev: ActiveDevice)
        requires
            old(self).wf(),
        ensures
            final(self).wf(),
            final(self).same_registers(*old(self)),
            final(self).joypad1 == (if dev == ActiveDevice::Joypad1 { old(self).joypad1.after_reset() } else { old(self).joypad1 }),
            final(self).joypad2 == (if dev == ActiveDevice::Joypad2 { old(self).joypad2.after_reset() } else { old(self).joypad2 }),
            final(self).memory_card1 == (if dev == ActiveDevice::MemoryCard1 { old(self).memory_card1.after_reset() } else { old(self).memory_card1 }),
            final(self).memory_card2 == (if dev == ActiveDevice::MemoryCard2 { old(self).memory_card2.after_reset() } else { old(self).memory_card2 }),
    {
        match dev {
            ActiveDevice::Joypad1 => self.joypad1.fsm = JoyPadState::Idle,
            ActiveDevice::Joypad2 => self.joypad2.fsm = JoyPadState::Idle,
            ActiveDevice::MemoryCard1 => self.memory_card1.reset_card(),
            ActiveDevice::MemoryCard2 => self.memory_card2.reset_card(),
            ActiveDevice::Unselected => {},
        }
    }

    pub fn write_ctrl(&mut self, value: u16)
        requires
            old(self).wf(),
        ensures
            final(self).wf(),
            old(self).write_ctrl_spec(value, *final(self)),
    {
        self.ctrl = value;
        self.port_select = (value >> 13u16) & 1 != 0;
        if value & 0x40 != 0 {
            self.stat = 0;
            self.mode = 0;
            self.ctrl = 0;
            self.baud = 0;
            self.reset_device(ActiveDevice::Joypad1);
            self.reset_device(ActiveDevice::Joypad2);
            self.reset_device(ActiveDevice::MemoryCard1);
            self.reset_device(ActiveDevice::MemoryCard2);
            self.active_device = ActiveDevice::Unselected;
            self.transfer_active = false;
        }
        if value & 0x10 != 0 {
            self.stat = self.stat & !STAT_ACK_CLEARED;
        }
        self.transfer_active = value & 2 != 0;
        if !self.transfer_active {
            let dev = self.active_device;
            self.reset_device(dev);
            self.active_device = ActiveDevice::Unselected;
        }
    }

    /// The device that a data byte goes to: that of the running transfer, else the one it
    /// addresses.
    pub open spec fn target_device(self, value: u8) -> ActiveDevice {
        if self.active_device == ActiveDevice::Unselected {
            addressed_device(value, self.port_select)
        } else {
            self.active_device
        }
    }

    /// What writing a data byte does: with the select line asserted, the byte goes to the
    /// device of the transfer, or, as the first byte, picks the device it addresses (an
    /// unknown address is ignored). The device's reply and acknowledge are scheduled as an
    /// event after the transfer delay, and a reply without acknowledge ends the transfer.
    pub open spec fn write_data_spec(self, value: u8, post: Self, sched: Scheduler, sched_post: Scheduler) -> bool {
        let dev = self.target_device(value);
        if !self.transfer_active || dev == ActiveDevice::Unselected {
            post == self && sched_post == sched
        } else {
            exists|r: (u8, bool)|
                #[trigger] self.device_step(self.target_device(value), value, post, r)
                    && post.active_device == (if r.1 { dev } else { ActiveDevice::Unselected })
                    && post.transfer_active == self.transfer_active
                    && post.port_select == self.port_select && post.stat == self.stat
                    && post.mode == self.mode && post.ctrl == self.ctrl && post.baud == self.baud
                    && post.rx_data == self.rx_data
                    && sched.added(sched_post, SchedulerEvent::SioResponse { byte: r.0, dsr: r.1 }, transfer_delay(self.baud))
        }
    }

    pub fn write_data(&mut self, value: u8, scheduler: &mut Scheduler)
        requires
            old(self).wf(),
            old(scheduler).wf(),
        ensures
            final(self).wf(),
            final(scheduler).wf(),
            old(self).write_data_spec(value, *final(self), *old(scheduler), *final(scheduler)),
    {
        if !self.transfer_active {
            return;
        }
        if self.active_device == ActiveDevice::Unselected {
            self.active_device = if value == 0x01 {
                if self.port_select { ActiveDevice::Joypad2 } else { ActiveDevice::Joypad1 }
            } else if value == 0x81 {
                if self.port_select { ActiveDevice::MemoryCard2 } else { ActiveDevice::MemoryCard1 }
            } else {
                ActiveDevice::Unselected
            };
            if self.active_device == ActiveDevice::Unselected {
                return;
            }
        }
        let dev = self.active_device;
        let (response, dsr) = match dev {
            ActiveDevice::Joypad1 => self.joypad1.exchange_byte(value),
            ActiveDevice::Joypad2 => self.joypad2.exchange_byte(value),
            ActiveDevice::MemoryCard1 => self.memory_card1.exchange_byte(value),
            _ => self.memory_card2.exchange_byte(value),
        };
        let delay: u64 = if self.baud == 0 { 1 } else { 16 * self.baud as u64 };
        assert(delay == transfer_delay(self.baud));
        scheduler.schedule(SchedulerEvent::SioResponse { byte: response, dsr }, delay);
        if !dsr {
            self.active_device = ActiveDevice::Unselected;
        }
        assert(old(self).device_step(old(self).target_device(value), value, *self, (response, dsr)));
    }

    /// Reads the received byte and clears "RX FIFO not empty" (STAT bit 1).
    pub fn read_data(&mut self) -> (r: u8)
        ensures
            r == old(self).rx_data,
            *final(self) == (SioController { stat: old(self).stat & !2u16, ..*old(self) }),
    {
        self.stat = self.stat & !2u16;
        self.rx_data
    }

    /// STAT with "TX ready" bits 0 and 2 always set; reading clears the acknowledge pulse
    /// (bit 7).
    pub fn read_stat(&mut self) -> (r: u32)
        ensures
            r == (old(self).stat | 5u16) as u32,
            *final(self) == (SioController { stat: old(self).stat & !0x80u16, ..*old(self) }),
    {
        let value = (self.stat | 5u16) as u32;
        self.stat = self.stat & !0x80u16;
        value
    }

    pub fn read_ctrl(&self) -> (r: u16)
        ensures
            r == self.ctrl,
    {
        self.ctrl
    }

    pub fn read_mode(&self) -> (r: u16)
        ensures
            r == self.mode,
    {
        self.mode
    }

    pub fn write_mode(&mut self, value: u16)
        ensures
            *final(self) == (SioController { mode: value, ..*old(self) }),
    {
        self.mode = value;
    }

    pub fn read_baud(&self) -> (r: u16)
        ensures
            r == self.baud,
    {
        self.baud
    }

    pub fn write_baud(&mut self, value: u16)
        ensures
            *final(self) == (SioController { baud: value, ..*old(self) }),
    {
        self.baud = value;
    }

    /// A reply arrives: it is latched with "RX not empty" (bit 1); with the acknowledge, STAT
    /// bits 7 and 9 are set and the controller interrupt is raised.
    pub fn handle_event(&mut self, byte: u8, dsr: bool, interrupt_controller: &mut InterruptController)
        ensures
            *final(self) == (SioController {
                rx_data: byte,
                stat: if dsr { old(self).stat | 0x282u16 } else { old(self).stat | 2u16 },
                ..*old(self)
            }),
            final(interrupt_controller).mask == old(interrupt_controller).mask,
            final(interrupt_controller).stat == (if dsr {
                old(interrupt_controller).stat | (1u16 << interrupt_bit(Interrupt::Controller))
            } else {
                old(interrupt_controller).stat
            }),
            crate::interrupt_controller::stat_grows(old(interrupt_controller).stat, final(interrupt_controller).stat),
    {
        proof { crate::interrupt_controller::lemma_stat_grows(); }
        let s0 = self.stat;
        self.rx_data = byte;
        self.stat = s0 | 2u16;
        if dsr {
            self.stat = self.stat | 0x280u16;
            interrupt_controller.raise_interrupt(Interrupt::Controller);
            assert((s0 | 2u16) | 0x280u16 == s0 | 0x282u16) by (bit_vector);
        }
    }
}

} // verus!
