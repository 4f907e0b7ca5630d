use parastation_core::interrupt_controller::InterruptController;
use parastation_core::scheduler::{Scheduler, SchedulerEvent};
use parastation_core::sio0::joypad::{InputProvider, Joypad, JoypadButton};
use parastation_core::sio0::memory_card::MemoryCard;
use parastation_core::sio0::{ActiveDevice, SioController};
use parastation_core::keyboard_input_provider::KeyboardState;

struct Pressed(u16);
impl InputProvider for Pressed {
    fn get_joypad_state(&self) -> u16 {
        self.0
    }
}

#[test]
fn joypad_reply_sequence() {
    let mut pad = Joypad::new(Box::new(Pressed(0xBFFE)));
    assert_eq!(pad.exchange_byte(0x01), (0xFF, true));
    assert_eq!(pad.exchange_byte(0x42), (0x41, true));
    assert_eq!(pad.exchange_byte(0x00), (0x5A, true));
    assert_eq!(pad.exchange_byte(0x00), (0xFE, true));
    assert_eq!(pad.exchange_byte(0x00), (0xBF, false));
    assert_eq!(pad.exchange_byte(0x02), (0xFF, false));
}

#[test]
fn joypad_ignores_a_wrong_command() {
    let mut pad = Joypad::new(Box::new(Pressed(0xFFFF)));
    assert_eq!(pad.exchange_byte(0x01), (0xFF, true));
    assert_eq!(pad.exchange_byte(0x43), (0x41, false));
    assert_eq!(pad.exchange_byte(0x01), (0xFF, true));
}

#[test]
fn button_masks() {
    assert_eq!(JoypadButton::Select.mask(), 0x0001);
    assert_eq!(JoypadButton::Start.mask(), 0x0008);
    assert_eq!(JoypadButton::Cross.mask(), 0x4000);
    assert_eq!(JoypadButton::Square.mask(), 0x8000);
}

#[test]
fn keyboard_press_and_release() {
    let mut k = KeyboardState::new();
    assert_eq!(k.joypad_state(), 0xFFFF);
    k.key_pressed(JoypadButton::Cross);
    k.key_pressed(JoypadButton::Up);
    assert_eq!(k.joypad_state(), 0xBFEF);
    k.key_released(JoypadButton::Cross);
    assert_eq!(k.joypad_state(), 0xFFEF);
}

fn exchange_all(card: &mut MemoryCard, bytes: &[u8]) -> Vec<(u8, bool)> {
    bytes.iter().map(|b| card.exchange_byte(*b)).collect()
}

#[test]
fn memory_card_get_id() {
    let mut card = MemoryCard::new();
    let replies = exchange_all(&mut card, &[0x81, 0x53, 0, 0, 0, 0, 0, 0, 0, 0]);
    assert_eq!(
        replies,
        vec![(0xFF, true), (0x5A, true), (0x5A, true), (0x5D, true), (0x5C, true), (0x5D, true), (0x04, true), (0x00, true), (0x00, true), (0x80, false)]
    );
}

#[test]
fn memory_card_needs_its_address_byte() {
    let mut card = MemoryCard::new();
    assert_eq!(card.exchange_byte(0x52), (0xFF, false));
    assert_eq!(card.exchange_byte(0x81), (0xFF, true));
    assert_eq!(card.exchange_byte(0x99), (0xFF, false));
}

#[test]
fn memory_card_sector_written_reads_back() {
    let mut card = MemoryCard::new();
    let data: Vec<u8> = (0..128u32).map(|i| (i * 3) as u8).collect();
    let checksum = data.iter().fold(0x01u8 ^ 0x23u8, |c, b| c ^ b);
    let mut write = vec![0x81, 0x57, 0, 0, 0x01, 0x23];
    write.extend_from_slice(&data);
    write.extend_from_slice(&[checksum, 0, 0, 0]);
    let replies = exchange_all(&mut card, &write);
    assert_eq!(replies[5], (0x01, true));
    assert_eq!(replies[6 + 128], (checksum, true));
    assert_eq!(replies[6 + 129], (0x5C, true));
    assert_eq!(replies[6 + 130], (0x5D, true));
    assert_eq!(replies[6 + 131], (0x47, false));
    assert_eq!(&card.data[0x123 * 128..0x124 * 128], &data[..]);

    let mut card2_reads = vec![0x52, 0, 0, 0x01, 0x23, 0, 0, 0, 0];
    card2_reads.extend(std::iter::repeat(0u8).take(130));
    card.reset_card();
    let mut read = vec![0x81];
    read.append(&mut card2_reads);
    let replies = exchange_all(&mut card, &read);
    assert_eq!(replies[1], (0x5A, true));
    assert_eq!(replies[5], (0x01, true));
    assert_eq!(replies[6], (0x5C, true));
    assert_eq!(replies[7], (0x5D, true));
    assert_eq!(replies[8], (0x01, true));
    assert_eq!(replies[9], (0x23, true));
    let got: Vec<u8> = replies[10..138].iter().map(|r| r.0).collect();
    assert_eq!(got, data);
    assert_eq!(replies[138], (checksum, true));
    assert_eq!(replies[139], (0x47, false));
}

#[test]
fn memory_card_bad_checksum_keeps_the_sector() {
    let mut card = MemoryCard::new();
    let data: Vec<u8> = (0..128u32).map(|i| (i + 1) as u8).collect();
    let checksum = data.iter().fold(0x00u8 ^ 0x05u8, |c, b| c ^ b);
    let mut write = vec![0x81, 0x57, 0, 0, 0x00, 0x05];
    write.extend_from_slice(&data);
    write.extend_from_slice(&[checksum ^ 0xFF, 0, 0, 0]);
    let replies = exchange_all(&mut card, &write);
    assert_eq!(replies[6 + 128], (checksum, true));
    assert_eq!(replies[6 + 131], (0x4E, false));
    assert!(card.data[5 * 128..6 * 128].iter().all(|b| *b == 0));
}

#[test]
fn controller_transfer_and_reply() {
    let mut sio = SioController::new(Box::new(Pressed(0xFFFF)), Box::new(Pressed(0xFFFF)));
    let mut sched = Scheduler::new();
    let mut ic = InterruptController::new();
    sio.write_register(0xE, 0x88, &mut sched);
    sio.write_register(0xA, 0x0002, &mut sched);
    sio.write_register(0x0, 0x01, &mut sched);
    assert_eq!(sio.active_device, ActiveDevice::Joypad1);
    assert_eq!(sched.events.len(), 1);
    assert_eq!(sched.events[0].deadline, 16 * 0x88);
    assert_eq!(sched.events[0].kind, SchedulerEvent::SioResponse { byte: 0xFF, dsr: true });
    sio.handle_event(0xFF, true, &mut ic);
    assert_eq!(sio.read_register(0x4) & 0x283, 0x283);
    assert_eq!(sio.read_register(0x4) & 0x80, 0);
    assert_eq!(ic.stat, 1 << 7);
    assert_eq!(sio.read_register(0x0), 0xFF);
    assert_eq!(sio.stat & 2, 0);
}

#[test]
fn controller_ignores_unknown_addresses_and_resets() {
    let mut sio = SioController::new(Box::new(Pressed(0xFFFF)), Box::new(Pressed(0xFFFF)));
    let mut sched = Scheduler::new();
    sio.write_register(0xA, 0x2002, &mut sched);
    sio.write_register(0x0, 0x55, &mut sched);
    assert_eq!(sched.events.len(), 0);
    sio.write_register(0x0, 0x81, &mut sched);
    assert_eq!(sio.active_device, ActiveDevice::MemoryCard2);
    sio.write_register(0xA, 0x0040, &mut sched);
    assert_eq!(sio.active_device, ActiveDevice::Unselected);
    assert_eq!(sio.read_register(0xA), 0);
    assert_eq!(sio.read_register(0x8), 0);
}
