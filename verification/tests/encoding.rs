use display_interface::DisplayError;
use ssd1363::command::{create_data_array, Command, VcomhLevel};
use ssd1363::interface::{Link, Transport};
use std::cell::RefCell;
use std::rc::Rc;

#[derive(Clone, Debug, PartialEq)]
enum Sent {
    Commands(Vec<u8>),
    Data(Vec<u8>),
    Stream(Vec<u8>),
}

/// A transport that notes what it is asked and refuses the request whose number,
/// counting from one, is `refuse`.
struct Wire {
    asked: Rc<RefCell<Vec<Sent>>>,
    refuse: Option<usize>,
}

impl Wire {
    fn answer(&mut self, sent: Sent) -> Result<(), DisplayError> {
        self.asked.borrow_mut().push(sent);
        if self.refuse == Some(self.asked.borrow().len()) {
            Err(DisplayError::BusWriteError)
        } else {
            Ok(())
        }
    }
}

impl Transport for Wire {
    fn send_commands(&mut self, bytes: &[u8]) -> Result<(), DisplayError> {
        self.answer(Sent::Commands(bytes.to_vec()))
    }

    fn send_data(&mut self, bytes: &[u8]) -> Result<(), DisplayError> {
        self.answer(Sent::Data(bytes.to_vec()))
    }

    fn stream_data(&mut self, bytes: &[u8]) -> Result<(), DisplayError> {
        self.answer(Sent::Stream(bytes.to_vec()))
    }
}

/// What a transport that takes everything is asked when `command` is sent.
fn wire_form(command: Command) -> Vec<Sent> {
    let asked = Rc::new(RefCell::new(Vec::new()));
    let mut link = Link::new(Wire { asked: asked.clone(), refuse: None });
    assert!(command.send(&mut link).is_ok());
    let seen = asked.borrow().clone();
    seen
}

/// The opcode of `command` and the parameter bytes that `encode` reports.
fn encoded(command: Command) -> (u8, Vec<u8>) {
    let (opcode, data, len) = command.encode();
    assert!(data[len..].iter().all(|&b| b == 0));
    (opcode, data[..len].to_vec())
}

fn opcode_then(opcode: u8, payload: &[u8]) -> Vec<Sent> {
    let mut sent = vec![Sent::Commands(vec![opcode])];
    for &b in payload {
        sent.push(Sent::Data(vec![b]));
    }
    sent
}

#[test]
fn contrast_is_opcode_c1_and_the_value() {
    assert_eq!(encoded(Command::Contrast(0x6F)), (0xC1, vec![0x6F]));
    assert_eq!(wire_form(Command::Contrast(0x6F)), opcode_then(0xC1, &[0x6F]));
    assert_eq!(encoded(Command::Contrast(0x00)), (0xC1, vec![0x00]));
    assert_eq!(encoded(Command::Contrast(0xFF)), (0xC1, vec![0xFF]));
}

#[test]
fn clock_divider_packs_frequency_high_and_ratio_low() {
    assert_eq!(encoded(Command::DisplayClockDiv(0xA, 0x0)), (0xB3, vec![0xA0]));
    assert_eq!(wire_form(Command::DisplayClockDiv(0xA, 0x0)), opcode_then(0xB3, &[0xA0]));
    assert_eq!(encoded(Command::DisplayClockDiv(0x3, 0xC)), (0xB3, vec![0x3C]));
}

#[test]
fn clock_divider_keeps_four_bits_of_each_value() {
    assert_eq!(encoded(Command::DisplayClockDiv(0xFA, 0x71)), (0xB3, vec![0xA1]));
    assert_eq!(encoded(Command::DisplayClockDiv(0x10, 0x10)), (0xB3, vec![0x00]));
    assert_eq!(encoded(Command::DisplayClockDiv(0xFF, 0xFF)), (0xB3, vec![0xFF]));
}

#[test]
fn precharge_packs_phase2_high_and_phase1_low() {
    assert_eq!(encoded(Command::PreChargePeriod(0x3, 0xD)), (0xB1, vec![0xD3]));
    assert_eq!(wire_form(Command::PreChargePeriod(0x3, 0xD)), opcode_then(0xB1, &[0xD3]));
    assert_eq!(encoded(Command::PreChargePeriod(0x13, 0x2D)), (0xB1, vec![0xD3]));
}

#[test]
fn vcomh_level_sits_in_bits_2_to_5() {
    assert_eq!(encoded(Command::VcomhDeselect(VcomhLevel::V064)), (0xDB, vec![0x00]));
    assert_eq!(encoded(Command::VcomhDeselect(VcomhLevel::V078)), (0xDB, vec![0x34]));
    assert_eq!(encoded(Command::VcomhDeselect(VcomhLevel::V084)), (0xDB, vec![0x3C]));
    assert_eq!(wire_form(Command::VcomhDeselect(VcomhLevel::V078)), opcode_then(0xDB, &[0x34]));
}

#[test]
fn vcomh_level_codes() {
    assert_eq!(VcomhLevel::V064.code(), 0b0000);
    assert_eq!(VcomhLevel::V078.code(), 0b1101);
    assert_eq!(VcomhLevel::V084.code(), 0b1111);
}

#[test]
fn sleep_sets_bit_0_of_the_opcode() {
    assert_eq!(encoded(Command::Sleep(true)), (0xAF, vec![]));
    assert_eq!(encoded(Command::Sleep(false)), (0xAE, vec![]));
    assert_eq!(wire_form(Command::Sleep(true)), opcode_then(0xAF, &[]));
    assert_eq!(wire_form(Command::Sleep(false)), opcode_then(0xAE, &[]));
}

#[test]
fn invert_sets_bit_0_of_the_opcode() {
    assert_eq!(encoded(Command::Invert(true)), (0xA7, vec![]));
    assert_eq!(encoded(Command::Invert(false)), (0xA6, vec![]));
    assert_eq!(wire_form(Command::Invert(true)), opcode_then(0xA7, &[]));
}

#[test]
fn all_on_clears_bit_1_of_the_opcode() {
    assert_eq!(encoded(Command::AllOn(true)), (0xA5, vec![]));
    assert_eq!(encoded(Command::AllOn(false)), (0xA7, vec![]));
    assert_eq!(wire_form(Command::AllOn(true)), opcode_then(0xA5, &[]));
    assert_eq!(wire_form(Command::AllOn(false)), opcode_then(0xA7, &[]));
}

#[test]
fn internal_iref_sets_bit_4_over_0x80() {
    assert_eq!(encoded(Command::SetInternalIREF(true)), (0xAD, vec![0x90]));
    assert_eq!(encoded(Command::SetInternalIREF(false)), (0xAD, vec![0x80]));
    assert_eq!(wire_form(Command::SetInternalIREF(true)), opcode_then(0xAD, &[0x90]));
}

#[test]
fn column_address_carries_start_and_end() {
    assert_eq!(encoded(Command::SetColumnAddress(0x08, 0x37)), (0x15, vec![0x08, 0x37]));
    assert_eq!(
        wire_form(Command::SetColumnAddress(0x08, 0x37)),
        opcode_then(0x15, &[0x08, 0x37])
    );
    assert_eq!(encoded(Command::SetColumnAddress(0xFF, 0x00)), (0x15, vec![0xFF, 0x00]));
}

#[test]
fn row_address_carries_start_and_end() {
    assert_eq!(encoded(Command::SetRowAddress(0x00, 0x7F)), (0x75, vec![0x00, 0x7F]));
    assert_eq!(wire_form(Command::SetRowAddress(0x00, 0x7F)), opcode_then(0x75, &[0x00, 0x7F]));
}

#[test]
fn start_read_shares_the_opcode_of_row_address() {
    assert_eq!(encoded(Command::StartRead), (0x75, vec![]));
    assert_eq!(encoded(Command::SetRowAddress(1, 2)).0, 0x75);
    assert_eq!(wire_form(Command::StartRead), opcode_then(0x75, &[]));
}

#[test]
fn segment_remap_sets_bit_1() {
    assert_eq!(encoded(Command::SegmentRemap(true)), (0xA0, vec![0x02]));
    assert_eq!(encoded(Command::SegmentRemap(false)), (0xA0, vec![0x00]));
    assert_eq!(wire_form(Command::SegmentRemap(true)), opcode_then(0xA0, &[0x02]));
}

#[test]
fn reverse_com_dir_sets_bit_4() {
    assert_eq!(encoded(Command::ReverseComDir(true)), (0xA0, vec![0x10]));
    assert_eq!(encoded(Command::ReverseComDir(false)), (0xA0, vec![0x00]));
    assert_eq!(wire_form(Command::ReverseComDir(true)), opcode_then(0xA0, &[0x10]));
}

#[test]
fn single_byte_commands_carry_the_value() {
    assert_eq!(encoded(Command::Multiplex(0x3F)), (0xCA, vec![0x3F]));
    assert_eq!(encoded(Command::DisplayOffset(0x20)), (0xA2, vec![0x20]));
    assert_eq!(encoded(Command::StartLine(0x11)), (0xA1, vec![0x11]));
    assert_eq!(wire_form(Command::Multiplex(0x3F)), opcode_then(0xCA, &[0x3F]));
    assert_eq!(wire_form(Command::DisplayOffset(0x20)), opcode_then(0xA2, &[0x20]));
    assert_eq!(wire_form(Command::StartLine(0x11)), opcode_then(0xA1, &[0x11]));
}

#[test]
fn commands_without_parameters_are_one_byte() {
    assert_eq!(encoded(Command::StartWrite), (0x5C, vec![]));
    assert_eq!(encoded(Command::SetLinearGrayScale), (0xB9, vec![]));
    assert_eq!(encoded(Command::Noop), (0xA6, vec![]));
    assert_eq!(wire_form(Command::StartWrite), opcode_then(0x5C, &[]));
    assert_eq!(wire_form(Command::SetLinearGrayScale), opcode_then(0xB9, &[]));
    assert_eq!(wire_form(Command::Noop), opcode_then(0xA6, &[]));
}

#[test]
fn grayscale_table_is_sent_verbatim() {
    let table = [1, 3, 5, 7, 9, 11, 13, 15, 17, 19, 21, 23, 25, 27, 0];
    assert_eq!(encoded(Command::SetGrayScale(table)), (0xB8, table.to_vec()));
    assert_eq!(wire_form(Command::SetGrayScale(table)), opcode_then(0xB8, &table));
    assert_eq!(wire_form(Command::SetGrayScale(table)).len(), 16);
}

#[test]
fn each_parameter_byte_is_a_transmission_of_its_own() {
    let sent = wire_form(Command::SetColumnAddress(4, 9));
    assert_eq!(
        sent,
        vec![Sent::Commands(vec![0x15]), Sent::Data(vec![4]), Sent::Data(vec![9])]
    );
}

#[test]
fn refused_opcode_ends_the_command() {
    let asked = Rc::new(RefCell::new(Vec::new()));
    let mut link = Link::new(Wire { asked: asked.clone(), refuse: Some(1) });
    let result = Command::SetRowAddress(3, 4).send(&mut link);
    assert!(matches!(result, Err(DisplayError::BusWriteError)));
    assert_eq!(*asked.borrow(), vec![Sent::Commands(vec![0x75])]);
}

#[test]
fn refused_parameter_ends_the_command() {
    let asked = Rc::new(RefCell::new(Vec::new()));
    let mut link = Link::new(Wire { asked: asked.clone(), refuse: Some(2) });
    let result = Command::SetRowAddress(3, 4).send(&mut link);
    assert!(matches!(result, Err(DisplayError::BusWriteError)));
    assert_eq!(*asked.borrow(), vec![Sent::Commands(vec![0x75]), Sent::Data(vec![3])]);
}

#[test]
fn refused_last_parameter_is_still_an_error() {
    let asked = Rc::new(RefCell::new(Vec::new()));
    let mut link = Link::new(Wire { asked: asked.clone(), refuse: Some(3) });
    let result = Command::SetRowAddress(3, 4).send(&mut link);
    assert!(matches!(result, Err(DisplayError::BusWriteError)));
    assert_eq!(asked.borrow().len(), 3);
}

#[test]
fn a_link_carries_several_commands_in_order() {
    let asked = Rc::new(RefCell::new(Vec::new()));
    let mut link = Link::new(Wire { asked: asked.clone(), refuse: None });
    assert!(Command::Sleep(false).send(&mut link).is_ok());
    assert!(Command::Contrast(9).send(&mut link).is_ok());
    assert_eq!(
        *asked.borrow(),
        vec![Sent::Commands(vec![0xAE]), Sent::Commands(vec![0xC1]), Sent::Data(vec![9])]
    );
}

#[test]
fn a_link_hands_each_kind_of_transmission_on() {
    let asked = Rc::new(RefCell::new(Vec::new()));
    let mut link = Link::new(Wire { asked: asked.clone(), refuse: Some(2) });
    assert!(link.send_commands(&[1, 2]).is_ok());
    assert!(matches!(link.send_data(&[3]), Err(DisplayError::BusWriteError)));
    assert!(link.stream_data(&[4, 5, 6]).is_ok());
    assert_eq!(
        *asked.borrow(),
        vec![Sent::Commands(vec![1, 2]), Sent::Data(vec![3]), Sent::Stream(vec![4, 5, 6])]
    );
}

#[test]
fn scratch_buffer_is_filled_from_the_front() {
    assert_eq!(create_data_array(&[]), [0; 15]);
    assert_eq!(create_data_array(&[7]), [7, 0, 0, 0, 0, 0, 0, 0, 0, 0, 0, 0, 0, 0, 0]);
    assert_eq!(create_data_array(&[7, 8]), [7, 8, 0, 0, 0, 0, 0, 0, 0, 0, 0, 0, 0, 0, 0]);
    let full = [1, 2, 3, 4, 5, 6, 7, 8, 9, 10, 11, 12, 13, 14, 15];
    assert_eq!(create_data_array(&full), full);
}
