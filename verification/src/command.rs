//! Controller commands and their encoding

use crate::interface::{
    lemma_ran_next, lemma_ran_nothing, lemma_ran_one, ran, Link, Transfer, Transport,
};
use display_interface::DisplayError;
use vstd::prelude::*;
use vstd::slice::slice_subrange;

verus! {

/// Display modes
#[derive(Debug)]
pub enum DisplayModes {
    On,
    Off,
    Normal,
    Inverse,
}

/// The most parameter bytes that any command carries.
pub const MAX_PAYLOAD: usize = 15;

/// `bytes` filled up with zeros to the length of the scratch buffer.
pub open spec fn padded(bytes: Seq<u8>) -> Seq<u8> {
    Seq::new(MAX_PAYLOAD as nat, |i: int| if i < bytes.len() { bytes[i] } else { 0u8 })
}

/// Copy `args` to the front of a zeroed scratch buffer.
pub fn create_data_array(args: &[u8]) -> (data: [u8; 15])
    requires
        args@.len() <= MAX_PAYLOAD,
    ensures
        data@ == padded(args@),
{
    let mut data = [0u8; 15];
    let mut i: usize = 0;
    while i < args.len()
        invariant
            i <= args@.len() <= MAX_PAYLOAD,
            forall|k: int| 0 <= k < i ==> data@[k] == args@[k],
            forall|k: int| i <= k < MAX_PAYLOAD ==> data@[k] == 0,
        decreases args@.len() - i,
    {
        data[i] = args[i];
        i += 1;
    }
    assert(data@ =~= padded(args@));
    data
}

/// Vcomh Deselect level
#[derive(Debug, Clone, Copy)]
pub enum VcomhLevel {
    /// 0.65 * Vcc
    V064,
    /// 0.77 * Vcc
    V078,
    /// 0.83 * Vcc
    V084,
}

impl VcomhLevel {
    /// The four-bit code by which the controller knows the level.
    pub open spec fn spec_code(self) -> u8 {
        match self {
            VcomhLevel::V064 => 0b0000,
            VcomhLevel::V078 => 0b1101,
            VcomhLevel::V084 => 0b1111,
        }
    }

    /// The four-bit code by which the controller knows the level.
    #[verifier::when_used_as_spec(spec_code)]
    pub fn code(self) -> (code: u8)
        ensures
            code == self.spec_code(),
    {
        match self {
            VcomhLevel::V064 => 0b0000,
            VcomhLevel::V078 => 0b1101,
            VcomhLevel::V084 => 0b1111,
        }
    }
}

/// Two four-bit values in one byte: `high % 16` in bits 4 to 7, `low % 16` in bits 0 to 3.
pub open spec fn nibbles(high: u8, low: u8) -> u8 {
    ((high % 16) * 16 + low % 16) as u8
}

/// Both values can be read back from the byte that packs them.
pub proof fn lemma_nibbles(high: u8, low: u8)
    ensures
        nibbles(high, low) / 16 == high % 16,
        nibbles(high, low) % 16 == low % 16,
{
}

/// Commands
#[derive(Debug)]
pub enum Command {
    /// Write RAM until next command is received
    StartWrite,
    /// Read RAM until next command is received
    StartRead,
    /// Set contrast. Higher number is higher contrast. Default = 0x7F
    Contrast(u8),
    /// Turn entire display on. If set, all pixels will
    /// be set to on, if not, the value in memory will be used.
    AllOn(bool),
    /// Invert display.
    Invert(bool),
    /// Turn display on or off.
    Sleep(bool),
    /// Set IREF to internal
    SetInternalIREF(bool),
    /// Set column address
    SetColumnAddress(u8, u8),
    /// Set row address
    SetRowAddress(u8, u8),
    /// Reverse columns from 127-0
    SegmentRemap(bool),
    /// Set multiplex ratio from 15-63 (MUX-1)
    Multiplex(u8),
    /// Scan from COM[n-1] to COM0 (where N is mux ratio)
    ReverseComDir(bool),
    /// Set vertical shift
    DisplayOffset(u8),
    /// Set grayscale table
    SetGrayScale([u8; 15]),
    /// Set grayscale table to default linear
    SetLinearGrayScale,
    /// Set display start line from 0-63
    StartLine(u8),
    /// Set up display clock.
    /// First value is oscillator frequency, increasing with higher value
    /// Second value is divide ratio - 1
    DisplayClockDiv(u8, u8),
    /// Set up phase 1 and 2 of precharge period. The low four bits of each value count
    PreChargePeriod(u8, u8),
    /// Set Vcomh Deselect level
    VcomhDeselect(VcomhLevel),
    /// NOOP
    Noop,
}

impl Command {
    /// The byte that is sent in command mode.
    ///
    /// Opcodes are not unique: `StartRead` and `SetRowAddress` share `0x75`,
    /// `SegmentRemap` and `ReverseComDir` share `0xA0`, and `Noop` has the opcode of
    /// `Invert(false)`.
    pub open spec fn opcode(self) -> u8 {
        match self {
            Command::StartWrite => 0x5C,
            Command::StartRead => 0x75,
            Command::Contrast(_) => 0xC1,
            Command::AllOn(on) => if on { 0xA5 } else { 0xA7 },
            Command::Invert(inv) => if inv { 0xA7 } else { 0xA6 },
            Command::Sleep(sleep) => if sleep { 0xAF } else { 0xAE },
            Command::SetInternalIREF(_) => 0xAD,
            Command::SetColumnAddress(_, _) => 0x15,
            Command::SetRowAddress(_, _) => 0x75,
            Command::SegmentRemap(_) => 0xA0,
            Command::Multiplex(_) => 0xCA,
            Command::ReverseComDir(_) => 0xA0,
            Command::DisplayOffset(_) => 0xA2,
            Command::SetGrayScale(_) => 0xB8,
            Command::SetLinearGrayScale => 0xB9,
            Command::StartLine(_) => 0xA1,
            Command::DisplayClockDiv(_, _) => 0xB3,
            Command::PreChargePeriod(_, _) => 0xB1,
            Command::VcomhDeselect(_) => 0xDB,
            Command::Noop => 0xA6,
        }
    }

    /// The parameter bytes that follow the opcode, in the order in which they are sent.
    pub open spec fn payload(self) -> Seq<u8> {
        match self {
            Command::StartWrite => seq![],
            Command::StartRead => seq![],
            Command::Contrast(val) => seq![val],
            Command::AllOn(_) => seq![],
            Command::Invert(_) => seq![],
            Command::Sleep(_) => seq![],
            Command::SetInternalIREF(enable) => seq![if enable { 0x90u8 } else { 0x80u8 }],
            Command::SetColumnAddress(start, end) => seq![start, end],
            Command::SetRowAddress(start, end) => seq![start, end],
            Command::SegmentRemap(remap) => seq![if remap { 0x02u8 } else { 0x00u8 }],
            Command::Multiplex(ratio) => seq![ratio],
            Command::ReverseComDir(rev) => seq![if rev { 0x10u8 } else { 0x00u8 }],
            Command::DisplayOffset(offset) => seq![offset],
            Command::SetGrayScale(table) => table@,
            Command::SetLinearGrayScale => seq![],
            Command::StartLine(line) => seq![line],
            Command::DisplayClockDiv(fosc, div) => seq![nibbles(fosc, div)],
            Command::PreChargePeriod(phase1, phase2) => seq![nibbles(phase2, phase1)],
            Command::VcomhDeselect(level) => seq![(4 * level.spec_code()) as u8],
            Command::Noop => seq![],
        }
    }

    /// What sending the command asks of the transport: the opcode as one command-mode
    /// transmission, then each parameter byte as a data-mode transmission of its own.
    pub open spec fn transfers(self) -> Seq<Transfer> {
        seq![Transfer::Commands(seq![self.opcode()])] + Seq::new(
            self.payload().len(),
            |i: int| Transfer::Data(seq![self.payload()[i]]),
        )
    }

    /// Encode the command: its opcode, a scratch buffer that starts with its parameter
    /// bytes, and how many of them there are.
    pub fn encode(self) -> (encoded: (u8, [u8; 15], usize))
        ensures
            encoded.0 == self.opcode(),
            encoded.1@ == padded(self.payload()),
            encoded.2 == self.payload().len(),
    {
        match self {
            Command::StartWrite => (0x5C, create_data_array(&[]), 0),
            Command::StartRead => (0x75, create_data_array(&[]), 0),
            Command::Contrast(val) => (0xC1, create_data_array(&[val]), 1),
            Command::AllOn(on) => {
                assert(0xA5u8 | (0u8 << 1) == 0xA5 && 0xA5u8 | (1u8 << 1) == 0xA7) by (bit_vector);
                (0xA5 | (((!on) as u8) << 1), create_data_array(&[]), 0)
            },
            Command::Invert(inv) => {
                assert(0xA6u8 | 0 == 0xA6 && 0xA6u8 | 1 == 0xA7) by (bit_vector);
                (0xA6 | (inv as u8), create_data_array(&[]), 0)
            },
            Command::SetInternalIREF(enable) => {
                assert(0x80u8 | (0u8 << 4) == 0x80 && 0x80u8 | (1u8 << 4) == 0x90) by (bit_vector);
                (0xAD, create_data_array(&[0x80 | ((enable as u8) << 4)]), 1)
            },
            Command::SetColumnAddress(start, end) => (0x15, create_data_array(&[start, end]), 2),
            Command::SetRowAddress(start, end) => (0x75, create_data_array(&[start, end]), 2),
            Command::StartLine(line) => (0xA1, create_data_array(&[line]), 1),
            Command::SegmentRemap(remap) => {
                assert(0u8 << 1 == 0 && 1u8 << 1 == 0x02) by (bit_vector);
                (0xA0, create_data_array(&[(remap as u8) << 1]), 1)
            },
            Command::Multiplex(ratio) => (0xCA, create_data_array(&[ratio]), 1),
            Command::ReverseComDir(rev) => {
                assert(0u8 << 4 == 0 && 1u8 << 4 == 0x10) by (bit_vector);
                (0xA0, create_data_array(&[(rev as u8) << 4]), 1)
            },
            Command::DisplayOffset(offset) => (0xA2, create_data_array(&[offset]), 1),
            Command::SetGrayScale(table) => (0xB8, create_data_array(&table), 15),
            Command::SetLinearGrayScale => (0xB9, create_data_array(&[]), 0),
            Command::DisplayClockDiv(fosc, div) => {
                assert(((0xFu8 & fosc) << 4) | (0xFu8 & div) == (fosc % 16) * 16 + div % 16)
                    by (bit_vector);
                (0xB3, create_data_array(&[((0xF & fosc) << 4) | (0xF & div)]), 1)
            },
            Command::PreChargePeriod(phase1, phase2) => {
                assert(((0xFu8 & phase2) << 4) | (0xFu8 & phase1) == (phase2 % 16) * 16 + phase1
                    % 16) by (bit_vector);
                (0xB1, create_data_array(&[((0xF & phase2) << 4) | (0xF & phase1)]), 1)
            },
            Command::VcomhDeselect(level) => {
                let code: u8 = level.code();
                assert(code << 2 == 4 * code) by (bit_vector)
                    requires
                        code < 16,
                ;
                (0xDB, create_data_array(&[code << 2]), 1)
            },
            Command::Sleep(sleep) => {
                assert(0xAEu8 | 0 == 0xAE && 0xAEu8 | 1 == 0xAF) by (bit_vector);
                (0xAE | (sleep as u8), create_data_array(&[]), 0)
            },
            Command::Noop => (0xA6, create_data_array(&[]), 0),
        }
    }

    /// Send the command through `iface`: first the opcode, then the parameter bytes one
    /// by one. The first transmission that the transport refuses ends the call, and its
    /// error is handed back as it came; nothing is sent after it and nothing is sent
    /// twice.
    pub fn send<DI: Transport>(self, iface: &mut Link<DI>) -> (result: Result<(), DisplayError>)
        ensures
            ran(self.transfers(), old(iface).log(), final(iface).log(), result),
    {
        let ghost plan = self.transfers();
        let ghost before = iface.log();
        let (cmd, data, data_len) = self.encode();

        // Send command byte
        let opcode = [cmd];
        let sent = iface.send_commands(opcode.as_slice());
        proof {
            assert(opcode@ =~= seq![cmd]);
            lemma_ran_nothing(before);
            lemma_ran_one(plan[0], before, sent);
            lemma_ran_next(plan, seq![], seq![plan[0]], before, before, iface.log(), sent);
            assert(seq![] + seq![plan[0]] =~= plan.take(1));
        }
        sent?;

        // Send data if there is any
        let mut i: usize = 0;
        while i < data_len
            invariant
                plan == self.transfers(),
                before == old(iface).log(),
                i <= data_len <= MAX_PAYLOAD == data@.len(),
                plan.len() == 1 + data_len,
                forall|k: int| 0 <= k < data_len ==> plan[1 + k] == Transfer::Data(seq![data@[k]]),
                ran(plan.take(1 + i), before, iface.log(), Ok(())),
            decreases data_len - i,
        {
            let ghost between = iface.log();
            let sent = iface.send_data(slice_subrange(data.as_slice(), i, i + 1));
            proof {
                let next = seq![plan[1 + i]];
                assert(data@.subrange(i as int, i + 1) =~= seq![data@[i as int]]);
                lemma_ran_one(plan[1 + i], between, sent);
                lemma_ran_next(plan, plan.take(1 + i), next, before, between, iface.log(), sent);
                assert(plan.take(1 + i) + next =~= plan.take(2 + i));
            }
            sent?;
            i += 1;
        }
        assert(plan.take(1 + data_len) =~= plan);
        Ok(())
    }
}

/// No command carries more parameter bytes than the scratch buffer holds, and sending
/// it asks for one transmission more than it has parameter bytes.
pub proof fn lemma_payload_fits(command: Command)
    ensures
        command.payload().len() <= MAX_PAYLOAD,
        command.transfers().len() == 1 + command.payload().len(),
{
}

/// Display page
#[derive(Debug, Clone, Copy)]
pub enum Page {
    /// Page 0
    Page0,
    /// Page 1
    Page1,
    /// Page 2
    Page2,
    /// Page 3
    Page3,
    /// Page 4
    Page4,
    /// Page 5
    Page5,
    /// Page 6
    Page6,
    /// Page 7
    Page7,
}

impl Page {
    /// The page's number, 0 to 7.
    pub open spec fn spec_number(self) -> u8 {
        match self {
            Page::Page0 => 0,
            Page::Page1 => 1,
            Page::Page2 => 2,
            Page::Page3 => 3,
            Page::Page4 => 4,
            Page::Page5 => 5,
            Page::Page6 => 6,
            Page::Page7 => 7,
        }
    }

    /// The page's number, 0 to 7.
    #[verifier::when_used_as_spec(spec_number)]
    pub fn number(self) -> (number: u8)
        ensures
            number == self.spec_number(),
    {
        match self {
            Page::Page0 => 0,
            Page::Page1 => 1,
            Page::Page2 => 2,
            Page::Page3 => 3,
            Page::Page4 => 4,
            Page::Page5 => 5,
            Page::Page6 => 6,
            Page::Page7 => 7,
        }
    }

    /// The page that holds row `val`: a page is eight rows high. There is no page for a
    /// row beyond 63.
    pub fn from(val: u8) -> (page: Page)
        requires
            val < 64,
        ensures
            page.spec_number() == val / 8,
    {
        match val / 8 {
            0 => Page::Page0,
            1 => Page::Page1,
            2 => Page::Page2,
            3 => Page::Page3,
            4 => Page::Page4,
            5 => Page::Page5,
            6 => Page::Page6,
            _ => Page::Page7,
        }
    }
}

/// Frame interval
#[derive(Debug, Clone, Copy)]
pub enum NFrames {
    /// 2 Frames
    F2,
    /// 3 Frames
    F3,
    /// 4 Frames
    F4,
    /// 5 Frames
    F5,
    /// 25 Frames
    F25,
    /// 64 Frames
    F64,
    /// 128 Frames
    F128,
    /// 256 Frames
    F256,
}

impl NFrames {
    /// The three-bit code by which the controller knows the interval.
    pub open spec fn spec_code(self) -> u8 {
        match self {
            NFrames::F2 => 0b111,
            NFrames::F3 => 0b100,
            NFrames::F4 => 0b101,
            NFrames::F5 => 0b000,
            NFrames::F25 => 0b110,
            NFrames::F64 => 0b001,
            NFrames::F128 => 0b010,
            NFrames::F256 => 0b011,
        }
    }

    /// The three-bit code by which the controller knows the interval.
    #[verifier::when_used_as_spec(spec_code)]
    pub fn code(self) -> (code: u8)
        ensures
            code == self.spec_code(),
    {
        match self {
            NFrames::F2 => 0b111,
            NFrames::F3 => 0b100,
            NFrames::F4 => 0b101,
            NFrames::F5 => 0b000,
            NFrames::F25 => 0b110,
            NFrames::F64 => 0b001,
            NFrames::F128 => 0b010,
            NFrames::F256 => 0b011,
        }
    }
}

} // verus!
