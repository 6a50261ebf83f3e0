//! Container to store and set display properties

use crate::command::Command;
use crate::displayrotation::DisplayRotation;
use crate::displaysize::DisplaySize;
use crate::interface::{
    lemma_ran_next, lemma_ran_nothing, lemma_ran_one, ran, Attempt, Link, Transfer, Transport,
};
use display_interface::DisplayError;
use vstd::prelude::*;

verus! {

/// What a [`DisplayProperties`] remembers of its display.
pub struct Settings {
    /// The panel's geometry.
    pub size: DisplaySize,
    /// The rotation last asked for.
    pub rotation: DisplayRotation,
    /// Column and row at which the drawing window starts.
    pub draw_start: (u8, u8),
    /// Column and row at which the drawing window ends.
    pub draw_end: (u8, u8),
}

/// Whether columns are remapped at `rotation`.
pub open spec fn segment_remap(rotation: DisplayRotation) -> bool {
    rotation == DisplayRotation::Rotate0 || rotation == DisplayRotation::Rotate270
}

/// Whether rows are scanned in reverse at `rotation`.
pub open spec fn reverse_com_dir(rotation: DisplayRotation) -> bool {
    rotation == DisplayRotation::Rotate0 || rotation == DisplayRotation::Rotate90
}

/// What setting `rotation` asks of the transport: the column remapping, then the scan
/// direction.
pub open spec fn rotation_transfers(rotation: DisplayRotation) -> Seq<Transfer> {
    Command::SegmentRemap(segment_remap(rotation)).transfers() + Command::ReverseComDir(
        reverse_com_dir(rotation),
    ).transfers()
}

/// What initialising a display at `rotation` asks of the transport: clock, rotation,
/// contrast and precharge period, and last the command that puts the panel to sleep.
pub open spec fn init_transfers(rotation: DisplayRotation) -> Seq<Transfer> {
    Command::DisplayClockDiv(0xa, 0x0).transfers() + rotation_transfers(rotation)
        + Command::Contrast(0x6f).transfers() + Command::PreChargePeriod(0x3, 0xd).transfers()
        + Command::Sleep(true).transfers()
}

/// What setting the drawing window asks of the transport: the rows, then the columns.
pub open spec fn draw_area_transfers(start: (u8, u8), end: (u8, u8)) -> Seq<Transfer> {
    Command::SetRowAddress(start.1, end.1).transfers() + Command::SetColumnAddress(
        start.0,
        end.0,
    ).transfers()
}

/// What drawing `buffer` asks of the transport: the command that opens the write, the
/// whole of `buffer` as one stream of data, and the command that closes the write.
pub open spec fn draw_transfers(buffer: Seq<u8>) -> Seq<Transfer> {
    Command::StartWrite.transfers() + seq![Transfer::Stream(buffer)] + Command::Noop.transfers()
}

/// Width and height that a panel of `size` shows at `rotation`.
pub open spec fn dimensions_at(size: DisplaySize, rotation: DisplayRotation) -> (u8, u8) {
    let (w, h) = size.spec_dimensions();
    if rotation.is_sideways() {
        (h, w)
    } else {
        (w, h)
    }
}

/// The one panel there is shows 255 by 127 upright and 127 by 255 on its side.
pub proof fn lemma_dimensions_at(rotation: DisplayRotation)
    ensures
        dimensions_at(DisplaySize::Display256x128, rotation) == if rotation
            == DisplayRotation::Rotate0 || rotation == DisplayRotation::Rotate180 {
            (255u8, 127u8)
        } else {
            (127u8, 255u8)
        },
{
}

/// Setting a rotation sends two commands of two bytes each: `0xA0` with the column
/// remapping in bit 1, then `0xA0` with the scan direction in bit 4.
pub proof fn lemma_rotation_transfers(rotation: DisplayRotation)
    ensures
        rotation_transfers(rotation) == seq![
            Transfer::Commands(seq![0xA0u8]),
            Transfer::Data(seq![if segment_remap(rotation) { 0x02u8 } else { 0x00u8 }]),
            Transfer::Commands(seq![0xA0u8]),
            Transfer::Data(seq![if reverse_com_dir(rotation) { 0x10u8 } else { 0x00u8 }]),
        ],
{
    let remap = Command::SegmentRemap(segment_remap(rotation));
    let reverse = Command::ReverseComDir(reverse_com_dir(rotation));
    assert(remap.transfers() =~= seq![
        Transfer::Commands(seq![0xA0u8]),
        Transfer::Data(seq![remap.payload()[0]]),
    ]);
    assert(reverse.transfers() =~= seq![
        Transfer::Commands(seq![0xA0u8]),
        Transfer::Data(seq![reverse.payload()[0]]),
    ]);
}

/// Initialising sends eleven bytes, each as a transmission of its own: six commands and
/// the parameter bytes of the first five.
pub proof fn lemma_init_transfers(rotation: DisplayRotation)
    ensures
        init_transfers(rotation) == seq![
            Transfer::Commands(seq![0xB3u8]),
            Transfer::Data(seq![0xA0u8]),
            Transfer::Commands(seq![0xA0u8]),
            Transfer::Data(seq![if segment_remap(rotation) { 0x02u8 } else { 0x00u8 }]),
            Transfer::Commands(seq![0xA0u8]),
            Transfer::Data(seq![if reverse_com_dir(rotation) { 0x10u8 } else { 0x00u8 }]),
            Transfer::Commands(seq![0xC1u8]),
            Transfer::Data(seq![0x6Fu8]),
            Transfer::Commands(seq![0xB1u8]),
            Transfer::Data(seq![0xD3u8]),
            Transfer::Commands(seq![0xAFu8]),
        ],
{
    lemma_rotation_transfers(rotation);
    let clock = Command::DisplayClockDiv(0xa, 0x0);
    let contrast = Command::Contrast(0x6f);
    let precharge = Command::PreChargePeriod(0x3, 0xd);
    let sleep = Command::Sleep(true);
    assert(clock.transfers() =~= seq![
        Transfer::Commands(seq![0xB3u8]),
        Transfer::Data(seq![clock.payload()[0]]),
    ]);
    assert(contrast.transfers() =~= seq![
        Transfer::Commands(seq![0xC1u8]),
        Transfer::Data(seq![contrast.payload()[0]]),
    ]);
    assert(precharge.transfers() =~= seq![
        Transfer::Commands(seq![0xB1u8]),
        Transfer::Data(seq![precharge.payload()[0]]),
    ]);
    assert(sleep.transfers() =~= seq![Transfer::Commands(seq![0xAFu8])]);
}

/// Setting the drawing window sends two commands of three bytes each: `0x75` with the
/// first and the last row, then `0x15` with the first and the last column.
pub proof fn lemma_draw_area_transfers(start: (u8, u8), end: (u8, u8))
    ensures
        draw_area_transfers(start, end) == seq![
            Transfer::Commands(seq![0x75u8]),
            Transfer::Data(seq![start.1]),
            Transfer::Data(seq![end.1]),
            Transfer::Commands(seq![0x15u8]),
            Transfer::Data(seq![start.0]),
            Transfer::Data(seq![end.0]),
        ],
{
    let rows = Command::SetRowAddress(start.1, end.1);
    let columns = Command::SetColumnAddress(start.0, end.0);
    assert(rows.transfers() =~= seq![
        Transfer::Commands(seq![0x75u8]),
        Transfer::Data(seq![rows.payload()[0]]),
        Transfer::Data(seq![rows.payload()[1]]),
    ]);
    assert(columns.transfers() =~= seq![
        Transfer::Commands(seq![0x15u8]),
        Transfer::Data(seq![columns.payload()[0]]),
        Transfer::Data(seq![columns.payload()[1]]),
    ]);
}

/// Drawing sends the command `0x5C`, the buffer as a single stream, and the command
/// `0xA6`: three transmissions whatever the buffer holds, two of them commands.
pub proof fn lemma_draw_transfers(buffer: Seq<u8>)
    ensures
        draw_transfers(buffer) == seq![
            Transfer::Commands(seq![0x5Cu8]),
            Transfer::Stream(buffer),
            Transfer::Commands(seq![0xA6u8]),
        ],
{
    assert(Command::StartWrite.transfers() =~= seq![Transfer::Commands(seq![0x5Cu8])]);
    assert(Command::Noop.transfers() =~= seq![Transfer::Commands(seq![0xA6u8])]);
}

/// Display properties struct
pub struct DisplayProperties<DI> {
    iface: Link<DI>,
    display_size: DisplaySize,
    display_rotation: DisplayRotation,
    draw_column: u8,
    draw_row: u8,
    draw_row_end: u8,
    draw_column_end: u8,
}

impl<DI> View for DisplayProperties<DI> {
    type V = Settings;

    closed spec fn view(&self) -> Settings {
        Settings {
            size: self.display_size,
            rotation: self.display_rotation,
            draw_start: (self.draw_column, self.draw_row),
            draw_end: (self.draw_column_end, self.draw_row_end),
        }
    }
}

impl<DI> DisplayProperties<DI> {
    /// Every transmission that this driver asked of its transport, oldest first, each
    /// with the transport's answer.
    pub closed spec fn history(&self) -> Seq<Attempt> {
        self.iface.log()
    }
}

impl<DI: Transport> DisplayProperties<DI> {
    /// Create new DisplayProperties instance
    pub fn new(iface: DI, display_size: DisplaySize, display_rotation: DisplayRotation) -> (props:
        DisplayProperties<DI>)
        ensures
            props@ == (Settings {
                size: display_size,
                rotation: display_rotation,
                draw_start: (0, 0),
                draw_end: (0, 0),
            }),
            props.history() == Seq::<Attempt>::empty(),
    {
        DisplayProperties {
            iface: Link::new(iface),
            display_size,
            display_rotation,
            draw_column: 0,
            draw_row: 0,
            draw_column_end: 0,
            draw_row_end: 0,
        }
    }

    /// Initialise the display in column mode (i.e. a byte walks down a column of 8 pixels) with
    /// column 0 on the left and column _(display_width - 1)_ on the right. The commands go
    /// out in a fixed order, and the first that the transport refuses ends the call. The
    /// panel is left asleep.
    pub fn init_column_mode(&mut self) -> (result: Result<(), DisplayError>)
        ensures
            final(self)@ == old(self)@,
            ran(
                init_transfers(old(self)@.rotation),
                old(self).history(),
                final(self).history(),
                result,
            ),
    {
        let display_rotation = self.display_rotation;
        let ghost plan = init_transfers(display_rotation);
        let ghost before = self.history();
        let ghost clock = Command::DisplayClockDiv(0xa, 0x0).transfers();
        let ghost rotate = rotation_transfers(display_rotation);
        let ghost contrast = Command::Contrast(0x6f).transfers();
        let ghost precharge = Command::PreChargePeriod(0x3, 0xd).transfers();
        let ghost sleep = Command::Sleep(true).transfers();
        proof {
            lemma_ran_nothing(before);
        }

        let sent = Command::DisplayClockDiv(0xa, 0x0).send(&mut self.iface);
        proof {
            lemma_ran_next(plan, seq![], clock, before, before, self.history(), sent);
        }
        sent?;
        let ghost done = seq![] + clock;

        let ghost between = self.history();
        let sent = self.set_rotation(display_rotation);
        proof {
            lemma_ran_next(plan, done, rotate, before, between, self.history(), sent);
        }
        sent?;
        let ghost done = done + rotate;

        let ghost between = self.history();
        let sent = Command::Contrast(0x6f).send(&mut self.iface);
        proof {
            lemma_ran_next(plan, done, contrast, before, between, self.history(), sent);
        }
        sent?;
        let ghost done = done + contrast;

        let ghost between = self.history();
        let sent = Command::PreChargePeriod(0x3, 0xd).send(&mut self.iface);
        proof {
            lemma_ran_next(plan, done, precharge, before, between, self.history(), sent);
        }
        sent?;
        let ghost done = done + precharge;

        let ghost between = self.history();
        let sent = Command::Sleep(true).send(&mut self.iface);
        proof {
            lemma_ran_next(plan, done, sleep, before, between, self.history(), sent);
            assert(done + sleep =~= plan);
        }
        sent
    }

    /// Set the position in the framebuffer of the display where any sent data should be
    /// drawn. This method can be used for changing the affected area on the screen as well
    /// as (re-)setting the start point of the next `draw` call. The window is remembered
    /// whether or not the transport takes the two commands.
    pub fn set_draw_area(&mut self, start: (u8, u8), end: (u8, u8)) -> (result: Result<
        (),
        DisplayError,
    >)
        ensures
            final(self)@ == (Settings { draw_start: start, draw_end: end, ..old(self)@ }),
            ran(
                draw_area_transfers(start, end),
                old(self).history(),
                final(self).history(),
                result,
            ),
    {
        self.draw_column = start.0;
        self.draw_row = start.1;
        self.draw_column_end = end.0;
        self.draw_row_end = end.1;

        self.send_draw_address()
    }

    /// Send the data to the display for drawing at the current position in the framebuffer
    /// and advance the position accordingly. Cf. `set_draw_area` to modify the affected area by
    /// this method. The window is not sent again: the controller goes on where it stands.
    pub fn draw(&mut self, buffer: &[u8]) -> (result: Result<(), DisplayError>)
        ensures
            final(self)@ == old(self)@,
            ran(draw_transfers(buffer@), old(self).history(), final(self).history(), result),
    {
        let ghost plan = draw_transfers(buffer@);
        let ghost before = self.history();
        let ghost start = Command::StartWrite.transfers();
        let ghost stop = Command::Noop.transfers();
        proof {
            lemma_ran_nothing(before);
        }

        let sent = Command::StartWrite.send(&mut self.iface);
        proof {
            lemma_ran_next(plan, seq![], start, before, before, self.history(), sent);
        }
        sent?;
        let ghost done = seq![] + start;

        let ghost between = self.history();
        let sent = self.iface.stream_data(buffer);
        proof {
            lemma_ran_one(Transfer::Stream(buffer@), between, sent);
            lemma_ran_next(
                plan,
                done,
                seq![Transfer::Stream(buffer@)],
                before,
                between,
                self.history(),
                sent,
            );
        }
        sent?;
        let ghost done = done + seq![Transfer::Stream(buffer@)];

        let ghost between = self.history();
        let sent = Command::Noop.send(&mut self.iface);
        proof {
            lemma_ran_next(plan, done, stop, before, between, self.history(), sent);
            assert(done + stop =~= plan);
        }
        sent
    }

    /// Send the drawing window as it is remembered: the rows, then the columns.
    fn send_draw_address(&mut self) -> (result: Result<(), DisplayError>)
        ensures
            final(self)@ == old(self)@,
            ran(
                draw_area_transfers(old(self)@.draw_start, old(self)@.draw_end),
                old(self).history(),
                final(self).history(),
                result,
            ),
    {
        let ghost plan = draw_area_transfers(self@.draw_start, self@.draw_end);
        let ghost before = self.history();
        let ghost rows = Command::SetRowAddress(self.draw_row, self.draw_row_end).transfers();
        let ghost columns = Command::SetColumnAddress(
            self.draw_column,
            self.draw_column_end,
        ).transfers();
        proof {
            lemma_ran_nothing(before);
        }

        let sent = Command::SetRowAddress(self.draw_row, self.draw_row_end).send(&mut self.iface);
        proof {
            lemma_ran_next(plan, seq![], rows, before, before, self.history(), sent);
        }
        sent?;

        let ghost between = self.history();
        let sent = Command::SetColumnAddress(self.draw_column, self.draw_column_end).send(
            &mut self.iface,
        );
        proof {
            lemma_ran_next(plan, seq![] + rows, columns, before, between, self.history(), sent);
            assert(seq![] + rows + columns =~= plan);
        }
        sent
    }

    /// Get the configured display size
    pub fn get_size(&self) -> (size: DisplaySize)
        ensures
            size == self@.size,
    {
        self.display_size
    }

    /// Get display dimensions, taking into account the current rotation of the display
    pub fn get_dimensions(&self) -> (dims: (u8, u8))
        ensures
            dims == dimensions_at(self@.size, self@.rotation),
    {
        let (w, h) = self.display_size.dimensions();

        match self.display_rotation {
            DisplayRotation::Rotate0 | DisplayRotation::Rotate180 => (w, h),
            DisplayRotation::Rotate90 | DisplayRotation::Rotate270 => (h, w),
        }
    }

    /// Get the display rotation
    pub fn get_rotation(&self) -> (rotation: DisplayRotation)
        ensures
            rotation == self@.rotation,
    {
        self.display_rotation
    }

    /// Set the display rotation. The new rotation is remembered whether or not the
    /// transport takes the two commands: after an error the panel's orientation is
    /// unknown until a later call goes through.
    pub fn set_rotation(&mut self, display_rotation: DisplayRotation) -> (result: Result<
        (),
        DisplayError,
    >)
        ensures
            final(self)@ == (Settings { rotation: display_rotation, ..old(self)@ }),
            ran(
                rotation_transfers(display_rotation),
                old(self).history(),
                final(self).history(),
                result,
            ),
    {
        self.display_rotation = display_rotation;
        let ghost plan = rotation_transfers(display_rotation);
        let ghost before = self.history();
        proof {
            lemma_ran_nothing(before);
        }

        let (remap, reverse) = match display_rotation {
            DisplayRotation::Rotate0 => (true, true),
            DisplayRotation::Rotate90 => (false, true),
            DisplayRotation::Rotate180 => (false, false),
            DisplayRotation::Rotate270 => (true, false),
        };
        let ghost first = Command::SegmentRemap(remap).transfers();
        let ghost second = Command::ReverseComDir(reverse).transfers();

        let sent = Command::SegmentRemap(remap).send(&mut self.iface);
        proof {
            lemma_ran_next(plan, seq![], first, before, before, self.history(), sent);
        }
        sent?;
        let ghost between = self.history();
        let sent = Command::ReverseComDir(reverse).send(&mut self.iface);
        proof {
            lemma_ran_next(plan, seq![] + first, second, before, between, self.history(), sent);
            assert(seq![] + first + second =~= plan);
        }
        sent
    }

    /// Turn the display on or off: `true` wakes the panel, `false` puts it to sleep. The
    /// display can be drawn to and retains all of its memory even while off.
    pub fn display_on(&mut self, on: bool) -> (result: Result<(), DisplayError>)
        ensures
            final(self)@ == old(self)@,
            ran(
                Command::Sleep(!on).transfers(),
                old(self).history(),
                final(self).history(),
                result,
            ),
    {
        Command::Sleep(!on).send(&mut self.iface)
    }

    /// Set the display contrast
    pub fn set_contrast(&mut self, contrast: u8) -> (result: Result<(), DisplayError>)
        ensures
            final(self)@ == old(self)@,
            ran(
                Command::Contrast(contrast).transfers(),
                old(self).history(),
                final(self).history(),
                result,
            ),
    {
        Command::Contrast(contrast).send(&mut self.iface)
    }
}

/// Setting the same rotation a second time changes nothing that the driver remembers.
/// Where the transport takes both calls, the second asks of it exactly what the first
/// asked, and gets the same answers.
pub proof fn lemma_set_rotation_twice<DI>(
    start: DisplayProperties<DI>,
    once: DisplayProperties<DI>,
    twice: DisplayProperties<DI>,
    rotation: DisplayRotation,
    first: Result<(), DisplayError>,
    second: Result<(), DisplayError>,
)
    requires
        once@ == (Settings { rotation, ..start@ }),
        ran(rotation_transfers(rotation), start.history(), once.history(), first),
        twice@ == (Settings { rotation, ..once@ }),
        ran(rotation_transfers(rotation), once.history(), twice.history(), second),
    ensures
        twice@ == once@,
        first is Ok && second is Ok ==> twice.history().skip(once.history().len() as int)
            == once.history().skip(start.history().len() as int),
{
    if first is Ok && second is Ok {
        let earlier = once.history().skip(start.history().len() as int);
        let later = twice.history().skip(once.history().len() as int);
        assert forall|i: int| 0 <= i < earlier.len() implies earlier[i] == later[i] by {
            let e = once.history()[start.history().len() + i];
            let l = twice.history()[once.history().len() + i];
            assert(e.transfer == l.transfer);
            assert(e.outcome->Ok_0 == l.outcome->Ok_0);
        }
        assert(earlier =~= later);
    }
}

} // verus!
