//! The blink(1) HID commands and the feature reports that carry them.
use vstd::prelude::*;
use crate::Led;
use crate::duration::Duration;

verus! {

/// Bytes in a report-1 feature report, the report id not counted.
pub const REPORT1_SIZE: usize = 8;

/// Bytes in a report-2 feature report, the report id not counted.
pub const REPORT2_SIZE: usize = 60;

/// Size of the buffer that carries a report-1 feature report.
pub const REPORT1_BUF_SIZE: usize = REPORT1_SIZE + 1;

/// Size of the buffer that carries a report-2 feature report.
pub const REPORT2_BUF_SIZE: usize = REPORT2_SIZE + 1;

/// The byte that selects an LED in a command.
pub open spec fn led_code(led: Led) -> u8 {
    match led {
        Led::All => 0,
        Led::Led1 => 1,
        Led::Led2 => 2,
    }
}

impl From<Led> for u8 {
    fn from(led: Led) -> (code: u8) {
        match led {
            Led::All => 0,
            Led::Led1 => 1,
            Led::Led2 => 2,
        }
    }
}

impl vstd::std_specs::convert::FromSpecImpl<Led> for u8 {
    open spec fn obeys_from_spec() -> bool {
        true
    }

    open spec fn from_spec(v: Led) -> u8 {
        led_code(v)
    }
}

/// `n` zero bytes.
pub open spec fn zeros(n: nat) -> Seq<u8> {
    Seq::new(n, |_i: int| 0u8)
}

/// A report-1 buffer: the documented bytes of a command, then zeros up to the buffer size.
pub open spec fn frame1(bytes: Seq<u8>) -> Seq<u8> {
    bytes + zeros((REPORT1_BUF_SIZE - bytes.len()) as nat)
}

/// A report-2 buffer: the documented bytes of a command, then zeros up to the buffer size.
pub open spec fn frame2(bytes: Seq<u8>) -> Seq<u8> {
    bytes + zeros((REPORT2_BUF_SIZE - bytes.len()) as nat)
}

/// Some commands are "report id 1" and some "report id 2".
#[derive(Debug, Clone, PartialEq, Eq)]
pub enum ReportBuf {
    Report1([u8; REPORT1_BUF_SIZE]),
    Report2([u8; REPORT2_BUF_SIZE]),
}

impl View for ReportBuf {
    /// The bytes of the buffer, report id first.
    type V = Seq<u8>;

    open spec fn view(&self) -> Seq<u8> {
        match self {
            ReportBuf::Report1(buf) => buf@,
            ReportBuf::Report2(buf) => buf@,
        }
    }
}

impl ReportBuf {
    /// The bytes of the buffer.
    pub fn as_slice(&self) -> (s: &[u8])
        ensures
            s@ == self@,
    {
        match self {
            ReportBuf::Report1(buf) => buf.as_slice(),
            ReportBuf::Report2(buf) => buf.as_slice(),
        }
    }

    /// The bytes of the buffer, for writing: what is written through the slice is what
    /// the buffer holds afterwards, and the buffer keeps its kind.
    pub fn as_mut_slice(&mut self) -> (s: &mut [u8])
        ensures
            s@ == old(self)@,
            final(s)@.len() == old(self)@.len(),
            final(self)@ == final(s)@,
            (*final(self) is Report1) == (*old(self) is Report1),
    {
        match self {
            ReportBuf::Report1(buf) => buf,
            ReportBuf::Report2(buf) => buf,
        }
    }
}

impl AsRef<[u8]> for ReportBuf {
    fn as_ref(&self) -> (s: &[u8])
        ensures
            s@ == self@,
    {
        self.as_slice()
    }
}

/// The fade time of a duration in units of 10 ms, saturated at `u16::MAX`
/// (10 minutes 55.35 seconds).
pub open spec fn fade_ticks(d: Duration) -> nat {
    if d.millis() / 10 > 0xFFFF {
        0xFFFF
    } else {
        d.millis() / 10
    }
}

/// The high byte of the fade time.
pub open spec fn ticks_high(d: Duration) -> u8 {
    (fade_ticks(d) / 256) as u8
}

/// The low byte of the fade time.
pub open spec fn ticks_low(d: Duration) -> u8 {
    (fade_ticks(d) % 256) as u8
}

/// The fade time of `duration` as its high and low byte, in units of 10 ms; durations
/// beyond `u16::MAX` units are sent as `u16::MAX` units.
pub fn duration_to_fade_time(duration: &Duration) -> (t: (u8, u8))
    ensures
        t.0 == ticks_high(*duration),
        t.1 == ticks_low(*duration),
        t.0 * 256 + t.1 == fade_ticks(*duration),
        t.0 * 256 + t.1 == (if duration.millis() / 10 < 65535 {
            duration.millis() / 10
        } else {
            65535
        }),
{
    let ticks: u128 = duration.as_millis() / 10;
    let dms: u16 = if ticks > 0xFFFF {
        u16::MAX
    } else {
        ticks as u16
    };
    let th: u8 = (dms >> 8) as u8;
    let tl: u8 = (dms & 0xff) as u8;
    assert(th == dms / 256 && tl == dms % 256) by (bit_vector)
        requires
            th == (dms >> 8) as u8,
            tl == (dms & 0xff) as u8,
    ;
    (th, tl)
}

/// The byte that carries a flag.
pub open spec fn flag_byte(b: bool) -> u8 {
    if b {
        1
    } else {
        0
    }
}

fn flag_to_byte(b: bool) -> (v: u8)
    ensures
        v == flag_byte(b),
{
    if b {
        1
    } else {
        0
    }
}

#[derive(Debug, Clone, PartialEq, Eq)]
pub enum WriteCmd {
    /// Fade to RGB color: format `{ 1, 'c', r, g, b, th, tl, n }`
    ///
    /// Lights up the blink(1) with the specified RGB color,
    /// fading to that color over a specified duration.
    FadeToRgb { r: u8, g: u8, b: u8, duration: Duration, led: Led },
    /// Set RGB color now: format `{ 1, 'n', r, g, b, 0, 0, n }` (*)
    ///
    /// Sets RGB color immediately with no fade time.
    SetRgbNow { r: u8, g: u8, b: u8, led: Led },
    /// Serverdown tickle/off: format `{ 1, 'D', on, th, tl, st, sp, ep }` (*)
    ///
    /// Enables/disables the server watchdog tickle mode with timeout,
    /// stay on flag, and start/end loop positions.
    ServerDownTickle { enable: bool, timeout: Duration, stay_on: bool, start_pos: u8, end_pos: u8 },
    /// `PlayLoop`: format `{ 1, 'p', on, sp, ep, c, 0, 0 }` (2)
    ///
    /// Starts or pauses playing a color pattern loop between `start_pos`
    /// and `end_pos` for `count` repetitions.
    PlayLoop { play: bool, start_pos: u8, end_pos: u8, count: u8 },
    /// Set color pattern line: format `{ 1, 'P', r, g, b, th, tl, p }`
    ///
    /// Stores an RGB color and fade duration at pattern line position `pos`.
    SetColorPatternLine { r: u8, g: u8, b: u8, duration: Duration, pos: u8 },
    /// Save color patterns: format `{ 1, 'W', 0, 0, 0, 0, 0, 0 }` (2)
    ///
    /// Saves current RAM color patterns to non-volatile flash/EEPROM storage.
    SaveColorPatterns,
    /// Set ledn: format `{ 1, 'l', n, 0, 0, 0, 0, 0 }` (2+)
    ///
    /// Sets which LED subsequent commands address.
    SetLed { led: Led },
    /// Write EEPROM location: format `{ 1, 'E', ad, v, 0, 0, 0, 0 }` (1)
    ///
    /// Writes arbitrary value `val` to EEPROM address `addr`.
    WriteEeprom { addr: u8, val: u8 },
    /// Test command: format `{ 1, '!', 0, 0, 0, 0, 0, 0 }`
    Test,
    /// Write 50-byte note: format `{ 2, 'F', noteid, data0 ... data49 }` (3)
    ///
    /// Writes a 50-byte text note to note slot `note_id`.
    WriteNote { note_id: u8, data: [u8; 50] },
    /// Go to bootloader: format `{ 1, 'G', 'o', 'B', 'o', 'o', 't', 0 }` (3)
    ///
    /// Reboots the device into USB bootloader mode.
    GoToBootloader,
    /// Lock go to bootload: format `{ 2, 'L', 'o', 'c', 'k', 'B', 'o', 'o', 't', 'l', 'o', 'a', 'd' }` (3)
    ///
    /// Locks or confirms bootloader entry lock.
    LockBootloader,
    /// Set startup params: format `{ 1, 'B', bootmode, playstart, playend, playcnt, 0, 0 }` (3)
    ///
    /// Sets default behavior when blink(1) powers up.
    SetStartupParams { boot_mode: u8, play_start: u8, play_end: u8, play_count: u8 },
}

impl WriteCmd {
    /// Whether the command travels in a report-2 buffer.
    pub open spec fn uses_report2(self) -> bool {
        self is WriteNote || self is LockBootloader
    }

    /// The bytes of the command as its documented format gives them, zero-padded to
    /// the size of its buffer. Letters are written as their ASCII codes.
    pub open spec fn encoding(self) -> Seq<u8> {
        match self {
            WriteCmd::FadeToRgb { r, g, b, duration, led } => frame1(
                seq![1u8, 0x63u8, r, g, b, ticks_high(duration), ticks_low(duration), led_code(led)], // 'c'
            ),
            WriteCmd::SetRgbNow { r, g, b, led } => frame1(
                seq![1u8, 0x6eu8, r, g, b, 0u8, 0u8, led_code(led)], // 'n'
            ),
            WriteCmd::ServerDownTickle { enable, timeout, stay_on, start_pos, end_pos } => frame1(
                seq![
                    1u8,
                    0x44u8, // 'D'
                    flag_byte(enable),
                    ticks_high(timeout),
                    ticks_low(timeout),
                    flag_byte(stay_on),
                    start_pos,
                    end_pos,
                ],
            ),
            WriteCmd::PlayLoop { play, start_pos, end_pos, count } => frame1(
                seq![1u8, 0x70u8, flag_byte(play), start_pos, end_pos, count, 0u8, 0u8], // 'p'
            ),
            WriteCmd::SetColorPatternLine { r, g, b, duration, pos } => frame1(
                seq![1u8, 0x50u8, r, g, b, ticks_high(duration), ticks_low(duration), pos], // 'P'
            ),
            WriteCmd::SaveColorPatterns => frame1(seq![1u8, 0x57u8, 0u8, 0u8, 0u8, 0u8, 0u8, 0u8]), // 'W'
            WriteCmd::SetLed { led } => frame1(
                seq![1u8, 0x6cu8, led_code(led), 0u8, 0u8, 0u8, 0u8, 0u8], // 'l'
            ),
            WriteCmd::WriteEeprom { addr, val } => frame1(
                seq![1u8, 0x45u8, addr, val, 0u8, 0u8, 0u8, 0u8], // 'E'
            ),
            WriteCmd::Test => frame1(seq![1u8, 0x21u8, 0u8, 0u8, 0u8, 0u8, 0u8, 0u8]), // '!'
            WriteCmd::WriteNote { note_id, data } => frame2(seq![2u8, 0x46u8, note_id] + data@), // 'F'
            WriteCmd::GoToBootloader => frame1(
                seq![1u8, 0x47u8, 0x6fu8, 0x42u8, 0x6fu8, 0x6fu8, 0x74u8, 0u8], // 'G' 'o' 'B' 'o' 'o' 't'
            ),
            WriteCmd::LockBootloader => frame2(
                seq![
                    2u8,
                    0x4cu8, // 'L'
                    0x6fu8, // 'o'
                    0x63u8, // 'c'
                    0x6bu8, // 'k'
                    0x42u8, // 'B'
                    0x6fu8, // 'o'
                    0x6fu8, // 'o'
                    0x74u8, // 't'
                    0x6cu8, // 'l'
                    0x6fu8, // 'o'
                    0x61u8, // 'a'
                    0x64u8, // 'd'
                ],
            ),
            WriteCmd::SetStartupParams { boot_mode, play_start, play_end, play_count } => frame1(
                seq![1u8, 0x42u8, boot_mode, play_start, play_end, play_count, 0u8, 0u8], // 'B'
            ),
        }
    }

    /// The feature report that carries the command.
    pub fn to_buffer(&self) -> (buf: ReportBuf)
        ensures
            buf@ == self.encoding(),
            (buf is Report2) == self.uses_report2(),
    {
        match self {
            WriteCmd::FadeToRgb { r, g, b, duration, led } => {
                let (th, tl) = duration_to_fade_time(duration);
                let mut buf = [0u8; REPORT1_BUF_SIZE];
                buf[0] = 1;
                buf[1] = 0x63; // 'c'
                buf[2] = *r;
                buf[3] = *g;
                buf[4] = *b;
                buf[5] = th;
                buf[6] = tl;
                buf[7] = u8::from(*led);
                assert(buf@ =~= self.encoding());
                ReportBuf::Report1(buf)
            },
            WriteCmd::SetRgbNow { r, g, b, led } => {
                let mut buf = [0u8; REPORT1_BUF_SIZE];
                buf[0] = 1;
                buf[1] = 0x6e; // 'n'
                buf[2] = *r;
                buf[3] = *g;
                buf[4] = *b;
                buf[5] = 0;
                buf[6] = 0;
                buf[7] = u8::from(*led);
                assert(buf@ =~= self.encoding());
                ReportBuf::Report1(buf)
            },
            WriteCmd::ServerDownTickle { enable, timeout, stay_on, start_pos, end_pos } => {
                let (th, tl) = duration_to_fade_time(timeout);
                let mut buf = [0u8; REPORT1_BUF_SIZE];
                buf[0] = 1;
                buf[1] = 0x44; // 'D'
                buf[2] = flag_to_byte(*enable);
                buf[3] = th;
                buf[4] = tl;
                buf[5] = flag_to_byte(*stay_on);
                buf[6] = *start_pos;
                buf[7] = *end_pos;
                assert(buf@ =~= self.encoding());
                ReportBuf::Report1(buf)
            },
            WriteCmd::PlayLoop { play, start_pos, end_pos, count } => {
                let mut buf = [0u8; REPORT1_BUF_SIZE];
                buf[0] = 1;
                buf[1] = 0x70; // 'p'
                buf[2] = flag_to_byte(*play);
                buf[3] = *start_pos;
                buf[4] = *end_pos;
                buf[5] = *count;
                assert(buf@ =~= self.encoding());
                ReportBuf::Report1(buf)
            },
            WriteCmd::SetColorPatternLine { r, g, b, duration, pos } => {
                let (th, tl) = duration_to_fade_time(duration);
                let mut buf = [0u8; REPORT1_BUF_SIZE];
                buf[0] = 1;
                buf[1] = 0x50; // 'P'
                buf[2] = *r;
                buf[3] = *g;
                buf[4] = *b;
                buf[5] = th;
                buf[6] = tl;
                buf[7] = *pos;
                assert(buf@ =~= self.encoding());
                ReportBuf::Report1(buf)
            },
            WriteCmd::SaveColorPatterns => {
                let mut buf = [0u8; REPORT1_BUF_SIZE];
                buf[0] = 1;
                buf[1] = 0x57; // 'W'
                assert(buf@ =~= self.encoding());
                ReportBuf::Report1(buf)
            },
            WriteCmd::SetLed { led } => {
                let mut buf = [0u8; REPORT1_BUF_SIZE];
                buf[0] = 1;
                buf[1] = 0x6c; // 'l'
                buf[2] = u8::from(*led);
                assert(buf@ =~= self.encoding());
                ReportBuf::Report1(buf)
            },
            WriteCmd::WriteEeprom { addr, val } => {
                let mut buf = [0u8; REPORT1_BUF_SIZE];
                buf[0] = 1;
                buf[1] = 0x45; // 'E'
                buf[2] = *addr;
                buf[3] = *val;
                assert(buf@ =~= self.encoding());
                ReportBuf::Report1(buf)
            },
            WriteCmd::Test => {
                let mut buf = [0u8; REPORT1_BUF_SIZE];
                buf[0] = 1;
                buf[1] = 0x21; // '!'
                assert(buf@ =~= self.encoding());
                ReportBuf::Report1(buf)
            },
            WriteCmd::WriteNote { note_id, data } => {
                let mut buf = [0u8; REPORT2_BUF_SIZE];
                buf[0] = 2;
                buf[1] = 0x46; // 'F'
                buf[2] = *note_id;
                let mut i: usize = 0;
                while i < 50
                    invariant
                        i <= 50,
                        buf@.len() == REPORT2_BUF_SIZE,
                        buf@[0] == 2u8,
                        buf@[1] == 0x46u8,
                        buf@[2] == *note_id,
                        forall|j: int| 0 <= j < i ==> buf@[3 + j] == data@[j],
                        forall|j: int| 3 + i <= j < REPORT2_BUF_SIZE ==> buf@[j] == 0u8,
                    decreases 50 - i,
                {
                    buf[3 + i] = data[i];
                    i = i + 1;
                }
                assert(buf@ =~= self.encoding());
                ReportBuf::Report2(buf)
            },
            WriteCmd::GoToBootloader => {
                let mut buf = [0u8; REPORT1_BUF_SIZE];
                buf[0] = 1;
                buf[1] = 0x47; // 'G'
                buf[2] = 0x6f; // 'o'
                buf[3] = 0x42; // 'B'
                buf[4] = 0x6f; // 'o'
                buf[5] = 0x6f; // 'o'
                buf[6] = 0x74; // 't'
                buf[7] = 0;
                assert(buf@ =~= self.encoding());
                ReportBuf::Report1(buf)
            },
            WriteCmd::LockBootloader => {
                let mut buf = [0u8; REPORT2_BUF_SIZE];
                buf[0] = 2;
                buf[1] = 0x4c; // 'L'
                buf[2] = 0x6f; // 'o'
                buf[3] = 0x63; // 'c'
                buf[4] = 0x6b; // 'k'
                buf[5] = 0x42; // 'B'
                buf[6] = 0x6f; // 'o'
                buf[7] = 0x6f; // 'o'
                buf[8] = 0x74; // 't'
                buf[9] = 0x6c; // 'l'
                buf[10] = 0x6f; // 'o'
                buf[11] = 0x61; // 'a'
                buf[12] = 0x64; // 'd'
                assert(buf@ =~= self.encoding());
                ReportBuf::Report2(buf)
            },
            WriteCmd::SetStartupParams { boot_mode, play_start, play_end, play_count } => {
                let mut buf = [0u8; REPORT1_BUF_SIZE];
                buf[0] = 1;
                buf[1] = 0x42; // 'B'
                buf[2] = *boot_mode;
                buf[3] = *play_start;
                buf[4] = *play_end;
                buf[5] = *play_count;
                assert(buf@ =~= self.encoding());
                ReportBuf::Report1(buf)
            },
        }
    }
}

#[derive(Debug, Clone, PartialEq, Eq)]
pub enum QueryCmd {
    /// Read current RGB color: format `{ 1, 'r', n, 0, 0, 0, 0, n }` (2)
    ///
    /// Returns the current RGB color of the specified LED (`{ 1, 'r', r, g, b, 0, 0, ledn }`).
    ReadCurrentRgb { led: Led },
    /// Playstate readback: format `{ 1, 'S', 0, 0, 0, 0, 0, 0 }` (2)
    ///
    /// Reads back current playing status: playing state, start/end loop, loop count, and position.
    PlaystateReadback,
    /// Read color pattern line: format `{ 1, 'R', 0, 0, 0, 0, 0, p }`
    ///
    /// Reads the RGB color, fade time, and position stored at pattern line `pos`.
    ReadColorPatternLine { pos: u8 },
    /// Read EEPROM location: format `{ 1, 'e', ad, 0, 0, 0, 0, 0 }` (1)
    ///
    /// Reads raw value stored in EEPROM address `addr`.
    ReadEeprom { addr: u8 },
    /// Get version: format `{ 1, 'v', 0, 0, 0, 0, 0, 0 }`
    ///
    /// Retrieves blink(1) firmware version.
    GetVersion,
    /// Read 50-byte note: format `{ 2, 'f', noteid, data0 ... data49 }` (3)
    ///
    /// Reads a 50-byte note from note slot `note_id`.
    ReadNote { note_id: u8 },
    /// Get startup params: format `{ 1, 'b', 0, 0, 0, 0, 0, 0 }` (3)
    ///
    /// Reads configured startup playback parameters.
    GetStartupParams,
    /// Get chip unique id: format `{ 2, 'U', 0 }` (3)
    ///
    /// Returns unique hardware chip identifier.
    GetChipUniqueId,
}

impl QueryCmd {
    /// Whether the query and its answer travel in report-2 buffers.
    pub open spec fn uses_report2(self) -> bool {
        self is ReadNote || self is GetChipUniqueId
    }

    /// The bytes of the query as its documented format gives them, zero-padded to the
    /// size of its buffer (the note data of a note read is sent as zeros). Letters are
    /// written as their ASCII codes.
    pub open spec fn encoding(self) -> Seq<u8> {
        match self {
            QueryCmd::ReadCurrentRgb { led } => frame1(
                seq![1u8, 0x72u8, led_code(led), 0u8, 0u8, 0u8, 0u8, led_code(led)], // 'r'
            ),
            QueryCmd::PlaystateReadback => frame1(seq![1u8, 0x53u8, 0u8, 0u8, 0u8, 0u8, 0u8, 0u8]), // 'S'
            QueryCmd::ReadColorPatternLine { pos } => frame1(
                seq![1u8, 0x52u8, 0u8, 0u8, 0u8, 0u8, 0u8, pos], // 'R'
            ),
            QueryCmd::ReadEeprom { addr } => frame1(
                seq![1u8, 0x65u8, addr, 0u8, 0u8, 0u8, 0u8, 0u8], // 'e'
            ),
            QueryCmd::GetVersion => frame1(seq![1u8, 0x76u8, 0u8, 0u8, 0u8, 0u8, 0u8, 0u8]), // 'v'
            QueryCmd::ReadNote { note_id } => frame2(seq![2u8, 0x66u8, note_id]), // 'f'
            QueryCmd::GetStartupParams => frame1(seq![1u8, 0x62u8, 0u8, 0u8, 0u8, 0u8, 0u8, 0u8]), // 'b'
            QueryCmd::GetChipUniqueId => frame2(seq![2u8, 0x55u8, 0u8]), // 'U'
        }
    }

    /// The empty answer buffer of the query: its report id, then zeros.
    pub open spec fn response_frame(self) -> Seq<u8> {
        if self.uses_report2() {
            frame2(seq![2u8])
        } else {
            frame1(seq![1u8])
        }
    }

    /// The feature report that carries the query.
    pub fn to_buffer(&self) -> (buf: ReportBuf)
        ensures
            buf@ == self.encoding(),
            (buf is Report2) == self.uses_report2(),
    {
        match self {
            QueryCmd::ReadCurrentRgb { led } => {
                let mut buf = [0u8; REPORT1_BUF_SIZE];
                buf[0] = 1;
                buf[1] = 0x72; // 'r'
                buf[2] = u8::from(*led);
                buf[7] = u8::from(*led);
                assert(buf@ =~= self.encoding());
                ReportBuf::Report1(buf)
            },
            QueryCmd::PlaystateReadback => {
                let mut buf = [0u8; REPORT1_BUF_SIZE];
                buf[0] = 1;
                buf[1] = 0x53; // 'S'
                assert(buf@ =~= self.encoding());
                ReportBuf::Report1(buf)
            },
            QueryCmd::ReadColorPatternLine { pos } => {
                let mut buf = [0u8; REPORT1_BUF_SIZE];
                buf[0] = 1;
                buf[1] = 0x52; // 'R'
                buf[7] = *pos;
                assert(buf@ =~= self.encoding());
                ReportBuf::Report1(buf)
            },
            QueryCmd::ReadEeprom { addr } => {
                let mut buf = [0u8; REPORT1_BUF_SIZE];
                buf[0] = 1;
                buf[1] = 0x65; // 'e'
                buf[2] = *addr;
                assert(buf@ =~= self.encoding());
                ReportBuf::Report1(buf)
            },
            QueryCmd::GetVersion => {
                let mut buf = [0u8; REPORT1_BUF_SIZE];
                buf[0] = 1;
                buf[1] = 0x76; // 'v'
                assert(buf@ =~= self.encoding());
                ReportBuf::Report1(buf)
            },
            QueryCmd::ReadNote { note_id } => {
                let mut buf = [0u8; REPORT2_BUF_SIZE];
                buf[0] = 2;
                buf[1] = 0x66; // 'f'
                buf[2] = *note_id;
                assert(buf@ =~= self.encoding());
                ReportBuf::Report2(buf)
            },
            QueryCmd::GetStartupParams => {
                let mut buf = [0u8; REPORT1_BUF_SIZE];
                buf[0] = 1;
                buf[1] = 0x62; // 'b'
                assert(buf@ =~= self.encoding());
                ReportBuf::Report1(buf)
            },
            QueryCmd::GetChipUniqueId => {
                let mut buf = [0u8; REPORT2_BUF_SIZE];
                buf[0] = 2;
                buf[1] = 0x55; // 'U'
                assert(buf@ =~= self.encoding());
                ReportBuf::Report2(buf)
            },
        }
    }

    /// The empty buffer that the answer to the query is read into: of the query's own
    /// report kind, holding only its report id.
    pub fn response_buffer(&self) -> (buf: ReportBuf)
        ensures
            (buf is Report2) == self.uses_report2(),
            buf@ == self.response_frame(),
    {
        match self {
            QueryCmd::ReadNote { .. } | QueryCmd::GetChipUniqueId => {
                let mut buf = [0u8; REPORT2_BUF_SIZE];
                buf[0] = 2;
                assert(buf@ =~= frame2(seq![2u8]));
                ReportBuf::Report2(buf)
            },
            _ => {
                let mut buf = [0u8; REPORT1_BUF_SIZE];
                buf[0] = 1;
                assert(buf@ =~= frame1(seq![1u8]));
                ReportBuf::Report1(buf)
            },
        }
    }
}

/// The buffer size of report 2 when `report2` holds, else of report 1.
pub open spec fn report_size(report2: bool) -> nat {
    if report2 {
        REPORT2_BUF_SIZE as nat
    } else {
        REPORT1_BUF_SIZE as nat
    }
}

/// The report id of report 2 when `report2` holds, else of report 1.
pub open spec fn report_id(report2: bool) -> u8 {
    if report2 {
        2
    } else {
        1
    }
}

/// Every command is sent in a buffer of the size of its report, whose first byte is the
/// report id.
pub proof fn lemma_write_cmd_report_header(cmd: WriteCmd)
    ensures
        cmd.encoding().len() == report_size(cmd.uses_report2()),
        cmd.encoding()[0] == report_id(cmd.uses_report2()),
{
}

/// Every query is sent in a buffer of the size of its report, whose first byte is the
/// report id.
pub proof fn lemma_query_cmd_report_header(cmd: QueryCmd)
    ensures
        cmd.encoding().len() == report_size(cmd.uses_report2()),
        cmd.encoding()[0] == report_id(cmd.uses_report2()),
{
}

/// The answer to a query is read into a buffer of the same report as the query was sent in:
/// same size, same report id, every other byte zero.
pub proof fn lemma_response_matches_request(cmd: QueryCmd)
    ensures
        cmd.response_frame().len() == cmd.encoding().len(),
        cmd.response_frame()[0] == cmd.encoding()[0],
        forall|i: int| 1 <= i < cmd.response_frame().len() ==> cmd.response_frame()[i] == 0u8,
{
}

/// The second byte of a command is its command letter, one per kind of command.
pub open spec fn same_write_kind(a: WriteCmd, b: WriteCmd) -> bool {
    match (a, b) {
        (WriteCmd::FadeToRgb { .. }, WriteCmd::FadeToRgb { .. }) => true,
        (WriteCmd::SetRgbNow { .. }, WriteCmd::SetRgbNow { .. }) => true,
        (WriteCmd::ServerDownTickle { .. }, WriteCmd::ServerDownTickle { .. }) => true,
        (WriteCmd::PlayLoop { .. }, WriteCmd::PlayLoop { .. }) => true,
        (WriteCmd::SetColorPatternLine { .. }, WriteCmd::SetColorPatternLine { .. }) => true,
        (WriteCmd::SaveColorPatterns, WriteCmd::SaveColorPatterns) => true,
        (WriteCmd::SetLed { .. }, WriteCmd::SetLed { .. }) => true,
        (WriteCmd::WriteEeprom { .. }, WriteCmd::WriteEeprom { .. }) => true,
        (WriteCmd::Test, WriteCmd::Test) => true,
        (WriteCmd::WriteNote { .. }, WriteCmd::WriteNote { .. }) => true,
        (WriteCmd::GoToBootloader, WriteCmd::GoToBootloader) => true,
        (WriteCmd::LockBootloader, WriteCmd::LockBootloader) => true,
        (WriteCmd::SetStartupParams { .. }, WriteCmd::SetStartupParams { .. }) => true,
        _ => false,
    }
}

/// Whether two queries are of the same kind.
pub open spec fn same_query_kind(a: QueryCmd, b: QueryCmd) -> bool {
    match (a, b) {
        (QueryCmd::ReadCurrentRgb { .. }, QueryCmd::ReadCurrentRgb { .. }) => true,
        (QueryCmd::PlaystateReadback, QueryCmd::PlaystateReadback) => true,
        (QueryCmd::ReadColorPatternLine { .. }, QueryCmd::ReadColorPatternLine { .. }) => true,
        (QueryCmd::ReadEeprom { .. }, QueryCmd::ReadEeprom { .. }) => true,
        (QueryCmd::GetVersion, QueryCmd::GetVersion) => true,
        (QueryCmd::ReadNote { .. }, QueryCmd::ReadNote { .. }) => true,
        (QueryCmd::GetStartupParams, QueryCmd::GetStartupParams) => true,
        (QueryCmd::GetChipUniqueId, QueryCmd::GetChipUniqueId) => true,
        _ => false,
    }
}

/// Two commands carry the same command letter exactly when they are of the same kind.
pub proof fn lemma_write_cmd_letter_identifies_kind(a: WriteCmd, b: WriteCmd)
    ensures
        (a.encoding()[1] == b.encoding()[1]) == same_write_kind(a, b),
{
}

/// Two queries carry the same command letter exactly when they are of the same kind.
pub proof fn lemma_query_cmd_letter_identifies_kind(a: QueryCmd, b: QueryCmd)
    ensures
        (a.encoding()[1] == b.encoding()[1]) == same_query_kind(a, b),
{
}

/// No command shares its command letter with a query.
pub proof fn lemma_write_and_query_letters_differ(w: WriteCmd, q: QueryCmd)
    ensures
        w.encoding()[1] != q.encoding()[1],
{
}

/// Fade times beyond `u16::MAX` units of 10 ms (10 minutes 55.35 seconds) are sent as
/// `u16::MAX` units; shorter ones as their whole number of 10 ms units.
pub proof fn lemma_fade_time_saturates(d: Duration)
    ensures
        d.millis() >= 655_350 ==> fade_ticks(d) == 0xFFFF,
        d.millis() < 655_350 ==> fade_ticks(d) == d.millis() / 10,
{
}

/// A longer duration never gives a shorter fade time.
pub proof fn lemma_fade_time_monotonic(d1: Duration, d2: Duration)
    requires
        d1@ <= d2@,
    ensures
        fade_ticks(d1) <= fade_ticks(d2),
{
    vstd::arithmetic::div_mod::lemma_div_is_ordered(d1@ as int, d2@ as int, 1_000_000);
    vstd::arithmetic::div_mod::lemma_div_is_ordered(d1.millis() as int, d2.millis() as int, 10);
}

} // verus!
