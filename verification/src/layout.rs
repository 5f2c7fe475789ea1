//! The byte layout of every command and query, stated over its fields.
use vstd::prelude::*;
use crate::Led;
use crate::cmd::{QueryCmd, WriteCmd};
use crate::duration::Duration;

verus! {

/// Fade to RGB is sent as `{ 1, 'c', r, g, b, th, tl, n }`: `th * 256 + tl` is the fade time in
/// 10 ms units, saturated at 65535 (10 minutes 55.35 seconds), and `n` selects the LED.
pub proof fn lemma_fade_to_rgb_layout(r: u8, g: u8, b: u8, duration: Duration, led: Led)
    ensures
        ({
            let e = WriteCmd::FadeToRgb { r, g, b, duration, led }.encoding();
            &&& e.len() == 9
            &&& e[0] == 1u8
            &&& e[1] == 0x63u8
            &&& e[2] == r
            &&& e[3] == g
            &&& e[4] == b
            &&& e[5] * 256 + e[6] == (if duration.millis() / 10 < 65535 { duration.millis() / 10 } else { 65535 })
            &&& led == Led::All ==> e[7] == 0u8
            &&& led == Led::Led1 ==> e[7] == 1u8
            &&& led == Led::Led2 ==> e[7] == 2u8
            &&& e[8] == 0u8
        }),
{
}

/// Set RGB now is sent as `{ 1, 'n', r, g, b, 0, 0, n }`: no fade time, and `n` selects the LED.
pub proof fn lemma_set_rgb_now_layout(r: u8, g: u8, b: u8, led: Led)
    ensures
        ({
            let e = WriteCmd::SetRgbNow { r, g, b, led }.encoding();
            &&& e.len() == 9
            &&& e[0] == 1u8
            &&& e[1] == 0x6eu8
            &&& e[2] == r
            &&& e[3] == g
            &&& e[4] == b
            &&& e[5] == 0u8
            &&& e[6] == 0u8
            &&& led == Led::All ==> e[7] == 0u8
            &&& led == Led::Led1 ==> e[7] == 1u8
            &&& led == Led::Led2 ==> e[7] == 2u8
            &&& e[8] == 0u8
        }),
{
}

/// Server-down tickle is sent as `{ 1, 'D', on, th, tl, st, sp, ep }`: `on` and `st` are 1 exactly
/// when the flag holds, `th * 256 + tl` is the timeout in 10 ms units, saturated at 65535.
pub proof fn lemma_server_down_tickle_layout(enable: bool, timeout: Duration, stay_on: bool, start_pos: u8, end_pos: u8)
    ensures
        ({
            let e = WriteCmd::ServerDownTickle { enable, timeout, stay_on, start_pos, end_pos }.encoding();
            &&& e.len() == 9
            &&& e[0] == 1u8
            &&& e[1] == 0x44u8
            &&& enable ==> e[2] == 1u8
            &&& !enable ==> e[2] == 0u8
            &&& e[3] * 256 + e[4] == (if timeout.millis() / 10 < 65535 { timeout.millis() / 10 } else { 65535 })
            &&& stay_on ==> e[5] == 1u8
            &&& !stay_on ==> e[5] == 0u8
            &&& e[6] == start_pos
            &&& e[7] == end_pos
            &&& e[8] == 0u8
        }),
{
}

/// Play loop is sent as `{ 1, 'p', on, sp, ep, c, 0, 0 }`: `on` is 1 exactly when playing, and the
/// loop bounds and count are sent whether or not it plays.
pub proof fn lemma_play_loop_layout(play: bool, start_pos: u8, end_pos: u8, count: u8)
    ensures
        ({
            let e = WriteCmd::PlayLoop { play, start_pos, end_pos, count }.encoding();
            &&& e.len() == 9
            &&& e[0] == 1u8
            &&& e[1] == 0x70u8
            &&& play ==> e[2] == 1u8
            &&& !play ==> e[2] == 0u8
            &&& e[3] == start_pos
            &&& e[4] == end_pos
            &&& e[5] == count
            &&& e[6] == 0u8
            &&& e[7] == 0u8
            &&& e[8] == 0u8
        }),
{
}

/// Set color pattern line is sent as `{ 1, 'P', r, g, b, th, tl, p }`: `th * 256 + tl` is the fade
/// time in 10 ms units, saturated at 65535, and `p` the pattern line.
pub proof fn lemma_set_color_pattern_line_layout(r: u8, g: u8, b: u8, duration: Duration, pos: u8)
    ensures
        ({
            let e = WriteCmd::SetColorPatternLine { r, g, b, duration, pos }.encoding();
            &&& e.len() == 9
            &&& e[0] == 1u8
            &&& e[1] == 0x50u8
            &&& e[2] == r
            &&& e[3] == g
            &&& e[4] == b
            &&& e[5] * 256 + e[6] == (if duration.millis() / 10 < 65535 { duration.millis() / 10 } else { 65535 })
            &&& e[7] == pos
            &&& e[8] == 0u8
        }),
{
}

/// Save color patterns is sent as `{ 1, 'W', 0, 0, 0, 0, 0, 0 }`.
pub proof fn lemma_save_color_patterns_layout()
    ensures
        ({
            let e = WriteCmd::SaveColorPatterns.encoding();
            &&& e.len() == 9
            &&& e[0] == 1u8
            &&& e[1] == 0x57u8
            &&& e[2] == 0u8
            &&& e[3] == 0u8
            &&& e[4] == 0u8
            &&& e[5] == 0u8
            &&& e[6] == 0u8
            &&& e[7] == 0u8
            &&& e[8] == 0u8
        }),
{
}

/// Set LED is sent as `{ 1, 'l', n, 0, 0, 0, 0, 0 }`, `n` selecting the LED.
pub proof fn lemma_set_led_layout(led: Led)
    ensures
        ({
            let e = WriteCmd::SetLed { led }.encoding();
            &&& e.len() == 9
            &&& e[0] == 1u8
            &&& e[1] == 0x6cu8
            &&& led == Led::All ==> e[2] == 0u8
            &&& led == Led::Led1 ==> e[2] == 1u8
            &&& led == Led::Led2 ==> e[2] == 2u8
            &&& e[3] == 0u8
            &&& e[4] == 0u8
            &&& e[5] == 0u8
            &&& e[6] == 0u8
            &&& e[7] == 0u8
            &&& e[8] == 0u8
        }),
{
}

/// Write EEPROM is sent as `{ 1, 'E', ad, v, 0, 0, 0, 0 }`.
pub proof fn lemma_write_eeprom_layout(addr: u8, val: u8)
    ensures
        ({
            let e = WriteCmd::WriteEeprom { addr, val }.encoding();
            &&& e.len() == 9
            &&& e[0] == 1u8
            &&& e[1] == 0x45u8
            &&& e[2] == addr
            &&& e[3] == val
            &&& e[4] == 0u8
            &&& e[5] == 0u8
            &&& e[6] == 0u8
            &&& e[7] == 0u8
            &&& e[8] == 0u8
        }),
{
}

/// The test command is sent as `{ 1, '!', 0, 0, 0, 0, 0, 0 }`.
pub proof fn lemma_test_layout()
    ensures
        ({
            let e = WriteCmd::Test.encoding();
            &&& e.len() == 9
            &&& e[0] == 1u8
            &&& e[1] == 0x21u8
            &&& e[2] == 0u8
            &&& e[3] == 0u8
            &&& e[4] == 0u8
            &&& e[5] == 0u8
            &&& e[6] == 0u8
            &&& e[7] == 0u8
            &&& e[8] == 0u8
        }),
{
}

/// Write note is sent as `{ 2, 'F', noteid, data0 ... data49 }` in a report-2 buffer, zeros after.
pub proof fn lemma_write_note_layout(note_id: u8, data: [u8; 50])
    ensures
        ({
            let e = WriteCmd::WriteNote { note_id, data }.encoding();
            &&& e.len() == 61
            &&& e[0] == 2u8
            &&& e[1] == 0x46u8
            &&& e[2] == note_id
            &&& forall|i: int| 0 <= i < 50 ==> e[3 + i] == data@[i]
            &&& forall|i: int| 53 <= i < 61 ==> e[i] == 0u8
        }),
{
}

/// Go to bootloader is sent as `{ 1, 'G', 'o', 'B', 'o', 'o', 't', 0 }`.
pub proof fn lemma_go_to_bootloader_layout()
    ensures
        ({
            let e = WriteCmd::GoToBootloader.encoding();
            &&& e.len() == 9
            &&& e[0] == 1u8
            &&& e[1] == 0x47u8
            &&& e[2] == 0x6fu8
            &&& e[3] == 0x42u8
            &&& e[4] == 0x6fu8
            &&& e[5] == 0x6fu8
            &&& e[6] == 0x74u8
            &&& e[7] == 0u8
            &&& e[8] == 0u8
        }),
{
}

/// Lock bootloader is sent as `{ 2, 'L', 'o', 'c', 'k', 'B', 'o', 'o', 't', 'l', 'o', 'a', 'd' }` in a
/// report-2 buffer, zeros after.
pub proof fn lemma_lock_bootloader_layout()
    ensures
        ({
            let e = WriteCmd::LockBootloader.encoding();
            &&& e.len() == 61
            &&& e[0] == 2u8
            &&& e[1] == 0x4cu8
            &&& e[2] == 0x6fu8
            &&& e[3] == 0x63u8
            &&& e[4] == 0x6bu8
            &&& e[5] == 0x42u8
            &&& e[6] == 0x6fu8
            &&& e[7] == 0x6fu8
            &&& e[8] == 0x74u8
            &&& e[9] == 0x6cu8
            &&& e[10] == 0x6fu8
            &&& e[11] == 0x61u8
            &&& e[12] == 0x64u8
            &&& forall|i: int| 13 <= i < 61 ==> e[i] == 0u8
        }),
{
}

/// Set startup params is sent as `{ 1, 'B', bootmode, playstart, playend, playcnt, 0, 0 }`.
pub proof fn lemma_set_startup_params_layout(boot_mode: u8, play_start: u8, play_end: u8, play_count: u8)
    ensures
        ({
            let e = WriteCmd::SetStartupParams { boot_mode, play_start, play_end, play_count }.encoding();
            &&& e.len() == 9
            &&& e[0] == 1u8
            &&& e[1] == 0x42u8
            &&& e[2] == boot_mode
            &&& e[3] == play_start
            &&& e[4] == play_end
            &&& e[5] == play_count
            &&& e[6] == 0u8
            &&& e[7] == 0u8
            &&& e[8] == 0u8
        }),
{
}

/// Read current RGB is sent as `{ 1, 'r', n, 0, 0, 0, 0, n }`, `n` selecting the LED.
pub proof fn lemma_read_current_rgb_layout(led: Led)
    ensures
        ({
            let e = QueryCmd::ReadCurrentRgb { led }.encoding();
            &&& e.len() == 9
            &&& e[0] == 1u8
            &&& e[1] == 0x72u8
            &&& led == Led::All ==> e[2] == 0u8
            &&& led == Led::Led1 ==> e[2] == 1u8
            &&& led == Led::Led2 ==> e[2] == 2u8
            &&& e[3] == 0u8
            &&& e[4] == 0u8
            &&& e[5] == 0u8
            &&& e[6] == 0u8
            &&& led == Led::All ==> e[7] == 0u8
            &&& led == Led::Led1 ==> e[7] == 1u8
            &&& led == Led::Led2 ==> e[7] == 2u8
            &&& e[8] == 0u8
        }),
{
}

/// Playstate readback is sent as `{ 1, 'S', 0, 0, 0, 0, 0, 0 }`.
pub proof fn lemma_playstate_readback_layout()
    ensures
        ({
            let e = QueryCmd::PlaystateReadback.encoding();
            &&& e.len() == 9
            &&& e[0] == 1u8
            &&& e[1] == 0x53u8
            &&& e[2] == 0u8
            &&& e[3] == 0u8
            &&& e[4] == 0u8
            &&& e[5] == 0u8
            &&& e[6] == 0u8
            &&& e[7] == 0u8
            &&& e[8] == 0u8
        }),
{
}

/// Read color pattern line is sent as `{ 1, 'R', 0, 0, 0, 0, 0, p }`.
pub proof fn lemma_read_color_pattern_line_layout(pos: u8)
    ensures
        ({
            let e = QueryCmd::ReadColorPatternLine { pos }.encoding();
            &&& e.len() == 9
            &&& e[0] == 1u8
            &&& e[1] == 0x52u8
            &&& e[2] == 0u8
            &&& e[3] == 0u8
            &&& e[4] == 0u8
            &&& e[5] == 0u8
            &&& e[6] == 0u8
            &&& e[7] == pos
            &&& e[8] == 0u8
        }),
{
}

/// Read EEPROM is sent as `{ 1, 'e', ad, 0, 0, 0, 0, 0 }`.
pub proof fn lemma_read_eeprom_layout(addr: u8)
    ensures
        ({
            let e = QueryCmd::ReadEeprom { addr }.encoding();
            &&& e.len() == 9
            &&& e[0] == 1u8
            &&& e[1] == 0x65u8
            &&& e[2] == addr
            &&& e[3] == 0u8
            &&& e[4] == 0u8
            &&& e[5] == 0u8
            &&& e[6] == 0u8
            &&& e[7] == 0u8
            &&& e[8] == 0u8
        }),
{
}

/// Get version is sent as `{ 1, 'v', 0, 0, 0, 0, 0, 0 }`.
pub proof fn lemma_get_version_layout()
    ensures
        ({
            let e = QueryCmd::GetVersion.encoding();
            &&& e.len() == 9
            &&& e[0] == 1u8
            &&& e[1] == 0x76u8
            &&& e[2] == 0u8
            &&& e[3] == 0u8
            &&& e[4] == 0u8
            &&& e[5] == 0u8
            &&& e[6] == 0u8
            &&& e[7] == 0u8
            &&& e[8] == 0u8
        }),
{
}

/// Read note is sent as `{ 2, 'f', noteid }` in a report-2 buffer, zeros after.
pub proof fn lemma_read_note_layout(note_id: u8)
    ensures
        ({
            let e = QueryCmd::ReadNote { note_id }.encoding();
            &&& e.len() == 61
            &&& e[0] == 2u8
            &&& e[1] == 0x66u8
            &&& e[2] == note_id
            &&& forall|i: int| 3 <= i < 61 ==> e[i] == 0u8
        }),
{
}

/// Get startup params is sent as `{ 1, 'b', 0, 0, 0, 0, 0, 0 }`.
pub proof fn lemma_get_startup_params_layout()
    ensures
        ({
            let e = QueryCmd::GetStartupParams.encoding();
            &&& e.len() == 9
            &&& e[0] == 1u8
            &&& e[1] == 0x62u8
            &&& e[2] == 0u8
            &&& e[3] == 0u8
            &&& e[4] == 0u8
            &&& e[5] == 0u8
            &&& e[6] == 0u8
            &&& e[7] == 0u8
            &&& e[8] == 0u8
        }),
{
}

/// Get chip unique id is sent as `{ 2, 'U', 0 }` in a report-2 buffer, zeros after.
pub proof fn lemma_get_chip_unique_id_layout()
    ensures
        ({
            let e = QueryCmd::GetChipUniqueId.encoding();
            &&& e.len() == 61
            &&& e[0] == 2u8
            &&& e[1] == 0x55u8
            &&& forall|i: int| 2 <= i < 61 ==> e[i] == 0u8
        }),
{
}

} // verus!
