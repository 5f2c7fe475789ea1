use blink_one::cmd::duration_to_fade_time;
use blink_one::{Duration, Led, QueryCmd, ReportBuf, WriteCmd};

fn report1(bytes: &[u8]) -> Vec<u8> {
    let mut v = bytes.to_vec();
    v.resize(9, 0);
    v
}

fn report2(bytes: &[u8]) -> Vec<u8> {
    let mut v = bytes.to_vec();
    v.resize(61, 0);
    v
}

#[test]
fn led_codes() {
    assert_eq!(u8::from(Led::All), 0);
    assert_eq!(u8::from(Led::Led1), 1);
    assert_eq!(u8::from(Led::Led2), 2);
}

#[test]
fn fade_time_in_ten_millisecond_units() {
    assert_eq!(duration_to_fade_time(&Duration::from_secs(1)), (0, 100));
    assert_eq!(duration_to_fade_time(&Duration::from_millis(2560)), (1, 0));
    assert_eq!(duration_to_fade_time(&Duration::from_millis(0x1234 * 10 + 9)), (0x12, 0x34));
    assert_eq!(duration_to_fade_time(&Duration::new(0, 9_999_999)), (0, 0));
}

#[test]
fn fade_time_saturates_beyond_ten_minutes_55() {
    assert_eq!(duration_to_fade_time(&Duration::from_millis(655_349)), (0xFF, 0xFE));
    assert_eq!(duration_to_fade_time(&Duration::from_millis(655_350)), (0xFF, 0xFF));
    assert_eq!(duration_to_fade_time(&Duration::from_secs(3600)), (0xFF, 0xFF));
    assert_eq!(duration_to_fade_time(&Duration::from_secs(u64::MAX)), (0xFF, 0xFF));
}

#[test]
fn fade_time_is_monotonic() {
    let mut last = 0u32;
    for ms in (0u64..700_000).step_by(997) {
        let (h, l) = duration_to_fade_time(&Duration::from_millis(ms));
        let t = u32::from(h) * 256 + u32::from(l);
        assert!(t >= last);
        last = t;
    }
}

#[test]
fn fade_to_rgb_bytes() {
    let cmd = WriteCmd::FadeToRgb {
        r: 0x11,
        g: 0x22,
        b: 0x33,
        duration: Duration::from_millis(1500),
        led: Led::Led2,
    };
    let buf = cmd.to_buffer();
    assert!(matches!(buf, ReportBuf::Report1(_)));
    assert_eq!(buf.as_slice(), &report1(&[1, b'c', 0x11, 0x22, 0x33, 0, 150, 2])[..]);
}

#[test]
fn set_rgb_now_bytes() {
    let cmd = WriteCmd::SetRgbNow { r: 255, g: 0, b: 7, led: Led::All };
    assert_eq!(cmd.to_buffer().as_slice(), &report1(&[1, b'n', 255, 0, 7, 0, 0, 0])[..]);
}

#[test]
fn server_down_tickle_bytes() {
    let cmd = WriteCmd::ServerDownTickle {
        enable: true,
        timeout: Duration::from_secs(30),
        stay_on: false,
        start_pos: 2,
        end_pos: 9,
    };
    // 30 s is 3000 units: 0x0BB8
    assert_eq!(cmd.to_buffer().as_slice(), &report1(&[1, b'D', 1, 0x0B, 0xB8, 0, 2, 9])[..]);
}

#[test]
fn play_loop_bytes() {
    let cmd = WriteCmd::PlayLoop { play: true, start_pos: 1, end_pos: 5, count: 3 };
    assert_eq!(cmd.to_buffer().as_slice(), &report1(&[1, b'p', 1, 1, 5, 3, 0, 0])[..]);
    let cmd = WriteCmd::PlayLoop { play: false, start_pos: 0, end_pos: 0, count: 0 };
    assert_eq!(cmd.to_buffer().as_slice(), &report1(&[1, b'p', 0, 0, 0, 0, 0, 0])[..]);
}

#[test]
fn set_color_pattern_line_bytes() {
    let cmd = WriteCmd::SetColorPatternLine {
        r: 1,
        g: 2,
        b: 3,
        duration: Duration::from_millis(100),
        pos: 11,
    };
    assert_eq!(cmd.to_buffer().as_slice(), &report1(&[1, b'P', 1, 2, 3, 0, 10, 11])[..]);
}

#[test]
fn save_color_patterns_bytes() {
    let cmd = WriteCmd::SaveColorPatterns;
    assert_eq!(cmd.to_buffer().as_slice(), &report1(&[1, b'W', 0, 0, 0, 0, 0, 0])[..]);
}

#[test]
fn set_led_bytes() {
    let cmd = WriteCmd::SetLed { led: Led::Led1 };
    assert_eq!(cmd.to_buffer().as_slice(), &report1(&[1, b'l', 1, 0, 0, 0, 0, 0])[..]);
}

#[test]
fn write_eeprom_bytes() {
    let cmd = WriteCmd::WriteEeprom { addr: 0x10, val: 0xAB };
    assert_eq!(cmd.to_buffer().as_slice(), &report1(&[1, b'E', 0x10, 0xAB, 0, 0, 0, 0])[..]);
}

#[test]
fn test_command_bytes() {
    assert_eq!(WriteCmd::Test.to_buffer().as_slice(), &report1(&[1, b'!'])[..]);
}

#[test]
fn write_note_bytes() {
    let mut data = [0u8; 50];
    for (i, d) in data.iter_mut().enumerate() {
        *d = i as u8 + 100;
    }
    let cmd = WriteCmd::WriteNote { note_id: 4, data };
    let buf = cmd.to_buffer();
    assert!(matches!(buf, ReportBuf::Report2(_)));
    let mut expected = vec![2, b'F', 4];
    expected.extend_from_slice(&data);
    assert_eq!(buf.as_slice(), &report2(&expected)[..]);
    assert_eq!(buf.as_slice().len(), 61);
}

#[test]
fn go_to_bootloader_bytes() {
    let cmd = WriteCmd::GoToBootloader;
    assert_eq!(cmd.to_buffer().as_slice(), &report1(&[1, b'G', b'o', b'B', b'o', b'o', b't', 0])[..]);
}

#[test]
fn lock_bootloader_bytes() {
    let buf = WriteCmd::LockBootloader.to_buffer();
    assert!(matches!(buf, ReportBuf::Report2(_)));
    let mut expected = vec![2, b'L'];
    expected.extend_from_slice(b"ockBootload");
    assert_eq!(buf.as_slice(), &report2(&expected)[..]);
}

#[test]
fn set_startup_params_bytes() {
    let cmd = WriteCmd::SetStartupParams { boot_mode: 1, play_start: 2, play_end: 3, play_count: 4 };
    assert_eq!(cmd.to_buffer().as_slice(), &report1(&[1, b'B', 1, 2, 3, 4, 0, 0])[..]);
}

#[test]
fn query_bytes() {
    let cases: Vec<(QueryCmd, Vec<u8>)> = vec![
        (QueryCmd::ReadCurrentRgb { led: Led::Led2 }, report1(&[1, b'r', 2, 0, 0, 0, 0, 2])),
        (QueryCmd::PlaystateReadback, report1(&[1, b'S'])),
        (QueryCmd::ReadColorPatternLine { pos: 7 }, report1(&[1, b'R', 0, 0, 0, 0, 0, 7])),
        (QueryCmd::ReadEeprom { addr: 0x20 }, report1(&[1, b'e', 0x20])),
        (QueryCmd::GetVersion, report1(&[1, b'v'])),
        (QueryCmd::ReadNote { note_id: 3 }, report2(&[2, b'f', 3])),
        (QueryCmd::GetStartupParams, report1(&[1, b'b'])),
        (QueryCmd::GetChipUniqueId, report2(&[2, b'U', 0])),
    ];
    for (cmd, expected) in cases {
        assert_eq!(cmd.to_buffer().as_slice(), &expected[..], "{:?}", cmd);
    }
}

#[test]
fn response_buffers_match_their_queries() {
    let queries = vec![
        QueryCmd::ReadCurrentRgb { led: Led::All },
        QueryCmd::PlaystateReadback,
        QueryCmd::ReadColorPatternLine { pos: 1 },
        QueryCmd::ReadEeprom { addr: 1 },
        QueryCmd::GetVersion,
        QueryCmd::ReadNote { note_id: 1 },
        QueryCmd::GetStartupParams,
        QueryCmd::GetChipUniqueId,
    ];
    for q in queries {
        let request = q.to_buffer();
        let response = q.response_buffer();
        assert_eq!(request.as_slice().len(), response.as_slice().len());
        assert_eq!(request.as_slice()[0], response.as_slice()[0]);
        assert!(response.as_slice()[1..].iter().all(|b| *b == 0));
    }
    assert_eq!(QueryCmd::ReadNote { note_id: 9 }.response_buffer().as_slice(), &report2(&[2])[..]);
    assert_eq!(QueryCmd::GetVersion.response_buffer().as_slice(), &report1(&[1])[..]);
}

#[test]
fn command_letters_are_distinct() {
    let writes = vec![
        WriteCmd::FadeToRgb { r: 0, g: 0, b: 0, duration: Duration::from_secs(0), led: Led::All },
        WriteCmd::SetRgbNow { r: 0, g: 0, b: 0, led: Led::All },
        WriteCmd::ServerDownTickle {
            enable: false,
            timeout: Duration::from_secs(0),
            stay_on: false,
            start_pos: 0,
            end_pos: 0,
        },
        WriteCmd::PlayLoop { play: false, start_pos: 0, end_pos: 0, count: 0 },
        WriteCmd::SetColorPatternLine { r: 0, g: 0, b: 0, duration: Duration::from_secs(0), pos: 0 },
        WriteCmd::SaveColorPatterns,
        WriteCmd::SetLed { led: Led::All },
        WriteCmd::WriteEeprom { addr: 0, val: 0 },
        WriteCmd::Test,
        WriteCmd::WriteNote { note_id: 0, data: [0; 50] },
        WriteCmd::GoToBootloader,
        WriteCmd::LockBootloader,
        WriteCmd::SetStartupParams { boot_mode: 0, play_start: 0, play_end: 0, play_count: 0 },
    ];
    let queries = vec![
        QueryCmd::ReadCurrentRgb { led: Led::All },
        QueryCmd::PlaystateReadback,
        QueryCmd::ReadColorPatternLine { pos: 0 },
        QueryCmd::ReadEeprom { addr: 0 },
        QueryCmd::GetVersion,
        QueryCmd::ReadNote { note_id: 0 },
        QueryCmd::GetStartupParams,
        QueryCmd::GetChipUniqueId,
    ];
    let mut letters: Vec<u8> = writes.iter().map(|c| c.to_buffer().as_slice()[1]).collect();
    letters.extend(queries.iter().map(|q| q.to_buffer().as_slice()[1]));
    let n = letters.len();
    letters.sort();
    letters.dedup();
    assert_eq!(letters.len(), n);
}

#[test]
fn writes_through_mut_slice_reach_the_buffer() {
    let mut buf = QueryCmd::GetChipUniqueId.response_buffer();
    {
        let s = buf.as_mut_slice();
        assert_eq!(s.len(), 61);
        s[1] = b'U';
        s[60] = 0xAA;
    }
    assert!(matches!(buf, ReportBuf::Report2(_)));
    assert_eq!(buf.as_slice()[0], 2);
    assert_eq!(buf.as_slice()[1], b'U');
    assert_eq!(buf.as_slice()[60], 0xAA);
    assert_eq!(buf.as_ref(), buf.as_slice());
}
