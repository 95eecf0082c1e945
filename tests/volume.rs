use volume_control::command::{decimal_text, Invocation, Stage};
use volume_control::controller::{ErrorKind, Outcome, Platform, Reply, Step, VolumeController};
use volume_control::level::applied_percent;
use volume_control::text::{
    parse_percent, read_mac_mute_answer, read_mac_volume, read_pactl_muted, read_pactl_volume,
    trimmed_bounds,
};

fn exited(success: bool, stdout: &[u8]) -> Outcome {
    Outcome::Exited { success, stdout: stdout.to_vec() }
}

fn args_of(inv: &Invocation) -> Vec<&str> {
    inv.args.iter().map(|a| a.as_str()).collect()
}

fn finished(step: Step) -> Reply {
    match step {
        Step::Done(Ok(r)) => r,
        Step::Done(Err(e)) => panic!("unexpected error: {}", e.message()),
        Step::Run(s) => panic!("unexpected stage: {:?}", s),
    }
}

fn failure(step: Step) -> (ErrorKind, Stage, String) {
    match step {
        Step::Done(Err(e)) => (e.kind, e.stage, e.message()),
        Step::Done(Ok(r)) => panic!("unexpected reply: {:?}", r),
        Step::Run(s) => panic!("unexpected stage: {:?}", s),
    }
}

fn next_stage(step: Step) -> Stage {
    match step {
        Step::Run(s) => s,
        _ => panic!("expected a stage to run"),
    }
}

#[test]
fn requested_level_is_clamped() {
    assert_eq!(applied_percent(150), 100);
    assert_eq!(applied_percent(-20), 0);
    assert_eq!(applied_percent(0), 0);
    assert_eq!(applied_percent(100), 100);
    assert_eq!(applied_percent(45), 45);
    assert_eq!(applied_percent(i64::MAX), 100);
    assert_eq!(applied_percent(i64::MIN), 0);
}

#[test]
fn set_volume_above_range_applies_full_volume() {
    let mac = VolumeController::new(Platform::MacOs);
    let stage = next_stage(mac.set_volume(150));
    assert_eq!(stage, Stage::MacWriteVolume(100));
    let inv = stage.command();
    assert_eq!(inv.program, "osascript");
    assert_eq!(args_of(&inv), vec!["-e", "set volume output volume 100"]);
}

#[test]
fn set_volume_below_range_applies_silence() {
    let linux = VolumeController::new(Platform::Linux);
    let stage = next_stage(linux.set_volume(-20));
    assert_eq!(stage, Stage::PactlWriteVolume(0));
    let inv = stage.command();
    assert_eq!(inv.program, "pactl");
    assert_eq!(args_of(&inv), vec!["set-sink-volume", "@DEFAULT_SINK@", "0%"]);
}

#[test]
fn set_volume_in_range_is_kept() {
    let linux = VolumeController::new(Platform::Linux);
    let stage = next_stage(linux.set_volume(37));
    assert_eq!(args_of(&stage.command()), vec!["set-sink-volume", "@DEFAULT_SINK@", "37%"]);
    assert_eq!(finished(stage.advance(&exited(true, b""))), Reply::Applied);
}

#[test]
fn read_commands_match_the_tools() {
    let inv = Stage::MacReadVolume.command();
    assert_eq!(inv.program, "osascript");
    assert_eq!(args_of(&inv), vec!["-e", "output volume of (get volume settings)"]);
    let inv = Stage::MacReadMute.command();
    assert_eq!(args_of(&inv), vec!["-e", "output muted of (get volume settings)"]);
    let inv = Stage::MacWriteMute(true).command();
    assert_eq!(args_of(&inv), vec!["-e", "set volume with output muted"]);
    let inv = Stage::PactlReadVolume.command();
    assert_eq!(inv.program, "pactl");
    assert_eq!(args_of(&inv), vec!["get-sink-volume", "@DEFAULT_SINK@"]);
    let inv = Stage::PactlToggleMute.command();
    assert_eq!(args_of(&inv), vec!["set-sink-mute", "@DEFAULT_SINK@", "toggle"]);
    let inv = Stage::PactlReadMute.command();
    assert_eq!(args_of(&inv), vec!["get-sink-mute", "@DEFAULT_SINK@"]);
}

#[test]
fn decimal_text_writes_numbers() {
    assert_eq!(decimal_text(0), "0");
    assert_eq!(decimal_text(7), "7");
    assert_eq!(decimal_text(45), "45");
    assert_eq!(decimal_text(100), "100");
    assert_eq!(decimal_text(255), "255");
}

#[test]
fn mac_volume_answer_is_read_exactly() {
    assert_eq!(read_mac_volume(b"45\n"), Some(45));
    assert_eq!(read_mac_volume(b"0"), Some(0));
    assert_eq!(read_mac_volume(b" 100 \r\n"), Some(100));
    assert_eq!(read_mac_volume(b"45\x0b"), Some(45));
    assert_eq!(read_mac_volume(b"\x0c45\t"), Some(45));
    assert_eq!(read_mac_volume(b"250\n"), Some(100));
    assert_eq!(read_mac_volume(b"4 5"), None);
    assert_eq!(read_mac_volume(b"missing value\n"), None);
    assert_eq!(read_mac_volume(b"\n"), None);
    assert_eq!(read_mac_volume(b""), None);
}

#[test]
fn get_volume_on_mac_reports_percentage() {
    let mac = VolumeController::new(Platform::MacOs);
    let stage = next_stage(mac.get_volume());
    assert_eq!(stage, Stage::MacReadVolume);
    assert_eq!(finished(stage.advance(&exited(true, b"45\n"))), Reply::Volume(45));
}

#[test]
fn pactl_volume_report_is_parsed() {
    let report = b"Volume: front-left: 40632 /  62% / -12.47 dB,   front-right: 40632 /  62% / -12.47 dB\n        balance 0.00\n";
    assert_eq!(read_pactl_volume(report), Some(62));
    let linux = VolumeController::new(Platform::Linux);
    let stage = next_stage(linux.get_volume());
    assert_eq!(stage, Stage::PactlReadVolume);
    assert_eq!(finished(stage.advance(&exited(true, report))), Reply::Volume(62));
}

#[test]
fn pactl_volume_without_percent_is_a_parse_failure() {
    assert_eq!(read_pactl_volume(b"Volume: front-left: 40632 / -12.47 dB\n"), None);
    let (kind, stage, text) =
        failure(Stage::PactlReadVolume.advance(&exited(true, b"Volume: unknown\n")));
    assert_eq!(kind, ErrorKind::Parse);
    assert_eq!(stage, Stage::PactlReadVolume);
    assert_eq!(text, "Failed to parse volume output");
}

#[test]
fn pactl_volume_token_edge_cases() {
    assert_eq!(read_pactl_volume(b"62%"), None);
    assert_eq!(read_pactl_volume(b"x /62%"), None);
    assert_eq!(read_pactl_volume(b"x / %"), None);
    assert_eq!(read_pactl_volume(b"a\t7% b 9%"), Some(7));
    assert_eq!(read_pactl_volume(b"a\x0b8% b"), Some(8));
    assert_eq!(read_pactl_volume(b"boost 153%"), Some(100));
}

#[test]
fn mac_toggle_from_muted_unmutes() {
    let mac = VolumeController::new(Platform::MacOs);
    let stage = next_stage(mac.toggle_mute());
    assert_eq!(stage, Stage::MacReadMute);
    let write = next_stage(stage.advance(&exited(true, b"true\n")));
    assert_eq!(write, Stage::MacWriteMute(false));
    assert_eq!(args_of(&write.command()), vec!["-e", "set volume with output unmuted"]);
    assert_eq!(finished(write.advance(&exited(true, b""))), Reply::Muted(false));
}

#[test]
fn mac_toggle_from_unmuted_mutes() {
    let write = next_stage(Stage::MacReadMute.advance(&exited(true, b"false\n")));
    assert_eq!(write, Stage::MacWriteMute(true));
    assert_eq!(args_of(&write.command()), vec!["-e", "set volume with output muted"]);
    assert_eq!(finished(write.advance(&exited(true, b""))), Reply::Muted(true));
}

#[test]
fn mac_mute_answer_is_read() {
    assert_eq!(read_mac_mute_answer(b"true\n"), Some(true));
    assert_eq!(read_mac_mute_answer(b"  true"), Some(true));
    assert_eq!(read_mac_mute_answer(b"false\n"), Some(false));
    assert_eq!(read_mac_mute_answer(b"\tfalse\x0b"), Some(false));
    assert_eq!(read_mac_mute_answer(b"truer"), None);
    assert_eq!(read_mac_mute_answer(b"fals"), None);
    assert_eq!(read_mac_mute_answer(b"maybe\n"), None);
    assert_eq!(read_mac_mute_answer(b""), None);
}

#[test]
fn mac_mute_answer_that_is_not_a_boolean_is_a_parse_failure() {
    let (kind, stage, text) = failure(Stage::MacReadMute.advance(&exited(true, b"maybe\n")));
    assert_eq!(kind, ErrorKind::Parse);
    assert_eq!(stage, Stage::MacReadMute);
    assert_eq!(text, "Failed to parse mute status");
}

#[test]
fn pactl_toggle_reads_back_state() {
    let linux = VolumeController::new(Platform::Linux);
    let toggle = next_stage(linux.toggle_mute());
    assert_eq!(toggle, Stage::PactlToggleMute);
    let read = next_stage(toggle.advance(&exited(true, b"")));
    assert_eq!(read, Stage::PactlReadMute);
    assert_eq!(finished(read.advance(&exited(true, b"Mute: yes\n"))), Reply::Muted(true));
    assert_eq!(finished(read.advance(&exited(true, b"Mute: no\n"))), Reply::Muted(false));
}

#[test]
fn pactl_mute_answer_is_read() {
    assert!(read_pactl_muted(b"Mute: yes\n"));
    assert!(read_pactl_muted(b"yes"));
    assert!(!read_pactl_muted(b"Mute: no\n"));
    assert!(!read_pactl_muted(b"ye"));
    assert!(!read_pactl_muted(b""));
}

#[test]
fn failure_exit_is_an_error_for_every_stage() {
    let stages = [
        (Stage::MacReadVolume, "Failed to get system volume"),
        (Stage::MacWriteVolume(30), "Failed to set system volume"),
        (Stage::MacReadMute, "Failed to get mute status"),
        (Stage::MacWriteMute(true), "Failed to toggle system mute"),
        (Stage::PactlReadVolume, "Failed to get system volume"),
        (Stage::PactlWriteVolume(30), "Failed to set system volume"),
        (Stage::PactlToggleMute, "Failed to toggle system mute"),
        (Stage::PactlReadMute, "Failed to get new mute status"),
    ];
    for (stage, expected) in stages {
        let (kind, at, text) = failure(stage.advance(&exited(false, b"45\nMute: yes\n")));
        assert_eq!(kind, ErrorKind::Execution);
        assert_eq!(at, stage);
        assert_eq!(text, expected);
    }
}

#[test]
fn launch_failure_keeps_the_system_words() {
    let outcome = Outcome::SpawnFailed("No such file or directory (os error 2)".to_string());
    let (kind, stage, text) = failure(Stage::PactlReadVolume.advance(&outcome));
    assert_eq!(kind, ErrorKind::Spawn);
    assert_eq!(stage, Stage::PactlReadVolume);
    assert_eq!(text, "Failed to get volume: No such file or directory (os error 2)");
    let (_, _, text) = failure(Stage::MacWriteVolume(5).advance(&outcome));
    assert_eq!(text, "Failed to set volume: No such file or directory (os error 2)");
    let (_, _, text) = failure(Stage::MacWriteMute(false).advance(&outcome));
    assert_eq!(text, "Failed to toggle mute: No such file or directory (os error 2)");
    let (_, _, text) = failure(Stage::MacReadMute.advance(&outcome));
    assert_eq!(text, "Failed to get mute status: No such file or directory (os error 2)");
}

#[test]
fn output_that_is_not_text_is_a_decode_failure() {
    let bad: &[u8] = &[0x34, 0x35, 0xff, 0xfe];
    let (kind, stage, text) = failure(Stage::MacReadVolume.advance(&exited(true, bad)));
    assert_eq!(kind, ErrorKind::Decode);
    assert_eq!(stage, Stage::MacReadVolume);
    assert_eq!(text, "Failed to read volume string");
    let (kind, _, text) = failure(Stage::PactlReadMute.advance(&exited(true, bad)));
    assert_eq!(kind, ErrorKind::Decode);
    assert_eq!(text, "Failed to read mute status");
    // a stage that looks at the exit status alone does not read the output
    assert_eq!(finished(Stage::MacWriteVolume(4).advance(&exited(true, bad))), Reply::Applied);
}

#[test]
fn interpret_follows_the_given_decoding() {
    let out = exited(true, b"45\n");
    assert_eq!(finished(Stage::MacReadVolume.interpret(&out, true)), Reply::Volume(45));
    let (kind, _, _) = failure(Stage::MacReadVolume.interpret(&out, false));
    assert_eq!(kind, ErrorKind::Decode);
}

#[test]
fn windows_placeholders() {
    let win = VolumeController::new(Platform::Windows);
    assert_eq!(finished(win.get_volume()), Reply::Volume(50));
    assert_eq!(finished(win.set_volume(80)), Reply::Applied);
    assert_eq!(finished(win.toggle_mute()), Reply::Muted(false));
}

#[test]
fn reading_twice_gives_the_same_volume() {
    let linux = VolumeController::new(Platform::Linux);
    let answer = b"Volume: front-left: 29491 /  45% / -20.81 dB\n";
    let first = finished(next_stage(linux.get_volume()).advance(&exited(true, answer)));
    let second = finished(next_stage(linux.get_volume()).advance(&exited(true, answer)));
    assert_eq!(first, second);
    assert_eq!(first, Reply::Volume(45));
}

#[test]
fn text_helpers_on_bounds() {
    assert_eq!(trimmed_bounds(b"  ab \n"), (2, 4));
    assert_eq!(trimmed_bounds(b" \t "), (3, 3));
    assert_eq!(parse_percent(b"x42y", 1, 3), Some(42));
    assert_eq!(parse_percent(b"x42y", 1, 4), None);
    assert_eq!(parse_percent(b"x42y", 2, 2), None);
    assert_eq!(parse_percent(b"99999999999999999999999", 0, 23), Some(100));
}

#[test]
fn mac_answers_are_trimmed_as_str_trim_does() {
    assert_eq!(read_mac_volume("\u{a0}45\n".as_bytes()), Some(45));
    assert_eq!(read_mac_volume("\u{3000}45\u{2003}".as_bytes()), Some(45));
    assert_eq!(read_mac_volume("\u{85}\u{1680}7\u{2028}\u{2029}\u{202f}\u{205f}".as_bytes()), Some(7));
    assert_eq!(read_mac_volume("\u{200a}100\u{2000}".as_bytes()), Some(100));
    assert_eq!(read_mac_volume("4\u{a0}5".as_bytes()), None);
    assert_eq!(read_mac_volume("\u{200b}45".as_bytes()), None);
    assert_eq!(read_mac_mute_answer("\u{a0}true\n".as_bytes()), Some(true));
    assert_eq!(read_mac_mute_answer("false\u{3000}".as_bytes()), Some(false));
    assert_eq!(read_mac_mute_answer("\u{200b}true".as_bytes()), None);
    assert_eq!(trimmed_bounds("\u{a0}ab\u{2028}".as_bytes()), (2, 4));
    assert_eq!("\u{a0}ab\u{2028}".trim(), "ab");
}

#[test]
fn get_volume_on_mac_reads_through_unicode_space() {
    let answer = "\u{a0}45\n";
    let reply = finished(Stage::MacReadVolume.advance(&exited(true, answer.as_bytes())));
    assert_eq!(reply, Reply::Volume(45));
    assert_eq!(answer.trim().parse::<u32>().unwrap(), 45);
}

#[test]
fn leading_plus_is_accepted() {
    assert_eq!(read_mac_volume(b"+45\n"), Some(45));
    assert_eq!(read_mac_volume(b"+"), None);
    assert_eq!(read_mac_volume(b"++4"), None);
    assert_eq!(read_mac_volume(b"-5"), None);
    assert_eq!(read_pactl_volume(b"x +62% y"), Some(62));
    assert_eq!(parse_percent(b"+7", 0, 2), Some(7));
    assert_eq!(parse_percent(b"+7", 0, 1), None);
}
