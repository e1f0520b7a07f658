use goldboot::actions::{RunAction, ScreenshotName};
use goldboot::commands::VncCmd;
use goldboot::errors::CoreError;
use goldboot::screenshot::{Rect, VncScreenshot};
use goldboot::sequencer::{BootSequencer, Expect};
use goldboot::session::VncConnection;

fn frame(width: u16, height: u16, seed: usize) -> VncScreenshot {
    let mut data = Vec::new();
    for y in 0..height as usize {
        for x in 0..width as usize {
            data.push(((x * 3 + y * 5 + seed) % 241) as u8);
        }
    }
    VncScreenshot { data, width, height }
}

fn key(down: bool, keysym: u32) -> (bool, u32) {
    (down, keysym)
}

fn as_key(a: &RunAction) -> (bool, u32) {
    match a {
        RunAction::SendKey { down, keysym } => (*down, *keysym),
        other => panic!("expected a key event, got {:?}", other),
    }
}

#[test]
fn typing_classifies_shift_and_paces_characters() {
    let conn = VncConnection::new(640, 480, false, false);
    let script = vec![vec![VncCmd::Type("Ab1!".to_string())]];
    let mut seq = BootSequencer::new(script);
    let acts = seq.next(&conn).unwrap();
    // 'A' and '!' take four key events, 'b' and '1' two, plus one pacing
    // sleep per character.
    assert_eq!(acts.len(), 16);
    assert_eq!(as_key(&acts[0]), key(true, 0xffe1));
    assert_eq!(as_key(&acts[1]), key(true, 0x0100_0041));
    assert_eq!(as_key(&acts[2]), key(false, 0x0100_0041));
    assert_eq!(as_key(&acts[3]), key(false, 0xffe1));
    assert!(matches!(acts[4], RunAction::SleepMs(200)));
    assert_eq!(as_key(&acts[5]), key(true, 0x0100_0062));
    assert_eq!(as_key(&acts[6]), key(false, 0x0100_0062));
    assert!(matches!(acts[7], RunAction::SleepMs(200)));
    assert_eq!(as_key(&acts[8]), key(true, 0x0100_0031));
    assert_eq!(as_key(&acts[9]), key(false, 0x0100_0031));
    assert!(matches!(acts[10], RunAction::SleepMs(200)));
    assert_eq!(as_key(&acts[11]), key(true, 0xffe1));
    assert_eq!(as_key(&acts[12]), key(true, 0x0100_0021));
    assert_eq!(as_key(&acts[13]), key(false, 0x0100_0021));
    assert_eq!(as_key(&acts[14]), key(false, 0xffe1));
    assert!(matches!(acts[15], RunAction::SleepMs(200)));
    assert_eq!(seq.expects(), Expect::Idle);
}

#[test]
fn special_keys_emit_one_press_release_pair() {
    let conn = VncConnection::new(640, 480, false, false);
    let script = vec![vec![VncCmd::Enter, VncCmd::Tab, VncCmd::Spacebar, VncCmd::LeftSuper]];
    let mut seq = BootSequencer::new(script);
    for expected in [0xff0du32, 0xff09, 0x0020, 0xffeb] {
        let acts = seq.next(&conn).unwrap();
        assert_eq!(acts.len(), 2);
        assert_eq!(as_key(&acts[0]), key(true, expected));
        assert_eq!(as_key(&acts[1]), key(false, expected));
    }
    assert_eq!(seq.expects(), Expect::Idle);
    assert!(seq.next(&conn).unwrap().is_empty());
    assert_eq!(seq.expects(), Expect::Done);
}

#[test]
fn wait_screen_returns_only_after_the_matching_poll() {
    let conn = VncConnection::new(640, 480, false, false);
    let wanted = frame(64, 48, 9);
    let target = wanted.hash();
    let script = vec![vec![VncCmd::WaitScreen(target)]];
    let mut seq = BootSequencer::new(script);
    let acts = seq.next(&conn).unwrap();
    assert_eq!(acts.len(), 2);
    match acts[0] {
        RunAction::SleepMs(j) => assert!((500..1000).contains(&j)),
        ref other => panic!("expected the jitter sleep, got {:?}", other),
    }
    assert!(matches!(acts[1], RunAction::Capture));
    // Two non-matching observations: the machine keeps polling.
    for seed in [1, 2] {
        let acts = seq.on_capture(&conn, frame(64, 48, seed)).unwrap();
        assert_eq!(seq.expects(), Expect::AwaitCapture);
        assert_eq!(acts.len(), 2);
        assert!(matches!(acts[1], RunAction::Capture));
    }
    // The matching observation: one settle delay, then the run is over.
    let acts = seq.on_capture(&conn, frame(64, 48, 9)).unwrap();
    assert_eq!(acts.len(), 1);
    assert!(matches!(acts[0], RunAction::SleepSecs(1)));
    assert_eq!(seq.expects(), Expect::Idle);
    assert!(seq.next(&conn).unwrap().is_empty());
    assert_eq!(seq.expects(), Expect::Done);
}

#[test]
fn scripted_install_without_debug_prompts_nothing_and_writes_nothing() {
    // A simulated display: it ignores input, and once Enter has been sent it
    // renders a fixed top-left bitmap.
    let conn = VncConnection::new(200, 100, false, false);
    let display = frame(200, 100, 42);
    let region = display.trim(Rect { left: 0, top: 0, width: 100, height: 50 }).unwrap();
    let target = region.hash();
    let script = vec![
        vec![VncCmd::Wait(2)],
        vec![VncCmd::Type("root".to_string())],
        vec![VncCmd::Enter],
        vec![VncCmd::WaitScreenRect(target, 0, 0, 100, 50)],
    ];
    let mut seq = BootSequencer::new(script);
    let mut prompts = 0;
    let mut writes = 0;
    let mut polls = 0;
    loop {
        let acts = match seq.expects() {
            Expect::Idle => seq.next(&conn).unwrap(),
            Expect::AwaitCapture => {
                polls += 1;
                // The blank screen for the first poll, the rendered bitmap
                // afterwards.
                let shown = if polls < 2 { frame(200, 100, 7) } else { frame(200, 100, 42) };
                seq.on_capture(&conn, shown).unwrap()
            }
            Expect::AwaitLine => unreachable!("no breakpoint prompt may appear with debug off"),
            Expect::Done => break,
        };
        for a in &acts {
            if matches!(a, RunAction::Prompt) {
                prompts += 1;
            }
            if matches!(a, RunAction::WritePng { .. }) {
                writes += 1;
            }
        }
    }
    assert_eq!(prompts, 0);
    assert_eq!(writes, 0);
    assert!(polls >= 2);
}

#[test]
fn breakpoint_screenshot_is_named_by_the_trimmed_hash() {
    let mut conn = VncConnection::new(20, 20, false, true);
    let script = vec![vec![VncCmd::Enter]];
    let mut seq = BootSequencer::new(script);
    let acts = seq.next(&conn).unwrap();
    assert_eq!(acts.len(), 1);
    assert!(matches!(acts[0], RunAction::Prompt));
    let acts = seq.on_operator_line(&mut conn, "s 0 0 10 10").unwrap();
    assert_eq!(acts.len(), 1);
    assert!(matches!(acts[0], RunAction::Capture));
    let shown = frame(20, 20, 3);
    let trimmed_hash = shown.trim(Rect { left: 0, top: 0, width: 10, height: 10 }).unwrap().hash();
    let full_hash = shown.hash();
    let acts = seq.on_capture(&conn, shown).unwrap();
    assert_eq!(acts.len(), 2);
    match &acts[0] {
        RunAction::WritePng { name: ScreenshotName::ByHash(h), png } => {
            assert_eq!(*h, trimmed_hash);
            assert_ne!(*h, full_hash);
            // The artifact really is a PNG of the trimmed region.
            let decoder = png::Decoder::new(&png[..]);
            let mut reader = decoder.read_info().unwrap();
            let mut buf = vec![0u8; reader.output_buffer_size()];
            let info = reader.next_frame(&mut buf).unwrap();
            assert_eq!(info.width, 10);
            assert_eq!(info.height, 10);
            assert_eq!(info.color_type, png::ColorType::Grayscale);
        }
        other => panic!("expected the screenshot artifact, got {:?}", other),
    }
    assert!(matches!(acts[1], RunAction::Prompt));
    // The prompt returns after the screenshot; continue past the command.
    let acts = seq.on_operator_line(&mut conn, "c").unwrap();
    assert_eq!(acts.len(), 2);
}

#[test]
fn quit_disables_debug_for_the_rest_of_the_run() {
    let mut conn = VncConnection::new(20, 20, false, true);
    let script = vec![vec![VncCmd::Enter, VncCmd::Tab]];
    let mut seq = BootSequencer::new(script);
    let acts = seq.next(&conn).unwrap();
    assert!(matches!(acts[0], RunAction::Prompt));
    let acts = seq.on_operator_line(&mut conn, "q").unwrap();
    assert!(!conn.debug);
    assert_eq!(acts.len(), 2);
    // The next command no longer prompts.
    let acts = seq.next(&conn).unwrap();
    assert_eq!(acts.len(), 2);
    assert!(matches!(acts[0], RunAction::SendKey { .. }));
}

#[test]
fn unrecognized_operator_input_reprompts() {
    let mut conn = VncConnection::new(20, 20, false, true);
    let script = vec![vec![VncCmd::Enter]];
    let mut seq = BootSequencer::new(script);
    seq.next(&conn).unwrap();
    let acts = seq.on_operator_line(&mut conn, "frobnicate 1 2").unwrap();
    assert_eq!(acts.len(), 1);
    assert!(matches!(acts[0], RunAction::Prompt));
    let acts = seq.on_operator_line(&mut conn, "").unwrap();
    assert!(matches!(acts[0], RunAction::Prompt));
}

#[test]
fn malformed_breakpoint_rectangle_is_fatal() {
    let mut conn = VncConnection::new(20, 20, false, true);
    let script = vec![vec![VncCmd::Enter]];
    let mut seq = BootSequencer::new(script);
    seq.next(&conn).unwrap();
    let r = seq.on_operator_line(&mut conn, "s 1 2 x 4");
    assert_eq!(r.unwrap_err(), CoreError::OperatorParse);
}

#[test]
fn out_of_bounds_wait_region_is_fatal() {
    let conn = VncConnection::new(20, 20, false, false);
    let script = vec![vec![VncCmd::WaitScreenRect("00".to_string(), 0, 0, 500, 500)]];
    let mut seq = BootSequencer::new(script);
    let acts = seq.next(&conn).unwrap();
    assert_eq!(acts.len(), 2);
    assert!(matches!(acts[0], RunAction::SleepSecs(1)));
    let r = seq.on_capture(&conn, frame(20, 20, 0));
    assert_eq!(r.unwrap_err(), CoreError::Bounds);
}

#[test]
fn recording_persists_each_command_under_its_counter() {
    let conn = VncConnection::new(20, 20, true, false);
    let script = vec![vec![VncCmd::Enter], vec![VncCmd::Tab]];
    let mut seq = BootSequencer::new(script);
    for expected_step in [1u64, 2] {
        let acts = seq.next(&conn).unwrap();
        assert_eq!(acts.len(), 3);
        assert!(matches!(acts[2], RunAction::Capture));
        let acts = seq.on_capture(&conn, frame(20, 20, 1)).unwrap();
        assert_eq!(acts.len(), 1);
        match &acts[0] {
            RunAction::WritePng { name: ScreenshotName::ByStep(n), .. } => {
                assert_eq!(*n, expected_step);
            }
            other => panic!("expected a recorded frame, got {:?}", other),
        }
    }
    assert_eq!(seq.expects(), Expect::Idle);
}

#[test]
fn a_zero_sized_frame_cannot_be_recorded() {
    let conn = VncConnection::new(0, 0, true, false);
    let script = vec![vec![VncCmd::Enter]];
    let mut seq = BootSequencer::new(script);
    seq.next(&conn).unwrap();
    let r = seq.on_capture(&conn, VncScreenshot { data: Vec::new(), width: 0, height: 0 });
    assert_eq!(r.unwrap_err(), CoreError::Artifact);
}

#[test]
fn empty_steps_are_skipped() {
    let conn = VncConnection::new(20, 20, false, false);
    let script = vec![vec![], vec![VncCmd::Enter], vec![]];
    let mut seq = BootSequencer::new(script);
    let acts = seq.next(&conn).unwrap();
    assert_eq!(acts.len(), 2);
    assert!(seq.next(&conn).unwrap().is_empty());
    assert_eq!(seq.expects(), Expect::Done);
}
