use goldboot::capture::{CaptureMachine, DisplayEvent};
use goldboot::commands::{self, VncCmd};
use goldboot::errors::CoreError;
use goldboot::orchestrator::{advance, exit_ok, task_of, BuildState, BuildTask};
use goldboot::packer::{PackerProvisioner, PackerTemplate, QemuBuilder};
use goldboot::parse::{dec_u16, parse_line, tokenize, OperatorCmd};
use goldboot::rng::{jitter_ms, random_password};
use goldboot::screenshot::{Rect, VncScreenshot};
use goldboot::session::{preferred_encodings, preferred_pixel_format, EncodingKind, VncConnection};
use goldboot::templates::{GoldbootLinuxTemplate, TemplateBase, UbuntuServerTemplate, UbuntuServerVersion};

#[test]
fn capture_drains_resizes_and_completes_on_the_matching_block() {
    let mut conn = VncConnection::new(100, 100, false, false);
    let mut cap = CaptureMachine::begin();
    cap.drain_event(&mut conn, &DisplayEvent::Resize(64, 32));
    cap.drain_event(&mut conn, &DisplayEvent::EndOfFrame);
    assert_eq!(conn.width, 64);
    assert_eq!(conn.height, 32);
    let req = cap.request(&conn);
    assert_eq!((req.left, req.top, req.width, req.height), (0, 0, 64, 32));
    // A block for some other rectangle is ignored.
    let other = Rect { left: 0, top: 0, width: 8, height: 8 };
    let r = cap.on_event(&mut conn, DisplayEvent::PutPixels(other, vec![0; 64])).unwrap();
    assert!(r.is_none());
    // The matching block completes the capture.
    let pixels: Vec<u8> = (0..64 * 32).map(|i| (i % 256) as u8).collect();
    let shot = cap
        .on_event(&mut conn, DisplayEvent::PutPixels(req, pixels.clone()))
        .unwrap()
        .unwrap();
    assert_eq!(shot.width, 64);
    assert_eq!(shot.height, 32);
    assert_eq!(shot.data, pixels);
}

#[test]
fn capture_reissues_after_a_mid_flight_resize() {
    let mut conn = VncConnection::new(64, 32, false, false);
    let mut cap = CaptureMachine::begin();
    let req = cap.request(&conn);
    let r = cap.on_event(&mut conn, DisplayEvent::Resize(80, 40)).unwrap();
    assert!(r.is_none());
    assert_eq!((conn.width, conn.height), (80, 40));
    let req2 = cap.request(&conn);
    assert_ne!((req.width, req.height), (req2.width, req2.height));
    assert_eq!((req2.width, req2.height), (80, 40));
}

#[test]
fn capture_fails_on_an_unknown_event_or_a_short_block() {
    let mut conn = VncConnection::new(4, 4, false, false);
    let mut cap = CaptureMachine::begin();
    let _req = cap.request(&conn);
    let r = cap.on_event(&mut conn, DisplayEvent::Unknown);
    assert_eq!(r.unwrap_err(), CoreError::Transport);
    let mut cap = CaptureMachine::begin();
    let req = cap.request(&conn);
    let r = cap.on_event(&mut conn, DisplayEvent::PutPixels(req, vec![0; 3]));
    assert_eq!(r.unwrap_err(), CoreError::Transport);
}

#[test]
fn the_negotiated_pixel_format_is_low_fidelity() {
    let f = preferred_pixel_format();
    assert_eq!(f.bits_per_pixel, 8);
    assert_eq!(f.depth, 8);
    assert!(!f.big_endian);
    assert!(f.true_colour);
    assert_eq!((f.red_max, f.green_max, f.blue_max), (8, 8, 4));
    assert_eq!((f.red_shift, f.green_shift, f.blue_shift), (5, 2, 0));
    assert_eq!(preferred_encodings(), vec![EncodingKind::Raw, EncodingKind::DesktopSize]);
}

#[test]
fn operator_lines_parse_as_documented() {
    assert_eq!(parse_line("c"), OperatorCmd::Continue);
    assert_eq!(parse_line("  q  "), OperatorCmd::Quit);
    assert_eq!(parse_line("s"), OperatorCmd::Shot(None));
    assert_eq!(parse_line("s 1 2"), OperatorCmd::Shot(None));
    assert_eq!(
        parse_line("s 10 20 30 40"),
        OperatorCmd::Shot(Some(Rect { top: 10, left: 20, width: 30, height: 40 }))
    );
    assert_eq!(parse_line("s 1 2 x 4"), OperatorCmd::BadRect);
    assert_eq!(parse_line("s 1 2 3 70000"), OperatorCmd::BadRect);
    assert_eq!(parse_line(""), OperatorCmd::Ignored);
    assert_eq!(parse_line("screenshot"), OperatorCmd::Ignored);
}

#[test]
fn decimal_words_parse_as_u16() {
    assert_eq!(dec_u16(&"0".to_string()), Some(0));
    assert_eq!(dec_u16(&"65535".to_string()), Some(65535));
    assert_eq!(dec_u16(&"65536".to_string()), None);
    assert_eq!(dec_u16(&"+17".to_string()), Some(17));
    assert_eq!(dec_u16(&"+".to_string()), None);
    assert_eq!(dec_u16(&"".to_string()), None);
    assert_eq!(dec_u16(&"1 2".to_string()), None);
    assert_eq!(dec_u16(&"-3".to_string()), None);
}

#[test]
fn tokenizing_splits_on_whitespace() {
    assert_eq!(tokenize("  a  bb\tccc \n"), vec!["a", "bb", "ccc"]);
    assert!(tokenize(" \t ").is_empty());
}

#[test]
fn the_build_lifecycle_is_a_fixed_chain() {
    let chain = [
        BuildState::Created,
        BuildState::MediaReady,
        BuildState::Launched,
        BuildState::ScriptedInstall,
        BuildState::ShellReachable,
        BuildState::PostInstall,
        BuildState::ShuttingDown,
        BuildState::Done,
    ];
    let mut s = BuildState::Created;
    for expected in chain.iter().skip(1) {
        s = advance(s, true);
        assert_eq!(s, *expected);
    }
    assert_eq!(task_of(BuildState::Created), Some(BuildTask::ResolveMedia));
    assert_eq!(task_of(BuildState::ShellReachable), Some(BuildTask::RunPayload));
    assert_eq!(task_of(BuildState::Done), None);
}

#[test]
fn any_failure_moves_the_build_to_failed() {
    for s in [
        BuildState::Created,
        BuildState::MediaReady,
        BuildState::Launched,
        BuildState::ScriptedInstall,
        BuildState::ShellReachable,
        BuildState::PostInstall,
        BuildState::ShuttingDown,
    ] {
        assert_eq!(advance(s, false), BuildState::Failed);
    }
    assert!(exit_ok(0));
    assert!(!exit_ok(1));
    assert!(!exit_ok(-13));
}

#[test]
fn the_qemu_builder_presets() {
    let b = QemuBuilder::new();
    assert_eq!(b.format, "qcow2");
    assert!(b.headless);
    assert_eq!(b.builder_type, "qemu");
    assert!(b.disk_compression);
    assert_eq!(b.disk_interface, "ide");
    assert!(b.boot_command.is_empty());
    assert!(b.ssh_username.is_none());
    let t = PackerTemplate::default();
    assert!(t.builders.is_empty());
    assert!(t.provisioners.is_empty());
    let p = PackerProvisioner::default();
    assert!(p.scripts.is_empty());
    assert!(p.user.is_none());
}

#[test]
fn the_ubuntu_template_defaults_and_plan() {
    let t = UbuntuServerTemplate::default();
    assert_eq!(t.root_password, "root");
    assert_eq!(t.iso_url, "");
    assert_eq!(t.iso_checksum, "none");
    assert!(matches!(t.version, UbuntuServerVersion::Jammy));
    assert!(t.partitions.is_none());
    assert!(t.provisioners.is_none());
    let media = t.media_request();
    assert_eq!(media.checksum, "none");
    assert!(t.boot_script().is_empty());
    assert_eq!(t.ssh_username(), "root");
    assert_eq!(t.ssh_password(), "root");
    assert_eq!(t.shutdown_command(), "poweroff");
}

#[test]
fn the_goldboot_linux_template_scripts_its_console_setup() {
    let t = GoldbootLinuxTemplate::default();
    assert!(matches!(t.general().base, TemplateBase::GoldbootLinux));
    assert_eq!(t.general().storage_size, "4 GiB");
    let media = t.media_request();
    assert!(media.url.ends_with("archlinux-2022.03.01-x86_64.iso"));
    assert_eq!(media.checksum, "none");
    let script = t.boot_script("hunter2");
    assert_eq!(script.len(), 8);
    assert!(matches!(script[0][0], VncCmd::Wait(50)));
    match &script[1][0] {
        VncCmd::WaitScreenRect(h, top, left, width, height) => {
            assert_eq!(h, "5b3ca88689e9d671903b3040889c7fa1cb5f244a");
            assert_eq!((*top, *left, *width, *height), (100, 0, 1024, 400));
        }
        other => panic!("expected the login wait, got {:?}", other),
    }
    match &script[3][0] {
        VncCmd::Type(pw) => assert_eq!(pw, "hunter2"),
        other => panic!("expected the password entry, got {:?}", other),
    }
    assert!(matches!(script[3][1], VncCmd::Enter));
    assert!(matches!(script[3][2], VncCmd::Wait(2)));
    assert_eq!(t.payload_env_var(), "GB_ROOT_PASSWORD");
}

#[test]
fn script_step_constructors_build_the_documented_steps() {
    let s = commands::enter("passwd");
    assert_eq!(s.len(), 3);
    assert!(matches!(&s[0], VncCmd::Type(t) if t == "passwd"));
    assert!(matches!(s[1], VncCmd::Enter));
    assert!(matches!(s[2], VncCmd::Wait(2)));
    let s = commands::wait(50);
    assert!(matches!(s[0], VncCmd::Wait(50)));
    let s = commands::input("abc");
    assert!(matches!(s[1], VncCmd::Wait(1)));
    let s = commands::tab("x");
    assert!(matches!(s[1], VncCmd::Tab));
    let s = commands::spacebar();
    assert!(matches!(s[0], VncCmd::Spacebar));
    let s = commands::left_super();
    assert!(matches!(s[0], VncCmd::LeftSuper));
    let s = commands::wait_screen("aa");
    assert!(matches!(&s[0], VncCmd::WaitScreen(h) if h == "aa"));
    let s = commands::enter_key();
    assert!(matches!(s[0], VncCmd::Enter));
    let s = commands::tab_key();
    assert!(matches!(s[0], VncCmd::Tab));
}

#[test]
fn randomness_stays_in_its_documented_ranges() {
    for _ in 0..50 {
        let j = jitter_ms();
        assert!((500..1000).contains(&j));
    }
    let pw = random_password();
    assert_eq!(pw.chars().count(), 12);
    assert!(pw.chars().all(|c| c.is_ascii_alphanumeric()));
    // Two draws almost surely differ; equal draws would suggest a fixed
    // result being handed back.
    assert_ne!(random_password(), random_password());
}

#[test]
fn a_recorded_full_frame_decodes_to_the_same_pixels() {
    let conn = VncConnection::new(6, 4, true, false);
    let script = vec![vec![VncCmd::Enter]];
    let mut seq = goldboot::sequencer::BootSequencer::new(script);
    seq.next(&conn).unwrap();
    let data: Vec<u8> = (0..24).map(|i| (i * 10) as u8).collect();
    let shot = VncScreenshot { data: data.clone(), width: 6, height: 4 };
    let acts = seq.on_capture(&conn, shot).unwrap();
    match &acts[0] {
        goldboot::actions::RunAction::WritePng { png, .. } => {
            let decoder = png::Decoder::new(&png[..]);
            let mut reader = decoder.read_info().unwrap();
            let mut buf = vec![0u8; reader.output_buffer_size()];
            let info = reader.next_frame(&mut buf).unwrap();
            assert_eq!((info.width, info.height), (6, 4));
            assert_eq!(&buf[..info.buffer_size()], &data[..]);
        }
        other => panic!("expected a recorded frame, got {:?}", other),
    }
}
