//! Save files, save states, messages, sound buffer, picture and keyboard.

use gba_core::frontend::archive::{compress_state, decompress_state};
use gba_core::frontend::audio::{must_wait, AudioBuffer, BUFFER_CAP, BUFFER_HIGH, BUFFER_TARGET};
use gba_core::frontend::harness::{Harness, HarnessError};
use gba_core::frontend::input::Keyboard;
use gba_core::frontend::inspect::{
    game_vars, in_code_region, map_layout, map_scripts, metatile_at, player_avatar,
    player_position, trigger_table, wants_sample,
};
use gba_core::frontend::protocol::{
    classify, frame_lengths, frame_message, parse_request, Fields, Request,
};
use gba_core::frontend::savefile::{
    backup_rotation, backup_suffix, needs_write, FileStep, BACKUP_SLOTS,
};
use gba_core::frontend::video::{screen_bytes, test_pattern};
use gba_core::bus::Bus;

#[test]
fn compressed_state_decompresses() {
    let data: Vec<u8> = (0..5000u32).map(|i| (i % 7) as u8).collect();
    let packed = compress_state(&data).unwrap();
    assert_ne!(packed, data);
    assert!(packed.len() < data.len());
    assert_eq!(decompress_state(&packed).unwrap(), data);
    let empty = compress_state(&[]).unwrap();
    assert!(!empty.is_empty());
    assert_eq!(decompress_state(&empty).unwrap(), Vec::<u8>::new());
}

#[test]
fn garbage_does_not_decompress() {
    assert!(decompress_state(&[1, 2, 3, 4, 5, 6, 7, 8]).is_err());
}

#[test]
fn compression_is_repeatable() {
    let data = vec![42u8; 1000];
    assert_eq!(compress_state(&data).unwrap(), compress_state(&data).unwrap());
}

#[test]
fn messages_carry_their_lengths() {
    let m = frame_message(b"{}", &[9, 8, 7]);
    assert_eq!(m, [9, 0, 0, 0, 2, 0, 0, 0, b'{', b'}', 9, 8, 7]);
    let mut header = [0u8; 8];
    header.copy_from_slice(&m[..8]);
    assert_eq!(frame_lengths(&header), Some((2, 3)));
}

#[test]
fn lengths_that_do_not_fit_are_refused() {
    assert_eq!(frame_lengths(&[3, 0, 0, 0, 0, 0, 0, 0]), None);
    assert_eq!(frame_lengths(&[4, 0, 0, 0, 0, 0, 0, 0]), Some((0, 0)));
    assert_eq!(frame_lengths(&[4, 0, 0, 0, 1, 0, 0, 0]), None);
    assert_eq!(frame_lengths(&[0xFF; 8]), None);
}

fn parsed(text: &str) -> Request {
    parse_request(text.as_bytes()).unwrap()
}

#[test]
fn requests_are_read_from_json() {
    assert!(matches!(parsed(r#"{"cmd":"hello"}"#), Request::Hello));
    assert!(matches!(parsed(r#"{"cmd":"bye"}"#), Request::Bye));
    assert!(matches!(parsed(r#"{"cmd":"reset"}"#), Request::Reset));
    assert!(matches!(parsed(r#"{"cmd":"get_video"}"#), Request::GetVideo));
    assert!(matches!(parsed(r#"{"cmd":"get_audio"}"#), Request::GetAudio));
    assert!(matches!(parsed(r#"{"cmd":"save_state"}"#), Request::SaveState));
    assert!(matches!(parsed(r#"{"cmd":"load_state"}"#), Request::LoadState));
    match parsed(r#"{"cmd":"load_rom","path":"a/b.gba"}"#) {
        Request::LoadRom(Some(path)) => assert_eq!(path, "a/b.gba"),
        other => panic!("{:?}", other),
    }
    assert!(matches!(parsed(r#"{"cmd":"load_bios"}"#), Request::LoadBios(None)));
    assert!(matches!(parsed(r#"{"cmd":"load_save","path":3}"#), Request::LoadSave(None)));
    assert!(matches!(parsed(r#"{"cmd":"set_input","buttons":4097}"#), Request::SetInput(1)));
    assert!(matches!(parsed(r#"{"cmd":"set_input"}"#), Request::SetInput(0)));
    assert!(matches!(parsed(r#"{"cmd":"step"}"#), Request::Step(1)));
    assert!(matches!(parsed(r#"{"cmd":"step","frames":0}"#), Request::Step(1)));
    assert!(matches!(parsed(r#"{"cmd":"step","frames":7}"#), Request::Step(7)));
    assert!(matches!(
        parsed(r#"{"cmd":"peek","addr":33554432,"len":16}"#),
        Request::Peek(0x0200_0000, 16)
    ));
    match parsed(r#"{"cmd":"dance"}"#) {
        Request::Unknown(name) => assert_eq!(name, "dance"),
        other => panic!("{:?}", other),
    }
    match parsed("[1,2]") {
        Request::Unknown(name) => assert_eq!(name, ""),
        other => panic!("{:?}", other),
    }
}

#[test]
fn text_that_is_no_json_is_refused() {
    assert!(parse_request(b"{").is_none());
    assert!(parse_request(b"").is_none());
    assert!(parse_request(b"hello").is_none());
}

#[test]
fn fields_make_requests() {
    let f = Fields { path: None, buttons: Some(0xFFFF), frames: None, addr: None, len: None };
    assert!(matches!(classify("set_input".to_string(), f), Request::SetInput(0x03FF)));
}

#[test]
fn rotation_moves_every_slot_up() {
    assert_eq!(
        backup_rotation(3),
        vec![
            FileStep::Remove(3),
            FileStep::Rename(2, 3),
            FileStep::Rename(1, 2),
            FileStep::Rename(0, 1),
        ]
    );
    assert_eq!(backup_rotation(0), vec![]);
    assert_eq!(backup_rotation(BACKUP_SLOTS).len(), 6);
    assert_eq!(backup_suffix(1), ".bak-1");
    assert_eq!(backup_suffix(12), ".bak-12");
}

#[test]
fn unchanged_saves_are_not_written() {
    assert!(!needs_write(&Some(vec![1, 2]), &vec![1, 2]));
    assert!(needs_write(&Some(vec![1, 3]), &vec![1, 2]));
    assert!(needs_write(&Some(vec![1]), &vec![1, 2]));
    assert!(needs_write(&None, &vec![]));
}

#[test]
fn samples_come_out_in_order() {
    let mut b = AudioBuffer::new();
    assert_eq!(b.level(), BUFFER_TARGET);
    let mut silence = vec![1i16; BUFFER_TARGET];
    b.fill(&mut silence);
    assert!(silence.iter().all(|&s| s == 0));
    b.push_samples(&[1, 2, 3]);
    b.push_samples(&[4]);
    let mut out = [9i16; 6];
    b.fill(&mut out);
    assert_eq!(out, [1, 2, 3, 4, 0, 0]);
    assert_eq!(b.level(), 0);
}

#[test]
fn full_buffer_drops_the_oldest() {
    let mut b = AudioBuffer::new();
    let many: Vec<i16> = (0..10_000).map(|i| i as i16).collect();
    b.push_samples(&many);
    assert_eq!(b.level(), BUFFER_CAP);
    let mut out = [0i16; 1];
    b.fill(&mut out);
    assert_eq!(out[0], (10_000 - BUFFER_CAP) as i16);
    assert!(must_wait(BUFFER_HIGH + 1, false));
    assert!(!must_wait(BUFFER_HIGH, false));
    assert!(must_wait(BUFFER_HIGH, true));
    assert!(must_wait(BUFFER_TARGET + 1, true));
    assert!(!must_wait(BUFFER_TARGET, true));
}

#[test]
fn colours_become_screen_bytes() {
    let mut picture = vec![0u16; 38400];
    picture[1] = 0x001F;
    picture[2] = 0x03E0;
    picture[3] = 0x7C00;
    let bytes = screen_bytes(&picture);
    assert_eq!(bytes.len(), 153_600);
    assert_eq!(&bytes[0..4], &[0, 0, 0, 0xFF]);
    assert_eq!(&bytes[4..8], &[0, 0, 0xF8, 0xFF]);
    assert_eq!(&bytes[8..12], &[0, 0xF8, 0, 0xFF]);
    assert_eq!(&bytes[12..16], &[0xF8, 0, 0, 0xFF]);
}

#[test]
fn pattern_has_four_stripes() {
    let p = test_pattern();
    assert_eq!(p.len(), 38400);
    assert_eq!((p[0], p[60], p[120], p[239]), (0x001F, 0x03E0, 0x7C00, 0x7FFF));
    assert_eq!(p[240 * 159 + 59], 0x001F);
}

#[test]
fn keys_map_to_buttons() {
    let none = Keyboard {
        z: false,
        x: false,
        enter: false,
        keypad_enter: false,
        space: false,
        backspace: false,
        tab: false,
        right: false,
        left: false,
        up: false,
        down: false,
        a: false,
        s: false,
    };
    assert_eq!(none.buttons(), 0);
    assert_eq!(Keyboard { z: true, ..none }.buttons(), 0x001);
    assert_eq!(Keyboard { x: true, ..none }.buttons(), 0x002);
    assert_eq!(Keyboard { tab: true, ..none }.buttons(), 0x004);
    assert_eq!(Keyboard { space: true, ..none }.buttons(), 0x008);
    assert_eq!(Keyboard { right: true, ..none }.buttons(), 0x010);
    assert_eq!(Keyboard { left: true, ..none }.buttons(), 0x020);
    assert_eq!(Keyboard { up: true, ..none }.buttons(), 0x040);
    assert_eq!(Keyboard { down: true, ..none }.buttons(), 0x080);
    assert_eq!(Keyboard { s: true, ..none }.buttons(), 0x100);
    assert_eq!(Keyboard { a: true, ..none }.buttons(), 0x200);
    assert_eq!(Keyboard { enter: true, keypad_enter: true, ..none }.buttons(), 0x008);
}

fn sram_rom() -> Vec<u8> {
    let mut rom = vec![0u8; 0x200];
    rom[..4].copy_from_slice(&0xEAFF_FFFEu32.to_le_bytes());
    rom[0x100..0x109].copy_from_slice(b"SRAM_V113");
    rom
}

#[test]
fn nothing_works_without_a_rom() {
    let mut h = Harness::new(None, true);
    assert_eq!(h.build(), Err(HarnessError::NoRom));
    assert_eq!(h.load_save(vec![1]), Err(HarnessError::NoRom));
    assert_eq!(h.begin_frame(), Err(HarnessError::NoRom));
    assert_eq!(h.get_video(), None);
    assert_eq!(h.peek(0, 4), None);
    assert_eq!(h.get_audio(), (0, vec![]));
    assert_eq!(h.save, None);
}

#[test]
fn refused_requests_are_answered_with_an_error() {
    let mut h = Harness::new(None, true);
    let error = |h: &Harness, text: &str| h.refusal(&parsed(text));
    let no_rom = Some("no ROM loaded".to_string());
    assert_eq!(error(&h, r#"{"cmd":"reset"}"#), no_rom);
    assert_eq!(error(&h, r#"{"cmd":"step"}"#), no_rom);
    assert_eq!(error(&h, r#"{"cmd":"get_video"}"#), no_rom);
    assert_eq!(error(&h, r#"{"cmd":"save_state"}"#), no_rom);
    assert_eq!(error(&h, r#"{"cmd":"load_state"}"#), no_rom);
    assert_eq!(error(&h, r#"{"cmd":"peek"}"#), no_rom);
    assert_eq!(error(&h, r#"{"cmd":"get_audio"}"#), None);
    assert_eq!(error(&h, r#"{"cmd":"load_rom"}"#), Some("missing path".to_string()));
    assert_eq!(error(&h, r#"{"cmd":"load_bios","path":"x"}"#), None);
    h.load_rom(sram_rom());
    assert_eq!(error(&h, r#"{"cmd":"step"}"#), None);
    assert_eq!(error(&h, r#"{"cmd":"load_save"}"#), Some("missing path".to_string()));
}

#[test]
fn loaded_save_survives_reset() {
    let mut h = Harness::new(None, true);
    h.load_rom(sram_rom());
    assert_eq!(h.load_save(vec![5, 6, 7]), Ok(()));
    h.set_input(0xFFFF);
    assert_eq!(h.buttons, 0x03FF);
    assert_eq!(h.build(), Ok(()));
    assert_eq!(h.buttons, 0);
    assert_eq!(h.peek(0x0E00_0000, 4).unwrap(), vec![5, 6, 7, 0xFF]);
}

#[test]
fn frames_make_pictures_and_samples() {
    let mut h = Harness::new(None, true);
    h.load_rom(sram_rom());
    assert_eq!(h.begin_frame(), Ok(()));
    assert_eq!(h.math_request(), None);
    h.end_frame();
    assert_eq!(h.frame_index, 1);
    assert_eq!(h.get_video().unwrap().len(), 76_800);
    let (n, bytes) = h.get_audio();
    assert_eq!(bytes.len(), n * 4);
    // 280896 cycles at 48 kHz.
    assert_eq!(n, 803);
    assert_eq!(h.get_audio().0, 0);
}

#[test]
fn game_memory_is_inspected() {
    let mut bus = Bus::new(None, vec![0; 256]);
    bus.write16(0x0203_7360, 2);
    bus.write16(0x0203_7362, 1);
    bus.write32(0x0300_5DC0, 10);
    bus.write32(0x0300_5DC4, 20);
    bus.write32(0x0300_5DC8, 0x0201_0000);
    bus.write32(0x0203_7318, 0x0202_0000);
    bus.write32(0x0202_0010, 0x0202_1000);
    bus.write32(0x0202_0014, 0x0202_2000);
    bus.write32(0x0202_2010, 0x0202_3000);
    // Row 1, column 2 of a map of width 10: metatile 0x205.
    bus.write16(0x0201_0000 + 24, 0xF205);
    bus.write16(0x0202_3000 + 10, 0x1234);
    let p = player_position(&bus);
    assert_eq!((p.x, p.y), (2, 1));
    let l = map_layout(&bus);
    assert_eq!((l.width, l.height, l.secondary_tileset), (10, 20, 0x0202_2000));
    let m = metatile_at(&bus, l, p);
    assert_eq!((m.index, m.raw, m.id), (12, 0xF205, 0x205));
    assert_eq!((m.attrs_ptr, m.attrs, m.behavior), (0x0202_3000, 0x1234, 0x34));
    bus.write8(0x0203_7592, 7);
    assert_eq!(player_avatar(&bus).running, 7);
}

#[test]
fn game_variables_are_listed() {
    let mut bus = Bus::new(None, vec![0; 256]);
    assert!(game_vars(&bus).is_none());
    bus.write32(0x0300_5D8C, 0x0200_0000);
    bus.write16(0x0200_139C + 0x44, 0x5555);
    let vars = game_vars(&bus).unwrap();
    assert_eq!(vars.len(), 8);
    assert_eq!((vars[2].id, vars[2].addr, vars[2].value), (0x4022, 0x0200_13E0, 0x5555));
}

#[test]
fn map_scripts_are_listed() {
    let mut bus = Bus::new(None, vec![0; 256]);
    bus.write32(0x0203_7320, 0x0200_0100);
    bus.write8(0x0200_0100, 2);
    for (i, b) in [0x00u8, 0x02, 0x00, 0x02].iter().enumerate() {
        bus.write8(0x0200_0101 + i as u32, *b);
    }
    bus.write16(0x0200_0200, 0x4022);
    bus.write16(0x0200_0202, 1);
    bus.write32(0x0200_0204, 0x0800_1234);
    let (table, scripts) = map_scripts(&bus);
    assert_eq!(table, 0x0200_0100);
    assert_eq!(scripts.len(), 1);
    assert_eq!((scripts[0].kind, scripts[0].ptr), (2, 0x0200_0200));
    let triggers = trigger_table(&bus, scripts[0].ptr);
    assert_eq!(triggers.len(), 1);
    assert_eq!((triggers[0].var, triggers[0].value, triggers[0].script), (0x4022, 1, 0x0800_1234));
}

#[test]
fn samples_are_taken_where_the_program_ran_away() {
    assert!(in_code_region(0x0800_0000));
    assert!(!in_code_region(0x0600_0000));
    assert!(wants_sample(30, 0x0800_0000));
    assert!(!wants_sample(5, 0x0800_0000));
    assert!(wants_sample(5, 0x0600_0000));
}
