use th04::cdg::{parse_palette, Cdg};
use th04::bft::Bft;
use th04::enemy::disassemble;
use th04::par::unrle;
use th04::pi::{stream_ok, Pi};
use th04::stage::{Spawn, Std};

#[test]
fn rejects_non_bfnt() {
    assert!(Bft::parse(&[0u8; 128]).is_none());
}

#[test]
fn parses_header() {
    // minimal 8x2, 1 pattern (START=END=0): patbytes = 8*2/2 = 8
    let mut f = Vec::new();
    f.extend_from_slice(b"BFNT\x1a"); // id
    f.extend_from_slice(&[0, 22, 0]); // col, ver, x00
    f.extend_from_slice(&8u16.to_le_bytes()); // Xdots
    f.extend_from_slice(&2u16.to_le_bytes()); // Ydots
    f.extend_from_slice(&0u16.to_le_bytes()); // START
    f.extend_from_slice(&0u16.to_le_bytes()); // END
    f.extend_from_slice(&[0; 8]); // font_name
    f.extend_from_slice(&[0; 4]); // time
    f.extend_from_slice(&[0; 4]); // extSize, hdrSize
    f.extend_from_slice(&[0; 48]); // palette
    f.extend_from_slice(&[0x12, 0x34, 0x56, 0x78, 0x9a, 0xbc, 0xde, 0xf0]); // 8 bytes pattern
    let b = Bft::parse(&f).expect("parse");
    assert_eq!((b.width, b.height, b.count), (8, 2, 1));
    let rgba = b.decode_rgba(0, None).expect("decode");
    assert_eq!(rgba.len(), 8 * 2 * 4);
}

#[test]
fn unrle_doc_example() {
    // From ReC98's own documentation of the scheme.
    let compressed = b"zz\x02z\x01yy\x00x";
    assert_eq!(unrle(compressed, 0, 8), b"zzzzzzyy");
}

#[test]
fn unrle_stops_at_orig() {
    // A long run must not exceed the requested length.
    let compressed = b"aa\xff"; // 'a','a', then 255 more
    assert_eq!(unrle(compressed, 0, 5), b"aaaaa");
}

#[test]
fn disassembles_one_shot_shooter() {
    // bt_set(11) ; fire(1) ; se(2) ; end(1)  == the shape of ST00 enemy #14
    let mut s = vec![0x21];
    s.extend_from_slice(&[0u8; 10]); // bt_set operands
    s.push(0x20); // fire
    s.extend_from_slice(&[0x86, 0x05]); // se 5
    s.push(0x00); // end
    let (insns, complete) = disassemble(&s);
    assert!(complete);
    let names: Vec<_> = insns.iter().map(|i| i.mnemonic).collect();
    assert_eq!(names, ["bt_set", "fire", "se", "end"]);
    assert_eq!(insns[0].operands.len(), 10);
}

#[test]
fn parses_synthetic() {
    // size, map_chunk=2 [0,1], scroll_chunk=2 [16,16], enemy_count=1,
    // script len=2 [0xAA,0xBB], pad, timeline=[0xDE,0xAD]
    let body = [2u8, 0, 1, 2, 16, 16, 1, 2, 0xAA, 0xBB, 0x00, 0xDE, 0xAD];
    let mut file = (body.len() as u16).to_le_bytes().to_vec();
    file.extend_from_slice(&body);
    let s = Std::parse(&file).expect("parse");
    assert_eq!(s.map_section_order, [0, 1]);
    assert_eq!(s.scroll_speeds, [16, 16]);
    assert_eq!(s.enemy_scripts, vec![vec![0xAA, 0xBB]]);
    assert_eq!(s.timeline, [0xDE, 0xAD]);
}

#[test]
fn timeline_decodes() {
    let mut tl = Vec::new();
    tl.extend_from_slice(&100u16.to_le_bytes()); // frame 100
    tl.push(1); // 1 spawn
    tl.push(3); // script #3
    tl.extend_from_slice(&50i16.to_le_bytes()); // x
    tl.extend_from_slice(&(-256i16).to_le_bytes()); // y (above screen)
    tl.push(7); // arg
    tl.extend_from_slice(&[0, 0]); // padding
    tl.extend_from_slice(&0u16.to_le_bytes()); // terminator
    let s = Std {
        map_section_order: vec![],
        scroll_speeds: vec![],
        enemy_scripts: vec![],
        timeline: tl,
    };
    let ev = s.timeline_events();
    assert_eq!(ev.len(), 1);
    assert_eq!(ev[0].frame, 100);
    assert_eq!(
        ev[0].spawns,
        vec![Spawn { script_index: 3, x: 50, y: -256, arg: 7 }]
    );
}

#[test]
fn pi_stream_check_only_bounds_the_bit_count() {
    assert!(stream_ok(&[]));
    assert!(stream_ok(&[0xff; 8]));
}

#[test]
fn pi_set_bits_in_the_comment_do_not_stop_decoding() {
    let mut f = vec![0x50, 0x69];
    f.extend_from_slice(&[0xff; 8]);
    f.extend_from_slice(&[0x1a, 0x00, 0x80, 0, 0, 4, 0, 0, 0, 0, 0, 0, 0, 2, 0, 1, 0xe0, 0x00]);
    assert!(stream_ok(&f));
    let pi = Pi::parse(&f).expect("parse");
    assert_eq!((pi.width, pi.height), (2, 1));
    assert_eq!(pi.indices, vec![15, 15]);
}

#[test]
fn pi_run_length_prefix_of_64_ones_is_refused() {
    let mut f = vec![0x50, 0x69, 0x1a, 0x00, 0x80, 0, 0, 4, 0, 0, 0, 0, 0, 0, 0, 2, 0, 1];
    // Colours as in the tiny picture, position "00", then a length prefix of
    // more than 64 set bits.
    f.push(0xe3);
    f.extend_from_slice(&[0xff; 9]);
    assert!(Pi::parse(&f).is_none());
}

#[test]
fn unrle_past_the_end_is_empty() {
    assert_eq!(unrle(b"ab", 2, 10), Vec::<u8>::new());
    assert_eq!(unrle(b"ab", 0, 0), Vec::<u8>::new());
}

#[test]
fn pi_decodes_a_tiny_picture() {

    // "Pi", comment end, dummy end; mode 0x80 (no palette), aspect, 4 planes,
    // machine, no extension; 2x1 pixels.
    let mut f = vec![0x50, 0x69, 0x1a, 0x00, 0x80, 0, 0, 4, 0, 0, 0, 0, 0, 0, 0, 2, 0, 1];
    // Colours: "11" (row 0, entry 14 = 15), "10" (row 15, last entry = 15);
    // then position 0 ("00") with run length 1 ("0"): 1110 0000.
    f.extend_from_slice(&[0xe0, 0x00]);
    assert!(stream_ok(&f));
    let pi = Pi::parse(&f).expect("parse");
    assert_eq!((pi.width, pi.height), (2, 1));
    assert_eq!(pi.indices, vec![15, 15]);
    assert_eq!(pi.palette, [[0u8; 3]; 16]);
    assert_eq!(pi.to_rgba(), vec![0, 0, 0, 255, 0, 0, 0, 255]);
}

#[test]
fn pi_stream_that_runs_out_is_rejected() {

    // Same header, no bit stream at all.
    let f = vec![0x50, 0x69, 0x1a, 0x00, 0x80, 0, 0, 4, 0, 0, 0, 0, 0, 0, 0, 2, 0, 1];
    assert!(Pi::parse(&f).is_none());
    // A wrong signature.
    assert!(Pi::parse(&[0x50, 0x68, 0x1a, 0x00]).is_none());
}

#[test]
fn cdg_alpha_only_image_decodes_with_palette_entry_0() {
    let mut f = vec![1, 0, 8, 0, 1, 0, 0, 0, 0, 0, 1, 2, 0, 0, 0, 0];
    f.push(0b1010_0000);
    let c = Cdg::parse(&f).expect("parse");
    assert!(c.can_decode(0));
    let mut pal = parse_palette(&[]);
    pal[0] = [10, 20, 30];
    let out = c.decode_rgba(0, &pal).expect("decode");
    assert_eq!(out.len(), 8 * 4);
    assert_eq!(&out[0..4], &[10, 20, 30, 255]);
    assert_eq!(&out[4..8], &[10, 20, 30, 0]);
    assert_eq!(out[11], 255);
    assert_eq!(out[15], 0);
}

#[test]
fn std_fields_tile_the_file() {
    let body: Vec<u8> = vec![1, 7, 2, 3, 4, 2, 1, 0x00, 2, 0x10, 0x20, 0xAA, 5, 0, 1, 0, 0, 0];
    let mut d = ((body.len()) as u16).to_le_bytes().to_vec();
    d.extend_from_slice(&body);
    let s = Std::parse(&d).expect("accepted");
    let mut rebuilt = d[0..2].to_vec();
    rebuilt.push(s.map_section_order.len() as u8);
    rebuilt.extend_from_slice(&s.map_section_order);
    rebuilt.push(s.scroll_speeds.len() as u8);
    rebuilt.extend_from_slice(&s.scroll_speeds);
    rebuilt.push(s.enemy_scripts.len() as u8);
    for c in &s.enemy_scripts {
        rebuilt.push(c.len() as u8);
        rebuilt.extend_from_slice(c);
    }
    rebuilt.push(0xAA);
    rebuilt.extend_from_slice(&s.timeline);
    assert_eq!(rebuilt, d);
    assert_eq!(s.map_section_order, vec![7]);
    assert_eq!(s.scroll_speeds, vec![3, 4]);
    assert_eq!(s.enemy_scripts, vec![vec![0x00], vec![0x10, 0x20]]);
    assert_eq!(s.timeline, vec![5, 0, 1, 0, 0, 0]);
}

#[test]
fn timeline_decoding_inverts_the_record_encoding() {
    let spawns = [(0u8, -256i16, 400i16, 7u8), (3u8, 1000i16, -32768i16, 255u8)];
    let mut tl: Vec<u8> = Vec::new();
    tl.extend_from_slice(&5u16.to_le_bytes());
    tl.push(2);
    for (idx, x, y, arg) in spawns.iter() {
        tl.push(*idx);
        tl.extend_from_slice(&x.to_le_bytes());
        tl.extend_from_slice(&y.to_le_bytes());
        tl.push(*arg);
        tl.extend_from_slice(&[0xEE, 0xDD]);
    }
    tl.extend_from_slice(&0x1234u16.to_le_bytes());
    tl.push(0);
    tl.extend_from_slice(&[0, 0, 9, 9, 9]);
    let s = Std { map_section_order: vec![], scroll_speeds: vec![], enemy_scripts: vec![], timeline: tl };
    let ev = s.timeline_events();
    assert_eq!(ev.len(), 2);
    assert_eq!(ev[0].frame, 5);
    assert_eq!(ev[0].spawns.len(), 2);
    for (k, (idx, x, y, arg)) in spawns.iter().enumerate() {
        let sp = &ev[0].spawns[k];
        assert_eq!((sp.script_index, sp.x, sp.y, sp.arg), (*idx, *x, *y, *arg));
    }
    assert_eq!(ev[1].frame, 0x1234);
    assert_eq!(ev[1].spawns.len(), 0);
}
