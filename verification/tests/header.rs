use oxideav_nsf::header::{
    parse_nsf, Nsf2Features, NsfError, NsfRegion, NSFE_MAGIC, NSF_HEADER_LEN, NSF_MAGIC,
};

fn fake_v1() -> Vec<u8> {
    let mut buf = vec![0u8; NSF_HEADER_LEN + 4];
    buf[..5].copy_from_slice(&NSF_MAGIC);
    buf[0x05] = 1;
    buf[0x06] = 3;
    buf[0x07] = 1;
    buf[0x08..0x0a].copy_from_slice(&0x8000u16.to_le_bytes());
    buf[0x0a..0x0c].copy_from_slice(&0x8003u16.to_le_bytes());
    buf[0x0c..0x0e].copy_from_slice(&0x8006u16.to_le_bytes());
    buf[0x0e..0x13].copy_from_slice(b"Hello");
    buf[0x2e..0x36].copy_from_slice(b"Karpeles");
    buf[0x4e..0x53].copy_from_slice(b"2026 ");
    buf[0x6e..0x70].copy_from_slice(&16666u16.to_le_bytes());
    buf[0x78..0x7a].copy_from_slice(&19997u16.to_le_bytes());
    buf[0x7a] = 0x02;
    buf[0x7b] = 0x01;
    buf[NSF_HEADER_LEN..NSF_HEADER_LEN + 4].copy_from_slice(&[0xea, 0xea, 0x60, 0x00]);
    buf
}

#[test]
fn parses_minimal_v1() {
    let h = parse_nsf(&fake_v1()).unwrap();
    assert_eq!(h.version, 1);
    assert_eq!(h.total_songs, 3);
    assert_eq!(h.starting_song, 1);
    assert_eq!(h.load_addr, 0x8000);
    assert_eq!(h.init_addr, 0x8003);
    assert_eq!(h.play_addr, 0x8006);
    assert_eq!(h.song_name, "Hello");
    assert_eq!(h.artist, "Karpeles");
    assert_eq!(h.copyright, "2026");
    assert_eq!(h.ntsc_speed_us, 16666);
    assert_eq!(h.pal_speed_us, 19997);
    assert_eq!(h.region, NsfRegion::Dual);
    assert!(h.expansion.vrc6());
    assert!(!h.expansion.vrc7());
    assert_eq!(h.program, vec![0xea, 0xea, 0x60, 0x00]);
    assert!(!h.is_nsfe);
    let rate = h.play_rate_hz();
    assert!((rate.num as f64 / rate.den as f64 - 60.0024).abs() < 0.01);
}

#[test]
fn rejects_bad_magic() {
    let mut buf = fake_v1();
    buf[0] = b'X';
    assert_eq!(parse_nsf(&buf).unwrap_err(), NsfError::BadMagic);
}

#[test]
fn rejects_zero_version() {
    let mut buf = fake_v1();
    buf[0x05] = 0;
    assert_eq!(parse_nsf(&buf).unwrap_err(), NsfError::BadVersion(0));
}

#[test]
fn rejects_zero_total_songs() {
    let mut buf = fake_v1();
    buf[0x06] = 0;
    assert_eq!(parse_nsf(&buf).unwrap_err(), NsfError::NoSongs);
}

#[test]
fn parses_nsfe() {
    let mut out = Vec::new();
    out.extend_from_slice(&NSFE_MAGIC);
    let info_payload: [u8; 10] = [0x00, 0x80, 0x03, 0x80, 0x06, 0x80, 0x00, 0x00, 2, 0];
    out.extend_from_slice(&(info_payload.len() as u32).to_le_bytes());
    out.extend_from_slice(b"INFO");
    out.extend_from_slice(&info_payload);

    let auth: Vec<u8> = b"Title\0Author\0Copy\0Ripper\0".to_vec();
    out.extend_from_slice(&(auth.len() as u32).to_le_bytes());
    out.extend_from_slice(b"auth");
    out.extend_from_slice(&auth);

    let tlbl: Vec<u8> = b"Track 1\0Track 2\0".to_vec();
    out.extend_from_slice(&(tlbl.len() as u32).to_le_bytes());
    out.extend_from_slice(b"tlbl");
    out.extend_from_slice(&tlbl);

    let data = vec![0xea, 0x60];
    out.extend_from_slice(&(data.len() as u32).to_le_bytes());
    out.extend_from_slice(b"DATA");
    out.extend_from_slice(&data);

    out.extend_from_slice(&0u32.to_le_bytes());
    out.extend_from_slice(b"NEND");

    let h = parse_nsf(&out).unwrap();
    assert!(h.is_nsfe);
    assert_eq!(h.song_name, "Title");
    assert_eq!(h.artist, "Author");
    assert_eq!(h.copyright, "Copy");
    assert_eq!(h.total_songs, 2);
    assert_eq!(h.load_addr, 0x8000);
    assert_eq!(h.program, vec![0xea, 0x60]);
    assert_eq!(
        h.track_labels,
        vec!["Track 1".to_string(), "Track 2".into()]
    );
}

#[test]
fn nsfe_rejects_unknown_mandatory_chunk() {
    let mut out = Vec::new();
    out.extend_from_slice(&NSFE_MAGIC);
    out.extend_from_slice(&0u32.to_le_bytes());
    out.extend_from_slice(b"ZZZZ");
    let err = parse_nsf(&out).unwrap_err();
    assert!(matches!(err, NsfError::NsfeUnknownMandatory(_)));
}

fn fake_v2(feature_byte: u8, program: &[u8], appended_metadata: &[u8]) -> Vec<u8> {
    let mut buf = vec![0u8; NSF_HEADER_LEN];
    buf[..5].copy_from_slice(&NSF_MAGIC);
    buf[0x05] = 2;
    buf[0x06] = 1;
    buf[0x07] = 1;
    buf[0x08..0x0a].copy_from_slice(&0x8000u16.to_le_bytes());
    buf[0x0a..0x0c].copy_from_slice(&0x8000u16.to_le_bytes());
    buf[0x0c..0x0e].copy_from_slice(&0x8003u16.to_le_bytes());
    buf[0x6e..0x70].copy_from_slice(&16666u16.to_le_bytes());
    buf[0x78..0x7a].copy_from_slice(&19997u16.to_le_bytes());
    buf[0x7b] = 0;
    buf[0x7c] = feature_byte;
    let len = if appended_metadata.is_empty() {
        0
    } else {
        program.len()
    };
    buf[0x7d] = (len & 0xFF) as u8;
    buf[0x7e] = ((len >> 8) & 0xFF) as u8;
    buf[0x7f] = ((len >> 16) & 0xFF) as u8;
    buf.extend_from_slice(program);
    buf.extend_from_slice(appended_metadata);
    buf
}

#[test]
fn parses_nsf2_feature_byte() {
    let bytes = fake_v2(0x10 | 0x20 | 0x40, &[0xea, 0x60], &[]);
    let h = parse_nsf(&bytes).unwrap();
    assert_eq!(h.version, 2);
    assert!(h.nsf2.irq_support());
    assert!(h.nsf2.non_returning_init());
    assert!(h.nsf2.suppressed_play());
    assert!(!h.nsf2.mandatory_metadata());
    assert!(h.nsf2.needs_vector_overlay());
    assert!(h.nsf2_metadata.is_empty());
    assert_eq!(h.program, vec![0xea, 0x60]);
}

#[test]
fn v1_ignores_byte_7c_per_spec() {
    let mut buf = fake_v1();

    buf[0x7c] = 0xFF;
    let h = parse_nsf(&buf).unwrap();
    assert_eq!(h.nsf2, Nsf2Features(0));
}

#[test]
fn nsf2_splits_program_from_appended_metadata() {
    let program: Vec<u8> = (0..16).collect();
    let metadata: Vec<u8> = b"\x00\x00\x00\x00NEND".to_vec();
    let bytes = fake_v2(0x00, &program, &metadata);
    let h = parse_nsf(&bytes).unwrap();
    assert_eq!(h.program, program);
    assert_eq!(h.nsf2_metadata, metadata);
}

#[test]
fn nsf2_rejects_overdeclared_data_length() {
    let mut buf = fake_v2(0x00, &[0xea, 0x60], &[]);
    buf[0x7d] = 0x56;
    buf[0x7e] = 0x34;
    buf[0x7f] = 0x12;
    let err = parse_nsf(&buf).unwrap_err();
    match err {
        NsfError::Nsf2DataLengthOverflow { declared, .. } => {
            assert_eq!(declared, 0x123456);
        }
        other => panic!("expected Nsf2DataLengthOverflow, got {other:?}"),
    }
}

#[test]
fn nsf2_features_bit_helpers_cover_individual_bits() {
    assert!(Nsf2Features(0x10).irq_support());
    assert!(!Nsf2Features(0x10).non_returning_init());
    assert!(Nsf2Features(0x20).non_returning_init());
    assert!(Nsf2Features(0x40).suppressed_play());
    assert!(Nsf2Features(0x80).mandatory_metadata());

    assert!(!Nsf2Features(0x0F).irq_support());
    assert!(!Nsf2Features(0x0F).non_returning_init());
    assert!(!Nsf2Features(0x0F).suppressed_play());
    assert!(!Nsf2Features(0x0F).mandatory_metadata());
    assert!(!Nsf2Features(0x0F).needs_vector_overlay());
}
