use oxideav_nsf::nsfe::{parse_metadata_chunks, NsfeMetaError, NsfeMixerEntry};

fn pack(chunks: &[(&[u8; 4], &[u8])]) -> Vec<u8> {
    let mut out = Vec::new();
    for (tag, body) in chunks {
        out.extend_from_slice(&(body.len() as u32).to_le_bytes());
        out.extend_from_slice(*tag);
        out.extend_from_slice(body);
    }
    out
}

#[test]
fn parses_auth_with_all_four_strings() {
    let blob = pack(&[(b"auth", b"Title\0Artist\0Copy\0Ripper\0")]);
    let m = parse_metadata_chunks(&blob).unwrap();
    let auth = m.auth.unwrap();
    assert_eq!(auth.title, "Title");
    assert_eq!(auth.artist, "Artist");
    assert_eq!(auth.copyright, "Copy");
    assert_eq!(auth.ripper, "Ripper");
}

#[test]
fn auth_tolerates_missing_trailing_strings() {
    let blob = pack(&[(b"auth", b"OnlyTitle\0")]);
    let auth = parse_metadata_chunks(&blob).unwrap().auth.unwrap();
    assert_eq!(auth.title, "OnlyTitle");
    assert_eq!(auth.artist, "");
    assert_eq!(auth.copyright, "");
    assert_eq!(auth.ripper, "");
}

#[test]
fn parses_tlbl_and_taut_arrays() {
    let blob = pack(&[
        (b"tlbl", b"Alpha\0Beta\0Gamma\0"),
        (b"taut", b"Composer A\0Composer B\0"),
    ]);
    let m = parse_metadata_chunks(&blob).unwrap();
    assert_eq!(m.track_labels, vec!["Alpha", "Beta", "Gamma"]);
    assert_eq!(m.track_authors, vec!["Composer A", "Composer B"]);
}

#[test]
fn parses_text_chunk() {
    let blob = pack(&[(b"text", b"Hello\r\nFrom\nthe ripper\0")]);
    let m = parse_metadata_chunks(&blob).unwrap();
    assert_eq!(m.text.as_deref(), Some("Hello\r\nFrom\nthe ripper"));
}

#[test]
fn parses_time_and_fade_as_signed_ints() {
    let times = [120_000i32, 0, -1];
    let fades = [3_000i32, -1, -1];
    let mut tb = Vec::new();
    let mut fb = Vec::new();
    for v in times {
        tb.extend_from_slice(&v.to_le_bytes());
    }
    for v in fades {
        fb.extend_from_slice(&v.to_le_bytes());
    }
    let blob = pack(&[(b"time", &tb), (b"fade", &fb)]);
    let m = parse_metadata_chunks(&blob).unwrap();
    assert_eq!(m.track_times_ms, times);
    assert_eq!(m.track_fades_ms, fades);
}

#[test]
fn parses_plst_and_psfx() {
    let blob = pack(&[(b"plst", &[0, 2, 1, 3]), (b"psfx", &[5, 6])]);
    let m = parse_metadata_chunks(&blob).unwrap();
    assert_eq!(m.playlist, vec![0, 2, 1, 3]);
    assert_eq!(m.sfx_playlist, vec![5, 6]);
}

#[test]
fn parses_mixe_entries_and_rejects_misaligned_payload() {
    let mut body = Vec::new();
    body.push(0u8);
    body.extend_from_slice(&0i16.to_le_bytes());
    body.push(3u8);
    body.extend_from_slice(&1100i16.to_le_bytes());
    let blob = pack(&[(b"mixe", &body)]);
    let m = parse_metadata_chunks(&blob).unwrap();
    assert_eq!(
        m.mixer,
        vec![
            NsfeMixerEntry {
                device: 0,
                millibel: 0
            },
            NsfeMixerEntry {
                device: 3,
                millibel: 1100
            },
        ]
    );

    let bad = pack(&[(b"mixe", b"\x00\x00")]);
    assert!(matches!(
        parse_metadata_chunks(&bad).unwrap_err(),
        NsfeMetaError::BadChunkPayload { .. }
    ));
}

#[test]
fn parses_regn_with_and_without_preferred() {
    let blob = pack(&[(b"regn", &[0x07, 0x02])]);
    let r = parse_metadata_chunks(&blob).unwrap().regions.unwrap();
    assert!(r.supports_ntsc() && r.supports_pal() && r.supports_dendy());
    assert_eq!(r.preferred, Some(2));

    let blob = pack(&[(b"regn", &[0x01])]);
    let r = parse_metadata_chunks(&blob).unwrap().regions.unwrap();
    assert!(r.supports_ntsc() && !r.supports_pal() && !r.supports_dendy());
    assert_eq!(r.preferred, None);
}

#[test]
fn parses_rate_with_optional_pal_and_dendy() {
    let mut body = Vec::new();
    body.extend_from_slice(&16639u16.to_le_bytes());
    body.extend_from_slice(&19997u16.to_le_bytes());
    body.extend_from_slice(&19120u16.to_le_bytes());
    let blob = pack(&[(b"RATE", &body)]);
    let r = parse_metadata_chunks(&blob).unwrap().rate.unwrap();
    assert_eq!(r.ntsc_us, Some(16639));
    assert_eq!(r.pal_us, Some(19997));
    assert_eq!(r.dendy_us, Some(19120));

    let blob = pack(&[(b"RATE", &16639u16.to_le_bytes())]);
    let r = parse_metadata_chunks(&blob).unwrap().rate.unwrap();
    assert_eq!(r.ntsc_us, Some(16639));
    assert_eq!(r.pal_us, None);
    assert_eq!(r.dendy_us, None);
}

#[test]
fn parses_vrc7_device_only_and_with_patch_table() {
    let blob = pack(&[(b"VRC7", &[0u8])]);
    let v = parse_metadata_chunks(&blob).unwrap().vrc7.unwrap();
    assert_eq!(v.device, 0);
    assert!(v.patches.is_none());

    let mut body = vec![1u8];
    body.extend(std::iter::repeat_n(0xABu8, 128));
    let blob = pack(&[(b"VRC7", &body)]);
    let v = parse_metadata_chunks(&blob).unwrap().vrc7.unwrap();
    assert_eq!(v.device, 1);
    assert_eq!(v.patches.as_ref().map(|p| p.len()), Some(128));

    let mut body = vec![0u8];
    body.extend(std::iter::repeat_n(0x55u8, 152));
    let blob = pack(&[(b"VRC7", &body)]);
    let v = parse_metadata_chunks(&blob).unwrap().vrc7.unwrap();
    assert_eq!(v.patches.as_ref().map(|p| p.len()), Some(152));

    let mut body = vec![0u8];
    body.extend(std::iter::repeat_n(0u8, 130));
    let blob = pack(&[(b"VRC7", &body)]);
    assert!(matches!(
        parse_metadata_chunks(&blob).unwrap_err(),
        NsfeMetaError::BadChunkPayload { .. }
    ));
}

#[test]
fn rejects_unknown_uppercase_chunk() {
    let blob = pack(&[(b"ZZZZ", b"")]);
    assert!(matches!(
        parse_metadata_chunks(&blob).unwrap_err(),
        NsfeMetaError::UnknownMandatory(_)
    ));
}

#[test]
fn skips_unknown_lowercase_chunk() {
    let blob = pack(&[(b"xxxx", b"junk bytes"), (b"auth", b"Hi\0There\0\0\0")]);
    let m = parse_metadata_chunks(&blob).unwrap();
    assert_eq!(m.auth.unwrap().title, "Hi");
}

#[test]
fn nend_stops_parsing() {
    let blob = pack(&[
        (b"auth", b"Title\0\0\0\0"),
        (b"NEND", b""),
        (b"text", b"This should be ignored\0"),
    ]);
    let m = parse_metadata_chunks(&blob).unwrap();
    assert!(m.auth.is_some());
    assert!(m.text.is_none());
}

#[test]
fn truncated_chunk_header_is_an_error() {
    let blob = vec![0x00u8, 0x00, 0x00];
    assert_eq!(
        parse_metadata_chunks(&blob),
        Err(NsfeMetaError::TruncatedChunk)
    );
}

#[test]
fn declared_chunk_size_overrun_is_an_error() {
    let mut blob = Vec::new();
    blob.extend_from_slice(&100u32.to_le_bytes());
    blob.extend_from_slice(b"text");
    blob.extend_from_slice(b"short");
    assert_eq!(
        parse_metadata_chunks(&blob),
        Err(NsfeMetaError::ChunkOverflow)
    );
}
