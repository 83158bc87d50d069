//! Where the parts of a tune stand in its file, stated on the bytes.
use vstd::prelude::*;
use crate::header::{
    ErrorView, ExpansionChips, HeaderView, Nsf2Features, NsfRegion, WalkView, NSFE_MAGIC,
    NSF_MAGIC, TAG_BANK, TAG_DATA, TAG_INFO, TAG_NSF2,
};
use crate::nsfe::{
    MetaView, NsfeRate, NsfeRegions, TAG_AUTH, TAG_FADE, TAG_MIXE, TAG_NEND, TAG_PLST, TAG_PSFX,
    TAG_RATE, TAG_REGN, TAG_TAUT, TAG_TEXT, TAG_TIME, TAG_TLBL, TAG_VRC7,
};

verus! {

/// The region that the two low bits of a byte name.
pub open spec fn region_named(b: u8) -> NsfRegion {
    if b / 2 % 2 == 1 {
        NsfRegion::Dual
    } else if b % 2 == 1 {
        NsfRegion::Pal
    } else {
        NsfRegion::Ntsc
    }
}

/// A word, low byte first.
pub open spec fn word_bytes(w: u16) -> Seq<u8> {
    seq![(w % 0x100) as u8, (w / 0x100) as u8]
}

/// A chunk: four bytes of size, lowest first, four of tag, and the payload.
pub open spec fn chunk_of(t0: u8, t1: u8, t2: u8, t3: u8, body: Seq<u8>) -> Seq<u8> {
    seq![
        (body.len() % 0x100) as u8,
        (body.len() / 0x100 % 0x100) as u8,
        (body.len() / 0x1_0000 % 0x100) as u8,
        (body.len() / 0x100_0000 % 0x100) as u8,
        t0,
        t1,
        t2,
        t3,
    ] + body
}

proof fn lemma_chunk_of(tag: [u8; 4], body: Seq<u8>)
    ensures
        chunk_of(tag[0], tag[1], tag[2], tag[3], body) == crate::nsfe::chunk_bytes(tag@, body),
{
    assert(chunk_of(tag[0], tag[1], tag[2], tag[3], body) =~= crate::nsfe::chunk_bytes(tag@, body));
}

/// A whole chunk at the front is taken before the rest.
#[verifier::spinoff_prover]
proof fn lemma_chunk_first(w: WalkView, tag: Seq<u8>, body: Seq<u8>, rest: Seq<u8>)
    requires
        tag.len() == 4,
        tag != TAG_NEND@,
        body.len() < 0x1_0000_0000,
    ensures
        crate::header::chunks_taken(w, crate::nsfe::chunk_bytes(tag, body) + rest)
            == match crate::header::chunk_taken(w, tag, body) {
            Ok(next) => crate::header::chunks_taken(next, rest),
            Err(e) => Err(e),
        },
{
    let all = crate::nsfe::chunk_bytes(tag, body) + rest;
    crate::nsfe::lemma_le32_of_bytes(body.len());
    assert(all.subrange(0, 4) =~= crate::nsfe::le32_bytes(body.len()));
    assert(crate::nsfe::le32(all, 0) == body.len());
    assert(all.subrange(4, 8) =~= tag);
    assert(all.subrange(8, 8 + body.len() as int) =~= body);
    assert(all.subrange(8 + body.len() as int, all.len() as int) =~= rest);
}

/// The payload of an `INFO` chunk: three addresses, low byte first, then the
/// region, the chips, the number of songs and the first song.
pub open spec fn info_payload(
    load: u16,
    init: u16,
    play: u16,
    region: u8,
    chips: u8,
    songs: u8,
    first: u8,
) -> Seq<u8> {
    word_bytes(load) + word_bytes(init) + word_bytes(play) + seq![region, chips, songs, first]
}

/// The bytes `NSFE`, then an `INFO` chunk, then a `DATA` chunk.
pub open spec fn nsfe_file(info: Seq<u8>, data: Seq<u8>) -> Seq<u8> {
    seq![0x4Eu8, 0x53u8, 0x46u8, 0x45u8] + chunk_of(0x49, 0x4E, 0x46, 0x4F, info) + chunk_of(
        0x44,
        0x41,
        0x54,
        0x41,
        data,
    )
}

#[verifier::spinoff_prover]
proof fn lemma_walk_of_file(info: Seq<u8>, data: Seq<u8>, rest: Seq<u8>)
    requires
        8 <= info.len() < 0x1_0000_0000,
        data.len() < 0x1_0000_0000,
    ensures
        ({
            let file = nsfe_file(info, data) + rest;
            &&& crate::header::tune_of(file) == crate::header::nsfe_of(file)
            &&& crate::header::chunks_taken(
                WalkView::empty(),
                crate::header::behind_magic(file),
            ) == crate::header::chunks_taken(
                (WalkView {
                    info: Some(crate::header::info_of(info)),
                    data: Some(data),
                    ..WalkView::empty()
                }),
                rest,
            )
        }),
{
    let file = nsfe_file(info, data) + rest;
    let i = crate::nsfe::chunk_bytes(TAG_INFO@, info);
    let d = crate::nsfe::chunk_bytes(TAG_DATA@, data);
    lemma_chunk_of(TAG_INFO, info);
    lemma_chunk_of(TAG_DATA, data);
    assert(file.subrange(0, 4) =~= NSFE_MAGIC@);
    assert(crate::header::behind_magic(file) =~= i + (d + rest));
    assert(TAG_INFO@[0] == 0x49 && TAG_DATA@[0] == 0x44 && TAG_NEND@[0] == 0x4E);
    lemma_chunk_first(WalkView::empty(), TAG_INFO@, info, d + rest);
    lemma_chunk_first(
        WalkView { info: Some(crate::header::info_of(info)), ..WalkView::empty() },
        TAG_DATA@,
        data,
        rest,
    );
}

#[verifier::spinoff_prover]
proof fn lemma_info_of_payload(
    load: u16,
    init: u16,
    play: u16,
    region: u8,
    chips: u8,
    songs: u8,
    first: u8,
)
    ensures
        ({
            let p = info_payload(load, init, play, region, chips, songs, first);
            let i = crate::header::info_of(p);
            &&& p.len() == 10
            &&& i.load_addr == load && i.init_addr == init && i.play_addr == play
            &&& i.region == region && i.expansion == chips
            &&& i.total_songs == songs && i.starting_song == first
        }),
{
}

/// What is written into an `INFO` chunk comes back: each address as itself,
/// the region by its two low bits, the chips, the songs and the first song.
/// The program is the payload of the `DATA` chunk.
#[verifier::spinoff_prover]
pub proof fn lemma_nsfe_comes_back(
    load: u16,
    init: u16,
    play: u16,
    region: u8,
    chips: u8,
    songs: u8,
    first: u8,
    data: Seq<u8>,
)
    requires
        data.len() < 0x1_0000_0000,
    ensures
        crate::header::tune_of(
            nsfe_file(info_payload(load, init, play, region, chips, songs, first), data),
        ) matches Ok(h) && {
            &&& h.load_addr == load && h.init_addr == init && h.play_addr == play
            &&& h.region == region_named(region)
            &&& h.expansion == ExpansionChips(chips)
            &&& h.total_songs == songs && h.starting_song == first
            &&& h.program == data
            &&& h.is_nsfe && h.nsf2 == Nsf2Features(0)
            &&& h.bankswitch_init == seq![0u8, 0u8, 0u8, 0u8, 0u8, 0u8, 0u8, 0u8]
            &&& h.metadata == MetaView::empty()
            &&& h.song_name.len() == 0 && h.artist.len() == 0 && h.copyright.len() == 0
            &&& h.ntsc_speed_us == 0 && h.pal_speed_us == 0
        },
{
    let p = info_payload(load, init, play, region, chips, songs, first);
    let file = nsfe_file(p, data);
    lemma_info_of_payload(load, init, play, region, chips, songs, first);
    lemma_walk_of_file(p, data, Seq::empty());
    assert(file + Seq::<u8>::empty() =~= file);
    crate::bits::lemma_byte_bits(region);
    let h = crate::header::tune_of(file)->Ok_0;
    assert(h.bankswitch_init =~= seq![0u8, 0u8, 0u8, 0u8, 0u8, 0u8, 0u8, 0u8]);
}

/// A fixed header whose program runs to the end of the file: every field is
/// where the format has it. The addresses stand low byte first, in the order
/// load, INIT, PLAY, as in an `INFO` chunk.
#[verifier::spinoff_prover]
#[verifier::rlimit(60)]
pub proof fn lemma_fixed_header(b: Seq<u8>)
    requires
        b.len() >= 0x80,
        b[0] == 0x4E && b[1] == 0x45 && b[2] == 0x53 && b[3] == 0x4D && b[4] == 0x1A,
        b[5] >= 1,
        b[6] >= 1,
        b[0x7d] == 0 && b[0x7e] == 0 && b[0x7f] == 0,
    ensures
        crate::header::tune_of(b) matches Ok(h) && {
            &&& h.version == b[5] && h.total_songs == b[6] && h.starting_song == b[7]
            &&& h.load_addr == b[0x08] + 0x100 * b[0x09]
            &&& h.init_addr == b[0x0a] + 0x100 * b[0x0b]
            &&& h.play_addr == b[0x0c] + 0x100 * b[0x0d]
            &&& h.ntsc_speed_us == b[0x6e] + 0x100 * b[0x6f]
            &&& h.pal_speed_us == b[0x78] + 0x100 * b[0x79]
            &&& h.bankswitch_init == b.subrange(0x70, 0x78)
            &&& h.region == region_named(b[0x7a])
            &&& h.expansion == ExpansionChips(b[0x7b])
            &&& h.nsf2 == Nsf2Features(if b[5] >= 2 { b[0x7c] } else { 0 })
            &&& h.program == b.subrange(0x80, b.len() as int)
            &&& h.song_name == crate::header::field_text(b, 0x0e, 0x2e)
            &&& h.artist == crate::header::field_text(b, 0x2e, 0x4e)
            &&& h.copyright == crate::header::field_text(b, 0x4e, 0x6e)
            &&& !h.is_nsfe
        },
{
    assert(b.subrange(0, 5) =~= NSF_MAGIC@);
    assert(b.subrange(0, 4)[1] == 0x45);
    assert(NSFE_MAGIC@[1] == 0x53);
    crate::bits::lemma_byte_bits(b[0x7a]);
}

/// A fixed header that declares the length of its program: the program stops
/// there, and in a file of version 1 the rest is padding.
#[verifier::spinoff_prover]
#[verifier::rlimit(60)]
pub proof fn lemma_declared_program(b: Seq<u8>)
    requires
        b.len() >= 0x80,
        b[0] == 0x4E && b[1] == 0x45 && b[2] == 0x53 && b[3] == 0x4D && b[4] == 0x1A,
        b[5] == 1,
        b[6] >= 1,
    ensures
        ({
            let declared = b[0x7d] + 0x100 * b[0x7e] + 0x1_0000 * b[0x7f];
            &&& 0 < declared <= b.len() - 0x80 ==> (crate::header::tune_of(b) matches Ok(h)
                && h.program == b.subrange(0x80, 0x80 + declared))
            &&& declared > b.len() - 0x80 ==> crate::header::tune_of(b) is Err
        }),
{
    assert(b.subrange(0, 5) =~= NSF_MAGIC@);
    assert(b.subrange(0, 4)[1] == 0x45);
    assert(NSFE_MAGIC@[1] == 0x53);
}

/// Files that are refused, and why: too short for a fixed header, without its
/// magic bytes, of version zero, without songs.
#[verifier::spinoff_prover]
pub proof fn lemma_refused_files(b: Seq<u8>)
    ensures
        ({
            let nsfe = b.len() >= 4 && b[0] == 0x4E && b[1] == 0x53 && b[2] == 0x46 && b[3] == 0x45;
            let magic = b.len() >= 5 && b[0] == 0x4E && b[1] == 0x45 && b[2] == 0x53 && b[3] == 0x4D
                && b[4] == 0x1A;
            let t = crate::header::tune_of(b);
            &&& !nsfe && b.len() < 0x80 ==> t == Err::<HeaderView, ErrorView>(
                ErrorView::TooShort { needed: 0x80, got: b.len() },
            )
            &&& !nsfe && b.len() >= 0x80 && !magic ==> t == Err::<HeaderView, ErrorView>(
                ErrorView::BadMagic,
            )
            &&& magic && b.len() >= 0x80 && b[5] == 0 ==> t == Err::<HeaderView, ErrorView>(
                ErrorView::BadVersion(0),
            )
            &&& magic && b.len() >= 0x80 && b[5] != 0 && b[6] == 0 ==> t == Err::<
                HeaderView,
                ErrorView,
            >(ErrorView::NoSongs)
        }),
{
    if b.len() >= 4 {
        assert(b[0] == 0x4E && b[1] == 0x53 && b[2] == 0x46 && b[3] == 0x45 ==> b.subrange(0, 4)
            =~= NSFE_MAGIC@);
        assert(b.subrange(0, 4)[0] == b[0] && b.subrange(0, 4)[1] == b[1] && b.subrange(0, 4)[2]
            == b[2] && b.subrange(0, 4)[3] == b[3]);
        assert(NSFE_MAGIC@[0] == 0x4E && NSFE_MAGIC@[1] == 0x53 && NSFE_MAGIC@[2] == 0x46
            && NSFE_MAGIC@[3] == 0x45);
    }
    if b.len() >= 5 {
        let m = b.subrange(0, 5);
        assert(b[0] == 0x4E && b[1] == 0x45 && b[2] == 0x53 && b[3] == 0x4D && b[4] == 0x1A ==> m
            =~= NSF_MAGIC@);
        assert(m[0] == b[0] && m[1] == b[1] && m[2] == b[2] && m[3] == b[3] && m[4] == b[4]);
        assert(NSF_MAGIC@[0] == 0x4E && NSF_MAGIC@[1] == 0x45 && NSF_MAGIC@[2] == 0x53
            && NSF_MAGIC@[3] == 0x4D && NSF_MAGIC@[4] == 0x1A);
    }
}

/// An NSF2 file whose program has a declared length: what follows it is
/// metadata, which names the tracks, and the tune where its own fields are
/// empty.
#[verifier::spinoff_prover]
#[verifier::rlimit(60)]
pub proof fn lemma_appended_metadata(b: Seq<u8>, m: MetaView)
    requires
        b.len() >= 0x80,
        b[0] == 0x4E && b[1] == 0x45 && b[2] == 0x53 && b[3] == 0x4D && b[4] == 0x1A,
        b[5] >= 2,
        b[6] >= 1,
        0 < b[0x7d] + 0x100 * b[0x7e] + 0x1_0000 * b[0x7f] <= b.len() - 0x80,
        crate::nsfe::metadata_of(
            b.subrange(
                0x80 + b[0x7d] + 0x100 * b[0x7e] + 0x1_0000 * b[0x7f],
                b.len() as int,
            ),
        ) == Ok::<MetaView, crate::nsfe::MetaErrorView>(m),
    ensures
        ({
            let end = 0x80 + b[0x7d] + 0x100 * b[0x7e] + 0x1_0000 * b[0x7f];
            crate::header::tune_of(b) matches Ok(h) && {
                &&& h.program == b.subrange(0x80, end)
                &&& h.nsf2_metadata == b.subrange(end, b.len() as int)
                &&& h.nsf2 == Nsf2Features(b[0x7c])
                &&& h.track_labels == m.track_labels
                &&& h.metadata.playlist == m.playlist && h.metadata.mixer == m.mixer
                &&& h.metadata.track_times_ms == m.track_times_ms
                &&& m.auth is None ==> h.song_name == crate::header::field_text(b, 0x0e, 0x2e)
                &&& m.auth matches Some(a) ==> {
                    let own = crate::header::field_text(b, 0x0e, 0x2e);
                    h.song_name == (if own.len() == 0 { a.title } else { own })
                }
                &&& m.auth matches Some(a) ==> {
                    let own = crate::header::field_text(b, 0x2e, 0x4e);
                    h.artist == (if own.len() == 0 { a.artist } else { own })
                }
                &&& m.auth matches Some(a) ==> {
                    let own = crate::header::field_text(b, 0x4e, 0x6e);
                    h.copyright == (if own.len() == 0 { a.copyright } else { own })
                }
            }
        }),
{
    assert(b.subrange(0, 5) =~= NSF_MAGIC@);
    assert(b.subrange(0, 4)[1] == 0x45);
    assert(NSFE_MAGIC@[1] == 0x53);
}

/// Further chunks of an NSFe file: `BANK` holds the initial banks, `NSF2` the
/// features.
#[verifier::spinoff_prover]
#[verifier::rlimit(60)]
pub proof fn lemma_bank_and_features(info: Seq<u8>, data: Seq<u8>, banks: Seq<u8>, features: u8)
    requires
        8 <= info.len() < 0x1_0000_0000,
        data.len() < 0x1_0000_0000,
        banks.len() == 8,
    ensures
        ({
            let plain = crate::header::tune_of(nsfe_file(info, data));
            let banked = crate::header::tune_of(
                nsfe_file(info, data) + chunk_of(0x42, 0x41, 0x4E, 0x4B, banks),
            );
            let featured = crate::header::tune_of(
                nsfe_file(info, data) + chunk_of(0x4E, 0x53, 0x46, 0x32, seq![features]),
            );
            plain matches Ok(h) && {
                &&& banked == Ok::<HeaderView, ErrorView>(
                    (HeaderView { bankswitch_init: banks, ..h }),
                )
                &&& featured == Ok::<HeaderView, ErrorView>(
                    (HeaderView { nsf2: Nsf2Features(features), ..h }),
                )
            }
        }),
{
    let w = WalkView {
        info: Some(crate::header::info_of(info)),
        data: Some(data),
        ..WalkView::empty()
    };
    let e = Seq::<u8>::empty();
    lemma_walk_of_file(info, data, e);
    assert(nsfe_file(info, data) + e =~= nsfe_file(info, data));
    let bank_chunk = crate::nsfe::chunk_bytes(TAG_BANK@, banks);
    let feature_chunk = crate::nsfe::chunk_bytes(TAG_NSF2@, seq![features]);
    lemma_chunk_of(TAG_BANK, banks);
    lemma_chunk_of(TAG_NSF2, seq![features]);
    lemma_walk_of_file(info, data, bank_chunk);
    lemma_walk_of_file(info, data, feature_chunk);
    assert(TAG_BANK@[0] == 0x42 && TAG_INFO@[0] == 0x49 && TAG_DATA@[0] == 0x44 && TAG_NEND@[0]
        == 0x4E && TAG_NEND@[1] == 0x45 && TAG_NSF2@[0] == 0x4E && TAG_NSF2@[1] == 0x53);
    lemma_chunk_first(w, TAG_BANK@, banks, e);
    lemma_chunk_first(w, TAG_NSF2@, seq![features], e);
    assert(bank_chunk + e =~= bank_chunk);
    assert(feature_chunk + e =~= feature_chunk);
    assert(crate::header::bank_of(banks) =~= banks);
}

/// A chunk of metadata in an NSFe file: the metadata reader has it whole.
#[verifier::spinoff_prover]
#[verifier::rlimit(60)]
pub proof fn lemma_metadata_chunk(
    info: Seq<u8>,
    data: Seq<u8>,
    tag: [u8; 4],
    body: Seq<u8>,
    m: MetaView,
)
    requires
        8 <= info.len() < 0x1_0000_0000,
        data.len() < 0x1_0000_0000,
        body.len() < 0x1_0000_0000,
        tag@ == TAG_RATE@ || tag@ == TAG_REGN@ || tag@ == TAG_AUTH@ || tag@ == TAG_TLBL@ || tag@
            == TAG_TAUT@ || tag@ == TAG_TEXT@ || tag@ == TAG_TIME@ || tag@ == TAG_FADE@ || tag@
            == TAG_PLST@ || tag@ == TAG_PSFX@ || tag@ == TAG_MIXE@ || tag@ == TAG_VRC7@,
        crate::nsfe::metadata_of(chunk_of(tag[0], tag[1], tag[2], tag[3], body)) == Ok::<
            MetaView,
            crate::nsfe::MetaErrorView,
        >(m),
    ensures
        crate::header::tune_of(
            nsfe_file(info, data) + chunk_of(tag[0], tag[1], tag[2], tag[3], body),
        ) matches Ok(h) && {
            &&& h.track_labels == m.track_labels
            &&& h.metadata.mixer == m.mixer && h.metadata.playlist == m.playlist
            &&& h.metadata.track_times_ms == m.track_times_ms
            &&& m.rate matches Some(NsfeRate { ntsc_us: Some(n), pal_us: Some(p), .. })
                ==> h.ntsc_speed_us == n && h.pal_speed_us == p
            &&& m.regions matches Some(NsfeRegions { preferred: Some(r), .. }) ==> (r == 0
                ==> h.region is Ntsc) && (r == 1 || r == 2 ==> h.region is Pal)
            &&& m.auth matches Some(a) ==> h.song_name == a.title && h.artist == a.artist
                && h.copyright == a.copyright
        },
{
    let w = WalkView {
        info: Some(crate::header::info_of(info)),
        data: Some(data),
        ..WalkView::empty()
    };
    let e = Seq::<u8>::empty();
    let c = crate::nsfe::chunk_bytes(tag@, body);
    lemma_chunk_of(tag, body);
    lemma_walk_of_file(info, data, c);
    assert(c + e =~= c);
    assert(e + c =~= c);
    assert(TAG_RATE@[0] == 0x52 && TAG_REGN@[0] == 0x72 && TAG_AUTH@[0] == 0x61 && TAG_TLBL@[0]
        == 0x74);
    assert(TAG_TAUT@[0] == 0x74 && TAG_TEXT@[0] == 0x74 && TAG_TIME@[0] == 0x74 && TAG_FADE@[0]
        == 0x66 && TAG_PLST@[0] == 0x70 && TAG_PSFX@[0] == 0x70 && TAG_MIXE@[0] == 0x6D
        && TAG_VRC7@[0] == 0x56);
    assert(TAG_BANK@[0] == 0x42 && TAG_INFO@[0] == 0x49 && TAG_DATA@[0] == 0x44 && TAG_NEND@[0]
        == 0x4E && TAG_NSF2@[0] == 0x4E);
    lemma_chunk_first(w, tag@, body, e);
}

/// An NSFe file without an `INFO` or without a `DATA` chunk is refused.
#[verifier::spinoff_prover]
pub proof fn lemma_required_chunks(body: Seq<u8>)
    requires
        8 <= body.len() < 0x1_0000_0000,
    ensures
        ({
            let magic = seq![0x4Eu8, 0x53u8, 0x46u8, 0x45u8];
            &&& crate::header::tune_of(magic + chunk_of(0x49, 0x4E, 0x46, 0x4F, body)) == Err::<
                HeaderView,
                ErrorView,
            >(ErrorView::NsfeMissingRequired("DATA"@))
            &&& crate::header::tune_of(magic + chunk_of(0x44, 0x41, 0x54, 0x41, body)) == Err::<
                HeaderView,
                ErrorView,
            >(ErrorView::NsfeMissingRequired("INFO"@))
        }),
{
    let magic = seq![0x4Eu8, 0x53u8, 0x46u8, 0x45u8];
    let e = Seq::<u8>::empty();
    lemma_chunk_of(TAG_INFO, body);
    lemma_chunk_of(TAG_DATA, body);
    let i = crate::nsfe::chunk_bytes(TAG_INFO@, body);
    let d = crate::nsfe::chunk_bytes(TAG_DATA@, body);
    assert(magic =~= NSFE_MAGIC@);
    assert((magic + i).subrange(0, 4) =~= NSFE_MAGIC@);
    assert((magic + d).subrange(0, 4) =~= NSFE_MAGIC@);
    assert(crate::header::behind_magic(magic + i) =~= i + e);
    assert(crate::header::behind_magic(magic + d) =~= d + e);
    assert(TAG_INFO@[0] == 0x49 && TAG_DATA@[0] == 0x44 && TAG_NEND@[0] == 0x4E);
    lemma_chunk_first(WalkView::empty(), TAG_INFO@, body, e);
    lemma_chunk_first(WalkView::empty(), TAG_DATA@, body, e);
}

} // verus!
