//! What is written into the chunks of a tune comes back out of them.
use vstd::prelude::*;
use crate::header_laws::word_bytes;
use crate::nsfe::{
    MetaErrorView, MetaView, NsfeMixerEntry, NsfeRate, NsfeRegions, Vrc7View, TAG_AUTH, TAG_FADE,
    TAG_MIXE, TAG_NEND, TAG_PLST, TAG_PSFX, TAG_RATE, TAG_REGN, TAG_TAUT, TAG_TEXT, TAG_TIME,
    TAG_TLBL, TAG_VRC7,
};

verus! {

/// Bytes as text, one character for each.
pub open spec fn characters(s: Seq<u8>) -> Seq<char> {
    Seq::new(s.len(), |i: int| s[i] as char)
}

/// Bytes that can stand in a string: no NUL among them, and no blank at the
/// end.
pub open spec fn plain(s: Seq<u8>) -> bool {
    &&& forall|i: int| 0 <= i < s.len() ==> #[trigger] s[i] != 0
    &&& s.len() > 0 ==> s.last() != 0x20 && s.last() != 0x09
}

/// Strings, each with a NUL behind it.
pub open spec fn joined(list: Seq<Seq<u8>>) -> Seq<u8>
    decreases list.len(),
{
    if list.len() == 0 {
        Seq::empty()
    } else {
        list[0] + seq![0u8] + joined(list.drop_first())
    }
}

proof fn lemma_first_nul_behind(s: Seq<u8>, rest: Seq<u8>)
    requires
        forall|i: int| 0 <= i < s.len() ==> #[trigger] s[i] != 0,
    ensures
        crate::text::first_nul(s + seq![0u8] + rest) == s.len(),
        crate::text::first_nul(s) == s.len(),
    decreases s.len(),
{
    let all = s + seq![0u8] + rest;
    if s.len() > 0 {
        let t = s.drop_first();
        assert forall|i: int| 0 <= i < t.len() implies #[trigger] t[i] != 0 by {
            assert(t[i] == s[i + 1]);
        }
        lemma_first_nul_behind(t, rest);
        assert(all.drop_first() =~= t + seq![0u8] + rest);
        assert(all[0] == s[0]);
    } else {
        assert(all[0] == 0);
    }
}

/// A string ends at the first NUL.
pub proof fn lemma_string_ends_at_nul(s: Seq<u8>, rest: Seq<u8>)
    requires
        forall|i: int| 0 <= i < s.len() ==> #[trigger] s[i] != 0,
    ensures
        crate::text::pieces(s + seq![0u8] + rest) == seq![s] + crate::text::pieces(rest),
        crate::text::pieces(s) == seq![s],
{
    lemma_first_nul_behind(s, rest);
    let all = s + seq![0u8] + rest;
    assert(all.subrange(0, s.len() as int) =~= s);
    assert(all.subrange(s.len() as int + 1, all.len() as int) =~= rest);
}

proof fn lemma_blanks_go(s: Seq<u8>, blanks: Seq<u8>)
    requires
        s.len() > 0 ==> s.last() != 0x20 && s.last() != 0x09,
        forall|i: int| 0 <= i < blanks.len() ==> #[trigger] blanks[i] == 0x20 || blanks[i] == 0x09,
    ensures
        crate::text::trimmed(s + blanks) == s,
    decreases blanks.len(),
{
    let all = s + blanks;
    if blanks.len() > 0 {
        let fewer = blanks.drop_last();
        assert forall|i: int| 0 <= i < fewer.len() implies #[trigger] fewer[i] == 0x20 || fewer[i]
            == 0x09 by {
            assert(fewer[i] == blanks[i]);
        }
        lemma_blanks_go(s, fewer);
        assert(all.drop_last() =~= s + fewer);
        assert(all.last() == blanks.last());
    } else {
        assert(all =~= s);
    }
}

/// Text is one character for each byte, without blanks at the end.
pub proof fn lemma_text(s: Seq<u8>, blanks: Seq<u8>)
    requires
        plain(s),
        forall|i: int| 0 <= i < blanks.len() ==> #[trigger] blanks[i] == 0x20 || blanks[i] == 0x09,
    ensures
        crate::text::text_of(s) == characters(s),
        crate::text::text_of(s + blanks) == characters(s),
{
    lemma_blanks_go(s, blanks);
    lemma_blanks_go(s, Seq::empty());
    assert(s + Seq::<u8>::empty() =~= s);
    assert(crate::text::text_of(s) =~= characters(s));
}

/// A fixed-size field holds its text up to the first NUL, without blanks at the
/// end; what follows the NUL does not count.
pub proof fn lemma_field(
    b: Seq<u8>,
    from: int,
    to: int,
    s: Seq<u8>,
    blanks: Seq<u8>,
    rest: Seq<u8>,
)
    requires
        0 <= from <= to <= b.len(),
        plain(s),
        forall|i: int| 0 <= i < blanks.len() ==> #[trigger] blanks[i] == 0x20 || blanks[i] == 0x09,
        b.subrange(from, to) == s + blanks + seq![0u8] + rest || b.subrange(from, to) == s + blanks,
    ensures
        crate::header::field_text(b, from, to) == characters(s),
{
    let t = s + blanks;
    assert forall|i: int| 0 <= i < t.len() implies #[trigger] t[i] != 0 by {
        if i < s.len() {
            assert(t[i] == s[i]);
        } else {
            assert(t[i] == blanks[i - s.len()]);
        }
    }
    lemma_string_ends_at_nul(t, rest);
    lemma_text(s, blanks);
}

proof fn lemma_pieces_of_joined(list: Seq<Seq<u8>>)
    requires
        forall|i: int| 0 <= i < list.len() ==> plain(#[trigger] list[i]),
    ensures
        crate::text::pieces(joined(list)) == list + seq![Seq::<u8>::empty()],
    decreases list.len(),
{
    if list.len() == 0 {
        assert(crate::text::pieces(Seq::<u8>::empty()) =~= seq![Seq::<u8>::empty()]);
        assert(list + seq![Seq::<u8>::empty()] =~= seq![Seq::<u8>::empty()]);
    } else {
        let rest = list.drop_first();
        assert forall|i: int| 0 <= i < rest.len() implies plain(#[trigger] rest[i]) by {
            assert(rest[i] == list[i + 1]);
        }
        lemma_pieces_of_joined(rest);
        assert(plain(list[0]));
        lemma_string_ends_at_nul(list[0], joined(rest));
        assert(seq![list[0]] + (rest + seq![Seq::<u8>::empty()]) =~= list + seq![
            Seq::<u8>::empty(),
        ]);
    }
}

proof fn lemma_strings_of_joined(list: Seq<Seq<u8>>)
    requires
        forall|i: int| 0 <= i < list.len() ==> plain(#[trigger] list[i]),
    ensures
        crate::text::strings_of(joined(list)) == Seq::new(
            list.len(),
            |i: int| characters(list[i]),
        ),
{
    lemma_pieces_of_joined(list);
    let p = list + seq![Seq::<u8>::empty()];
    assert(p.last().len() == 0);
    assert(p.drop_last() =~= list);
    assert forall|i: int| 0 <= i < list.len() implies crate::text::text_of(list[i]) == characters(
        #[trigger] list[i],
    ) by {
        assert(plain(list[i]));
        lemma_text(list[i], Seq::empty());
    }
    assert(crate::text::strings_of(joined(list)) =~= Seq::new(
        list.len(),
        |i: int| characters(list[i]),
    ));
}

proof fn lemma_tag_letters()
    ensures
        TAG_AUTH@ == seq![0x61u8, 0x75u8, 0x74u8, 0x68u8],
        TAG_TLBL@ == seq![0x74u8, 0x6Cu8, 0x62u8, 0x6Cu8],
        TAG_TAUT@ == seq![0x74u8, 0x61u8, 0x75u8, 0x74u8],
        TAG_TEXT@ == seq![0x74u8, 0x65u8, 0x78u8, 0x74u8],
        TAG_TIME@ == seq![0x74u8, 0x69u8, 0x6Du8, 0x65u8],
        TAG_FADE@ == seq![0x66u8, 0x61u8, 0x64u8, 0x65u8],
        TAG_PLST@ == seq![0x70u8, 0x6Cu8, 0x73u8, 0x74u8],
        TAG_PSFX@ == seq![0x70u8, 0x73u8, 0x66u8, 0x78u8],
        TAG_MIXE@ == seq![0x6Du8, 0x69u8, 0x78u8, 0x65u8],
        TAG_REGN@ == seq![0x72u8, 0x65u8, 0x67u8, 0x6Eu8],
        TAG_RATE@ == seq![0x52u8, 0x41u8, 0x54u8, 0x45u8],
        TAG_VRC7@ == seq![0x56u8, 0x52u8, 0x43u8, 0x37u8],
        TAG_NEND@ == seq![0x4Eu8, 0x45u8, 0x4Eu8, 0x44u8],
{
    assert(TAG_AUTH@ =~= seq![0x61u8, 0x75u8, 0x74u8, 0x68u8]);
    assert(TAG_TLBL@ =~= seq![0x74u8, 0x6Cu8, 0x62u8, 0x6Cu8]);
    assert(TAG_TAUT@ =~= seq![0x74u8, 0x61u8, 0x75u8, 0x74u8]);
    assert(TAG_TEXT@ =~= seq![0x74u8, 0x65u8, 0x78u8, 0x74u8]);
    assert(TAG_TIME@ =~= seq![0x74u8, 0x69u8, 0x6Du8, 0x65u8]);
    assert(TAG_FADE@ =~= seq![0x66u8, 0x61u8, 0x64u8, 0x65u8]);
    assert(TAG_PLST@ =~= seq![0x70u8, 0x6Cu8, 0x73u8, 0x74u8]);
    assert(TAG_PSFX@ =~= seq![0x70u8, 0x73u8, 0x66u8, 0x78u8]);
    assert(TAG_MIXE@ =~= seq![0x6Du8, 0x69u8, 0x78u8, 0x65u8]);
    assert(TAG_REGN@ =~= seq![0x72u8, 0x65u8, 0x67u8, 0x6Eu8]);
    assert(TAG_RATE@ =~= seq![0x52u8, 0x41u8, 0x54u8, 0x45u8]);
    assert(TAG_VRC7@ =~= seq![0x56u8, 0x52u8, 0x43u8, 0x37u8]);
    assert(TAG_NEND@ =~= seq![0x4Eu8, 0x45u8, 0x4Eu8, 0x44u8]);
}

/// The first two letters tell the tags apart.
#[verifier::spinoff_prover]
proof fn lemma_tags_apart(tag: Seq<u8>)
    requires
        tag.len() == 4,
    ensures
        tag[0] != 0x61 || tag[1] != 0x75 ==> tag != TAG_AUTH@,
        tag[0] != 0x74 || tag[1] != 0x6C ==> tag != TAG_TLBL@,
        tag[0] != 0x74 || tag[1] != 0x61 ==> tag != TAG_TAUT@,
        tag[0] != 0x74 || tag[1] != 0x65 ==> tag != TAG_TEXT@,
        tag[0] != 0x74 || tag[1] != 0x69 ==> tag != TAG_TIME@,
        tag[0] != 0x66 ==> tag != TAG_FADE@,
        tag[0] != 0x70 || tag[1] != 0x6C ==> tag != TAG_PLST@,
        tag[0] != 0x70 || tag[1] != 0x73 ==> tag != TAG_PSFX@,
        tag[0] != 0x6D ==> tag != TAG_MIXE@,
        tag[0] != 0x72 ==> tag != TAG_REGN@,
        tag[0] != 0x52 ==> tag != TAG_RATE@,
        tag[0] != 0x56 ==> tag != TAG_VRC7@,
        tag[0] != 0x4E ==> tag != TAG_NEND@,
{
    lemma_tag_letters();
}

/// One chunk alone.
pub open spec fn alone(t0: u8, t1: u8, t2: u8, t3: u8, body: Seq<u8>) -> Seq<u8> {
    crate::header_laws::chunk_of(t0, t1, t2, t3, body)
}

#[verifier::spinoff_prover]
proof fn lemma_alone(tag: Seq<u8>, body: Seq<u8>)
    requires
        tag.len() == 4,
        tag[0] != 0x4E,
        body.len() < 0x1_0000_0000,
    ensures
        crate::nsfe::metadata_of(alone(tag[0], tag[1], tag[2], tag[3], body))
            == crate::nsfe::chunk_applied(MetaView::empty(), tag, body),
{
    lemma_tags_apart(tag);
    assert(alone(tag[0], tag[1], tag[2], tag[3], body) =~= crate::nsfe::chunk_bytes(tag, body)
        + Seq::<u8>::empty());
    crate::nsfe::lemma_chunk_then_rest(MetaView::empty(), tag, body, Seq::empty());
}

/// The tag that four letters make.
spec fn letters(t0: u8, t1: u8, t2: u8, t3: u8) -> Seq<u8> {
    seq![t0, t1, t2, t3]
}

/// A `tlbl` chunk holds the names of the tracks, and a `taut` chunk their
/// authors, each with a NUL behind it.
#[verifier::spinoff_prover]
pub proof fn lemma_track_names(list: Seq<Seq<u8>>)
    requires
        forall|i: int| 0 <= i < list.len() ==> plain(#[trigger] list[i]),
        joined(list).len() < 0x1_0000_0000,
    ensures
        ({
            let names = Seq::new(list.len(), |i: int| characters(list[i]));
            &&& crate::nsfe::metadata_of(alone(0x74, 0x6C, 0x62, 0x6C, joined(list))) == Ok::<
                MetaView,
                MetaErrorView,
            >((MetaView { track_labels: names, ..MetaView::empty() }))
            &&& crate::nsfe::metadata_of(alone(0x74, 0x61, 0x75, 0x74, joined(list))) == Ok::<
                MetaView,
                MetaErrorView,
            >((MetaView { track_authors: names, ..MetaView::empty() }))
        }),
{
    lemma_tag_letters();
    lemma_strings_of_joined(list);
    lemma_alone(letters(0x74, 0x6C, 0x62, 0x6C), joined(list));
    lemma_alone(letters(0x74, 0x61, 0x75, 0x74), joined(list));
    lemma_tags_apart(letters(0x74, 0x6C, 0x62, 0x6C));
    lemma_tags_apart(letters(0x74, 0x61, 0x75, 0x74));
}

/// An `auth` chunk holds title, artist, copyright and ripper, in that order.
#[verifier::spinoff_prover]
pub proof fn lemma_auth(title: Seq<u8>, artist: Seq<u8>, copyright: Seq<u8>, ripper: Seq<u8>)
    requires
        plain(title) && plain(artist) && plain(copyright) && plain(ripper),
        joined(seq![title, artist, copyright, ripper]).len() < 0x1_0000_0000,
    ensures
        crate::nsfe::metadata_of(
            alone(0x61, 0x75, 0x74, 0x68, joined(seq![title, artist, copyright, ripper])),
        ) matches Ok(m) && {
            &&& m.auth matches Some(a)
            &&& a.title == characters(title) && a.artist == characters(artist)
            &&& a.copyright == characters(copyright) && a.ripper == characters(ripper)
        },
{
    let list = seq![title, artist, copyright, ripper];
    lemma_tag_letters();
    lemma_pieces_of_joined(list);
    let p = list + seq![Seq::<u8>::empty()];
    assert(p[0] == title && p[1] == artist && p[2] == copyright && p[3] == ripper);
    lemma_text(title, Seq::empty());
    lemma_text(artist, Seq::empty());
    lemma_text(copyright, Seq::empty());
    lemma_text(ripper, Seq::empty());
    lemma_alone(letters(0x61, 0x75, 0x74, 0x68), joined(list));
}

/// A `plst` chunk is the order of the tracks and a `psfx` chunk that of the
/// sound effects, a byte for each.
#[verifier::spinoff_prover]
pub proof fn lemma_playlists(order: Seq<u8>)
    requires
        order.len() < 0x1_0000_0000,
    ensures
        crate::nsfe::metadata_of(alone(0x70, 0x6C, 0x73, 0x74, order)) == Ok::<
            MetaView,
            MetaErrorView,
        >((MetaView { playlist: order, ..MetaView::empty() })),
        crate::nsfe::metadata_of(alone(0x70, 0x73, 0x66, 0x78, order)) == Ok::<
            MetaView,
            MetaErrorView,
        >((MetaView { sfx_playlist: order, ..MetaView::empty() })),
{
    lemma_tag_letters();
    lemma_alone(letters(0x70, 0x6C, 0x73, 0x74), order);
    lemma_alone(letters(0x70, 0x73, 0x66, 0x78), order);
    lemma_tags_apart(letters(0x70, 0x6C, 0x73, 0x74));
    lemma_tags_apart(letters(0x70, 0x73, 0x66, 0x78));
}

/// A `regn` chunk is a mask of the regions and the preferred one.
#[verifier::spinoff_prover]
pub proof fn lemma_regions(mask: u8, preferred: u8)
    ensures
        crate::nsfe::metadata_of(alone(0x72, 0x65, 0x67, 0x6E, seq![mask, preferred])) == Ok::<
            MetaView,
            MetaErrorView,
        >(
            (MetaView {
                regions: Some(NsfeRegions { mask, preferred: Some(preferred) }),
                ..MetaView::empty()
            }),
        ),
        crate::nsfe::metadata_of(alone(0x72, 0x65, 0x67, 0x6E, seq![mask])) == Ok::<
            MetaView,
            MetaErrorView,
        >((MetaView { regions: Some(NsfeRegions { mask, preferred: None }), ..MetaView::empty() })),
{
    lemma_tag_letters();
    lemma_alone(letters(0x72, 0x65, 0x67, 0x6E), seq![mask, preferred]);
    lemma_alone(letters(0x72, 0x65, 0x67, 0x6E), seq![mask]);
    lemma_tags_apart(letters(0x72, 0x65, 0x67, 0x6E));
}

/// A `RATE` chunk is the PLAY periods for NTSC, PAL and Dendy, low byte first;
/// the last two can be left out.
#[verifier::spinoff_prover]
pub proof fn lemma_rates(ntsc: u16, pal: u16, dendy: u16)
    ensures
        crate::nsfe::metadata_of(
            alone(0x52, 0x41, 0x54, 0x45, word_bytes(ntsc) + word_bytes(pal) + word_bytes(dendy)),
        ) == Ok::<MetaView, MetaErrorView>(
            (MetaView {
                rate: Some(
                    NsfeRate { ntsc_us: Some(ntsc), pal_us: Some(pal), dendy_us: Some(dendy) },
                ),
                ..MetaView::empty()
            }),
        ),
        crate::nsfe::metadata_of(alone(0x52, 0x41, 0x54, 0x45, word_bytes(ntsc))) == Ok::<
            MetaView,
            MetaErrorView,
        >(
            (MetaView {
                rate: Some(NsfeRate { ntsc_us: Some(ntsc), pal_us: None, dendy_us: None }),
                ..MetaView::empty()
            }),
        ),
{
    lemma_tag_letters();
    let body = word_bytes(ntsc) + word_bytes(pal) + word_bytes(dendy);
    assert(body[0] == ntsc % 0x100 && body[1] == ntsc / 0x100 && body[2] == pal % 0x100 && body[3]
        == pal / 0x100 && body[4] == dendy % 0x100 && body[5] == dendy / 0x100);
    lemma_alone(letters(0x52, 0x41, 0x54, 0x45), body);
    lemma_alone(letters(0x52, 0x41, 0x54, 0x45), word_bytes(ntsc));
    lemma_tags_apart(letters(0x52, 0x41, 0x54, 0x45));
}

/// Mixing levels as bytes: a device, then its level as a signed word, low byte
/// first.
pub open spec fn mixer_bytes(list: Seq<NsfeMixerEntry>) -> Seq<u8> {
    Seq::new(
        3 * list.len(),
        |k: int|
            {
                let e = list[k / 3];
                let level = (if e.millibel < 0 { e.millibel + 0x1_0000 } else { e.millibel as int });
                if k % 3 == 0 {
                    e.device
                } else if k % 3 == 1 {
                    (level % 0x100) as u8
                } else {
                    (level / 0x100) as u8
                }
            },
    )
}

/// A `mixe` chunk holds mixing levels.
#[verifier::spinoff_prover]
pub proof fn lemma_mixer(list: Seq<NsfeMixerEntry>)
    requires
        3 * list.len() < 0x1_0000_0000,
    ensures
        crate::nsfe::metadata_of(alone(0x6D, 0x69, 0x78, 0x65, mixer_bytes(list))) == Ok::<
            MetaView,
            MetaErrorView,
        >((MetaView { mixer: list, ..MetaView::empty() })),
{
    lemma_tag_letters();
    let body = mixer_bytes(list);
    assert forall|i: int| 0 <= i < list.len() implies crate::nsfe::mixer_of(body)[i]
        == #[trigger] list[i] by {
        assert(3 * i / 3 == i && (3 * i + 1) / 3 == i && (3 * i + 2) / 3 == i);
        assert(3 * i % 3 == 0 && (3 * i + 1) % 3 == 1 && (3 * i + 2) % 3 == 2);
    }
    assert(crate::nsfe::mixer_of(body) =~= list);
    lemma_alone(letters(0x6D, 0x69, 0x78, 0x65), body);
    lemma_tags_apart(letters(0x6D, 0x69, 0x78, 0x65));
}

/// A `VRC7` chunk is the device, alone or with 16 instruments of eight bytes
/// behind it, or with those of the drums as well.
#[verifier::spinoff_prover]
pub proof fn lemma_vrc7_chunk(device: u8, patches: Seq<u8>)
    requires
        patches.len() == 128 || patches.len() == 152,
    ensures
        crate::nsfe::metadata_of(alone(0x56, 0x52, 0x43, 0x37, seq![device])) == Ok::<
            MetaView,
            MetaErrorView,
        >((MetaView { vrc7: Some(Vrc7View { device, patches: None }), ..MetaView::empty() })),
        crate::nsfe::metadata_of(alone(0x56, 0x52, 0x43, 0x37, seq![device] + patches)) == Ok::<
            MetaView,
            MetaErrorView,
        >(
            (MetaView {
                vrc7: Some(Vrc7View { device, patches: Some(patches) }),
                ..MetaView::empty()
            }),
        ),
{
    lemma_tag_letters();
    let body = seq![device] + patches;
    assert(body.subrange(1, body.len() as int) =~= patches);
    lemma_alone(letters(0x56, 0x52, 0x43, 0x37), seq![device]);
    lemma_alone(letters(0x56, 0x52, 0x43, 0x37), body);
    lemma_tags_apart(letters(0x56, 0x52, 0x43, 0x37));
}

/// A chunk that is unknown is refused if its first letter is upper-case.
#[verifier::spinoff_prover]
pub proof fn lemma_unknown_mandatory(tag: Seq<u8>, body: Seq<u8>)
    requires
        tag.len() == 4,
        0x41 <= tag[0] <= 0x5A,
        tag[0] != 0x4E && tag[0] != 0x52 && tag[0] != 0x56,
        body.len() < 0x1_0000_0000,
    ensures
        crate::nsfe::metadata_of(alone(tag[0], tag[1], tag[2], tag[3], body)) == Err::<
            MetaView,
            MetaErrorView,
        >(MetaErrorView::UnknownMandatory(tag)),
{
    lemma_tags_apart(tag);
    lemma_alone(tag, body);
}

} // verus!
