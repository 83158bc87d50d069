//! NSFe extended metadata.
//!
//! A metadata blob is a run of chunks: a 32-bit little-endian size, a
//! four-byte tag, and that many bytes of payload. A tag that starts with an
//! upper-case letter is mandatory: a reader that does not know it must refuse
//! the file. NSF2 files carry the same chunks behind their program.
use vstd::prelude::*;
use crate::text::{read_string, pieces, split_null_strings, string_views, strings_of, text_of};

verus! {

pub const TAG_NEND: [u8; 4] = [0x4E, 0x45, 0x4E, 0x44];
pub const TAG_AUTH: [u8; 4] = [0x61, 0x75, 0x74, 0x68];
pub const TAG_TLBL: [u8; 4] = [0x74, 0x6C, 0x62, 0x6C];
pub const TAG_TAUT: [u8; 4] = [0x74, 0x61, 0x75, 0x74];
pub const TAG_TEXT: [u8; 4] = [0x74, 0x65, 0x78, 0x74];
pub const TAG_TIME: [u8; 4] = [0x74, 0x69, 0x6D, 0x65];
pub const TAG_FADE: [u8; 4] = [0x66, 0x61, 0x64, 0x65];
pub const TAG_PLST: [u8; 4] = [0x70, 0x6C, 0x73, 0x74];
pub const TAG_PSFX: [u8; 4] = [0x70, 0x73, 0x66, 0x78];
pub const TAG_MIXE: [u8; 4] = [0x6D, 0x69, 0x78, 0x65];
pub const TAG_REGN: [u8; 4] = [0x72, 0x65, 0x67, 0x6E];
pub const TAG_RATE: [u8; 4] = [0x52, 0x41, 0x54, 0x45];
pub const TAG_VRC7: [u8; 4] = [0x56, 0x52, 0x43, 0x37];

/// Authorship strings of the `auth` chunk; missing ones are empty.
#[derive(Clone, Debug, Default, PartialEq, Eq)]
pub struct NsfeAuth {
    pub title: String,
    pub artist: String,
    pub copyright: String,
    pub ripper: String,
}

/// Mixing level of one device, in hundredths of a decibel relative to the
/// APU squares.
#[derive(Clone, Copy, Debug, PartialEq, Eq)]
pub struct NsfeMixerEntry {
    pub device: u8,
    pub millibel: i16,
}

/// The `regn` chunk.
#[derive(Clone, Copy, Debug, Default, PartialEq, Eq)]
pub struct NsfeRegions {
    /// Bit 0 is NTSC, bit 1 PAL, bit 2 Dendy.
    pub mask: u8,
    /// 0 is NTSC, 1 PAL, 2 Dendy.
    pub preferred: Option<u8>,
}

/// The `RATE` chunk: play periods in microseconds, as far as it reaches.
#[derive(Clone, Copy, Debug, Default, PartialEq, Eq)]
pub struct NsfeRate {
    pub ntsc_us: Option<u16>,
    pub pal_us: Option<u16>,
    pub dendy_us: Option<u16>,
}

/// The `VRC7` chunk.
#[derive(Clone, Debug, Default, PartialEq, Eq)]
pub struct NsfeVrc7 {
    /// 0 is the VRC7, 1 the YM2413.
    pub device: u8,
    /// Replacement instruments, 128 or 152 bytes.
    pub patches: Option<Vec<u8>>,
}

/// All extended metadata of a file.
#[derive(Clone, Debug, Default, PartialEq, Eq)]
pub struct NsfeMetadata {
    pub auth: Option<NsfeAuth>,
    pub track_labels: Vec<String>,
    pub track_authors: Vec<String>,
    pub text: Option<String>,
    pub track_times_ms: Vec<i32>,
    pub track_fades_ms: Vec<i32>,
    pub playlist: Vec<u8>,
    pub sfx_playlist: Vec<u8>,
    pub mixer: Vec<NsfeMixerEntry>,
    pub regions: Option<NsfeRegions>,
    pub rate: Option<NsfeRate>,
    pub vrc7: Option<NsfeVrc7>,
}

/// Why a metadata blob was refused.
#[derive(Debug, PartialEq, Eq)]
pub enum NsfeMetaError {
    TruncatedChunk,
    ChunkOverflow,
    UnknownMandatory([u8; 4]),
    /// A payload of a length that its chunk does not allow.
    BadChunkPayload { tag: [u8; 4], len: usize },
}

/// Contents of [`NsfeAuth`].
#[verifier::ext_equal]
pub struct AuthView {
    pub title: Seq<char>,
    pub artist: Seq<char>,
    pub copyright: Seq<char>,
    pub ripper: Seq<char>,
}

/// Contents of [`NsfeVrc7`].
#[verifier::ext_equal]
pub struct Vrc7View {
    pub device: u8,
    pub patches: Option<Seq<u8>>,
}

/// Contents of [`NsfeMetadata`].
#[verifier::ext_equal]
pub struct MetaView {
    pub auth: Option<AuthView>,
    pub track_labels: Seq<Seq<char>>,
    pub track_authors: Seq<Seq<char>>,
    pub text: Option<Seq<char>>,
    pub track_times_ms: Seq<i32>,
    pub track_fades_ms: Seq<i32>,
    pub playlist: Seq<u8>,
    pub sfx_playlist: Seq<u8>,
    pub mixer: Seq<NsfeMixerEntry>,
    pub regions: Option<NsfeRegions>,
    pub rate: Option<NsfeRate>,
    pub vrc7: Option<Vrc7View>,
}

/// Contents of [`NsfeMetaError`].
pub enum MetaErrorView {
    TruncatedChunk,
    ChunkOverflow,
    UnknownMandatory(Seq<u8>),
    BadChunkPayload(Seq<u8>, nat),
}

impl View for NsfeAuth {
    type V = AuthView;

    open spec fn view(&self) -> AuthView {
        AuthView {
            title: self.title@,
            artist: self.artist@,
            copyright: self.copyright@,
            ripper: self.ripper@,
        }
    }
}

impl View for NsfeVrc7 {
    type V = Vrc7View;

    open spec fn view(&self) -> Vrc7View {
        Vrc7View {
            device: self.device,
            patches: match self.patches {
                Some(p) => Some(p@),
                None => None,
            },
        }
    }
}

impl View for NsfeMetadata {
    type V = MetaView;

    open spec fn view(&self) -> MetaView {
        MetaView {
            auth: match self.auth {
                Some(a) => Some(a@),
                None => None,
            },
            track_labels: string_views(self.track_labels@),
            track_authors: string_views(self.track_authors@),
            text: match self.text {
                Some(t) => Some(t@),
                None => None,
            },
            track_times_ms: self.track_times_ms@,
            track_fades_ms: self.track_fades_ms@,
            playlist: self.playlist@,
            sfx_playlist: self.sfx_playlist@,
            mixer: self.mixer@,
            regions: self.regions,
            rate: self.rate,
            vrc7: match self.vrc7 {
                Some(v) => Some(v@),
                None => None,
            },
        }
    }
}

impl View for NsfeMetaError {
    type V = MetaErrorView;

    open spec fn view(&self) -> MetaErrorView {
        match *self {
            NsfeMetaError::TruncatedChunk => MetaErrorView::TruncatedChunk,
            NsfeMetaError::ChunkOverflow => MetaErrorView::ChunkOverflow,
            NsfeMetaError::UnknownMandatory(tag) => MetaErrorView::UnknownMandatory(tag@),
            NsfeMetaError::BadChunkPayload { tag, len } => MetaErrorView::BadChunkPayload(
                tag@,
                len as nat,
            ),
        }
    }
}

impl MetaView {
    /// No metadata at all.
    pub open spec fn empty() -> Self {
        MetaView {
            auth: None,
            track_labels: Seq::empty(),
            track_authors: Seq::empty(),
            text: None,
            track_times_ms: Seq::empty(),
            track_fades_ms: Seq::empty(),
            playlist: Seq::empty(),
            sfx_playlist: Seq::empty(),
            mixer: Seq::empty(),
            regions: None,
            rate: None,
            vrc7: None,
        }
    }
}

impl NsfeRegions {
    pub fn supports_ntsc(self) -> (r: bool)
        ensures
            r == (self.mask & 0x01 != 0),
    {
        self.mask & 0x01 != 0
    }

    pub fn supports_pal(self) -> (r: bool)
        ensures
            r == (self.mask & 0x02 != 0),
    {
        self.mask & 0x02 != 0
    }

    pub fn supports_dendy(self) -> (r: bool)
        ensures
            r == (self.mask & 0x04 != 0),
    {
        self.mask & 0x04 != 0
    }
}

impl NsfeMetadata {
    /// No metadata.
    pub fn new() -> (r: Self)
        ensures
            r@ == MetaView::empty(),
    {
        let r = NsfeMetadata {
            auth: None,
            track_labels: Vec::new(),
            track_authors: Vec::new(),
            text: None,
            track_times_ms: Vec::new(),
            track_fades_ms: Vec::new(),
            playlist: Vec::new(),
            sfx_playlist: Vec::new(),
            mixer: Vec::new(),
            regions: None,
            rate: None,
            vrc7: None,
        };
        assert(r@ =~= MetaView::empty());
        r
    }

    /// Whether there is no metadata at all.
    pub fn is_empty(&self) -> (r: bool)
        ensures
            r == (self@ == MetaView::empty()),
    {
        let r = self.auth.is_none() && self.track_labels.is_empty()
            && self.track_authors.is_empty() && self.text.is_none()
            && self.track_times_ms.is_empty() && self.track_fades_ms.is_empty()
            && self.playlist.is_empty() && self.sfx_playlist.is_empty() && self.mixer.is_empty()
            && self.regions.is_none() && self.rate.is_none() && self.vrc7.is_none();
        proof {
            if r {
                assert(self@ =~= MetaView::empty());
            } else if self@ == MetaView::empty() {
                assert(self@.track_labels.len() == 0);
                assert(self@.track_authors.len() == 0);
            }
        }
        r
    }
}

/// The unsigned number in two little-endian bytes.
pub open spec fn le16(s: Seq<u8>, at: int) -> int {
    s[at] + 0x100 * s[at + 1]
}

/// The unsigned number in four little-endian bytes.
pub open spec fn le32(s: Seq<u8>, at: int) -> int {
    s[at] + 0x100 * s[at + 1] + 0x1_0000 * s[at + 2] + 0x100_0000 * s[at + 3]
}

/// `x` read as a two's complement number of `2 * half` values.
pub open spec fn signed(x: int, half: int) -> int {
    if x >= half { x - 2 * half } else { x }
}

pub fn read_le16(b: &[u8], at: usize) -> (r: u16)
    requires
        at + 2 <= b@.len(),
    ensures
        r == le16(b@, at as int),
{
    b[at] as u16 + 0x100 * b[at + 1] as u16
}

pub fn read_le32(b: &[u8], at: usize) -> (r: u32)
    requires
        at + 4 <= b@.len(),
    ensures
        r == le32(b@, at as int),
{
    b[at] as u32 + 0x100 * b[at + 1] as u32 + 0x1_0000 * b[at + 2] as u32 + 0x100_0000 * b[at + 3]
        as u32
}

/// Whether a tag is mandatory: its first letter is upper-case.
pub open spec fn mandatory(tag: Seq<u8>) -> bool {
    0x41 <= tag[0] <= 0x5A
}

pub fn is_mandatory(tag: &[u8; 4]) -> (r: bool)
    ensures
        r == mandatory(tag@),
{
    0x41 <= tag[0] && tag[0] <= 0x5A
}

/// Whether two tags are the same.
pub fn same_tag(a: &[u8; 4], b: &[u8; 4]) -> (r: bool)
    ensures
        r == (a@ == b@),
{
    let r = a[0] == b[0] && a[1] == b[1] && a[2] == b[2] && a[3] == b[3];
    proof {
        if r {
            assert(a@ =~= b@);
        }
    }
    r
}

/// Copy of `b[from..to]`.
pub fn copy_range(b: &[u8], from: usize, to: usize) -> (r: Vec<u8>)
    requires
        from <= to <= b@.len(),
    ensures
        r@ == b@.subrange(from as int, to as int),
{
    let mut r: Vec<u8> = Vec::new();
    for i in from..to
        invariant
            to <= b@.len(),
            from <= i <= to,
            r@ =~= b@.subrange(from as int, i as int),
    {
        r.push(b[i]);
    }
    r
}

/// The string in piece `i` of `body`, or nothing past the last piece.
pub open spec fn piece_text(body: Seq<u8>, i: int) -> Seq<char> {
    if i < pieces(body).len() { text_of(pieces(body)[i]) } else { Seq::empty() }
}

pub open spec fn auth_of(body: Seq<u8>) -> AuthView {
    AuthView {
        title: piece_text(body, 0),
        artist: piece_text(body, 1),
        copyright: piece_text(body, 2),
        ripper: piece_text(body, 3),
    }
}

pub open spec fn i32s_of(body: Seq<u8>) -> Seq<i32> {
    Seq::new(body.len() / 4, |i: int| signed(le32(body, 4 * i), 0x8000_0000) as i32)
}

pub open spec fn mixer_of(body: Seq<u8>) -> Seq<NsfeMixerEntry> {
    Seq::new(
        body.len() / 3,
        |i: int|
            NsfeMixerEntry {
                device: body[3 * i],
                millibel: signed(le16(body, 3 * i + 1), 0x8000) as i16,
            },
    )
}

pub open spec fn regions_of(body: Seq<u8>) -> NsfeRegions {
    NsfeRegions {
        mask: if body.len() > 0 { body[0] } else { 0 },
        preferred: if body.len() > 1 { Some(body[1]) } else { None },
    }
}

/// The little-endian number at `at`, if the payload reaches that far.
pub open spec fn period_at(body: Seq<u8>, at: int) -> Option<u16> {
    if body.len() >= at + 2 { Some(le16(body, at) as u16) } else { None }
}

pub open spec fn rate_of(body: Seq<u8>) -> NsfeRate {
    NsfeRate {
        ntsc_us: period_at(body, 0),
        pal_us: period_at(body, 2),
        dendy_us: period_at(body, 4),
    }
}

/// A `VRC7` payload is one device byte, alone or with 128 or 152 bytes.
pub open spec fn vrc7_allowed(len: nat) -> bool {
    len == 1 || len == 129 || len == 153
}

pub open spec fn vrc7_of(body: Seq<u8>) -> Vrc7View {
    Vrc7View {
        device: body[0],
        patches: if body.len() == 1 {
            None
        } else {
            Some(body.subrange(1, body.len() as int))
        },
    }
}

/// Effect of one chunk other than the end marker. A chunk that is neither
/// known nor mandatory has none.
pub open spec fn chunk_applied(m: MetaView, tag: Seq<u8>, body: Seq<u8>) -> Result<
    MetaView,
    MetaErrorView,
> {
    if tag == TAG_AUTH@ {
        Ok(MetaView { auth: Some(auth_of(body)), ..m })
    } else if tag == TAG_TLBL@ {
        Ok(MetaView { track_labels: strings_of(body), ..m })
    } else if tag == TAG_TAUT@ {
        Ok(MetaView { track_authors: strings_of(body), ..m })
    } else if tag == TAG_TEXT@ {
        Ok(MetaView { text: Some(text_of(pieces(body)[0])), ..m })
    } else if tag == TAG_TIME@ {
        Ok(MetaView { track_times_ms: i32s_of(body), ..m })
    } else if tag == TAG_FADE@ {
        Ok(MetaView { track_fades_ms: i32s_of(body), ..m })
    } else if tag == TAG_PLST@ {
        Ok(MetaView { playlist: body, ..m })
    } else if tag == TAG_PSFX@ {
        Ok(MetaView { sfx_playlist: body, ..m })
    } else if tag == TAG_MIXE@ {
        if body.len() % 3 == 0 {
            Ok(MetaView { mixer: mixer_of(body), ..m })
        } else {
            Err(MetaErrorView::BadChunkPayload(tag, body.len()))
        }
    } else if tag == TAG_REGN@ {
        Ok(MetaView { regions: Some(regions_of(body)), ..m })
    } else if tag == TAG_RATE@ {
        Ok(MetaView { rate: Some(rate_of(body)), ..m })
    } else if tag == TAG_VRC7@ {
        if vrc7_allowed(body.len()) {
            Ok(MetaView { vrc7: Some(vrc7_of(body)), ..m })
        } else {
            Err(MetaErrorView::BadChunkPayload(tag, body.len()))
        }
    } else if mandatory(tag) {
        Err(MetaErrorView::UnknownMandatory(tag))
    } else {
        Ok(m)
    }
}

/// Metadata `m` together with the chunks in `rest`, in order, up to the end
/// marker or the end of the bytes.
pub open spec fn chunks_applied(m: MetaView, rest: Seq<u8>) -> Result<MetaView, MetaErrorView>
    decreases rest.len(),
{
    if rest.len() == 0 {
        Ok(m)
    } else if rest.len() < 8 {
        Err(MetaErrorView::TruncatedChunk)
    } else if 8 + le32(rest, 0) > rest.len() {
        Err(MetaErrorView::ChunkOverflow)
    } else {
        let end = 8 + le32(rest, 0);
        let tag = rest.subrange(4, 8);
        if tag == TAG_NEND@ {
            Ok(m)
        } else {
            match chunk_applied(m, tag, rest.subrange(8, end)) {
                Ok(next) => chunks_applied(next, rest.subrange(end, rest.len() as int)),
                Err(e) => Err(e),
            }
        }
    }
}

/// What a metadata blob holds.
pub open spec fn metadata_of(blob: Seq<u8>) -> Result<MetaView, MetaErrorView> {
    chunks_applied(MetaView::empty(), blob)
}

/// A result of the metadata reader, by its contents.
pub open spec fn outcome(r: Result<NsfeMetadata, NsfeMetaError>) -> Result<
    MetaView,
    MetaErrorView,
> {
    match r {
        Ok(m) => Ok(m@),
        Err(e) => Err(e@),
    }
}

/// Read a metadata blob.
pub fn parse_metadata_chunks(blob: &[u8]) -> (r: Result<NsfeMetadata, NsfeMetaError>)
    ensures
        outcome(r) == metadata_of(blob@),
{
    let mut out = NsfeMetadata::new();
    let mut cursor: usize = 0;
    assert(blob@.subrange(0, blob@.len() as int) =~= blob@);
    while cursor < blob.len()
        invariant
            cursor <= blob@.len(),
            metadata_of(blob@) == chunks_applied(
                out@,
                blob@.subrange(cursor as int, blob@.len() as int),
            ),
        decreases blob@.len() - cursor,
    {
        let ghost rest = blob@.subrange(cursor as int, blob@.len() as int);
        if blob.len() - cursor < 8 {
            return Err(NsfeMetaError::TruncatedChunk);
        }
        let size: u32 = read_le32(blob, cursor);
        let tag: [u8; 4] = [
            blob[cursor + 4],
            blob[cursor + 5],
            blob[cursor + 6],
            blob[cursor + 7],
        ];
        assert(tag@ =~= rest.subrange(4, 8));
        if size as usize > blob.len() - cursor - 8 {
            return Err(NsfeMetaError::ChunkOverflow);
        }
        let body_start: usize = cursor + 8;
        let body_end: usize = body_start + size as usize;
        let body = &blob[body_start..body_end];
        assert(body@ =~= rest.subrange(8, 8 + size));
        assert(rest.subrange(8 + size, rest.len() as int) =~= blob@.subrange(
            body_end as int,
            blob@.len() as int,
        ));
        if same_tag(&tag, &TAG_NEND) {
            return Ok(out);
        }
        match apply_chunk(&mut out, tag, body) {
            Ok(_) => {},
            Err(e) => {
                return Err(e);
            },
        }
        cursor = body_end;
    }
    Ok(out)
}

/// Apply one chunk.
fn apply_chunk(out: &mut NsfeMetadata, tag: [u8; 4], body: &[u8]) -> (r: Result<(), NsfeMetaError>)
    ensures
        match r {
            Ok(_) => chunk_applied(old(out)@, tag@, body@) == Ok::<MetaView, MetaErrorView>(
                final(out)@,
            ),
            Err(e) => chunk_applied(old(out)@, tag@, body@) == Err::<MetaView, MetaErrorView>(e@),
        },
{
    if same_tag(&tag, &TAG_AUTH) {
        out.auth = Some(parse_auth(body));
    } else if same_tag(&tag, &TAG_TLBL) {
        out.track_labels = split_null_strings(body);
    } else if same_tag(&tag, &TAG_TAUT) {
        out.track_authors = split_null_strings(body);
    } else if same_tag(&tag, &TAG_TEXT) {
        out.text = Some(parse_text(body));
    } else if same_tag(&tag, &TAG_TIME) {
        out.track_times_ms = parse_i32_array(body);
    } else if same_tag(&tag, &TAG_FADE) {
        out.track_fades_ms = parse_i32_array(body);
    } else if same_tag(&tag, &TAG_PLST) {
        out.playlist = copy_range(body, 0, body.len());
        assert(out.playlist@ =~= body@);
    } else if same_tag(&tag, &TAG_PSFX) {
        out.sfx_playlist = copy_range(body, 0, body.len());
        assert(out.sfx_playlist@ =~= body@);
    } else if same_tag(&tag, &TAG_MIXE) {
        match parse_mixer(body, tag) {
            Ok(mixer) => {
                out.mixer = mixer;
            },
            Err(e) => {
                return Err(e);
            },
        }
    } else if same_tag(&tag, &TAG_REGN) {
        out.regions = Some(parse_regions(body));
    } else if same_tag(&tag, &TAG_RATE) {
        out.rate = Some(parse_rate(body));
    } else if same_tag(&tag, &TAG_VRC7) {
        match parse_vrc7(body, tag) {
            Ok(vrc7) => {
                out.vrc7 = Some(vrc7);
            },
            Err(e) => {
                return Err(e);
            },
        }
    } else if is_mandatory(&tag) {
        return Err(NsfeMetaError::UnknownMandatory(tag));
    }
    Ok(())
}

/// Read an `auth` payload: up to four NUL-terminated strings.
pub fn parse_auth(body: &[u8]) -> (r: NsfeAuth)
    ensures
        r@ == auth_of(body@),
{
    assert(body@.subrange(0, body@.len() as int) =~= body@);
    let (title, t1) = crate::text::next_piece(body, Some(0));
    let (artist, t2) = crate::text::next_piece(body, t1);
    let (copyright, t3) = crate::text::next_piece(body, t2);
    let (ripper, _) = crate::text::next_piece(body, t3);
    NsfeAuth { title, artist, copyright, ripper }
}

/// Read a `text` payload, up to the first NUL.
pub fn parse_text(body: &[u8]) -> (r: String)
    ensures
        r@ == text_of(pieces(body@)[0]),
{
    let end: usize = crate::text::find_nul(body, 0);
    assert(body@.subrange(0, body@.len() as int) =~= body@);
    read_string(&body[0..end])
}

/// Read a run of signed 32-bit numbers; odd bytes at the end are dropped.
pub fn parse_i32_array(body: &[u8]) -> (r: Vec<i32>)
    ensures
        r@ == i32s_of(body@),
{
    let mut r: Vec<i32> = Vec::new();
    let len: usize = body.len();
    let n: usize = len / 4;
    for i in 0..n
        invariant
            len == body@.len(),
            n == len / 4,
            r@ =~= i32s_of(body@).subrange(0, i as int),
    {
        let x: u32 = read_le32(body, 4 * i);
        let v: i32 = if x >= 0x8000_0000 {
            (x as i64 - 0x1_0000_0000) as i32
        } else {
            x as i32
        };
        r.push(v);
    }
    r
}

/// Read a `mixe` payload: three bytes per device.
pub fn parse_mixer(body: &[u8], tag: [u8; 4]) -> (r: Result<Vec<NsfeMixerEntry>, NsfeMetaError>)
    ensures
        match r {
            Ok(m) => body@.len() % 3 == 0 && m@ == mixer_of(body@),
            Err(e) => body@.len() % 3 != 0 && e@ == MetaErrorView::BadChunkPayload(
                tag@,
                body@.len(),
            ),
        },
{
    if body.len() % 3 != 0 {
        return Err(NsfeMetaError::BadChunkPayload { tag, len: body.len() });
    }
    let mut r: Vec<NsfeMixerEntry> = Vec::new();
    let len: usize = body.len();
    let n: usize = len / 3;
    for i in 0..n
        invariant
            len == body@.len(),
            n == len / 3,
            r@ =~= mixer_of(body@).subrange(0, i as int),
    {
        let x: u16 = read_le16(body, 3 * i + 1);
        let millibel: i16 = if x >= 0x8000 { (x as i32 - 0x1_0000) as i16 } else { x as i16 };
        r.push(NsfeMixerEntry { device: body[3 * i], millibel });
    }
    Ok(r)
}

/// Read a `regn` payload.
pub fn parse_regions(body: &[u8]) -> (r: NsfeRegions)
    ensures
        r == regions_of(body@),
{
    NsfeRegions {
        mask: if body.len() > 0 { body[0] } else { 0 },
        preferred: if body.len() > 1 { Some(body[1]) } else { None },
    }
}

fn read_period(body: &[u8], at: usize) -> (r: Option<u16>)
    requires
        at <= 4,
    ensures
        r == period_at(body@, at as int),
{
    if body.len() >= at + 2 {
        Some(read_le16(body, at))
    } else {
        None
    }
}

/// Read a `RATE` payload.
pub fn parse_rate(body: &[u8]) -> (r: NsfeRate)
    ensures
        r == rate_of(body@),
{
    NsfeRate {
        ntsc_us: read_period(body, 0),
        pal_us: read_period(body, 2),
        dendy_us: read_period(body, 4),
    }
}

/// Read a `VRC7` payload.
pub fn parse_vrc7(body: &[u8], tag: [u8; 4]) -> (r: Result<NsfeVrc7, NsfeMetaError>)
    ensures
        match r {
            Ok(v) => vrc7_allowed(body@.len()) && v@ == vrc7_of(body@),
            Err(e) => !vrc7_allowed(body@.len()) && e@ == MetaErrorView::BadChunkPayload(
                tag@,
                body@.len(),
            ),
        },
{
    if body.len() == 0 {
        return Err(NsfeMetaError::BadChunkPayload { tag, len: body.len() });
    }
    if body.len() == 1 {
        return Ok(NsfeVrc7 { device: body[0], patches: None });
    }
    if body.len() != 129 && body.len() != 153 {
        return Err(NsfeMetaError::BadChunkPayload { tag, len: body.len() });
    }
    Ok(NsfeVrc7 { device: body[0], patches: Some(copy_range(body, 1, body.len())) })
}

/// The end marker stops the reader: nothing behind it counts.
pub proof fn lemma_end_marker_stops(m: MetaView, tail: Seq<u8>)
    ensures
        chunks_applied(m, seq![0u8, 0u8, 0u8, 0u8] + TAG_NEND@ + tail) == Ok::<
            MetaView,
            MetaErrorView,
        >(m),
{
    let rest = seq![0u8, 0u8, 0u8, 0u8] + TAG_NEND@ + tail;
    assert(rest.subrange(4, 8) =~= TAG_NEND@);
}

/// A whole chunk at the front is applied before the rest, whatever follows.
pub proof fn lemma_chunk_then_rest(m: MetaView, tag: Seq<u8>, body: Seq<u8>, rest: Seq<u8>)
    requires
        tag.len() == 4,
        tag != TAG_NEND@,
        body.len() < 0x1_0000_0000,
    ensures
        chunks_applied(m, chunk_bytes(tag, body) + rest) == match chunk_applied(m, tag, body) {
            Ok(next) => chunks_applied(next, rest),
            Err(e) => Err(e),
        },
{
    let all = chunk_bytes(tag, body) + rest;
    lemma_le32_of_bytes(body.len());
    assert(all.subrange(0, 4) =~= le32_bytes(body.len()));
    assert(le32(all, 0) == body.len());
    assert(all.subrange(4, 8) =~= tag);
    assert(all.subrange(8, 8 + body.len() as int) =~= body);
    assert(all.subrange(8 + body.len() as int, all.len() as int) =~= rest);
}

/// A number as four little-endian bytes.
pub open spec fn le32_bytes(n: nat) -> Seq<u8> {
    seq![
        (n % 0x100) as u8,
        (n / 0x100 % 0x100) as u8,
        (n / 0x1_0000 % 0x100) as u8,
        (n / 0x100_0000 % 0x100) as u8,
    ]
}

/// A chunk as bytes.
pub open spec fn chunk_bytes(tag: Seq<u8>, body: Seq<u8>) -> Seq<u8> {
    le32_bytes(body.len()) + tag + body
}

/// Four little-endian bytes give their number back.
#[verifier::spinoff_prover]
#[verifier::rlimit(60)]
pub proof fn lemma_le32_of_bytes(n: nat)
    requires
        n < 0x1_0000_0000,
    ensures
        le32(le32_bytes(n), 0) == n,
{
    let a = n / 0x100;
    let b = a / 0x100;
    let c = b / 0x100;
    assert(n / 0x1_0000 == b);
    assert(n / 0x100_0000 == c);
    assert(c < 0x100);
    assert(n == n % 0x100 + 0x100 * a);
    assert(a == a % 0x100 + 0x100 * b);
    assert(b == b % 0x100 + 0x100 * c);
    let s = le32_bytes(n);
    assert(s[0] == n % 0x100 && s[1] == a % 0x100 && s[2] == b % 0x100 && s[3] == c);
}

/// Whether `x` is a run of whole chunks: each size field is followed by a tag
/// and as many bytes as it says, with nothing left over.
pub open spec fn whole_chunks(x: Seq<u8>) -> bool
    decreases x.len(),
{
    x.len() == 0 || {
        &&& x.len() >= 8
        &&& 8 + le32(x, 0) <= x.len()
        &&& whole_chunks(x.subrange(8 + le32(x, 0), x.len() as int))
    }
}

/// Whether the metadata reader has a meaning for `tag`.
pub open spec fn known_metadata(tag: Seq<u8>) -> bool {
    tag == TAG_AUTH@ || tag == TAG_TLBL@ || tag == TAG_TAUT@ || tag == TAG_TEXT@ || tag == TAG_TIME@
        || tag == TAG_FADE@ || tag == TAG_PLST@ || tag == TAG_PSFX@ || tag == TAG_MIXE@ || tag
        == TAG_REGN@ || tag == TAG_RATE@ || tag == TAG_VRC7@ || tag == TAG_NEND@
}

/// The first chunk of a run of whole chunks stays the first, whatever follows
/// the run.
pub proof fn lemma_first_chunk_stays(x: Seq<u8>, tail: Seq<u8>)
    requires
        x.len() >= 8,
        8 + le32(x, 0) <= x.len(),
    ensures
        le32(x + tail, 0) == le32(x, 0),
        (x + tail).subrange(4, 8) == x.subrange(4, 8),
        (x + tail).subrange(8, 8 + le32(x, 0)) == x.subrange(8, 8 + le32(x, 0)),
        (x + tail).subrange(8 + le32(x, 0), (x + tail).len() as int) == x.subrange(
            8 + le32(x, 0),
            x.len() as int,
        ) + tail,
{
    let all = x + tail;
    let end = 8 + le32(x, 0);
    assert(all[0] == x[0] && all[1] == x[1] && all[2] == x[2] && all[3] == x[3]);
    assert(all.subrange(4, 8) =~= x.subrange(4, 8));
    assert(all.subrange(8, end) =~= x.subrange(8, end));
    assert(all.subrange(end, all.len() as int) =~= x.subrange(end, x.len() as int) + tail);
}

/// Two continuations that give the same metadata, whatever came before, also
/// do so behind a run of whole chunks.
proof fn lemma_same_behind_chunks(m: MetaView, x: Seq<u8>, y: Seq<u8>, z: Seq<u8>)
    requires
        whole_chunks(x),
        forall|k: MetaView| chunks_applied(k, y) == #[trigger] chunks_applied(k, z),
    ensures
        chunks_applied(m, x + y) == chunks_applied(m, x + z),
    decreases x.len(),
{
    if x.len() == 0 {
        assert(x + y =~= y);
        assert(x + z =~= z);
        assert(chunks_applied(m, y) == chunks_applied(m, z));
    } else {
        let end = 8 + le32(x, 0);
        let tag = x.subrange(4, 8);
        let rest = x.subrange(end, x.len() as int);
        lemma_first_chunk_stays(x, y);
        lemma_first_chunk_stays(x, z);
        match chunk_applied(m, tag, x.subrange(8, end)) {
            Ok(next) => lemma_same_behind_chunks(next, rest, y, z),
            Err(_) => {},
        }
    }
}

/// A chunk that is unknown and optional counts for nothing, behind any run of
/// whole chunks and in front of any bytes.
pub proof fn lemma_unknown_chunk_is_skipped(
    x: Seq<u8>,
    tag: Seq<u8>,
    body: Seq<u8>,
    y: Seq<u8>,
)
    requires
        whole_chunks(x),
        tag.len() == 4,
        !known_metadata(tag),
        !mandatory(tag),
        body.len() < 0x1_0000_0000,
    ensures
        metadata_of(x + chunk_bytes(tag, body) + y) == metadata_of(x + y),
{
    let with_chunk = chunk_bytes(tag, body) + y;
    assert forall|k: MetaView| chunks_applied(k, with_chunk) == #[trigger] chunks_applied(k, y) by {
        lemma_chunk_then_rest(k, tag, body, y);
    }
    lemma_same_behind_chunks(MetaView::empty(), x, with_chunk, y);
    assert(x + chunk_bytes(tag, body) + y =~= x + with_chunk);
}

/// Nothing behind the end marker counts, wherever the marker stands.
pub proof fn lemma_metadata_ends_at_marker(x: Seq<u8>, junk: Seq<u8>)
    requires
        whole_chunks(x),
    ensures
        metadata_of(x + (seq![0u8, 0u8, 0u8, 0u8] + TAG_NEND@) + junk) == metadata_of(
            x + (seq![0u8, 0u8, 0u8, 0u8] + TAG_NEND@),
        ),
{
    let e = seq![0u8, 0u8, 0u8, 0u8] + TAG_NEND@;
    assert forall|k: MetaView| chunks_applied(k, e + junk) == #[trigger] chunks_applied(k, e) by {
        lemma_end_marker_stops(k, junk);
        lemma_end_marker_stops(k, Seq::empty());
        assert(e + Seq::<u8>::empty() =~= e);
    }
    lemma_same_behind_chunks(MetaView::empty(), x, e + junk, e);
    assert(x + e + junk =~= x + (e + junk));
}

/// The two's complement of a number, as an unsigned one.
pub open spec fn unsigned(v: i32) -> nat {
    if v < 0 { (v + 0x1_0000_0000) as nat } else { v as nat }
}

/// Numbers as little-endian bytes, four each.
pub open spec fn i32_bytes(vs: Seq<i32>) -> Seq<u8> {
    Seq::new(4 * vs.len(), |k: int| le32_bytes(unsigned(vs[k / 4]))[k % 4])
}

/// Little-endian bytes give their numbers back; up to three bytes behind them
/// are dropped.
pub proof fn lemma_i32s_of_bytes(vs: Seq<i32>, surplus: Seq<u8>)
    requires
        surplus.len() < 4,
    ensures
        i32s_of(i32_bytes(vs) + surplus) == vs,
{
    let body = i32_bytes(vs) + surplus;
    assert(body.len() / 4 == vs.len());
    assert forall|i: int| 0 <= i < vs.len() implies i32s_of(body)[i] == vs[i] by {
        let word = le32_bytes(unsigned(vs[i]));
        lemma_le32_of_bytes(unsigned(vs[i]));
        assert(4 * i / 4 == i && (4 * i + 1) / 4 == i && (4 * i + 2) / 4 == i && (4 * i + 3) / 4
            == i);
        assert(body[4 * i] == word[0]);
        assert(body[4 * i + 1] == word[1]);
        assert(body[4 * i + 2] == word[2]);
        assert(body[4 * i + 3] == word[3]);
        assert(le32(body, 4 * i) == unsigned(vs[i]));
    }
    assert(i32s_of(body) =~= vs);
}

/// Track times and fades come back as they were written. One to three bytes at
/// the end of either chunk that make no number are dropped.
pub proof fn lemma_times_and_fades_come_back(
    times: Seq<i32>,
    time_surplus: Seq<u8>,
    fades: Seq<i32>,
    fade_surplus: Seq<u8>,
)
    requires
        time_surplus.len() < 4,
        fade_surplus.len() < 4,
        4 * times.len() + time_surplus.len() < 0x1_0000_0000,
        4 * fades.len() + fade_surplus.len() < 0x1_0000_0000,
    ensures
        metadata_of(
            chunk_bytes(TAG_TIME@, i32_bytes(times) + time_surplus) + chunk_bytes(
                TAG_FADE@,
                i32_bytes(fades) + fade_surplus,
            ),
        ) == Ok::<MetaView, MetaErrorView>(
            (MetaView { track_times_ms: times, track_fades_ms: fades, ..MetaView::empty() }),
        ),
{
    let time_body = i32_bytes(times) + time_surplus;
    let fade_body = i32_bytes(fades) + fade_surplus;
    let fade_chunk = chunk_bytes(TAG_FADE@, fade_body);
    let timed = MetaView { track_times_ms: times, ..MetaView::empty() };
    lemma_i32s_of_bytes(times, time_surplus);
    lemma_i32s_of_bytes(fades, fade_surplus);
    lemma_tags_differ();
    lemma_chunk_then_rest(MetaView::empty(), TAG_TIME@, time_body, fade_chunk);
    lemma_chunk_then_rest(timed, TAG_FADE@, fade_body, Seq::empty());
    assert(fade_chunk + Seq::<u8>::empty() =~= fade_chunk);
}

/// The tags of the track times and fades are like no tag that is tried before.
proof fn lemma_tags_differ()
    ensures
        TAG_TIME@ != TAG_NEND@ && TAG_TIME@ != TAG_AUTH@ && TAG_TIME@ != TAG_TLBL@ && TAG_TIME@
            != TAG_TAUT@ && TAG_TIME@ != TAG_TEXT@,
        TAG_FADE@ != TAG_NEND@ && TAG_FADE@ != TAG_AUTH@ && TAG_FADE@ != TAG_TLBL@ && TAG_FADE@
            != TAG_TAUT@ && TAG_FADE@ != TAG_TEXT@ && TAG_FADE@ != TAG_TIME@,
{
    assert(TAG_TIME@[0] == 0x74 && TAG_TIME@[1] == 0x69 && TAG_FADE@[0] == 0x66);
    assert(TAG_NEND@[0] == 0x4E && TAG_AUTH@[0] == 0x61 && TAG_TLBL@[1] == 0x6C && TAG_TAUT@[1]
        == 0x61 && TAG_TEXT@[1] == 0x65);
    assert(TAG_TLBL@[0] == 0x74 && TAG_TAUT@[0] == 0x74 && TAG_TEXT@[0] == 0x74);
}

/// Append a chunk to `out`: its size, its tag and its payload.
pub fn push_chunk(out: &mut Vec<u8>, tag: &[u8; 4], body: &[u8])
    requires
        body@.len() < 0x1_0000_0000,
    ensures
        final(out)@ == old(out)@ + chunk_bytes(tag@, body@),
{
    let n: u32 = body.len() as u32;
    out.push((n % 0x100) as u8);
    out.push((n / 0x100 % 0x100) as u8);
    out.push((n / 0x1_0000 % 0x100) as u8);
    out.push((n / 0x100_0000 % 0x100) as u8);
    out.push(tag[0]);
    out.push(tag[1]);
    out.push(tag[2]);
    out.push(tag[3]);
    let ghost head = out@;
    assert(head =~= old(out)@ + le32_bytes(body@.len()) + tag@);
    for i in 0..body.len()
        invariant
            out@ =~= head + body@.subrange(0, i as int),
    {
        out.push(body[i]);
    }
    assert(out@ =~= old(out)@ + chunk_bytes(tag@, body@));
}

} // verus!
