//! NSF, NSF2 and NSFe headers.
//!
//! An NSF file is a 128-byte header followed by the program. An NSF2 file may
//! carry metadata chunks behind the program. An NSFe file is a run of chunks
//! from the start.
use vstd::prelude::*;
use crate::nsfe::{
    chunk_bytes, copy_range, is_mandatory, le16, le32, mandatory, metadata_of, parse_metadata_chunks,
    parse_text, push_chunk, read_le16, read_le32, same_tag, MetaErrorView, MetaView, NsfeMetaError,
    NsfeMetadata, TAG_AUTH, TAG_FADE, TAG_MIXE, TAG_NEND, TAG_PLST, TAG_PSFX, TAG_RATE, TAG_REGN,
    TAG_TAUT, TAG_TEXT, TAG_TIME, TAG_TLBL, TAG_VRC7,
};
use crate::ratio::Ratio;
use crate::text::{pieces, string_views, text_of};

verus! {

/// `NESM` and an end-of-file byte.
pub const NSF_MAGIC: [u8; 5] = [0x4E, 0x45, 0x53, 0x4D, 0x1A];

/// `NSFE`.
pub const NSFE_MAGIC: [u8; 4] = [0x4E, 0x53, 0x46, 0x45];

/// Size of the fixed header.
pub const NSF_HEADER_LEN: usize = 0x80;

pub const TAG_INFO: [u8; 4] = [0x49, 0x4E, 0x46, 0x4F];
pub const TAG_DATA: [u8; 4] = [0x44, 0x41, 0x54, 0x41];
pub const TAG_BANK: [u8; 4] = [0x42, 0x41, 0x4E, 0x4B];
pub const TAG_NSF2: [u8; 4] = [0x4E, 0x53, 0x46, 0x32];

/// Region of a tune.
#[derive(Clone, Copy, Debug, PartialEq, Eq, Structural)]
pub enum NsfRegion {
    Ntsc,
    Pal,
    Dual,
}

impl NsfRegion {
    pub open spec fn of_byte(b: u8) -> Self {
        if b & 0x02 != 0 {
            NsfRegion::Dual
        } else if b & 0x01 != 0 {
            NsfRegion::Pal
        } else {
            NsfRegion::Ntsc
        }
    }

    /// Region in the low two bits of a byte.
    pub fn from_byte(b: u8) -> (r: Self)
        ensures
            r == Self::of_byte(b),
    {
        let pal = b & 0x01 != 0;
        let dual = b & 0x02 != 0;
        if dual {
            NsfRegion::Dual
        } else if pal {
            NsfRegion::Pal
        } else {
            NsfRegion::Ntsc
        }
    }
}

/// The byte that names the expansion chips of a tune.
#[derive(Clone, Copy, Debug, Default, PartialEq, Eq, Structural)]
pub struct ExpansionChips(pub u8);

impl ExpansionChips {
    pub fn vrc6(self) -> (r: bool)
        ensures
            r == (self.0 & 0x01 != 0),
    {
        self.0 & 0x01 != 0
    }

    pub fn vrc7(self) -> (r: bool)
        ensures
            r == (self.0 & 0x02 != 0),
    {
        self.0 & 0x02 != 0
    }

    pub fn fds(self) -> (r: bool)
        ensures
            r == (self.0 & 0x04 != 0),
    {
        self.0 & 0x04 != 0
    }

    pub fn mmc5(self) -> (r: bool)
        ensures
            r == (self.0 & 0x08 != 0),
    {
        self.0 & 0x08 != 0
    }

    pub fn n163(self) -> (r: bool)
        ensures
            r == (self.0 & 0x10 != 0),
    {
        self.0 & 0x10 != 0
    }

    pub fn s5b(self) -> (r: bool)
        ensures
            r == (self.0 & 0x20 != 0),
    {
        self.0 & 0x20 != 0
    }

    /// The seventh chip, which NSF2 added.
    pub fn vt02(self) -> (r: bool)
        ensures
            r == (self.0 & 0x40 != 0),
    {
        self.0 & 0x40 != 0
    }
}

/// The NSF2 feature byte. Its low four bits are reserved.
#[derive(Clone, Copy, Debug, Default, PartialEq, Eq, Structural)]
pub struct Nsf2Features(pub u8);

impl Nsf2Features {
    /// The tune uses the interrupt timer.
    pub fn irq_support(self) -> (r: bool)
        ensures
            r == (self.0 & 0x10 != 0),
    {
        self.0 & 0x10 != 0
    }

    /// INIT does not return.
    pub fn non_returning_init(self) -> (r: bool)
        ensures
            r == (self.0 & 0x20 != 0),
    {
        self.0 & 0x20 != 0
    }

    /// PLAY is never called.
    pub fn suppressed_play(self) -> (r: bool)
        ensures
            r == (self.0 & 0x40 != 0),
    {
        self.0 & 0x40 != 0
    }

    /// The appended metadata must be understood.
    pub fn mandatory_metadata(self) -> (r: bool)
        ensures
            r == (self.0 & 0x80 != 0),
    {
        self.0 & 0x80 != 0
    }

    /// The interrupt vectors must be overlaid.
    pub fn needs_vector_overlay(self) -> (r: bool)
        ensures
            r == (self.0 & 0x10 != 0 || self.0 & 0x20 != 0),
    {
        self.irq_support() || self.non_returning_init()
    }
}

/// A tune: its header and its program.
#[derive(Clone, Debug)]
pub struct NsfHeader {
    pub version: u8,
    pub total_songs: u8,
    pub starting_song: u8,
    pub load_addr: u16,
    pub init_addr: u16,
    pub play_addr: u16,
    pub song_name: String,
    pub artist: String,
    pub copyright: String,
    pub ntsc_speed_us: u16,
    pub pal_speed_us: u16,
    pub bankswitch_init: [u8; 8],
    pub region: NsfRegion,
    pub expansion: ExpansionChips,
    pub program: Vec<u8>,
    pub track_labels: Vec<String>,
    pub is_nsfe: bool,
    /// Zero unless the file is an NSF2 or an NSFe with the chunk for it.
    pub nsf2: Nsf2Features,
    /// Bytes behind the program of an NSF2 file, as they stand.
    pub nsf2_metadata: Vec<u8>,
    pub metadata: NsfeMetadata,
}

/// Why a file was refused.
#[derive(Debug, PartialEq, Eq)]
pub enum NsfError {
    TooShort { needed: usize, got: usize },
    BadMagic,
    BadVersion(u8),
    NoSongs,
    NsfeTruncatedChunk,
    NsfeChunkOverflow,
    NsfeMissingRequired(&'static str),
    NsfeUnknownMandatory([u8; 4]),
    /// The program length in the header runs past the end of the file.
    Nsf2DataLengthOverflow { declared: usize, available: usize },
    Metadata(NsfeMetaError),
}

/// Contents of [`NsfHeader`].
#[verifier::ext_equal]
pub struct HeaderView {
    pub version: u8,
    pub total_songs: u8,
    pub starting_song: u8,
    pub load_addr: u16,
    pub init_addr: u16,
    pub play_addr: u16,
    pub song_name: Seq<char>,
    pub artist: Seq<char>,
    pub copyright: Seq<char>,
    pub ntsc_speed_us: u16,
    pub pal_speed_us: u16,
    pub bankswitch_init: Seq<u8>,
    pub region: NsfRegion,
    pub expansion: ExpansionChips,
    pub program: Seq<u8>,
    pub track_labels: Seq<Seq<char>>,
    pub is_nsfe: bool,
    pub nsf2: Nsf2Features,
    pub nsf2_metadata: Seq<u8>,
    pub metadata: MetaView,
}

/// Contents of [`NsfError`].
pub enum ErrorView {
    TooShort { needed: nat, got: nat },
    BadMagic,
    BadVersion(u8),
    NoSongs,
    NsfeTruncatedChunk,
    NsfeChunkOverflow,
    NsfeMissingRequired(Seq<char>),
    NsfeUnknownMandatory(Seq<u8>),
    Nsf2DataLengthOverflow { declared: nat, available: nat },
    Metadata(MetaErrorView),
}

impl View for NsfHeader {
    type V = HeaderView;

    open spec fn view(&self) -> HeaderView {
        HeaderView {
            version: self.version,
            total_songs: self.total_songs,
            starting_song: self.starting_song,
            load_addr: self.load_addr,
            init_addr: self.init_addr,
            play_addr: self.play_addr,
            song_name: self.song_name@,
            artist: self.artist@,
            copyright: self.copyright@,
            ntsc_speed_us: self.ntsc_speed_us,
            pal_speed_us: self.pal_speed_us,
            bankswitch_init: self.bankswitch_init@,
            region: self.region,
            expansion: self.expansion,
            program: self.program@,
            track_labels: string_views(self.track_labels@),
            is_nsfe: self.is_nsfe,
            nsf2: self.nsf2,
            nsf2_metadata: self.nsf2_metadata@,
            metadata: self.metadata@,
        }
    }
}

impl View for NsfError {
    type V = ErrorView;

    open spec fn view(&self) -> ErrorView {
        match *self {
            NsfError::TooShort { needed, got } => ErrorView::TooShort {
                needed: needed as nat,
                got: got as nat,
            },
            NsfError::BadMagic => ErrorView::BadMagic,
            NsfError::BadVersion(v) => ErrorView::BadVersion(v),
            NsfError::NoSongs => ErrorView::NoSongs,
            NsfError::NsfeTruncatedChunk => ErrorView::NsfeTruncatedChunk,
            NsfError::NsfeChunkOverflow => ErrorView::NsfeChunkOverflow,
            NsfError::NsfeMissingRequired(name) => ErrorView::NsfeMissingRequired(name@),
            NsfError::NsfeUnknownMandatory(tag) => ErrorView::NsfeUnknownMandatory(tag@),
            NsfError::Nsf2DataLengthOverflow {
                declared,
                available,
            } => ErrorView::Nsf2DataLengthOverflow {
                declared: declared as nat,
                available: available as nat,
            },
            NsfError::Metadata(e) => ErrorView::Metadata(e@),
        }
    }
}

impl From<NsfeMetaError> for NsfError {
    fn from(err: NsfeMetaError) -> (r: Self) {
        NsfError::Metadata(err)
    }
}

impl vstd::std_specs::convert::FromSpecImpl<NsfeMetaError> for NsfError {
    open spec fn obeys_from_spec() -> bool {
        true
    }

    open spec fn from_spec(err: NsfeMetaError) -> Self {
        NsfError::Metadata(err)
    }
}

impl NsfHeader {
    /// Play rate of the region of the tune: one call per stored period, or
    /// the video rate of the region if no period is stored.
    pub fn play_rate_hz(&self) -> (r: Ratio)
        ensures
            r == match self.region {
                NsfRegion::Pal => if self.pal_speed_us == 0 {
                    Ratio { num: 50_006, den: 1000 }
                } else {
                    Ratio { num: 1_000_000, den: self.pal_speed_us as u64 }
                },
                _ => if self.ntsc_speed_us == 0 {
                    Ratio { num: 600_024, den: 10_000 }
                } else {
                    Ratio { num: 1_000_000, den: self.ntsc_speed_us as u64 }
                },
            },
            r.den > 0,
    {
        match self.region {
            NsfRegion::Pal => if self.pal_speed_us == 0 {
                Ratio { num: 50_006, den: 1000 }
            } else {
                Ratio { num: 1_000_000, den: self.pal_speed_us as u64 }
            },
            _ => if self.ntsc_speed_us == 0 {
                Ratio { num: 600_024, den: 10_000 }
            } else {
                Ratio { num: 1_000_000, den: self.ntsc_speed_us as u64 }
            },
        }
    }

    /// Whether the tune uses any expansion chip.
    pub fn has_expansion(&self) -> (r: bool)
        ensures
            r == (self.expansion.0 != 0),
    {
        self.expansion.0 != 0
    }
}

/// Text of a fixed-size field: up to the first NUL.
pub open spec fn field_text(b: Seq<u8>, from: int, to: int) -> Seq<char> {
    text_of(pieces(b.subrange(from, to))[0])
}

/// A string of the fixed header, or what the metadata says where it is empty.
pub open spec fn lifted(own: Seq<char>, other: Seq<char>) -> Seq<char> {
    if own.len() == 0 { other } else { own }
}

/// The program length in the header.
pub open spec fn declared_len(b: Seq<u8>) -> int {
    b[0x7d] + 0x100 * b[0x7e] + 0x1_0000 * b[0x7f]
}

/// Program of a file with a fixed header: all that follows the header, or
/// only its declared length if it has one.
pub open spec fn program_of(b: Seq<u8>) -> Seq<u8> {
    if declared_len(b) == 0 {
        b.subrange(0x80, b.len() as int)
    } else {
        b.subrange(0x80, 0x80 + declared_len(b))
    }
}

/// Bytes behind a program of declared length. Only an NSF2 file has any: in a
/// file of version 1 they are padding.
pub open spec fn appended_of(b: Seq<u8>) -> Seq<u8> {
    if b[5] < 2 || declared_len(b) == 0 {
        Seq::empty()
    } else {
        b.subrange(0x80 + declared_len(b), b.len() as int)
    }
}

/// The tune in a file with a fixed header, given its metadata.
pub open spec fn v1_header(b: Seq<u8>, m: MetaView) -> HeaderView {
    let title = field_text(b, 0x0e, 0x2e);
    let artist = field_text(b, 0x2e, 0x4e);
    let copyright = field_text(b, 0x4e, 0x6e);
    HeaderView {
        version: b[5],
        total_songs: b[6],
        starting_song: b[7],
        load_addr: le16(b, 0x08) as u16,
        init_addr: le16(b, 0x0a) as u16,
        play_addr: le16(b, 0x0c) as u16,
        song_name: match m.auth {
            Some(a) => lifted(title, a.title),
            None => title,
        },
        artist: match m.auth {
            Some(a) => lifted(artist, a.artist),
            None => artist,
        },
        copyright: match m.auth {
            Some(a) => lifted(copyright, a.copyright),
            None => copyright,
        },
        ntsc_speed_us: le16(b, 0x6e) as u16,
        pal_speed_us: le16(b, 0x78) as u16,
        bankswitch_init: b.subrange(0x70, 0x78),
        region: NsfRegion::of_byte(b[0x7a]),
        expansion: ExpansionChips(b[0x7b]),
        program: program_of(b),
        track_labels: m.track_labels,
        is_nsfe: false,
        nsf2: Nsf2Features(if b[5] >= 2 { b[0x7c] } else { 0 }),
        nsf2_metadata: appended_of(b),
        metadata: MetaView { track_labels: Seq::empty(), ..m },
    }
}

/// What a file with a fixed header holds.
pub open spec fn v1_of(b: Seq<u8>) -> Result<HeaderView, ErrorView> {
    if b.len() < NSF_HEADER_LEN {
        Err(ErrorView::TooShort { needed: NSF_HEADER_LEN as nat, got: b.len() })
    } else if b.subrange(0, 5) != NSF_MAGIC@ {
        Err(ErrorView::BadMagic)
    } else if b[5] == 0 {
        Err(ErrorView::BadVersion(0))
    } else if b[6] == 0 {
        Err(ErrorView::NoSongs)
    } else if declared_len(b) > b.len() - NSF_HEADER_LEN {
        Err(
            ErrorView::Nsf2DataLengthOverflow {
                declared: declared_len(b) as nat,
                available: (b.len() - NSF_HEADER_LEN) as nat,
            },
        )
    } else {
        match metadata_of(appended_of(b)) {
            Ok(m) => Ok(v1_header(b, m)),
            Err(e) => Err(ErrorView::Metadata(e)),
        }
    }
}

/// The `INFO` chunk.
#[derive(Clone, Copy, Debug, PartialEq, Eq, Structural)]
pub struct NsfeInfo {
    pub load_addr: u16,
    pub init_addr: u16,
    pub play_addr: u16,
    pub region: u8,
    pub expansion: u8,
    pub total_songs: u8,
    pub starting_song: u8,
}

/// What the `INFO` payload says; song count and first song default to 1 and 0.
pub open spec fn info_of(body: Seq<u8>) -> NsfeInfo {
    NsfeInfo {
        load_addr: le16(body, 0) as u16,
        init_addr: le16(body, 2) as u16,
        play_addr: le16(body, 4) as u16,
        region: body[6],
        expansion: body[7],
        total_songs: if body.len() > 8 { body[8] } else { 1 },
        starting_song: if body.len() > 9 { body[9] } else { 0 },
    }
}

/// Tags that the metadata reader knows.
pub open spec fn known_extended(tag: Seq<u8>) -> bool {
    tag == TAG_AUTH@ || tag == TAG_TLBL@ || tag == TAG_TAUT@ || tag == TAG_TEXT@ || tag == TAG_TIME@
        || tag == TAG_FADE@ || tag == TAG_PLST@ || tag == TAG_PSFX@ || tag == TAG_MIXE@ || tag
        == TAG_REGN@ || tag == TAG_RATE@ || tag == TAG_VRC7@
}

/// What has been gathered from the chunks of an NSFe file.
#[verifier::ext_equal]
pub struct WalkView {
    pub info: Option<NsfeInfo>,
    pub data: Option<Seq<u8>>,
    pub bank: Option<Seq<u8>>,
    pub features: Option<u8>,
    /// The chunks that are left to the metadata reader.
    pub meta: Seq<u8>,
}

impl WalkView {
    pub open spec fn empty() -> Self {
        WalkView { info: None, data: None, bank: None, features: None, meta: Seq::empty() }
    }
}

/// The eight bank bytes of a `BANK` payload, filled up with zeros.
pub open spec fn bank_of(body: Seq<u8>) -> Seq<u8> {
    Seq::new(8, |i: int| if i < body.len() { body[i] } else { 0u8 })
}

/// Effect of one NSFe chunk other than the end marker.
pub open spec fn chunk_taken(w: WalkView, tag: Seq<u8>, body: Seq<u8>) -> Result<
    WalkView,
    ErrorView,
> {
    if tag == TAG_INFO@ {
        if body.len() < 8 {
            Err(ErrorView::NsfeTruncatedChunk)
        } else {
            Ok(WalkView { info: Some(info_of(body)), ..w })
        }
    } else if tag == TAG_DATA@ {
        Ok(WalkView { data: Some(body), ..w })
    } else if tag == TAG_BANK@ {
        Ok(WalkView { bank: Some(bank_of(body)), ..w })
    } else if tag == TAG_NSF2@ {
        Ok(WalkView { features: Some(if body.len() > 0 { body[0] } else { 0 }), ..w })
    } else if !known_extended(tag) && mandatory(tag) {
        Err(ErrorView::NsfeUnknownMandatory(tag))
    } else {
        Ok(WalkView { meta: w.meta + chunk_bytes(tag, body), ..w })
    }
}

/// What is gathered after the chunks in `rest`, up to the end marker.
pub open spec fn chunks_taken(w: WalkView, rest: Seq<u8>) -> Result<WalkView, ErrorView>
    decreases rest.len(),
{
    if rest.len() == 0 {
        Ok(w)
    } else if rest.len() < 8 {
        Err(ErrorView::NsfeTruncatedChunk)
    } else if 8 + le32(rest, 0) > rest.len() {
        Err(ErrorView::NsfeChunkOverflow)
    } else {
        let end = 8 + le32(rest, 0);
        let tag = rest.subrange(4, 8);
        if tag == TAG_NEND@ {
            Ok(w)
        } else {
            match chunk_taken(w, tag, rest.subrange(8, end)) {
                Ok(next) => chunks_taken(next, rest.subrange(end, rest.len() as int)),
                Err(e) => Err(e),
            }
        }
    }
}

/// Region of an NSFe tune: the preferred one of the `regn` chunk, where Dendy
/// plays on the PAL clock, else the one of the `INFO` chunk.
pub open spec fn nsfe_region(m: MetaView, info: NsfeInfo) -> NsfRegion {
    match m.regions {
        Some(r) => match r.preferred {
            Some(0) => NsfRegion::Ntsc,
            Some(1) => NsfRegion::Pal,
            Some(2) => NsfRegion::Pal,
            _ => NsfRegion::of_byte(info.region),
        },
        None => NsfRegion::of_byte(info.region),
    }
}

/// The tune that the gathered chunks and their metadata make up.
pub open spec fn nsfe_header(w: WalkView, m: MetaView) -> HeaderView {
    let info = w.info->0;
    HeaderView {
        version: 1,
        total_songs: info.total_songs,
        starting_song: info.starting_song,
        load_addr: info.load_addr,
        init_addr: info.init_addr,
        play_addr: info.play_addr,
        song_name: match m.auth {
            Some(a) => a.title,
            None => Seq::empty(),
        },
        artist: match m.auth {
            Some(a) => a.artist,
            None => Seq::empty(),
        },
        copyright: match m.auth {
            Some(a) => a.copyright,
            None => Seq::empty(),
        },
        ntsc_speed_us: match m.rate {
            Some(r) => match r.ntsc_us {
                Some(us) => us,
                None => 0,
            },
            None => 0,
        },
        pal_speed_us: match m.rate {
            Some(r) => match r.pal_us {
                Some(us) => us,
                None => 0,
            },
            None => 0,
        },
        bankswitch_init: match w.bank {
            Some(b) => b,
            None => Seq::new(8, |i: int| 0u8),
        },
        region: nsfe_region(m, info),
        expansion: ExpansionChips(info.expansion),
        program: w.data->0,
        track_labels: m.track_labels,
        is_nsfe: true,
        nsf2: Nsf2Features(
            match w.features {
                Some(f) => f,
                None => 0,
            },
        ),
        nsf2_metadata: Seq::empty(),
        metadata: MetaView { track_labels: Seq::empty(), ..m },
    }
}

/// The chunks of an NSFe file; bytes that end within the magic hold none.
pub open spec fn behind_magic(b: Seq<u8>) -> Seq<u8> {
    if b.len() < 4 { Seq::empty() } else { b.subrange(4, b.len() as int) }
}

/// What an NSFe file holds.
pub open spec fn nsfe_of(b: Seq<u8>) -> Result<HeaderView, ErrorView> {
    match chunks_taken(WalkView::empty(), behind_magic(b)) {
        Err(e) => Err(e),
        Ok(w) => if w.info is None {
            Err(ErrorView::NsfeMissingRequired("INFO"@))
        } else if w.data is None {
            Err(ErrorView::NsfeMissingRequired("DATA"@))
        } else {
            match metadata_of(w.meta) {
                Ok(m) => Ok(nsfe_header(w, m)),
                Err(e) => Err(ErrorView::Metadata(e)),
            }
        },
    }
}

/// What a file holds.
pub open spec fn tune_of(b: Seq<u8>) -> Result<HeaderView, ErrorView> {
    if b.len() >= 4 && b.subrange(0, 4) == NSFE_MAGIC@ {
        nsfe_of(b)
    } else {
        v1_of(b)
    }
}

/// A result of the reader, by its contents.
pub open spec fn outcome(r: Result<NsfHeader, NsfError>) -> Result<HeaderView, ErrorView> {
    match r {
        Ok(h) => Ok(h@),
        Err(e) => Err(e@),
    }
}

/// Read an NSF, NSF2 or NSFe file.
pub fn parse_nsf(bytes: &[u8]) -> (r: Result<NsfHeader, NsfError>)
    ensures
        outcome(r) == tune_of(bytes@),
{
    if bytes.len() >= 4 {
        let magic: [u8; 4] = [bytes[0], bytes[1], bytes[2], bytes[3]];
        assert(magic@ =~= bytes@.subrange(0, 4));
        if same_tag(&magic, &NSFE_MAGIC) {
            return parse_nsfe(bytes);
        }
    }
    parse_nsf_v1(bytes)
}

fn has_nsf_magic(bytes: &[u8]) -> (r: bool)
    requires
        bytes@.len() >= 5,
    ensures
        r == (bytes@.subrange(0, 5) == NSF_MAGIC@),
{
    let r = bytes[0] == NSF_MAGIC[0] && bytes[1] == NSF_MAGIC[1] && bytes[2] == NSF_MAGIC[2]
        && bytes[3] == NSF_MAGIC[3] && bytes[4] == NSF_MAGIC[4];
    proof {
        let s = bytes@.subrange(0, 5);
        if r {
            assert(s =~= NSF_MAGIC@);
        } else {
            assert(s[0] != NSF_MAGIC@[0] || s[1] != NSF_MAGIC@[1] || s[2] != NSF_MAGIC@[2] || s[3]
                != NSF_MAGIC@[3] || s[4] != NSF_MAGIC@[4]);
        }
    }
    r
}

/// Text of a fixed-size field.
pub fn read_nsf_string(field: &[u8]) -> (r: String)
    ensures
        r@ == text_of(pieces(field@)[0]),
{
    parse_text(field)
}

/// `own`, or a copy of `other` if it is empty.
fn lift(own: String, other: &String) -> (r: String)
    ensures
        r@ == lifted(own@, other@),
{
    if own.as_str().is_empty() {
        other.clone()
    } else {
        own
    }
}

/// Read a file with a fixed header.
pub fn parse_nsf_v1(bytes: &[u8]) -> (r: Result<NsfHeader, NsfError>)
    ensures
        outcome(r) == v1_of(bytes@),
{
    if bytes.len() < NSF_HEADER_LEN {
        return Err(NsfError::TooShort { needed: NSF_HEADER_LEN, got: bytes.len() });
    }
    if !has_nsf_magic(bytes) {
        return Err(NsfError::BadMagic);
    }
    let version: u8 = bytes[0x05];
    if version == 0 {
        return Err(NsfError::BadVersion(version));
    }
    let total_songs: u8 = bytes[0x06];
    if total_songs == 0 {
        return Err(NsfError::NoSongs);
    }
    let available: usize = bytes.len() - NSF_HEADER_LEN;
    let declared: usize = bytes[0x7d] as usize + 0x100 * bytes[0x7e] as usize + 0x1_0000
        * bytes[0x7f] as usize;
    if declared > available {
        return Err(NsfError::Nsf2DataLengthOverflow { declared, available });
    }
    let split: usize = if declared == 0 { bytes.len() } else { NSF_HEADER_LEN + declared };
    let program = copy_range(bytes, NSF_HEADER_LEN, split);
    let tail: usize = if version < 2 { bytes.len() } else { split };
    let nsf2_metadata = copy_range(bytes, tail, bytes.len());
    assert(nsf2_metadata@ =~= appended_of(bytes@));
    let mut metadata = match parse_metadata_chunks(nsf2_metadata.as_slice()) {
        Ok(m) => m,
        Err(e) => {
            return Err(NsfError::from(e));
        },
    };
    let ghost m = metadata@;
    let mut song_name = read_nsf_string(&bytes[0x0e..0x2e]);
    let mut artist = read_nsf_string(&bytes[0x2e..0x4e]);
    let mut copyright = read_nsf_string(&bytes[0x4e..0x6e]);
    if let Some(auth) = &metadata.auth {
        song_name = lift(song_name, &auth.title);
        artist = lift(artist, &auth.artist);
        copyright = lift(copyright, &auth.copyright);
    }
    let mut track_labels: Vec<String> = Vec::new();
    std::mem::swap(&mut track_labels, &mut metadata.track_labels);
    assert(metadata@ =~= MetaView { track_labels: Seq::empty(), ..m });
    let bankswitch_init: [u8; 8] = [
        bytes[0x70],
        bytes[0x71],
        bytes[0x72],
        bytes[0x73],
        bytes[0x74],
        bytes[0x75],
        bytes[0x76],
        bytes[0x77],
    ];
    assert(bankswitch_init@ =~= bytes@.subrange(0x70, 0x78));
    let h = NsfHeader {
        version,
        total_songs,
        starting_song: bytes[0x07],
        load_addr: read_le16(bytes, 0x08),
        init_addr: read_le16(bytes, 0x0a),
        play_addr: read_le16(bytes, 0x0c),
        song_name,
        artist,
        copyright,
        ntsc_speed_us: read_le16(bytes, 0x6e),
        pal_speed_us: read_le16(bytes, 0x78),
        bankswitch_init,
        region: NsfRegion::from_byte(bytes[0x7a]),
        expansion: ExpansionChips(bytes[0x7b]),
        program,
        track_labels,
        is_nsfe: false,
        nsf2: Nsf2Features(if version >= 2 { bytes[0x7c] } else { 0 }),
        nsf2_metadata,
        metadata,
    };
    assert(h@ =~= v1_header(bytes@, m));
    Ok(h)
}

/// Chunks gathered from an NSFe file.
struct NsfeWalk {
    info: Option<NsfeInfo>,
    data: Option<Vec<u8>>,
    bank_init: Option<[u8; 8]>,
    nsf2_features: Option<u8>,
    meta_blob: Vec<u8>,
}

impl View for NsfeWalk {
    type V = WalkView;

    closed spec fn view(&self) -> WalkView {
        WalkView {
            info: self.info,
            data: match self.data {
                Some(d) => Some(d@),
                None => None,
            },
            bank: match self.bank_init {
                Some(b) => Some(b@),
                None => None,
            },
            features: self.nsf2_features,
            meta: self.meta_blob@,
        }
    }
}

impl NsfeWalk {
    fn take_chunk(&mut self, tag: [u8; 4], body: &[u8]) -> (r: Result<(), NsfError>)
        requires
            body@.len() < 0x1_0000_0000,
        ensures
            match r {
                Ok(_) => chunk_taken(old(self)@, tag@, body@) == Ok::<WalkView, ErrorView>(
                    final(self)@,
                ),
                Err(e) => chunk_taken(old(self)@, tag@, body@) == Err::<WalkView, ErrorView>(e@),
            },
    {
        if same_tag(&tag, &TAG_INFO) {
            match parse_nsfe_info(body) {
                Ok(info) => {
                    self.info = Some(info);
                },
                Err(e) => {
                    return Err(e);
                },
            }
        } else if same_tag(&tag, &TAG_DATA) {
            let data = copy_range(body, 0, body.len());
            assert(data@ =~= body@);
            self.data = Some(data);
        } else if same_tag(&tag, &TAG_BANK) {
            let mut b: [u8; 8] = [0u8; 8];
            let n: usize = if body.len() < 8 { body.len() } else { 8 };
            for i in 0..n
                invariant
                    n <= 8,
                    n <= body@.len(),
                    forall|k: int| 0 <= k < 8 ==> #[trigger] b[k] == (if k < i { body@[k] } else { 0u8 }),
            {
                b[i] = body[i];
            }
            assert(b@ =~= bank_of(body@));
            self.bank_init = Some(b);
        } else if same_tag(&tag, &TAG_NSF2) {
            self.nsf2_features = Some(if body.len() > 0 { body[0] } else { 0 });
        } else {
            if !is_known_extended(&tag) && is_mandatory(&tag) {
                return Err(NsfError::NsfeUnknownMandatory(tag));
            }
            push_chunk(&mut self.meta_blob, &tag, body);
        }
        Ok(())
    }
}

/// Gather the chunks of an NSFe file.
fn walk_nsfe(bytes: &[u8]) -> (r: Result<NsfeWalk, NsfError>)
    ensures
        match r {
            Ok(w) => chunks_taken(WalkView::empty(), behind_magic(bytes@)) == Ok::<
                WalkView,
                ErrorView,
            >(w@),
            Err(e) => chunks_taken(WalkView::empty(), behind_magic(bytes@)) == Err::<
                WalkView,
                ErrorView,
            >(e@),
        },
{
    let mut walk = NsfeWalk {
        info: None,
        data: None,
        bank_init: None,
        nsf2_features: None,
        meta_blob: Vec::new(),
    };
    assert(walk@ =~= WalkView::empty());
    if bytes.len() < 4 {
        return Ok(walk);
    }
    let mut cursor: usize = 4;
    while cursor < bytes.len()
        invariant
            4 <= cursor <= bytes@.len(),
            chunks_taken(WalkView::empty(), behind_magic(bytes@))
                == chunks_taken(walk@, bytes@.subrange(cursor as int, bytes@.len() as int)),
        decreases bytes@.len() - cursor,
    {
        let ghost rest = bytes@.subrange(cursor as int, bytes@.len() as int);
        if bytes.len() - cursor < 8 {
            return Err(NsfError::NsfeTruncatedChunk);
        }
        let size: u32 = read_le32(bytes, cursor);
        let fcc: [u8; 4] = [
            bytes[cursor + 4],
            bytes[cursor + 5],
            bytes[cursor + 6],
            bytes[cursor + 7],
        ];
        assert(fcc@ =~= rest.subrange(4, 8));
        if size as usize > bytes.len() - cursor - 8 {
            return Err(NsfError::NsfeChunkOverflow);
        }
        let body_start: usize = cursor + 8;
        let body_end: usize = body_start + size as usize;
        let body = &bytes[body_start..body_end];
        assert(body@ =~= rest.subrange(8, 8 + size));
        assert(rest.subrange(8 + size, rest.len() as int) =~= bytes@.subrange(
            body_end as int,
            bytes@.len() as int,
        ));
        if same_tag(&fcc, &TAG_NEND) {
            return Ok(walk);
        }
        match walk.take_chunk(fcc, body) {
            Ok(_) => {},
            Err(e) => {
                return Err(e);
            },
        }
        cursor = body_end;
    }
    Ok(walk)
}

/// Read an NSFe file.
pub fn parse_nsfe(bytes: &[u8]) -> (r: Result<NsfHeader, NsfError>)
    ensures
        outcome(r) == nsfe_of(bytes@),
{
    let walk = match walk_nsfe(bytes) {
        Ok(w) => w,
        Err(e) => {
            return Err(e);
        },
    };
    let ghost w = walk@;
    let info = match walk.info {
        Some(i) => i,
        None => {
            return Err(NsfError::NsfeMissingRequired("INFO"));
        },
    };
    let program = match walk.data {
        Some(d) => d,
        None => {
            return Err(NsfError::NsfeMissingRequired("DATA"));
        },
    };
    let mut metadata = match parse_metadata_chunks(walk.meta_blob.as_slice()) {
        Ok(m) => m,
        Err(e) => {
            return Err(NsfError::from(e));
        },
    };
    let ghost m = metadata@;
    let mut song_name: String = String::new();
    let mut artist: String = String::new();
    let mut copyright: String = String::new();
    if let Some(auth) = &metadata.auth {
        song_name = auth.title.clone();
        artist = auth.artist.clone();
        copyright = auth.copyright.clone();
    }
    let mut track_labels: Vec<String> = Vec::new();
    std::mem::swap(&mut track_labels, &mut metadata.track_labels);
    assert(metadata@ =~= MetaView { track_labels: Seq::empty(), ..m });
    let (ntsc_speed_us, pal_speed_us): (u16, u16) = match metadata.rate {
        Some(rate) => (
            match rate.ntsc_us {
                Some(us) => us,
                None => 0,
            },
            match rate.pal_us {
                Some(us) => us,
                None => 0,
            },
        ),
        None => (0, 0),
    };
    let region = match metadata.regions {
        Some(r) => match r.preferred {
            Some(0) => NsfRegion::Ntsc,
            Some(1) => NsfRegion::Pal,
            Some(2) => NsfRegion::Pal,
            _ => NsfRegion::from_byte(info.region),
        },
        None => NsfRegion::from_byte(info.region),
    };
    let bankswitch_init: [u8; 8] = match walk.bank_init {
        Some(b) => b,
        None => [0u8; 8],
    };
    assert(walk.bank_init is None ==> bankswitch_init@ =~= Seq::new(8, |i: int| 0u8));
    let features: u8 = match walk.nsf2_features {
        Some(f) => f,
        None => 0,
    };
    let h = NsfHeader {
        version: 1,
        total_songs: info.total_songs,
        starting_song: info.starting_song,
        load_addr: info.load_addr,
        init_addr: info.init_addr,
        play_addr: info.play_addr,
        song_name,
        artist,
        copyright,
        ntsc_speed_us,
        pal_speed_us,
        bankswitch_init,
        region,
        expansion: ExpansionChips(info.expansion),
        program,
        track_labels,
        is_nsfe: true,
        nsf2: Nsf2Features(features),
        nsf2_metadata: Vec::new(),
        metadata,
    };
    assert(h@ =~= nsfe_header(w, m));
    Ok(h)
}

/// Read an `INFO` payload.
pub fn parse_nsfe_info(body: &[u8]) -> (r: Result<NsfeInfo, NsfError>)
    ensures
        match r {
            Ok(info) => body@.len() >= 8 && info == info_of(body@),
            Err(e) => body@.len() < 8 && e@ == ErrorView::NsfeTruncatedChunk,
        },
{
    if body.len() < 8 {
        return Err(NsfError::NsfeTruncatedChunk);
    }
    Ok(
        NsfeInfo {
            load_addr: read_le16(body, 0),
            init_addr: read_le16(body, 2),
            play_addr: read_le16(body, 4),
            region: body[6],
            expansion: body[7],
            total_songs: if body.len() > 8 { body[8] } else { 1 },
            starting_song: if body.len() > 9 { body[9] } else { 0 },
        },
    )
}

/// Whether the metadata reader knows a tag.
pub fn is_known_extended(fcc: &[u8; 4]) -> (r: bool)
    ensures
        r == known_extended(fcc@),
{
    same_tag(fcc, &TAG_AUTH) || same_tag(fcc, &TAG_TLBL) || same_tag(fcc, &TAG_TAUT) || same_tag(
        fcc,
        &TAG_TEXT,
    ) || same_tag(fcc, &TAG_TIME) || same_tag(fcc, &TAG_FADE) || same_tag(fcc, &TAG_PLST)
        || same_tag(fcc, &TAG_PSFX) || same_tag(fcc, &TAG_MIXE) || same_tag(fcc, &TAG_REGN)
        || same_tag(fcc, &TAG_RATE) || same_tag(fcc, &TAG_VRC7)
}

/// A file that is accepted with a fixed header has at least one song and a
/// version. One of a version below 2 has no features and no metadata.
pub proof fn lemma_accepted_v1(b: Seq<u8>)
    ensures
        v1_of(b) matches Ok(h) ==> {
            &&& h.version >= 1 && h.total_songs >= 1
            &&& h.version < 2 ==> h.nsf2 == Nsf2Features(0) && h.nsf2_metadata.len() == 0
                && h.metadata == MetaView::empty() && h.track_labels.len() == 0
        },
        b.len() >= NSF_HEADER_LEN && b[5] < 2 ==> !(v1_of(b) matches Err(ErrorView::Metadata(_))),
{
}

/// Program and appended bytes together are all that follows the fixed header
/// of an NSF2 file, and of any file whose program runs to its end.
pub proof fn lemma_tail_is_split(b: Seq<u8>)
    requires
        b.len() >= NSF_HEADER_LEN,
        declared_len(b) <= b.len() - NSF_HEADER_LEN,
        b[5] >= 2 || declared_len(b) == 0 || declared_len(b) == b.len() - NSF_HEADER_LEN,
    ensures
        program_of(b) + appended_of(b) == b.subrange(0x80, b.len() as int),
{
    assert(program_of(b) + appended_of(b) =~= b.subrange(0x80, b.len() as int));
}

/// In a file of version 1 the byte of the NSF2 features counts for nothing.
#[verifier::spinoff_prover]
pub proof fn lemma_v1_has_no_features(b: Seq<u8>, c: Seq<u8>)
    requires
        b.len() == c.len(),
        b.len() >= NSF_HEADER_LEN,
        b.subrange(0, 5) == NSF_MAGIC@,
        b[5] == 1,
        forall|i: int| 0 <= i < b.len() && i != 0x7c ==> b[i] == #[trigger] c[i],
    ensures
        v1_of(b) == v1_of(c),
        tune_of(b) == tune_of(c),
        v1_of(b) matches Ok(h) ==> h.nsf2 == Nsf2Features(0),
{
    let n = b.len() as int;
    assert(b.subrange(0, 4) =~= c.subrange(0, 4));
    assert(b.subrange(0, 5) =~= c.subrange(0, 5));
    assert(b.subrange(0x0e, 0x2e) =~= c.subrange(0x0e, 0x2e));
    assert(b.subrange(0x2e, 0x4e) =~= c.subrange(0x2e, 0x4e));
    assert(b.subrange(0x4e, 0x6e) =~= c.subrange(0x4e, 0x6e));
    assert(b.subrange(0x70, 0x78) =~= c.subrange(0x70, 0x78));
    assert(b.subrange(0, 5)[1] == 0x45);
    assert(b.subrange(0, 4)[1] == b.subrange(0, 5)[1]);
    assert(NSFE_MAGIC@[1] == 0x53);
    assert(declared_len(b) == declared_len(c));
    if declared_len(b) <= n - 0x80 {
        assert(program_of(b) =~= program_of(c));
    }
}

/// Two continuations that give the same, whatever was gathered before, also do
/// so behind a run of whole chunks.
proof fn lemma_same_behind_chunks(w: WalkView, x: Seq<u8>, y: Seq<u8>, z: Seq<u8>)
    requires
        crate::nsfe::whole_chunks(x),
        forall|k: WalkView| chunks_taken(k, y) == #[trigger] chunks_taken(k, z),
    ensures
        chunks_taken(w, x + y) == chunks_taken(w, x + z),
    decreases x.len(),
{
    if x.len() == 0 {
        assert(x + y =~= y);
        assert(x + z =~= z);
        assert(chunks_taken(w, y) == chunks_taken(w, z));
    } else {
        let end = 8 + le32(x, 0);
        let tag = x.subrange(4, 8);
        let rest = x.subrange(end, x.len() as int);
        crate::nsfe::lemma_first_chunk_stays(x, y);
        crate::nsfe::lemma_first_chunk_stays(x, z);
        match chunk_taken(w, tag, x.subrange(8, end)) {
            Ok(next) => lemma_same_behind_chunks(next, rest, y, z),
            Err(_) => {},
        }
    }
}

/// The end marker stops the walk: nothing behind it counts.
proof fn lemma_marker_stops(w: WalkView, tail: Seq<u8>)
    ensures
        chunks_taken(w, seq![0u8, 0u8, 0u8, 0u8] + TAG_NEND@ + tail) == Ok::<WalkView, ErrorView>(
            w,
        ),
{
    let rest = seq![0u8, 0u8, 0u8, 0u8] + TAG_NEND@ + tail;
    assert(rest.subrange(4, 8) =~= TAG_NEND@);
}

proof fn lemma_walk_ends_at_marker(w: WalkView, x: Seq<u8>, junk: Seq<u8>)
    requires
        crate::nsfe::whole_chunks(x),
    ensures
        chunks_taken(w, x + (seq![0u8, 0u8, 0u8, 0u8] + TAG_NEND@ + junk)) == chunks_taken(
            w,
            x + (seq![0u8, 0u8, 0u8, 0u8] + TAG_NEND@),
        ),
{
    let e = seq![0u8, 0u8, 0u8, 0u8] + TAG_NEND@;
    assert forall|k: WalkView| chunks_taken(k, e + junk) == #[trigger] chunks_taken(k, e) by {
        lemma_marker_stops(k, junk);
        lemma_marker_stops(k, Seq::empty());
        assert(e + Seq::<u8>::empty() =~= e);
    }
    lemma_same_behind_chunks(w, x, e + junk, e);
}

/// Nothing behind the end marker of an NSFe file counts, whatever chunks come
/// before it.
pub proof fn lemma_nsfe_ends_at_marker(x: Seq<u8>, junk: Seq<u8>)
    requires
        crate::nsfe::whole_chunks(x),
    ensures
        nsfe_of(NSFE_MAGIC@ + x + (seq![0u8, 0u8, 0u8, 0u8] + TAG_NEND@) + junk) == nsfe_of(
            NSFE_MAGIC@ + x + (seq![0u8, 0u8, 0u8, 0u8] + TAG_NEND@),
        ),
        tune_of(NSFE_MAGIC@ + x + (seq![0u8, 0u8, 0u8, 0u8] + TAG_NEND@) + junk) == tune_of(
            NSFE_MAGIC@ + x + (seq![0u8, 0u8, 0u8, 0u8] + TAG_NEND@),
        ),
{
    let e = seq![0u8, 0u8, 0u8, 0u8] + TAG_NEND@;
    let short = NSFE_MAGIC@ + x + e;
    let long = short + junk;
    lemma_walk_ends_at_marker(WalkView::empty(), x, junk);
    assert(behind_magic(short) =~= x + e);
    assert(behind_magic(long) =~= x + (e + junk));
    assert(short.subrange(0, 4) =~= NSFE_MAGIC@);
    assert(long.subrange(0, 4) =~= NSFE_MAGIC@);
}

} // verus!
