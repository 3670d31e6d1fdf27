//! The fixed table of field patterns, compiled once into a registry that
//! every extraction reads.
use crate::matcher::regex_accepts;
use crate::pattern::Pattern;
use regex::Regex;
use vstd::prelude::*;

verus! {
pub const SEASON_PATTERN: &'static str = r"(?i)s?(?P<short>\d+) ?[ex]|(?:season)(?:[^\d]|$)(?P<long>\d+)|s(?P<dash>\d+) - \d+|\.s(?P<collection>\d){1,2}\.";
pub const EPISODE_PATTERN: &'static str = r"(?i)(?:e|episode)[^.\d]?(?P<short>\d{1,3})|\d+x(?P<cross>\d+)|s\d+ - (?P<dash>\d+)";
pub const LAST_EPISODE_PATTERN: &'static str = r"(?i)(?:e)(?:\d+)(?:[- ]+)?(?:e(?P<last>\d+))+";
pub const YEAR_PATTERN: &'static str = r"(?P<year>(1[89]|20)\d\d)";
pub const RESOLUTION_PATTERN: &'static str = r"((\d{3,4}p))[^M]";
pub const QUALITY_PATTERN: &'static str = r"(?:PPV\.)?[HP]DTV|(?:HD)?CAM|B[rR]Rip|TS|(?:PPV )?WEB-?(DL)?(?: DVDRip)?|H[dD]Rip|DVDRip|DVDRiP|DVDRIP|CamRip|W[EB]B[rR]ip|[Bb]lu[Rr]ay|DvDScr|hdtv";
pub const CODEC_PATTERN: &'static str = r"(?i)xvid|x264|h\.?264/?|x265|h\.?265|hevc?";
pub const AUDIO_PATTERN: &'static str = r"MP3|DD5\.?1|Dual[\- ]Audio|LiNE|DTS|AAC(?:\.?2\.0)?|AC3(?:\.5\.1)?";
pub const GROUP_PATTERN: &'static str = r"(- ?([^ -]+(?:-=\{[^ -]+-?$)?))$";
pub const REGION_PATTERN: &'static str = r"R\d";
pub const EXTENDED_PATTERN: &'static str = r"EXTENDED";
pub const HARDCODED_PATTERN: &'static str = r"HC";
pub const PROPER_PATTERN: &'static str = r"PROPER";
pub const REPACK_PATTERN: &'static str = r"REPACK";
pub const CONTAINER_PATTERN: &'static str = r"MKV|AVI";
pub const WIDESCREEN_PATTERN: &'static str = r"WS";
pub const THREE_D_PATTERN: &'static str = r"3D";
pub const UNRATED_PATTERN: &'static str = r"UNRATED";
pub const LANGUAGE_PATTERN: &'static str = r"rus\.eng|US";
pub const GARBAGE_PATTERN: &'static str = r"1400Mb|3rd Nov|((Rip)) ";
pub const IMDB_PATTERN: &'static str = r"tt\d{7}";
pub const WEBSITE_PATTERN: &'static str = r"^(\[ ?([^\]]+?) ?\]) ?";
pub const FILE_EXTENSION_PATTERN: &'static str = r"(?i)(?:\.)(?P<extension>[a-z]{2,4}(?:\d)?|m4v|3gp|h26[45])$";

/// The fields that the registry holds a pattern for.
#[derive(Clone, Copy, Debug, PartialEq, Eq, Structural)]
pub enum Field {
    Season,
    Episode,
    LastEpisode,
    Year,
    Resolution,
    Quality,
    Codec,
    Audio,
    Group,
    Region,
    Extended,
    Hardcoded,
    Proper,
    Repack,
    Container,
    Widescreen,
    ThreeD,
    Unrated,
    Language,
    Garbage,
    Imdb,
    Website,
    FileExtension,
}

impl Field {
    /// The pattern text of the field.
    pub open spec fn spec_source(self) -> Seq<char> {
        match self {
            Field::Season => SEASON_PATTERN@,
            Field::Episode => EPISODE_PATTERN@,
            Field::LastEpisode => LAST_EPISODE_PATTERN@,
            Field::Year => YEAR_PATTERN@,
            Field::Resolution => RESOLUTION_PATTERN@,
            Field::Quality => QUALITY_PATTERN@,
            Field::Codec => CODEC_PATTERN@,
            Field::Audio => AUDIO_PATTERN@,
            Field::Group => GROUP_PATTERN@,
            Field::Region => REGION_PATTERN@,
            Field::Extended => EXTENDED_PATTERN@,
            Field::Hardcoded => HARDCODED_PATTERN@,
            Field::Proper => PROPER_PATTERN@,
            Field::Repack => REPACK_PATTERN@,
            Field::Container => CONTAINER_PATTERN@,
            Field::Widescreen => WIDESCREEN_PATTERN@,
            Field::ThreeD => THREE_D_PATTERN@,
            Field::Unrated => UNRATED_PATTERN@,
            Field::Language => LANGUAGE_PATTERN@,
            Field::Garbage => GARBAGE_PATTERN@,
            Field::Imdb => IMDB_PATTERN@,
            Field::Website => WEBSITE_PATTERN@,
            Field::FileExtension => FILE_EXTENSION_PATTERN@,
        }
    }

    /// A prefix tag: its match moves the title's start rather than its end.
    pub open spec fn spec_before_title(self) -> bool {
        self is Website
    }

    /// The last admitted match decides, rather than the first.
    pub open spec fn spec_capture_last(self) -> bool {
        self is Year
    }

    /// A match with a digit right beside it is not admitted.
    pub open spec fn spec_no_numbers_surrounding(self) -> bool {
        self is Year
    }

    pub fn source(self) -> (r: &'static str)
        ensures
            r@ == self.spec_source(),
    {
        match self {
            Field::Season => SEASON_PATTERN,
            Field::Episode => EPISODE_PATTERN,
            Field::LastEpisode => LAST_EPISODE_PATTERN,
            Field::Year => YEAR_PATTERN,
            Field::Resolution => RESOLUTION_PATTERN,
            Field::Quality => QUALITY_PATTERN,
            Field::Codec => CODEC_PATTERN,
            Field::Audio => AUDIO_PATTERN,
            Field::Group => GROUP_PATTERN,
            Field::Region => REGION_PATTERN,
            Field::Extended => EXTENDED_PATTERN,
            Field::Hardcoded => HARDCODED_PATTERN,
            Field::Proper => PROPER_PATTERN,
            Field::Repack => REPACK_PATTERN,
            Field::Container => CONTAINER_PATTERN,
            Field::Widescreen => WIDESCREEN_PATTERN,
            Field::ThreeD => THREE_D_PATTERN,
            Field::Unrated => UNRATED_PATTERN,
            Field::Language => LANGUAGE_PATTERN,
            Field::Garbage => GARBAGE_PATTERN,
            Field::Imdb => IMDB_PATTERN,
            Field::Website => WEBSITE_PATTERN,
            Field::FileExtension => FILE_EXTENSION_PATTERN,
        }
    }

    /// The field's name in diagnostics.
    pub open spec fn spec_label(self) -> Seq<char> {
        match self {
            Field::Season => "season"@,
            Field::Episode => "episode"@,
            Field::LastEpisode => "last_episode"@,
            Field::Year => "year"@,
            Field::Resolution => "resolution"@,
            Field::Quality => "quality"@,
            Field::Codec => "codec"@,
            Field::Audio => "audio"@,
            Field::Group => "group"@,
            Field::Region => "region"@,
            Field::Extended => "extended"@,
            Field::Hardcoded => "hardcoded"@,
            Field::Proper => "proper"@,
            Field::Repack => "repack"@,
            Field::Container => "container"@,
            Field::Widescreen => "widescreen"@,
            Field::ThreeD => "three_d"@,
            Field::Unrated => "unrated"@,
            Field::Language => "language"@,
            Field::Garbage => "garbage"@,
            Field::Imdb => "imdb"@,
            Field::Website => "website"@,
            Field::FileExtension => "extension"@,
        }
    }

    pub fn label(self) -> (r: &'static str)
        ensures
            r@ == self.spec_label(),
    {
        match self {
            Field::Season => "season",
            Field::Episode => "episode",
            Field::LastEpisode => "last_episode",
            Field::Year => "year",
            Field::Resolution => "resolution",
            Field::Quality => "quality",
            Field::Codec => "codec",
            Field::Audio => "audio",
            Field::Group => "group",
            Field::Region => "region",
            Field::Extended => "extended",
            Field::Hardcoded => "hardcoded",
            Field::Proper => "proper",
            Field::Repack => "repack",
            Field::Container => "container",
            Field::Widescreen => "widescreen",
            Field::ThreeD => "three_d",
            Field::Unrated => "unrated",
            Field::Language => "language",
            Field::Garbage => "garbage",
            Field::Imdb => "imdb",
            Field::Website => "website",
            Field::FileExtension => "extension",
        }
    }

    pub fn before_title(self) -> (r: bool)
        ensures
            r == self.spec_before_title(),
    {
        matches!(self, Field::Website)
    }

    pub fn capture_last(self) -> (r: bool)
        ensures
            r == self.spec_capture_last(),
    {
        matches!(self, Field::Year)
    }

    pub fn no_numbers_surrounding(self) -> (r: bool)
        ensures
            r == self.spec_no_numbers_surrounding(),
    {
        matches!(self, Field::Year)
    }
}

/// Whether a pattern is the one of a field: its text and its three rules.
pub open spec fn fits(p: Pattern, f: Field) -> bool {
    &&& p.source() == f.spec_source()
    &&& p.spec_before_title() == f.spec_before_title()
    &&& p.spec_capture_last() == f.spec_capture_last()
    &&& p.spec_no_numbers_surrounding() == f.spec_no_numbers_surrounding()
}

/// Whether every field's pattern text compiles.
pub open spec fn all_compile() -> bool {
    forall|f: Field| regex_accepts(#[trigger] f.spec_source())
}

/// Compiles the pattern of one field.
pub fn compile(field: Field) -> (r: Option<Pattern>)
    ensures
        r is Some <==> regex_accepts(field.spec_source()),
        r matches Some(p) ==> fits(p, field),
{
    match Regex::new(field.source()) {
        Ok(re) => Some(
            Pattern::new(re, field.before_title(), field.capture_last(), field.no_numbers_surrounding()),
        ),
        Err(_) => None,
    }
}

/// One compiled pattern per field.
#[derive(Debug)]
pub struct PatternRegistry {
    season: Pattern,
    episode: Pattern,
    last_episode: Pattern,
    year: Pattern,
    resolution: Pattern,
    quality: Pattern,
    codec: Pattern,
    audio: Pattern,
    group: Pattern,
    region: Pattern,
    extended: Pattern,
    hardcoded: Pattern,
    proper: Pattern,
    repack: Pattern,
    container: Pattern,
    widescreen: Pattern,
    three_d: Pattern,
    unrated: Pattern,
    language: Pattern,
    garbage: Pattern,
    imdb: Pattern,
    website: Pattern,
    file_extension: Pattern,
}

impl PatternRegistry {
    /// The pattern held for a field.
    pub closed spec fn spec_lookup(&self, f: Field) -> Pattern {
        match f {
            Field::Season => self.season,
            Field::Episode => self.episode,
            Field::LastEpisode => self.last_episode,
            Field::Year => self.year,
            Field::Resolution => self.resolution,
            Field::Quality => self.quality,
            Field::Codec => self.codec,
            Field::Audio => self.audio,
            Field::Group => self.group,
            Field::Region => self.region,
            Field::Extended => self.extended,
            Field::Hardcoded => self.hardcoded,
            Field::Proper => self.proper,
            Field::Repack => self.repack,
            Field::Container => self.container,
            Field::Widescreen => self.widescreen,
            Field::ThreeD => self.three_d,
            Field::Unrated => self.unrated,
            Field::Language => self.language,
            Field::Garbage => self.garbage,
            Field::Imdb => self.imdb,
            Field::Website => self.website,
            Field::FileExtension => self.file_extension,
        }
    }

    /// Each field's pattern is the one of the table.
    pub open spec fn wf(&self) -> bool {
        forall|f: Field| fits(#[trigger] self.spec_lookup(f), f)
    }

    pub fn lookup(&self, f: Field) -> (r: &Pattern)
        ensures
            *r == self.spec_lookup(f),
    {
        match f {
            Field::Season => &self.season,
            Field::Episode => &self.episode,
            Field::LastEpisode => &self.last_episode,
            Field::Year => &self.year,
            Field::Resolution => &self.resolution,
            Field::Quality => &self.quality,
            Field::Codec => &self.codec,
            Field::Audio => &self.audio,
            Field::Group => &self.group,
            Field::Region => &self.region,
            Field::Extended => &self.extended,
            Field::Hardcoded => &self.hardcoded,
            Field::Proper => &self.proper,
            Field::Repack => &self.repack,
            Field::Container => &self.container,
            Field::Widescreen => &self.widescreen,
            Field::ThreeD => &self.three_d,
            Field::Unrated => &self.unrated,
            Field::Language => &self.language,
            Field::Garbage => &self.garbage,
            Field::Imdb => &self.imdb,
            Field::Website => &self.website,
            Field::FileExtension => &self.file_extension,
        }
    }

    /// Compiles every field's pattern; `None` when one of them does not compile.
    pub fn new() -> (r: Option<Self>)
        ensures
            r is Some <==> all_compile(),
            r matches Some(reg) ==> reg.wf(),
    {
        let season = match compile(Field::Season) {
            Some(p) => p,
            None => {
                return None;
            },
        };
        let episode = match compile(Field::Episode) {
            Some(p) => p,
            None => {
                return None;
            },
        };
        let last_episode = match compile(Field::LastEpisode) {
            Some(p) => p,
            None => {
                return None;
            },
        };
        let year = match compile(Field::Year) {
            Some(p) => p,
            None => {
                return None;
            },
        };
        let resolution = match compile(Field::Resolution) {
            Some(p) => p,
            None => {
                return None;
            },
        };
        let quality = match compile(Field::Quality) {
            Some(p) => p,
            None => {
                return None;
            },
        };
        let codec = match compile(Field::Codec) {
            Some(p) => p,
            None => {
                return None;
            },
        };
        let audio = match compile(Field::Audio) {
            Some(p) => p,
            None => {
                return None;
            },
        };
        let group = match compile(Field::Group) {
            Some(p) => p,
            None => {
                return None;
            },
        };
        let region = match compile(Field::Region) {
            Some(p) => p,
            None => {
                return None;
            },
        };
        let extended = match compile(Field::Extended) {
            Some(p) => p,
            None => {
                return None;
            },
        };
        let hardcoded = match compile(Field::Hardcoded) {
            Some(p) => p,
            None => {
                return None;
            },
        };
        let proper = match compile(Field::Proper) {
            Some(p) => p,
            None => {
                return None;
            },
        };
        let repack = match compile(Field::Repack) {
            Some(p) => p,
            None => {
                return None;
            },
        };
        let container = match compile(Field::Container) {
            Some(p) => p,
            None => {
                return None;
            },
        };
        let widescreen = match compile(Field::Widescreen) {
            Some(p) => p,
            None => {
                return None;
            },
        };
        let three_d = match compile(Field::ThreeD) {
            Some(p) => p,
            None => {
                return None;
            },
        };
        let unrated = match compile(Field::Unrated) {
            Some(p) => p,
            None => {
                return None;
            },
        };
        let language = match compile(Field::Language) {
            Some(p) => p,
            None => {
                return None;
            },
        };
        let garbage = match compile(Field::Garbage) {
            Some(p) => p,
            None => {
                return None;
            },
        };
        let imdb = match compile(Field::Imdb) {
            Some(p) => p,
            None => {
                return None;
            },
        };
        let website = match compile(Field::Website) {
            Some(p) => p,
            None => {
                return None;
            },
        };
        let file_extension = match compile(Field::FileExtension) {
            Some(p) => p,
            None => {
                return None;
            },
        };
        let reg = PatternRegistry {
            season,
            episode,
            last_episode,
            year,
            resolution,
            quality,
            codec,
            audio,
            group,
            region,
            extended,
            hardcoded,
            proper,
            repack,
            container,
            widescreen,
            three_d,
            unrated,
            language,
            garbage,
            imdb,
            website,
            file_extension,
        };
        assert forall|f: Field| fits(#[trigger] reg.spec_lookup(f), f) by {
            match f {
                Field::Season => {},
                Field::Episode => {},
                Field::LastEpisode => {},
                Field::Year => {},
                Field::Resolution => {},
                Field::Quality => {},
                Field::Codec => {},
                Field::Audio => {},
                Field::Group => {},
                Field::Region => {},
                Field::Extended => {},
                Field::Hardcoded => {},
                Field::Proper => {},
                Field::Repack => {},
                Field::Container => {},
                Field::Widescreen => {},
                Field::ThreeD => {},
                Field::Unrated => {},
                Field::Language => {},
                Field::Garbage => {},
                Field::Imdb => {},
                Field::Website => {},
                Field::FileExtension => {},
            }
        }
        assert forall|f: Field| regex_accepts(#[trigger] f.spec_source()) by {
            match f {
                Field::Season => {},
                Field::Episode => {},
                Field::LastEpisode => {},
                Field::Year => {},
                Field::Resolution => {},
                Field::Quality => {},
                Field::Codec => {},
                Field::Audio => {},
                Field::Group => {},
                Field::Region => {},
                Field::Extended => {},
                Field::Hardcoded => {},
                Field::Proper => {},
                Field::Repack => {},
                Field::Container => {},
                Field::Widescreen => {},
                Field::ThreeD => {},
                Field::Unrated => {},
                Field::Language => {},
                Field::Garbage => {},
                Field::Imdb => {},
                Field::Website => {},
                Field::FileExtension => {},
            }
        }
        Some(reg)
    }
}

} // verus!
