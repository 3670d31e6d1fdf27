//! Extraction: every field pattern applied to a name, the title boundaries
//! they leave, and the metadata record built from them.
use crate::error::ErrorMatch;
use crate::matcher::{slices, spans_ok};
use crate::pattern::{decisive, Groups};
use crate::registry::{all_compile, fits, Field, PatternRegistry};
use vstd::utf8::is_char_boundary;
use crate::text::{chars_of, decimal, parse_decimal, slice, substr};
use crate::title::{sanitize, sanitize_title};
use vstd::math::{max, min};
use vstd::prelude::*;
use vstd::string::StringSliceAdditionalSpecFns;

verus! {

/// The match that decides field `f` in `name`.
pub open spec fn hit(f: Field, name: &str) -> Option<Groups> {
    decisive(f.spec_source(), f.spec_capture_last(), f.spec_no_numbers_surrounding(), name)
}

/// The span of group `i` of a match, if the group took part.
pub open spec fn group(m: Groups, i: int) -> Option<(usize, usize)> {
    if 0 <= i < m.len() {
        m[i]
    } else {
        None
    }
}

/// The span of a field's value within its match: the groups the field reads,
/// tried in order of preference (season: short, long, dash, collection form;
/// episode: short, cross, dash form), else the whole match.
pub open spec fn value_in(f: Field, m: Groups) -> Option<(usize, usize)> {
    match f {
        Field::Season => if group(m, 1) is Some {
            group(m, 1)
        } else if group(m, 2) is Some {
            group(m, 2)
        } else if group(m, 3) is Some {
            group(m, 3)
        } else {
            group(m, 4)
        },
        Field::Episode => if group(m, 1) is Some {
            group(m, 1)
        } else if group(m, 2) is Some {
            group(m, 2)
        } else {
            group(m, 3)
        },
        Field::LastEpisode | Field::Year | Field::Resolution | Field::FileExtension => group(m, 1),
        Field::Group => group(m, 2),
        _ => group(m, 0),
    }
}

/// The field matches that `name` holds: for each field, its decisive match.
pub open spec fn found_in(name: &str) -> spec_fn(Field) -> Option<Groups> {
    |f: Field| hit(f, name)
}

/// The span of field `f`'s value, given each field's decisive match.
pub open spec fn value_span(f: Field, hits: spec_fn(Field) -> Option<Groups>) -> Option<(usize, usize)> {
    match hits(f) {
        Some(m) => value_in(f, m),
        None => None,
    }
}

/// The text at a span of `name`.
pub open spec fn text_at(name: &str, sp: Option<(usize, usize)>) -> Option<Seq<char>> {
    match sp {
        Some(s) => Some(substr(name.spec_bytes(), s.0 as int, s.1 as int)),
        None => None,
    }
}

/// The number written at a span of `name`.
pub open spec fn number_at(name: &str, sp: Option<(usize, usize)>) -> Option<i32> {
    match sp {
        Some(s) => decimal(name.spec_bytes().subrange(s.0 as int, s.1 as int)),
        None => None,
    }
}

/// No span, or one whose digits make an `i32`.
pub open spec fn fits_number(name: &str, sp: Option<(usize, usize)>) -> bool {
    sp is Some ==> number_at(name, sp) is Some
}

/// The last-episode token that counts: looked for only once an episode was
/// found, and ignored when it is a lone `0`.
pub open spec fn last_episode_span(name: &str, hits: spec_fn(Field) -> Option<Groups>) -> Option<(usize, usize)> {
    if value_span(Field::Episode, hits) is Some {
        match value_span(Field::LastEpisode, hits) {
            Some(sp) => if name.spec_bytes().subrange(sp.0 as int, sp.1 as int) == seq![48u8] {
                None
            } else {
                Some(sp)
            },
            None => None,
        }
    } else {
        None
    }
}

/// Every number found (season, episode, year, last episode) is written in
/// ASCII digits and fits an `i32`.
pub open spec fn numbers_fit(name: &str, hits: spec_fn(Field) -> Option<Groups>) -> bool {
    &&& fits_number(name, value_span(Field::Season, hits))
    &&& fits_number(name, value_span(Field::Episode, hits))
    &&& fits_number(name, value_span(Field::Year, hits))
    &&& fits_number(name, last_episode_span(name, hits))
}

/// The episodes `first..=last`, ascending; empty when `last < first`.
pub open spec fn episode_range(first: i32, last: i32) -> Seq<i32> {
    Seq::new(
        if first <= last {
            (last - first + 1) as nat
        } else {
            0
        },
        |i: int| (first + i) as i32,
    )
}

/// The episode list: the range from the episode to the last episode, or
/// empty when there is no last episode.
pub open spec fn spec_episodes(name: &str, hits: spec_fn(Field) -> Option<Groups>) -> Seq<i32> {
    match (
        number_at(name, value_span(Field::Episode, hits)),
        number_at(name, last_episode_span(name, hits)),
    ) {
        (Some(first), Some(last)) => episode_range(first, last),
        _ => Seq::empty(),
    }
}

/// A match narrows the title: a prefix tag moves the start to its end, any
/// other tag moves the end to its start.
pub open spec fn narrow(iv: (int, int), f: Field, h: Option<Groups>) -> (int, int) {
    match h {
        Some(m) => if m.len() > 0 {
            match m[0] {
                Some(sp) => if f.spec_before_title() {
                    (max(iv.0, sp.1 as int), iv.1)
                } else {
                    (iv.0, min(iv.1, sp.0 as int))
                },
                None => iv,
            }
        } else {
            iv
        },
        None => iv,
    }
}

/// The title's byte boundaries in `name` once every field's match narrowed
/// them (the last-episode pattern only once an episode was found).
pub open spec fn title_bounds(name: &str, hits: spec_fn(Field) -> Option<Groups>) -> (int, int) {
    let iv = (0int, name.spec_bytes().len() as int);
    let iv = narrow(iv, Field::Season, hits(Field::Season));
    let iv = narrow(iv, Field::Episode, hits(Field::Episode));
    let iv = if value_span(Field::Episode, hits) is Some {
        narrow(iv, Field::LastEpisode, hits(Field::LastEpisode))
    } else {
        iv
    };
    let iv = narrow(iv, Field::Year, hits(Field::Year));
    let iv = narrow(iv, Field::Resolution, hits(Field::Resolution));
    let iv = narrow(iv, Field::Quality, hits(Field::Quality));
    let iv = narrow(iv, Field::Codec, hits(Field::Codec));
    let iv = narrow(iv, Field::Audio, hits(Field::Audio));
    let iv = narrow(iv, Field::Group, hits(Field::Group));
    let iv = narrow(iv, Field::Imdb, hits(Field::Imdb));
    let iv = narrow(iv, Field::FileExtension, hits(Field::FileExtension));
    let iv = narrow(iv, Field::Extended, hits(Field::Extended));
    let iv = narrow(iv, Field::Hardcoded, hits(Field::Hardcoded));
    let iv = narrow(iv, Field::Proper, hits(Field::Proper));
    let iv = narrow(iv, Field::Repack, hits(Field::Repack));
    let iv = narrow(iv, Field::Widescreen, hits(Field::Widescreen));
    let iv = narrow(iv, Field::Unrated, hits(Field::Unrated));
    let iv = narrow(iv, Field::ThreeD, hits(Field::ThreeD));
    let iv = narrow(iv, Field::Region, hits(Field::Region));
    let iv = narrow(iv, Field::Container, hits(Field::Container));
    let iv = narrow(iv, Field::Language, hits(Field::Language));
    let iv = narrow(iv, Field::Garbage, hits(Field::Garbage));
    let iv = narrow(iv, Field::Website, hits(Field::Website));
    iv
}

/// Whether a file extension names a subtitle format, in any letter case.
pub open spec fn subtitle_ext(e: Seq<char>) -> bool {
    let l = e.map_values(|c: char| ascii_lower(c));
    l == seq!['s', 'r', 't'] || l == seq!['s', 's', 'a'] || l == seq!['s', 'v', 'b'] || l == seq![
        'v',
        't',
        't',
    ] || l == seq!['t', 't', 'm', 'l'] || l == seq!['d', 'f', 'x', 'p']
}

/// A character with ASCII capitals made small.
pub open spec fn ascii_lower(c: char) -> char {
    if 'A' <= c <= 'Z' {
        ((c as u8) + 32) as u8 as char
    } else {
        c
    }
}

/// What extraction finds in a name, as plain values.
pub struct MetadataView {
    pub title: Seq<char>,
    pub season: Option<i32>,
    pub episode: Option<i32>,
    pub episodes: Seq<i32>,
    pub year: Option<i32>,
    pub resolution: Option<Seq<char>>,
    pub quality: Option<Seq<char>>,
    pub codec: Option<Seq<char>>,
    pub audio: Option<Seq<char>>,
    pub group: Option<Seq<char>>,
    pub extended: bool,
    pub hardcoded: bool,
    pub proper: bool,
    pub repack: bool,
    pub widescreen: bool,
    pub unrated: bool,
    pub three_d: bool,
    pub imdb: Option<Seq<char>>,
    pub extension: Option<Seq<char>>,
    pub is_subtitle: bool,
}

/// The record extracted from `name` when its title boundaries hold a title.
pub open spec fn spec_metadata(name: &str, hits: spec_fn(Field) -> Option<Groups>) -> MetadataView {
    let iv = title_bounds(name, hits);
    let extension = text_at(name, value_span(Field::FileExtension, hits));
    MetadataView {
        title: sanitize(substr(name.spec_bytes(), iv.0, iv.1)),
        season: number_at(name, value_span(Field::Season, hits)),
        episode: number_at(name, value_span(Field::Episode, hits)),
        episodes: spec_episodes(name, hits),
        year: number_at(name, value_span(Field::Year, hits)),
        resolution: text_at(name, value_span(Field::Resolution, hits)),
        quality: text_at(name, value_span(Field::Quality, hits)),
        codec: text_at(name, value_span(Field::Codec, hits)),
        audio: text_at(name, value_span(Field::Audio, hits)),
        group: text_at(name, value_span(Field::Group, hits)),
        extended: hits(Field::Extended) is Some,
        hardcoded: hits(Field::Hardcoded) is Some,
        proper: hits(Field::Proper) is Some,
        repack: hits(Field::Repack) is Some,
        widescreen: hits(Field::Widescreen) is Some,
        unrated: hits(Field::Unrated) is Some,
        three_d: hits(Field::ThreeD) is Some,
        imdb: text_at(name, value_span(Field::Imdb, hits)),
        extension,
        is_subtitle: match extension {
            Some(e) => subtitle_ext(e),
            None => false,
        },
    }
}

/// The fields reported on failure, in order.
pub open spec fn diagnostic_fields() -> Seq<Field> {
    seq![
        Field::Season,
        Field::Episode,
        Field::Year,
        Field::FileExtension,
        Field::Resolution,
        Field::Quality,
        Field::Codec,
        Field::Audio,
        Field::Group,
        Field::Imdb,
        Field::Extended,
        Field::Hardcoded,
        Field::Proper,
        Field::Repack,
        Field::Widescreen,
        Field::Unrated,
        Field::ThreeD,
        Field::Region,
        Field::Container,
        Field::Language,
        Field::Garbage,
        Field::Website,
    ]
}

/// The diagnostic entry of a field: its name and the text its value has in `name`.
pub open spec fn diagnostic(name: &str, hits: spec_fn(Field) -> Option<Groups>, f: Field) -> (Seq<char>, Option<Seq<char>>) {
    (f.spec_label(), text_at(name, value_span(f, hits)))
}

/// What a failed extraction of `name` reports.
pub open spec fn spec_diagnostics(name: &str, hits: spec_fn(Field) -> Option<Groups>) -> Seq<(Seq<char>, Option<Seq<char>>)> {
    diagnostic_fields().map_values(|f: Field| diagnostic(name, hits, f))
}

/// Whether extraction of `name` succeeds: the title boundaries leave room,
/// and every number found fits.
pub open spec fn extracts(name: &str, hits: spec_fn(Field) -> Option<Groups>) -> bool {
    title_bounds(name, hits).0 < title_bounds(name, hits).1 && numbers_fit(name, hits)
}

/// When extraction of `name` succeeds and finds a last episode `last` no
/// smaller than its episode `first`, the episode list is the strictly
/// ascending run `first, first + 1, ..., last`: it starts at the episode, each
/// entry is one more than the one before, and it has `last - first + 1` entries.
pub proof fn lemma_episode_range(name: &str, hits: spec_fn(Field) -> Option<Groups>, first: i32, last: i32)
    requires
        extracts(name, hits),
        spec_metadata(name, hits).episode == Some(first),
        number_at(name, last_episode_span(name, hits)) == Some(last),
        first <= last,
    ensures
        spec_metadata(name, hits).episodes.len() == last - first + 1,
        spec_metadata(name, hits).episodes[0] == first,
        forall|i: int|
            0 <= i < spec_metadata(name, hits).episodes.len() - 1 ==> #[trigger] spec_metadata(
                name,
                hits,
            ).episodes[i + 1] == spec_metadata(name, hits).episodes[i] + 1,
        forall|i: int, j: int|
            0 <= i < j < spec_metadata(name, hits).episodes.len() ==> spec_metadata(name, hits).episodes[i]
                < spec_metadata(name, hits).episodes[j],
{
    let eps = spec_metadata(name, hits).episodes;
    assert(eps == episode_range(first, last));
    assert forall|i: int| 0 <= i < eps.len() implies #[trigger] eps[i] == first + i by {}
}

/// Metadata of one release name.
#[derive(Clone, Debug)]
pub struct Metadata {
    title: String,
    season: Option<i32>,
    episode: Option<i32>,
    episodes: Vec<i32>,
    year: Option<i32>,
    resolution: Option<String>,
    quality: Option<String>,
    codec: Option<String>,
    audio: Option<String>,
    group: Option<String>,
    extended: bool,
    hardcoded: bool,
    proper: bool,
    repack: bool,
    widescreen: bool,
    unrated: bool,
    three_d: bool,
    imdb: Option<String>,
    extension: Option<String>,
    is_subtitle: bool,
}

/// The decisive match of every field in a name: what the field patterns
/// found, as the byte spans of each match's groups.
pub struct FieldMatches {
    season: Option<Vec<Option<(usize, usize)>>>,
    episode: Option<Vec<Option<(usize, usize)>>>,
    last_episode: Option<Vec<Option<(usize, usize)>>>,
    year: Option<Vec<Option<(usize, usize)>>>,
    resolution: Option<Vec<Option<(usize, usize)>>>,
    quality: Option<Vec<Option<(usize, usize)>>>,
    codec: Option<Vec<Option<(usize, usize)>>>,
    audio: Option<Vec<Option<(usize, usize)>>>,
    group: Option<Vec<Option<(usize, usize)>>>,
    imdb: Option<Vec<Option<(usize, usize)>>>,
    extension: Option<Vec<Option<(usize, usize)>>>,
    extended: Option<Vec<Option<(usize, usize)>>>,
    hardcoded: Option<Vec<Option<(usize, usize)>>>,
    proper: Option<Vec<Option<(usize, usize)>>>,
    repack: Option<Vec<Option<(usize, usize)>>>,
    widescreen: Option<Vec<Option<(usize, usize)>>>,
    unrated: Option<Vec<Option<(usize, usize)>>>,
    three_d: Option<Vec<Option<(usize, usize)>>>,
    region: Option<Vec<Option<(usize, usize)>>>,
    container: Option<Vec<Option<(usize, usize)>>>,
    language: Option<Vec<Option<(usize, usize)>>>,
    garbage: Option<Vec<Option<(usize, usize)>>>,
    website: Option<Vec<Option<(usize, usize)>>>,
}

impl FieldMatches {
    /// The match held for a field.
    pub closed spec fn found(&self, f: Field) -> Option<Groups> {
        match f {
            Field::Season => self.season.deep_view(),
            Field::Episode => self.episode.deep_view(),
            Field::LastEpisode => self.last_episode.deep_view(),
            Field::Year => self.year.deep_view(),
            Field::Resolution => self.resolution.deep_view(),
            Field::Quality => self.quality.deep_view(),
            Field::Codec => self.codec.deep_view(),
            Field::Audio => self.audio.deep_view(),
            Field::Group => self.group.deep_view(),
            Field::Imdb => self.imdb.deep_view(),
            Field::FileExtension => self.extension.deep_view(),
            Field::Extended => self.extended.deep_view(),
            Field::Hardcoded => self.hardcoded.deep_view(),
            Field::Proper => self.proper.deep_view(),
            Field::Repack => self.repack.deep_view(),
            Field::Widescreen => self.widescreen.deep_view(),
            Field::Unrated => self.unrated.deep_view(),
            Field::ThreeD => self.three_d.deep_view(),
            Field::Region => self.region.deep_view(),
            Field::Container => self.container.deep_view(),
            Field::Language => self.language.deep_view(),
            Field::Garbage => self.garbage.deep_view(),
            Field::Website => self.website.deep_view(),
        }
    }

    pub open spec fn hits(&self) -> spec_fn(Field) -> Option<Groups> {
        |f: Field| self.found(f)
    }

    /// Every match held has its whole-match group, and its spans slice `name`.
    pub open spec fn wf(&self, name: &str) -> bool {
        forall|f: Field| (#[trigger] self.found(f)) is Some ==> spans_ok(self.found(f)->0, name.spec_bytes())
    }

    /// No field matched.
    pub fn new() -> (r: FieldMatches)
        ensures
            forall|f: Field| (#[trigger] r.found(f)) is None,
    {
        FieldMatches {
            season: None,
            episode: None,
            last_episode: None,
            year: None,
            resolution: None,
            quality: None,
            codec: None,
            audio: None,
            group: None,
            imdb: None,
            extension: None,
            extended: None,
            hardcoded: None,
            proper: None,
            repack: None,
            widescreen: None,
            unrated: None,
            three_d: None,
            region: None,
            container: None,
            language: None,
            garbage: None,
            website: None,
        }
    }

    /// Records the match of field `f`.
    pub fn set(&mut self, f: Field, m: Option<Vec<Option<(usize, usize)>>>)
        ensures
            final(self).found(f) == m.deep_view(),
            forall|g: Field| g != f ==> #[trigger] final(self).found(g) == old(self).found(g),
    {
        match f {
            Field::Season => self.season = m,
            Field::Episode => self.episode = m,
            Field::LastEpisode => self.last_episode = m,
            Field::Year => self.year = m,
            Field::Resolution => self.resolution = m,
            Field::Quality => self.quality = m,
            Field::Codec => self.codec = m,
            Field::Audio => self.audio = m,
            Field::Group => self.group = m,
            Field::Imdb => self.imdb = m,
            Field::FileExtension => self.extension = m,
            Field::Extended => self.extended = m,
            Field::Hardcoded => self.hardcoded = m,
            Field::Proper => self.proper = m,
            Field::Repack => self.repack = m,
            Field::Widescreen => self.widescreen = m,
            Field::Unrated => self.unrated = m,
            Field::ThreeD => self.three_d = m,
            Field::Region => self.region = m,
            Field::Container => self.container = m,
            Field::Language => self.language = m,
            Field::Garbage => self.garbage = m,
            Field::Website => self.website = m,
        }
    }

    fn get(&self, f: Field) -> (r: &Option<Vec<Option<(usize, usize)>>>)
        ensures
            r.deep_view() == self.found(f),
    {
        match f {
            Field::Season => &self.season,
            Field::Episode => &self.episode,
            Field::LastEpisode => &self.last_episode,
            Field::Year => &self.year,
            Field::Resolution => &self.resolution,
            Field::Quality => &self.quality,
            Field::Codec => &self.codec,
            Field::Audio => &self.audio,
            Field::Group => &self.group,
            Field::Imdb => &self.imdb,
            Field::FileExtension => &self.extension,
            Field::Extended => &self.extended,
            Field::Hardcoded => &self.hardcoded,
            Field::Proper => &self.proper,
            Field::Repack => &self.repack,
            Field::Widescreen => &self.widescreen,
            Field::Unrated => &self.unrated,
            Field::ThreeD => &self.three_d,
            Field::Region => &self.region,
            Field::Container => &self.container,
            Field::Language => &self.language,
            Field::Garbage => &self.garbage,
            Field::Website => &self.website,
        }
    }

    /// Applies every field's pattern of `reg` to `name`.
    pub fn find(reg: &PatternRegistry, name: &str) -> (r: FieldMatches)
        requires
            reg.wf(),
        ensures
            forall|f: Field| #[trigger] r.found(f) == hit(f, name),
            r.wf(name),
    {
        assert(fits(reg.spec_lookup(Field::Season), Field::Season));
        assert(fits(reg.spec_lookup(Field::Episode), Field::Episode));
        assert(fits(reg.spec_lookup(Field::LastEpisode), Field::LastEpisode));
        assert(fits(reg.spec_lookup(Field::Year), Field::Year));
        assert(fits(reg.spec_lookup(Field::Resolution), Field::Resolution));
        assert(fits(reg.spec_lookup(Field::Quality), Field::Quality));
        assert(fits(reg.spec_lookup(Field::Codec), Field::Codec));
        assert(fits(reg.spec_lookup(Field::Audio), Field::Audio));
        assert(fits(reg.spec_lookup(Field::Group), Field::Group));
        assert(fits(reg.spec_lookup(Field::Imdb), Field::Imdb));
        assert(fits(reg.spec_lookup(Field::FileExtension), Field::FileExtension));
        assert(fits(reg.spec_lookup(Field::Extended), Field::Extended));
        assert(fits(reg.spec_lookup(Field::Hardcoded), Field::Hardcoded));
        assert(fits(reg.spec_lookup(Field::Proper), Field::Proper));
        assert(fits(reg.spec_lookup(Field::Repack), Field::Repack));
        assert(fits(reg.spec_lookup(Field::Widescreen), Field::Widescreen));
        assert(fits(reg.spec_lookup(Field::Unrated), Field::Unrated));
        assert(fits(reg.spec_lookup(Field::ThreeD), Field::ThreeD));
        assert(fits(reg.spec_lookup(Field::Region), Field::Region));
        assert(fits(reg.spec_lookup(Field::Container), Field::Container));
        assert(fits(reg.spec_lookup(Field::Language), Field::Language));
        assert(fits(reg.spec_lookup(Field::Garbage), Field::Garbage));
        assert(fits(reg.spec_lookup(Field::Website), Field::Website));
        let r = FieldMatches {
            season: reg.lookup(Field::Season).captures(name),
            episode: reg.lookup(Field::Episode).captures(name),
            last_episode: reg.lookup(Field::LastEpisode).captures(name),
            year: reg.lookup(Field::Year).captures(name),
            resolution: reg.lookup(Field::Resolution).captures(name),
            quality: reg.lookup(Field::Quality).captures(name),
            codec: reg.lookup(Field::Codec).captures(name),
            audio: reg.lookup(Field::Audio).captures(name),
            group: reg.lookup(Field::Group).captures(name),
            imdb: reg.lookup(Field::Imdb).captures(name),
            extension: reg.lookup(Field::FileExtension).captures(name),
            extended: reg.lookup(Field::Extended).captures(name),
            hardcoded: reg.lookup(Field::Hardcoded).captures(name),
            proper: reg.lookup(Field::Proper).captures(name),
            repack: reg.lookup(Field::Repack).captures(name),
            widescreen: reg.lookup(Field::Widescreen).captures(name),
            unrated: reg.lookup(Field::Unrated).captures(name),
            three_d: reg.lookup(Field::ThreeD).captures(name),
            region: reg.lookup(Field::Region).captures(name),
            container: reg.lookup(Field::Container).captures(name),
            language: reg.lookup(Field::Language).captures(name),
            garbage: reg.lookup(Field::Garbage).captures(name),
            website: reg.lookup(Field::Website).captures(name),
        };
        assert forall|f: Field| #[trigger] r.found(f) == hit(f, name) && (r.found(f) is Some ==> spans_ok(r.found(f)->0, name.spec_bytes())) by {
            match f {
                Field::Season => {},
                Field::Episode => {},
                Field::LastEpisode => {},
                Field::Year => {},
                Field::Resolution => {},
                Field::Quality => {},
                Field::Codec => {},
                Field::Audio => {},
                Field::Group => {},
                Field::Imdb => {},
                Field::FileExtension => {},
                Field::Extended => {},
                Field::Hardcoded => {},
                Field::Proper => {},
                Field::Repack => {},
                Field::Widescreen => {},
                Field::Unrated => {},
                Field::ThreeD => {},
                Field::Region => {},
                Field::Container => {},
                Field::Language => {},
                Field::Garbage => {},
                Field::Website => {},
            }
        }
        r
    }
}

/// The value span of every field, found while narrowing the title.
struct Spans {
    season: Option<(usize, usize)>,
    episode: Option<(usize, usize)>,
    last_episode: Option<(usize, usize)>,
    year: Option<(usize, usize)>,
    resolution: Option<(usize, usize)>,
    quality: Option<(usize, usize)>,
    codec: Option<(usize, usize)>,
    audio: Option<(usize, usize)>,
    group: Option<(usize, usize)>,
    imdb: Option<(usize, usize)>,
    extension: Option<(usize, usize)>,
    extended: Option<(usize, usize)>,
    hardcoded: Option<(usize, usize)>,
    proper: Option<(usize, usize)>,
    repack: Option<(usize, usize)>,
    widescreen: Option<(usize, usize)>,
    unrated: Option<(usize, usize)>,
    three_d: Option<(usize, usize)>,
    region: Option<(usize, usize)>,
    container: Option<(usize, usize)>,
    language: Option<(usize, usize)>,
    garbage: Option<(usize, usize)>,
    website: Option<(usize, usize)>,
}

impl Spans {
    spec fn spec_get(&self, f: Field) -> Option<(usize, usize)> {
        match f {
            Field::Season => self.season,
            Field::Episode => self.episode,
            Field::LastEpisode => self.last_episode,
            Field::Year => self.year,
            Field::Resolution => self.resolution,
            Field::Quality => self.quality,
            Field::Codec => self.codec,
            Field::Audio => self.audio,
            Field::Group => self.group,
            Field::Imdb => self.imdb,
            Field::FileExtension => self.extension,
            Field::Extended => self.extended,
            Field::Hardcoded => self.hardcoded,
            Field::Proper => self.proper,
            Field::Repack => self.repack,
            Field::Widescreen => self.widescreen,
            Field::Unrated => self.unrated,
            Field::ThreeD => self.three_d,
            Field::Region => self.region,
            Field::Container => self.container,
            Field::Language => self.language,
            Field::Garbage => self.garbage,
            Field::Website => self.website,
        }
    }

    /// Each span is its field's value span (the last episode's only once an
    /// episode was found), and each slices the name.
    spec fn wf(&self, name: &str, hits: spec_fn(Field) -> Option<Groups>) -> bool {
        &&& forall|f: Field|
            f != Field::LastEpisode ==> #[trigger] self.spec_get(f) == value_span(f, hits)
        &&& self.last_episode == if value_span(Field::Episode, hits) is Some {
            value_span(Field::LastEpisode, hits)
        } else {
            None
        }
        &&& forall|f: Field| (#[trigger] self.spec_get(f)) is Some ==> slices(name.spec_bytes(), self.spec_get(f)->0)
    }

    fn get(&self, f: Field) -> (r: Option<(usize, usize)>)
        ensures
            r == self.spec_get(f),
    {
        match f {
            Field::Season => self.season,
            Field::Episode => self.episode,
            Field::LastEpisode => self.last_episode,
            Field::Year => self.year,
            Field::Resolution => self.resolution,
            Field::Quality => self.quality,
            Field::Codec => self.codec,
            Field::Audio => self.audio,
            Field::Group => self.group,
            Field::Imdb => self.imdb,
            Field::FileExtension => self.extension,
            Field::Extended => self.extended,
            Field::Hardcoded => self.hardcoded,
            Field::Proper => self.proper,
            Field::Repack => self.repack,
            Field::Widescreen => self.widescreen,
            Field::Unrated => self.unrated,
            Field::ThreeD => self.three_d,
            Field::Region => self.region,
            Field::Container => self.container,
            Field::Language => self.language,
            Field::Garbage => self.garbage,
            Field::Website => self.website,
        }
    }
}

fn group_at(m: &Vec<Option<(usize, usize)>>, i: usize) -> (r: Option<(usize, usize)>)
    ensures
        r == group(m.deep_view(), i as int),
{
    if i < m.len() {
        let g = m[i];
        assert(m.deep_view()[i as int] == g);
        g
    } else {
        None
    }
}

fn value_of(f: Field, m: &Vec<Option<(usize, usize)>>) -> (r: Option<(usize, usize)>)
    ensures
        r == value_in(f, m.deep_view()),
{
    match f {
        Field::Season => {
            let g = group_at(m, 1);
            if g.is_some() {
                return g;
            }
            let g = group_at(m, 2);
            if g.is_some() {
                return g;
            }
            let g = group_at(m, 3);
            if g.is_some() {
                return g;
            }
            group_at(m, 4)
        },
        Field::Episode => {
            let g = group_at(m, 1);
            if g.is_some() {
                return g;
            }
            let g = group_at(m, 2);
            if g.is_some() {
                return g;
            }
            group_at(m, 3)
        },
        Field::LastEpisode | Field::Year | Field::Resolution | Field::FileExtension => group_at(m, 1),
        Field::Group => group_at(m, 2),
        _ => group_at(m, 0),
    }
}

/// Narrows the title boundaries by field `f`'s match and returns the span of
/// its value.
fn narrow_by(
    f: Field,
    m: &Option<Vec<Option<(usize, usize)>>>,
    name: &str,
    start: &mut usize,
    end: &mut usize,
    Ghost(hits): Ghost<spec_fn(Field) -> Option<Groups>>,
) -> (r: Option<(usize, usize)>)
    requires
        m.deep_view() == hits(f),
        m.deep_view() matches Some(g) ==> spans_ok(g, name.spec_bytes()),
        *old(start) <= name.spec_bytes().len(),
        *old(end) <= name.spec_bytes().len(),
        is_char_boundary(name.spec_bytes(), *old(start) as int),
        is_char_boundary(name.spec_bytes(), *old(end) as int),
    ensures
        is_char_boundary(name.spec_bytes(), *final(start) as int),
        is_char_boundary(name.spec_bytes(), *final(end) as int),
        (*final(start) as int, *final(end) as int) == narrow(
            (*old(start) as int, *old(end) as int),
            f,
            hits(f),
        ),
        *final(start) <= name.spec_bytes().len(),
        *final(end) <= name.spec_bytes().len(),
        r == value_span(f, hits),
        r matches Some(sp) ==> slices(name.spec_bytes(), sp),
{
    match m {
        None => None,
        Some(groups) => {
            proof {
                let g = groups.deep_view();
                assert(g[0] == groups@[0]);
                assert forall|j: int| 0 <= j < g.len() && (#[trigger] g[j]) is Some implies slices(
                    name.spec_bytes(),
                    g[j]->0,
                ) by {}
            }
            if let Some((s, e)) = groups[0] {
                if f.before_title() {
                    if e > *start {
                        *start = e;
                    }
                } else {
                    if s < *end {
                        *end = s;
                    }
                }
            }
            value_of(f, groups)
        },
    }
}

/// The text at a span of `name`, owned.
fn text_of(name: &str, sp: Option<(usize, usize)>) -> (r: Option<String>)
    requires
        sp matches Some(s) ==> slices(name.spec_bytes(), s),
    ensures
        r.deep_view() == text_at(name, sp),
{
    match sp {
        Some((s, e)) => Some(slice(name, s, e).to_owned()),
        None => None,
    }
}

/// The number written at a span of `name`.
fn number_of(name: &str, sp: Option<(usize, usize)>) -> (r: Option<i32>)
    requires
        sp matches Some(s) ==> slices(name.spec_bytes(), s),
    ensures
        r == number_at(name, sp),
{
    match sp {
        Some((s, e)) => parse_decimal(name.as_bytes(), s, e),
        None => None,
    }
}

fn diagnostic_order() -> (r: Vec<Field>)
    ensures
        r@ == diagnostic_fields(),
{
    let mut v: Vec<Field> = Vec::new();
    v.push(Field::Season);
    v.push(Field::Episode);
    v.push(Field::Year);
    v.push(Field::FileExtension);
    v.push(Field::Resolution);
    v.push(Field::Quality);
    v.push(Field::Codec);
    v.push(Field::Audio);
    v.push(Field::Group);
    v.push(Field::Imdb);
    v.push(Field::Extended);
    v.push(Field::Hardcoded);
    v.push(Field::Proper);
    v.push(Field::Repack);
    v.push(Field::Widescreen);
    v.push(Field::Unrated);
    v.push(Field::ThreeD);
    v.push(Field::Region);
    v.push(Field::Container);
    v.push(Field::Language);
    v.push(Field::Garbage);
    v.push(Field::Website);
    assert(v@ =~= diagnostic_fields());
    v
}

/// The diagnostic report of a failed extraction.
fn diagnostics(name: &str, found: &FieldMatches, spans: &Spans) -> (r: ErrorMatch)
    requires
        spans.wf(name, found.hits()),
    ensures
        r.entries() == spec_diagnostics(name, found.hits()),
{
    let ghost hits = found.hits();
    let order = diagnostic_order();
    let mut out: Vec<(&'static str, Option<String>)> = Vec::new();
    let mut i: usize = 0;
    while i < order.len()
        invariant
            i <= order.len(),
            order@ == diagnostic_fields(),
            hits == found.hits(),
            spans.wf(name, hits),
            out.deep_view() == order@.take(i as int).map_values(|f: Field| diagnostic(name, hits, f)),
        decreases order.len() - i,
    {
        let f = order[i];
        assert(f != Field::LastEpisode);
        assert(spans.spec_get(f) == value_span(f, hits));
        let entry = (f.label(), text_of(name, spans.get(f)));
        assert(entry.deep_view() == diagnostic(name, hits, f));
        let ghost prev = out.deep_view();
        out.push(entry);
        assert(out.deep_view() =~= prev.push(entry.deep_view()));
        assert(order@.take(i + 1).drop_last() =~= order@.take(i as int));
        i = i + 1;
        assert(out.deep_view() =~= order@.take(i as int).map_values(|f: Field| diagnostic(name, hits, f)));
    }
    assert(order@.take(order.len() as int) =~= order@);
    ErrorMatch::new(out)
}

/// Narrows the title boundaries by every field's match, in a fixed order,
/// from the whole name (by the last-episode match only once an episode was
/// found).
fn locate(found: &FieldMatches, name: &str) -> (r: (Spans, usize, usize))
    requires
        found.wf(name),
    ensures
        r.0.wf(name, found.hits()),
        (r.1 as int, r.2 as int) == title_bounds(name, found.hits()),
        r.1 <= name.spec_bytes().len(),
        r.2 <= name.spec_bytes().len(),
        is_char_boundary(name.spec_bytes(), r.1 as int),
        is_char_boundary(name.spec_bytes(), r.2 as int),
{
    let ghost hits = found.hits();
    assert(found.found(Field::Season) == hits(Field::Season));
    assert(found.found(Field::Episode) == hits(Field::Episode));
    assert(found.found(Field::LastEpisode) == hits(Field::LastEpisode));
    assert(found.found(Field::Year) == hits(Field::Year));
    assert(found.found(Field::Resolution) == hits(Field::Resolution));
    assert(found.found(Field::Quality) == hits(Field::Quality));
    assert(found.found(Field::Codec) == hits(Field::Codec));
    assert(found.found(Field::Audio) == hits(Field::Audio));
    assert(found.found(Field::Group) == hits(Field::Group));
    assert(found.found(Field::Imdb) == hits(Field::Imdb));
    assert(found.found(Field::FileExtension) == hits(Field::FileExtension));
    assert(found.found(Field::Extended) == hits(Field::Extended));
    assert(found.found(Field::Hardcoded) == hits(Field::Hardcoded));
    assert(found.found(Field::Proper) == hits(Field::Proper));
    assert(found.found(Field::Repack) == hits(Field::Repack));
    assert(found.found(Field::Widescreen) == hits(Field::Widescreen));
    assert(found.found(Field::Unrated) == hits(Field::Unrated));
    assert(found.found(Field::ThreeD) == hits(Field::ThreeD));
    assert(found.found(Field::Region) == hits(Field::Region));
    assert(found.found(Field::Container) == hits(Field::Container));
    assert(found.found(Field::Language) == hits(Field::Language));
    assert(found.found(Field::Garbage) == hits(Field::Garbage));
    assert(found.found(Field::Website) == hits(Field::Website));
    let mut start: usize = 0;
    let mut end: usize = name.as_bytes().len();
    proof {
        vstd::utf8::encode_utf8_valid_utf8(name@);
        vstd::utf8::is_char_boundary_start_end_of_seq(name.spec_bytes());
    }
    let season = narrow_by(Field::Season, found.get(Field::Season), name, &mut start, &mut end, Ghost(hits));
    let episode = narrow_by(Field::Episode, found.get(Field::Episode), name, &mut start, &mut end, Ghost(hits));
    let last_episode = if episode.is_some() {
        narrow_by(Field::LastEpisode, found.get(Field::LastEpisode), name, &mut start, &mut end, Ghost(hits))
    } else {
        None
    };
    let year = narrow_by(Field::Year, found.get(Field::Year), name, &mut start, &mut end, Ghost(hits));
    let resolution = narrow_by(Field::Resolution, found.get(Field::Resolution), name, &mut start, &mut end, Ghost(hits));
    let quality = narrow_by(Field::Quality, found.get(Field::Quality), name, &mut start, &mut end, Ghost(hits));
    let codec = narrow_by(Field::Codec, found.get(Field::Codec), name, &mut start, &mut end, Ghost(hits));
    let audio = narrow_by(Field::Audio, found.get(Field::Audio), name, &mut start, &mut end, Ghost(hits));
    let group = narrow_by(Field::Group, found.get(Field::Group), name, &mut start, &mut end, Ghost(hits));
    let imdb = narrow_by(Field::Imdb, found.get(Field::Imdb), name, &mut start, &mut end, Ghost(hits));
    let extension = narrow_by(Field::FileExtension, found.get(Field::FileExtension), name, &mut start, &mut end, Ghost(hits));
    let extended = narrow_by(Field::Extended, found.get(Field::Extended), name, &mut start, &mut end, Ghost(hits));
    let hardcoded = narrow_by(Field::Hardcoded, found.get(Field::Hardcoded), name, &mut start, &mut end, Ghost(hits));
    let proper = narrow_by(Field::Proper, found.get(Field::Proper), name, &mut start, &mut end, Ghost(hits));
    let repack = narrow_by(Field::Repack, found.get(Field::Repack), name, &mut start, &mut end, Ghost(hits));
    let widescreen = narrow_by(Field::Widescreen, found.get(Field::Widescreen), name, &mut start, &mut end, Ghost(hits));
    let unrated = narrow_by(Field::Unrated, found.get(Field::Unrated), name, &mut start, &mut end, Ghost(hits));
    let three_d = narrow_by(Field::ThreeD, found.get(Field::ThreeD), name, &mut start, &mut end, Ghost(hits));
    let region = narrow_by(Field::Region, found.get(Field::Region), name, &mut start, &mut end, Ghost(hits));
    let container = narrow_by(Field::Container, found.get(Field::Container), name, &mut start, &mut end, Ghost(hits));
    let language = narrow_by(Field::Language, found.get(Field::Language), name, &mut start, &mut end, Ghost(hits));
    let garbage = narrow_by(Field::Garbage, found.get(Field::Garbage), name, &mut start, &mut end, Ghost(hits));
    let website = narrow_by(Field::Website, found.get(Field::Website), name, &mut start, &mut end, Ghost(hits));
    let spans = Spans {
        season,
        episode,
        last_episode,
        year,
        resolution,
        quality,
        codec,
        audio,
        group,
        imdb,
        extension,
        extended,
        hardcoded,
        proper,
        repack,
        widescreen,
        unrated,
        three_d,
        region,
        container,
        language,
        garbage,
        website,
    };
    assert forall|f: Field| f != Field::LastEpisode implies #[trigger] spans.spec_get(f) == value_span(f, hits) by {
        match f {
            Field::Season => {},
            Field::Episode => {},
            Field::LastEpisode => {},
            Field::Year => {},
            Field::Resolution => {},
            Field::Quality => {},
            Field::Codec => {},
            Field::Audio => {},
            Field::Group => {},
            Field::Imdb => {},
            Field::FileExtension => {},
            Field::Extended => {},
            Field::Hardcoded => {},
            Field::Proper => {},
            Field::Repack => {},
            Field::Widescreen => {},
            Field::Unrated => {},
            Field::ThreeD => {},
            Field::Region => {},
            Field::Container => {},
            Field::Language => {},
            Field::Garbage => {},
            Field::Website => {},
        }
    }
    assert forall|f: Field| (#[trigger] spans.spec_get(f)) is Some implies slices(name.spec_bytes(), spans.spec_get(f)->0) by {
        match f {
            Field::Season => {},
            Field::Episode => {},
            Field::LastEpisode => {},
            Field::Year => {},
            Field::Resolution => {},
            Field::Quality => {},
            Field::Codec => {},
            Field::Audio => {},
            Field::Group => {},
            Field::Imdb => {},
            Field::FileExtension => {},
            Field::Extended => {},
            Field::Hardcoded => {},
            Field::Proper => {},
            Field::Repack => {},
            Field::Widescreen => {},
            Field::Unrated => {},
            Field::ThreeD => {},
            Field::Region => {},
            Field::Container => {},
            Field::Language => {},
            Field::Garbage => {},
            Field::Website => {},
        }
    }
    (spans, start, end)
}

/// Whether the bytes at a span are a lone `0`.
fn is_lone_zero(bytes: &[u8], sp: (usize, usize)) -> (r: bool)
    requires
        sp.0 <= sp.1 <= bytes@.len(),
    ensures
        r == (bytes@.subrange(sp.0 as int, sp.1 as int) == seq![48u8]),
{
    let (s, e) = sp;
    if e - s == 1 && bytes[s] == 48 {
        assert(bytes@.subrange(s as int, e as int) =~= seq![48u8]);
        true
    } else {
        proof {
            if bytes@.subrange(s as int, e as int) == seq![48u8] {
                assert(bytes@.subrange(s as int, e as int).len() == 1);
                assert(bytes@.subrange(s as int, e as int)[0] == bytes@[s as int]);
            }
        }
        false
    }
}

/// The episodes `first..=last`.
pub fn expand(first: i32, last: i32) -> (r: Vec<i32>)
    ensures
        r@ == episode_range(first, last),
{
    let mut v: Vec<i32> = Vec::new();
    if first > last {
        assert(v@ =~= episode_range(first, last));
        return v;
    }
    let mut k: i64 = first as i64;
    while k <= last as i64
        invariant
            first <= k <= last as int + 1,
            first <= last,
            v@ =~= Seq::new((k - first) as nat, |i: int| (first + i) as i32),
        decreases last as int + 1 - k,
    {
        v.push(k as i32);
        k = k + 1;
    }
    assert(v@ =~= episode_range(first, last));
    v
}

fn ascii_lowercase(c: char) -> (r: char)
    ensures
        r == ascii_lower(c),
{
    if 'A' <= c && c <= 'Z' {
        ((c as u8) + 32) as u8 as char
    } else {
        c
    }
}

fn spells(l: &Vec<char>, w: &Vec<char>) -> (r: bool)
    ensures
        r == (l@ == w@),
{
    if l.len() != w.len() {
        return false;
    }
    let mut i: usize = 0;
    while i < l.len()
        invariant
            i <= l.len() == w.len(),
            forall|j: int| 0 <= j < i ==> l@[j] == w@[j],
        decreases l.len() - i,
    {
        if l[i] != w[i] {
            return false;
        }
        i = i + 1;
    }
    assert(l@ =~= w@);
    true
}

/// Whether a file extension names a subtitle format (srt, ssa, svb, vtt, ttml,
/// dfxp), in any letter case.
pub fn set_is_subtitle(ext: &str) -> (r: bool)
    ensures
        r == subtitle_ext(ext@),
{
    let cs = chars_of(ext);
    let mut l: Vec<char> = Vec::new();
    let mut i: usize = 0;
    while i < cs.len()
        invariant
            i <= cs.len(),
            cs@ == ext@,
            l@ =~= cs@.take(i as int).map_values(|c: char| ascii_lower(c)),
        decreases cs.len() - i,
    {
        l.push(ascii_lowercase(cs[i]));
        i = i + 1;
    }
    assert(cs@.take(cs.len() as int) =~= cs@);
    let srt = vec!['s', 'r', 't'];
    let ssa = vec!['s', 's', 'a'];
    let svb = vec!['s', 'v', 'b'];
    let vtt = vec!['v', 't', 't'];
    let ttml = vec!['t', 't', 'm', 'l'];
    let dfxp = vec!['d', 'f', 'x', 'p'];
    spells(&l, &srt) || spells(&l, &ssa) || spells(&l, &svb) || spells(&l, &vtt) || spells(
        &l,
        &ttml,
    ) || spells(&l, &dfxp)
}

fn as_text(o: &Option<String>) -> (r: Option<&str>)
    ensures
        r.deep_view() == o.deep_view(),
{
    match o {
        Some(s) => Some(s.as_str()),
        None => None,
    }
}

impl Metadata {
    pub closed spec fn view(&self) -> MetadataView {
        MetadataView {
            title: self.title@,
            season: self.season,
            episode: self.episode,
            episodes: self.episodes@,
            year: self.year,
            resolution: self.resolution.deep_view(),
            quality: self.quality.deep_view(),
            codec: self.codec.deep_view(),
            audio: self.audio.deep_view(),
            group: self.group.deep_view(),
            extended: self.extended,
            hardcoded: self.hardcoded,
            proper: self.proper,
            repack: self.repack,
            widescreen: self.widescreen,
            unrated: self.unrated,
            three_d: self.three_d,
            imdb: self.imdb.deep_view(),
            extension: self.extension.deep_view(),
            is_subtitle: self.is_subtitle,
        }
    }

    /// Extracts the metadata of `name`, compiling the field patterns first. It
    /// fails when a pattern does not compile, and otherwise as `parse_with` does.
    pub fn from(name: &str) -> (r: Result<Metadata, ErrorMatch>)
        ensures
            all_compile() ==> (r is Ok <==> extracts(name, found_in(name))),
            !all_compile() ==> r is Err,
            r matches Ok(m) ==> m@ == spec_metadata(name, found_in(name)),
            all_compile() ==> (r matches Err(e) ==> e.entries() == spec_diagnostics(
                name,
                found_in(name),
            )),
    {
        match PatternRegistry::new() {
            Some(reg) => Metadata::parse_with(&reg, name),
            None => Err(ErrorMatch::new(Vec::new())),
        }
    }

    pub fn title(&self) -> (r: &str)
        ensures
            r@ == self@.title,
    {
        self.title.as_str()
    }
    pub fn season(&self) -> (r: Option<i32>)
        ensures
            r == self@.season,
    {
        self.season
    }
    pub fn episode(&self) -> (r: Option<i32>)
        ensures
            r == self@.episode,
    {
        self.episode
    }
    /// The episode numbers of a multi-episode release, ascending; empty when
    /// only one episode was found.
    pub fn episodes(&self) -> (r: &Vec<i32>)
        ensures
            r@ == self@.episodes,
    {
        &self.episodes
    }

    /// Whether the release holds more than one episode.
    pub fn is_multi_episode(&self) -> (r: bool)
        ensures
            r == (self@.episodes.len() > 1),
    {
        self.episodes.len() > 1
    }
    pub fn year(&self) -> (r: Option<i32>)
        ensures
            r == self@.year,
    {
        self.year
    }
    pub fn resolution(&self) -> (r: Option<&str>)
        ensures
            r.deep_view() == self@.resolution,
    {
        as_text(&self.resolution)
    }
    pub fn quality(&self) -> (r: Option<&str>)
        ensures
            r.deep_view() == self@.quality,
    {
        as_text(&self.quality)
    }
    pub fn codec(&self) -> (r: Option<&str>)
        ensures
            r.deep_view() == self@.codec,
    {
        as_text(&self.codec)
    }
    pub fn audio(&self) -> (r: Option<&str>)
        ensures
            r.deep_view() == self@.audio,
    {
        as_text(&self.audio)
    }
    pub fn group(&self) -> (r: Option<&str>)
        ensures
            r.deep_view() == self@.group,
    {
        as_text(&self.group)
    }
    pub fn imdb_tag(&self) -> (r: Option<&str>)
        ensures
            r.deep_view() == self@.imdb,
    {
        as_text(&self.imdb)
    }
    pub fn extended(&self) -> (r: bool)
        ensures
            r == self@.extended,
    {
        self.extended
    }
    pub fn hardcoded(&self) -> (r: bool)
        ensures
            r == self@.hardcoded,
    {
        self.hardcoded
    }
    pub fn proper(&self) -> (r: bool)
        ensures
            r == self@.proper,
    {
        self.proper
    }
    pub fn repack(&self) -> (r: bool)
        ensures
            r == self@.repack,
    {
        self.repack
    }
    pub fn widescreen(&self) -> (r: bool)
        ensures
            r == self@.widescreen,
    {
        self.widescreen
    }
    pub fn unrated(&self) -> (r: bool)
        ensures
            r == self@.unrated,
    {
        self.unrated
    }
    pub fn three_d(&self) -> (r: bool)
        ensures
            r == self@.three_d,
    {
        self.three_d
    }
    pub fn extension(&self) -> (r: Option<&str>)
        ensures
            r.deep_view() == self@.extension,
    {
        as_text(&self.extension)
    }
    pub fn ext_is_subtitle(&self) -> (r: bool)
        ensures
            r == self@.is_subtitle,
    {
        self.is_subtitle
    }
    /// Whether the release belongs to a show: a season was found.
    pub fn is_show(&self) -> (r: bool)
        ensures
            r == self@.season is Some,
    {
        self.season.is_some()
    }

    /// Whether the release is a special: its season is below 1.
    pub fn is_special(&self) -> (r: bool)
        ensures
            r == (self@.season matches Some(s) && s < 1),
    {
        match self.season {
            Some(s) => s < 1,
            None => false,
        }
    }

    /// Builds the metadata of `name` from the matches the field patterns
    /// found in it. It fails exactly when the title boundaries meet or cross,
    /// or a number found is not an `i32` in ASCII digits; the failure reports
    /// what each field's pattern found.
    pub fn assemble(name: &str, found: &FieldMatches) -> (r: Result<Metadata, ErrorMatch>)
        requires
            found.wf(name),
        ensures
            r is Ok <==> extracts(name, found.hits()),
            title_bounds(name, found.hits()).0 >= title_bounds(name, found.hits()).1 ==> r is Err,
            r matches Ok(m) ==> m@ == spec_metadata(name, found.hits()),
            r matches Ok(m) ==> title_bounds(name, found.hits()).0 < title_bounds(name, found.hits()).1
                && m@.title == sanitize(
                substr(
                    name.spec_bytes(),
                    title_bounds(name, found.hits()).0,
                    title_bounds(name, found.hits()).1,
                ),
            ),
            r matches Err(e) ==> e.entries() == spec_diagnostics(name, found.hits()),
    {
        let (spans, start, end) = locate(found, name);
        if start >= end {
            return Err(diagnostics(name, found, &spans));
        }
        let season_span = spans.get(Field::Season);
        let episode_span = spans.get(Field::Episode);
        let year_span = spans.get(Field::Year);
        let season = number_of(name, season_span);
        let episode = number_of(name, episode_span);
        let year = number_of(name, year_span);
        let last_span = match spans.get(Field::LastEpisode) {
            Some(sp) => if is_lone_zero(name.as_bytes(), sp) {
                None
            } else {
                Some(sp)
            },
            None => None,
        };
        let last = number_of(name, last_span);
        if (season_span.is_some() && season.is_none()) || (episode_span.is_some()
            && episode.is_none()) || (year_span.is_some() && year.is_none()) || (
        last_span.is_some() && last.is_none()) {
            return Err(diagnostics(name, found, &spans));
        }
        let episodes = match (episode, last) {
            (Some(first), Some(last)) => expand(first, last),
            _ => Vec::new(),
        };
        let raw = slice(name, start, end);
        let title = sanitize_title(raw);
        let extension = text_of(name, spans.get(Field::FileExtension));
        let is_subtitle = match &extension {
            Some(e) => set_is_subtitle(e.as_str()),
            None => false,
        };
        let m = Metadata {
            title,
            season,
            episode,
            episodes,
            year,
            resolution: text_of(name, spans.get(Field::Resolution)),
            quality: text_of(name, spans.get(Field::Quality)),
            codec: text_of(name, spans.get(Field::Codec)),
            audio: text_of(name, spans.get(Field::Audio)),
            group: text_of(name, spans.get(Field::Group)),
            extended: spans.get(Field::Extended).is_some(),
            hardcoded: spans.get(Field::Hardcoded).is_some(),
            proper: spans.get(Field::Proper).is_some(),
            repack: spans.get(Field::Repack).is_some(),
            widescreen: spans.get(Field::Widescreen).is_some(),
            unrated: spans.get(Field::Unrated).is_some(),
            three_d: spans.get(Field::ThreeD).is_some(),
            imdb: text_of(name, spans.get(Field::Imdb)),
            extension,
            is_subtitle,
        };
        Ok(m)
    }

    /// Extracts the metadata of `name` with the patterns of `reg`: the matches
    /// each field's pattern finds, assembled.
    pub fn parse_with(reg: &PatternRegistry, name: &str) -> (r: Result<Metadata, ErrorMatch>)
        requires
            reg.wf(),
        ensures
            r is Ok <==> extracts(name, found_in(name)),
            title_bounds(name, found_in(name)).0 >= title_bounds(name, found_in(name)).1 ==> r is Err,
            r matches Ok(m) ==> m@ == spec_metadata(name, found_in(name)),
            r matches Ok(m) ==> title_bounds(name, found_in(name)).0 < title_bounds(name, found_in(name)).1
                && m@.title == sanitize(
                substr(
                    name.spec_bytes(),
                    title_bounds(name, found_in(name)).0,
                    title_bounds(name, found_in(name)).1,
                ),
            ),
            r matches Err(e) ==> e.entries() == spec_diagnostics(name, found_in(name)),
    {
        let found = FieldMatches::find(reg, name);
        assert(found.hits() =~= found_in(name));
        Metadata::assemble(name, &found)
    }
}

impl std::str::FromStr for Metadata {
    type Err = ErrorMatch;

    fn from_str(name: &str) -> Result<Self, Self::Err> {
        Metadata::from(name)
    }
}

impl<'a> std::convert::TryFrom<&'a str> for Metadata {
    type Error = ErrorMatch;

    fn try_from(name: &'a str) -> Result<Self, Self::Error> {
        Metadata::from(name)
    }
}

/// The conversion promises nothing beyond what `Metadata::from` states.
impl<'a> vstd::std_specs::convert::TryFromSpecImpl<&'a str> for Metadata {
    open spec fn obeys_try_from_spec() -> bool {
        false
    }

    open spec fn try_from_spec(v: &'a str) -> Result<Self, Self::Error> {
        arbitrary()
    }
}

} // verus!
