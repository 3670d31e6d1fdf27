use std::convert::TryFrom;
use torrent_name_parser::title::sanitize_title;
use torrent_name_parser::metadata::expand;
use torrent_name_parser::{Metadata, PatternRegistry};

#[test]
fn dotted_show_with_year_in_parentheses() {
    let m = Metadata::from("Doctor.Who.(2003).S01E01.avi").unwrap();
    assert_eq!(m.title(), "Doctor Who");
    assert_eq!(m.season(), Some(1));
    assert_eq!(m.episode(), Some(1));
    assert_eq!(m.extension(), Some("avi"));
    assert_eq!(m.episodes().len(), 0);
    assert!(!m.ext_is_subtitle());
    assert!(m.is_show());
    assert!(!m.is_special());
}

#[test]
fn two_episode_release() {
    let m = Metadata::from("the.expanse.s01e09e10.1080p.bluray.x264-rovers").unwrap();
    assert_eq!(m.title(), "the expanse");
    assert_eq!(m.season(), Some(1));
    assert_eq!(m.episode(), Some(9));
    assert_eq!(m.episodes(), &vec![9, 10]);
    assert_eq!(m.resolution(), Some("1080p"));
    assert_eq!(m.codec(), Some("x264"));
    assert_eq!(m.group(), Some("rovers"));
    assert!(m.is_multi_episode());
}

#[test]
fn lone_zero_last_episode_is_noise() {
    let m = Metadata::from("the.expanse.s01e09e0.1080p.bluray.x264-rovers").unwrap();
    assert_eq!(m.episode(), Some(9));
    assert_eq!(m.episodes().len(), 0);
    assert!(!m.is_multi_episode());
}

#[test]
fn season_zero_is_special() {
    let m = Metadata::from("Life.on.Mars.(US).S00E01.avi").unwrap();
    assert_eq!(m.season(), Some(0));
    assert!(m.is_special());
    assert!(m.is_show());
}

#[test]
fn movie_without_season_is_neither_show_nor_special() {
    let m = Metadata::from("Blade.Runner.2049.2017.HDRip").unwrap();
    assert_eq!(m.season(), None);
    assert!(!m.is_show());
    assert!(!m.is_special());
}

#[test]
fn movie_with_imdb_tag() {
    let m = Metadata::from(
        "A Shaun the Sheep Movie - Farmageddon (2019) [h265 Remux-1080p] [tt6193408]",
    )
    .unwrap();
    assert_eq!(m.title(), "A Shaun the Sheep Movie Farmageddon");
    assert_eq!(m.year(), Some(2019));
    assert_eq!(m.imdb_tag(), Some("tt6193408"));
}

#[test]
fn collapsed_boundaries_fail() {
    let e = Metadata::from("[Rip Time] Mushoku Tensei_ Jobless Reincarnation - 12 [1080p]").unwrap_err();
    assert_eq!(e.description(), "Couldn't find a title.");
    let entries = e.matches();
    assert_eq!(entries.len(), 22);
    assert_eq!(entries[0].0, "season");
    assert_eq!(entries[4], ("resolution", Some("1080p".to_string())));
    assert_eq!(entries[21].0, "website");
    assert_eq!(entries[21].1, Some("[Rip Time] ".to_string()));
}

#[test]
fn season_number_too_large_fails() {
    assert!(Metadata::from("Show S99999999999E01 720p").is_err());
}

#[test]
fn year_inside_a_longer_number_is_not_a_year() {
    let m = Metadata::from("Hot Fuzz 12018").unwrap();
    assert_eq!(m.year(), None);
    assert_eq!(m.title(), "Hot Fuzz 12018");
}

#[test]
fn last_year_wins() {
    let m = Metadata::from("1984.2020.x264").unwrap();
    assert_eq!(m.year(), Some(2020));
    assert_eq!(m.title(), "1984");
}

#[test]
fn website_tag_moves_the_title_start() {
    let m = Metadata::from("[ www.Example.com ] - Some Film (1999)").unwrap();
    assert_eq!(m.title(), "Some Film");
    assert_eq!(m.year(), Some(1999));
}

#[test]
fn flags_are_found() {
    let m = Metadata::from("Film.2010.EXTENDED.UNRATED.PROPER.REPACK.WS.3D.HC.720p").unwrap();
    assert!(m.extended());
    assert!(m.unrated());
    assert!(m.proper());
    assert!(m.repack());
    assert!(m.widescreen());
    assert!(m.three_d());
    assert!(m.hardcoded());
    assert_eq!(m.title(), "Film");
}

#[test]
fn parse_with_a_shared_registry() {
    let reg = PatternRegistry::new().unwrap();
    let a = Metadata::parse_with(&reg, "narcos.s01e10.1080p.bluray.x264-rovers").unwrap();
    let b = Metadata::parse_with(&reg, "Hercules (2014) 1080p BrRip H264 - YIFY").unwrap();
    assert_eq!(a.title(), "narcos");
    assert_eq!(b.title(), "Hercules");
    assert_eq!(b.year(), Some(2014));
}

#[test]
fn parse_through_from_str() {
    let m: Metadata = "Fargo.S04E03.WEB.x264-PHOENiX[TGx]".parse().unwrap();
    assert_eq!(m.title(), "Fargo");
    assert_eq!(m.season(), Some(4));
}

#[test]
fn expand_gives_the_inclusive_range() {
    assert_eq!(expand(9, 11), vec![9, 10, 11]);
    assert_eq!(expand(3, 3), vec![3]);
    assert_eq!(expand(5, 3), Vec::<i32>::new());
}

#[test]
fn three_episodes_expand_across_the_gap() {
    let m = Metadata::from("the.expanse.s01e09e11.1080p.bluray.x264-rovers").unwrap();
    assert_eq!(m.episodes(), &vec![9, 10, 11]);
}

#[test]
fn sanitize_steps() {
    assert_eq!(sanitize_title("Doctor.Who.("), "Doctor Who");
    assert_eq!(sanitize_title(" - Title - "), "Title");
    assert_eq!(sanitize_title("Marvels Agents of S.H.I.E.L.D. "), "Marvels Agents of S.H.I.E.L.D.");
    assert_eq!(sanitize_title("Mushoku_Tensei"), "Mushoku Tensei");
    assert_eq!(sanitize_title("A - B"), "A B");
    assert_eq!(sanitize_title("\u{3000}Name\t"), "Name");
    assert_eq!(sanitize_title(""), "");
}

#[test]
fn sanitizing_twice_changes_nothing() {
    let once = sanitize_title("The.Walking.Dead.(");
    assert_eq!(once, "The Walking Dead");
    assert_eq!(sanitize_title(&once), once);
}

#[test]
fn parse_through_try_from() {
    let m = Metadata::try_from("narcos.s01e10.1080p.bluray.x264-rovers").unwrap();
    assert_eq!(m.episode(), Some(10));
}
