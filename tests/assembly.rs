use torrent_name_parser::pattern::select_match;
use torrent_name_parser::{Field, FieldMatches, Metadata};

fn spans(groups: &[Option<(usize, usize)>]) -> Option<Vec<Option<(usize, usize)>>> {
    Some(groups.to_vec())
}

#[test]
fn assemble_from_given_spans() {
    // "Show.S01E02.mkv": season "01" at 6..8, episode "02" at 9..11, extension "mkv".
    let name = "Show.S01E02.mkv";
    let mut found = FieldMatches::new();
    found.set(Field::Season, spans(&[Some((5, 9)), Some((6, 8)), None, None, None]));
    found.set(Field::Episode, spans(&[Some((8, 11)), Some((9, 11)), None, None]));
    found.set(Field::FileExtension, spans(&[Some((11, 15)), Some((12, 15))]));
    let m = Metadata::assemble(name, &found).unwrap();
    assert_eq!(m.title(), "Show");
    assert_eq!(m.season(), Some(1));
    assert_eq!(m.episode(), Some(2));
    assert_eq!(m.extension(), Some("mkv"));
    assert_eq!(m.episodes().len(), 0);
    assert!(!m.extended());
}

#[test]
fn assemble_prefix_tag_moves_start() {
    let name = "[x] Film 1999";
    let mut found = FieldMatches::new();
    found.set(Field::Website, spans(&[Some((0, 4)), Some((0, 3)), Some((1, 2))]));
    found.set(Field::Year, spans(&[Some((9, 13)), Some((9, 13)), Some((9, 11))]));
    let m = Metadata::assemble(name, &found).unwrap();
    assert_eq!(m.title(), "Film");
    assert_eq!(m.year(), Some(1999));
}

#[test]
fn assemble_collapsed_bounds_fail() {
    let name = "S01 Film";
    let mut found = FieldMatches::new();
    found.set(Field::Season, spans(&[Some((0, 3)), Some((1, 3)), None, None, None]));
    let e = Metadata::assemble(name, &found).unwrap_err();
    assert_eq!(e.matches()[0], ("season", Some("01".to_string())));
}

#[test]
fn assemble_expands_episode_range() {
    // "X e3e6": episode 3, last episode 6.
    let name = "Xy e3e6";
    let mut found = FieldMatches::new();
    found.set(Field::Episode, spans(&[Some((3, 5)), Some((4, 5)), None, None]));
    found.set(Field::LastEpisode, spans(&[Some((3, 7)), Some((6, 7))]));
    let m = Metadata::assemble(name, &found).unwrap();
    assert_eq!(m.title(), "Xy");
    assert_eq!(m.episodes(), &vec![3, 4, 5, 6]);
}

#[test]
fn assemble_ignores_last_episode_without_episode() {
    let name = "Xy e3e6";
    let mut found = FieldMatches::new();
    found.set(Field::LastEpisode, spans(&[Some((3, 7)), Some((6, 7))]));
    let m = Metadata::assemble(name, &found).unwrap();
    assert_eq!(m.title(), "Xy e3e6");
    assert_eq!(m.episodes().len(), 0);
}

#[test]
fn select_first_or_last_admitted_match() {
    let text = "12018 2019 2020";
    let all = vec![vec![Some((1, 5))], vec![Some((6, 10))], vec![Some((11, 15))]];
    let last = select_match(true, true, text, all.clone()).unwrap();
    assert_eq!(last, vec![Some((11, 15))]);
    let first = select_match(false, true, text, all.clone()).unwrap();
    assert_eq!(first, vec![Some((6, 10))]);
    let unfiltered = select_match(false, false, text, all).unwrap();
    assert_eq!(unfiltered, vec![Some((1, 5))]);
    assert_eq!(select_match(false, true, "12018", vec![vec![Some((1, 5))]]), None);
}
