use tsukimi::home::{HomePage, ItemPage, LatestCard, Page, latest_card};
use tsukimi::movie::MoviePage;
use tsukimi::network::{Latest, Library, UserData};

fn latest(name: &str, id: &str, item_type: &str, year: Option<u64>, unplayed: Option<Option<u64>>) -> Latest {
    Latest {
        name: name.to_string(),
        id: id.to_string(),
        item_type: item_type.to_string(),
        user_data: unplayed.map(|c| UserData { unplayed_item_count: c }),
        production_year: year,
    }
}

fn library(name: &str, id: &str) -> Library {
    Library { name: name.to_string(), id: id.to_string() }
}

#[test]
fn new_home_page_is_empty() {
    let h = HomePage::new();
    assert!(h.current.is_none());
    assert!(h.title.is_none());
    assert!(h.toasts.is_empty());
}

#[test]
fn activate_movie_opens_movie_page() {
    let mut h = HomePage::new();
    h.activate(&latest("Dune", "m1", "Movie", Some(2021), None));
    match &h.current {
        Some(Page::Movie(p)) => {
            assert_eq!(p.id, "m1");
            assert_eq!(p.moviename, "Dune");
        },
        other => panic!("unexpected page {:?}", other),
    }
    assert_eq!(h.title.as_deref(), Some("Dune"));
    assert!(h.toasts.is_empty());
}

#[test]
fn activate_series_opens_item_page_with_its_id_as_name() {
    let mut h = HomePage::new();
    h.activate(&latest("Frieren", "s7", "Series", None, None));
    match &h.current {
        Some(Page::Item(p)) => {
            assert_eq!(p.id, "s7");
            assert_eq!(p.name, "s7");
        },
        other => panic!("unexpected page {:?}", other),
    }
    assert_eq!(h.title.as_deref(), Some("Frieren"));
}

#[test]
fn activate_unsupported_type_raises_notice_and_keeps_page() {
    let mut h = HomePage::new();
    h.set(Page::Item(ItemPage { id: "x".to_string(), name: "x".to_string() }));
    h.activate(&latest("Abbey Road", "a1", "MusicAlbum", Some(1969), None));
    match &h.current {
        Some(Page::Item(p)) => assert_eq!(p.id, "x"),
        other => panic!("unexpected page {:?}", other),
    }
    assert_eq!(h.toasts.len(), 1);
    assert_eq!(h.toasts[0].title, "MusicAlbum is not supported");
    assert_eq!(h.toasts[0].timeout, 3);
    assert_eq!(h.title.as_deref(), Some("Abbey Road"));
}

#[test]
fn activate_unsupported_twice_raises_two_notices() {
    let mut h = HomePage::new();
    h.activate(&latest("A", "1", "Episode", None, None));
    h.activate(&latest("B", "2", "", None, None));
    assert_eq!(h.toasts.len(), 2);
    assert_eq!(h.toasts[0].title, "Episode is not supported");
    assert_eq!(h.toasts[1].title, " is not supported");
    assert!(h.current.is_none());
    assert_eq!(h.title.as_deref(), Some("B"));
}

#[test]
fn set_shows_the_given_page() {
    let mut h = HomePage::new();
    h.set(Page::Movie(MoviePage::new("id".to_string(), "n".to_string())));
    h.set(Page::Item(ItemPage { id: "i".to_string(), name: "j".to_string() }));
    match &h.current {
        Some(Page::Item(p)) => {
            assert_eq!(p.id, "i");
            assert_eq!(p.name, "j");
        },
        other => panic!("unexpected page {:?}", other),
    }
    assert!(h.title.is_none());
}

#[test]
fn library_tiles_follow_the_libraries() {
    let h = HomePage::new();
    let libs = vec![library("Movies", "l1"), library("Shows", "l2")];
    let tiles = h.set_libraryscorll(&libs);
    assert_eq!(tiles.len(), 2);
    assert_eq!(tiles[0].id, "l1");
    assert_eq!(tiles[0].caption, "Movies");
    assert_eq!(tiles[1].id, "l2");
    assert_eq!(tiles[1].caption, "Shows");
}

#[test]
fn latest_sections_are_headed_in_bold() {
    let h = HomePage::new();
    let libs = vec![library("Movies", "l1"), library("<i>", "l2")];
    let sections = h.get_librarysscroll(&libs);
    assert_eq!(sections.len(), 2);
    assert_eq!(sections[0].library_id, "l1");
    assert_eq!(sections[0].header_markup, "<b>Latest Movies</b>");
    assert_eq!(sections[1].header_markup, "<b>Latest <i></b>");
}

#[test]
fn set_library_lays_out_tiles_and_sections() {
    let h = HomePage::new();
    let libs = vec![library("Music", "m")];
    let layout = h.set_library(&libs);
    assert_eq!(layout.tiles.len(), 1);
    assert_eq!(layout.tiles[0].caption, "Music");
    assert_eq!(layout.sections.len(), 1);
    assert_eq!(layout.sections[0].header_markup, "<b>Latest Music</b>");
    assert!(h.set_library(&Vec::new()).tiles.is_empty());
}

fn card(l: &Latest) -> LatestCard {
    latest_card(l)
}

#[test]
fn poster_caption_has_the_year_on_a_second_line() {
    assert_eq!(card(&latest("Dune", "m1", "Movie", Some(2021), None)).caption, "Dune\n2021");
    assert_eq!(card(&latest("Dune", "m1", "Movie", Some(0), None)).caption, "Dune\n0");
    assert_eq!(card(&latest("Dune", "m1", "Movie", None, None)).caption, "Dune");
}

#[test]
fn music_album_posters_are_square() {
    let c = card(&latest("Abbey Road", "a", "MusicAlbum", None, None));
    assert_eq!((c.width, c.height), (167, 167));
    let c = card(&latest("Dune", "m", "Movie", None, None));
    assert_eq!((c.width, c.height), (167, 240));
    let c = card(&latest("x", "m", "musicalbum", None, None));
    assert_eq!((c.width, c.height), (167, 240));
}

#[test]
fn unplayed_badge_only_above_zero() {
    assert_eq!(card(&latest("S", "s", "Series", None, Some(Some(12)))).badge.as_deref(), Some("12"));
    assert_eq!(card(&latest("S", "s", "Series", None, Some(Some(1)))).badge.as_deref(), Some("1"));
    assert!(card(&latest("S", "s", "Series", None, Some(Some(0)))).badge.is_none());
    assert!(card(&latest("S", "s", "Series", None, Some(None))).badge.is_none());
    assert!(card(&latest("S", "s", "Series", None, None)).badge.is_none());
}

#[test]
fn shelf_posters_follow_the_items() {
    let h = HomePage::new();
    let items = vec![
        latest("Dune", "m1", "Movie", Some(2021), None),
        latest("Frieren", "s1", "Series", Some(2023), Some(Some(3))),
    ];
    let cards = h.set_librarysscroll(items);
    assert_eq!(cards.len(), 2);
    assert_eq!(cards[0].id, "m1");
    assert_eq!(cards[0].caption, "Dune\n2021");
    assert!(cards[0].badge.is_none());
    assert_eq!(cards[1].id, "s1");
    assert_eq!(cards[1].caption, "Frieren\n2023");
    assert_eq!(cards[1].badge.as_deref(), Some("3"));
    assert!(h.set_librarysscroll(Vec::new()).is_empty());
}
