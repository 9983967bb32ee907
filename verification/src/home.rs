//! The home page: the row of libraries, the "latest" shelf of each library,
//! and what opening an item of a shelf does.

use vstd::prelude::*;
use crate::movie::MoviePage;
use crate::network::{Latest, Library, opt_text};
use crate::text::{canonical_numeral, decimal, decimal_reads_back, decimal_text, numeral_value, text_is};

verus! {

/// The page of a series (or other browsable item), made for an id and a name.
#[derive(Debug, Clone)]
pub struct ItemPage {
    pub id: String,
    pub name: String,
}

/// The page that the home page shows in place of its content.
#[derive(Debug, Clone)]
pub enum Page {
    Movie(MoviePage),
    Item(ItemPage),
}

/// A transient notice.
#[derive(Debug, Clone)]
pub struct Toast {
    pub title: String,
    /// Seconds before it goes away.
    pub timeout: u32,
}

/// A tile of the library row: the image of `id`, captioned with the
/// library's name.
#[derive(Debug, Clone)]
pub struct LibraryTile {
    pub id: String,
    pub caption: String,
}

/// The heading of a library's "latest" shelf, and the library whose latest
/// items fill it.
#[derive(Debug, Clone)]
pub struct LatestSection {
    pub library_id: String,
    /// Pango markup of the heading.
    pub header_markup: String,
}

/// A poster of the "latest" shelf.
#[derive(Debug, Clone)]
pub struct LatestCard {
    /// The item whose image the poster shows.
    pub id: String,
    pub caption: String,
    pub width: i32,
    pub height: i32,
    /// The count of unplayed episodes, shown in the poster's corner.
    pub badge: Option<String>,
}

/// What the home page lays out when the list of libraries arrives.
#[derive(Debug, Clone)]
pub struct LibraryLayout {
    pub tiles: Vec<LibraryTile>,
    pub sections: Vec<LatestSection>,
}

/// The home page's state: the page shown in its place, the window title it
/// set, and the notices it raised.
#[derive(Debug, Clone)]
pub struct HomePage {
    pub current: Option<Page>,
    pub title: Option<String>,
    pub toasts: Vec<Toast>,
}

/// `t` is the tile of library `v`.
pub open spec fn shows_library(t: LibraryTile, v: Library) -> bool {
    t.id@ == v.id@ && t.caption@ == v.name@
}

/// The heading of a library's shelf: `Latest` and the library's name, in bold.
pub open spec fn latest_header(name: Seq<char>) -> Seq<char> {
    "<b>Latest "@ + name + "</b>"@
}

/// `s` is the shelf section of library `v`.
pub open spec fn heads_section(s: LatestSection, v: Library) -> bool {
    s.library_id@ == v.id@ && s.header_markup@ == latest_header(v.name@)
}

/// The caption of a poster: the name and, on a second line, the production
/// year when it is known.
pub open spec fn latest_caption(l: Latest) -> Seq<char> {
    match l.production_year {
        Some(y) => l.name@ + "\n"@ + decimal(y as nat),
        None => l.name@,
    }
}

/// Posters are 167 pixels wide and 240 high, square for a music album.
pub open spec fn poster_size(item_type: Seq<char>) -> (int, int) {
    if item_type == "MusicAlbum"@ {
        (167, 167)
    } else {
        (167, 240)
    }
}

/// The badge of a poster: the count of unplayed items, when the user data
/// gives one above zero.
pub open spec fn unplayed_badge(l: Latest) -> Option<Seq<char>> {
    match l.user_data {
        Some(ud) => match ud.unplayed_item_count {
            Some(n) => if n > 0 {
                Some(decimal(n as nat))
            } else {
                None
            },
            None => None,
        },
        None => None,
    }
}

/// `c` is the poster of `l`.
pub open spec fn shows_latest(c: LatestCard, l: Latest) -> bool {
    &&& c.id@ == l.id@
    &&& c.caption@ == latest_caption(l)
    &&& (c.width as int, c.height as int) == poster_size(l.item_type@)
    &&& opt_text(c.badge) == unplayed_badge(l)
}

/// The notice raised for an item of a type that cannot be opened.
pub open spec fn unsupported_notice(item_type: Seq<char>) -> Seq<char> {
    item_type + " is not supported"@
}

/// Builds one poster.
pub fn latest_card(l: &Latest) -> (r: LatestCard)
    ensures
        shows_latest(r, *l),
        l.production_year matches Some(y) ==> r.caption@ == l.name@ + "\n"@ + decimal(y as nat),
        l.production_year is None ==> r.caption@ == l.name@,
{
    let mut caption = l.name.clone();
    match l.production_year {
        Some(y) => {
            let year = decimal_text(y);
            caption.append("\n");
            caption.append(year.as_str());
        },
        None => {},
    }
    let (width, height): (i32, i32) = if text_is(&l.item_type, "MusicAlbum") {
        (167, 167)
    } else {
        (167, 240)
    };
    let badge = match &l.user_data {
        Some(ud) => match ud.unplayed_item_count {
            Some(n) => if n > 0 {
                Some(decimal_text(n))
            } else {
                None
            },
            None => None,
        },
        None => None,
    };
    LatestCard { id: l.id.clone(), caption, width, height, badge }
}

impl HomePage {
    /// A home page that shows its own content, has set no title and raised
    /// no notice.
    pub fn new() -> (r: HomePage)
        ensures
            r.current.is_none(),
            r.title.is_none(),
            r.toasts@.len() == 0,
    {
        HomePage { current: None, title: None, toasts: Vec::new() }
    }

    /// Shows `page` in place of the home page's content.
    pub fn set(&mut self, page: Page)
        ensures
            final(self).current == Some(page),
            final(self).title == old(self).title,
            final(self).toasts == old(self).toasts,
    {
        self.current = Some(page);
    }

    /// Opens an item of a shelf. A movie opens its movie page, a series its
    /// item page (made with the series' id for both its id and its name);
    /// any other type leaves the shown page as it is and raises the notice
    /// that the type is not supported, for three seconds. In every case the
    /// window is titled with the item's name.
    pub fn activate(&mut self, latest: &Latest)
        ensures
            final(self).title == Some(latest.name),
            latest.item_type@ == "Movie"@ ==> {
                &&& final(self).current == Some(
                    Page::Movie(MoviePage { id: latest.id, moviename: latest.name }),
                )
                &&& final(self).toasts == old(self).toasts
            },
            latest.item_type@ == "Series"@ ==> {
                &&& final(self).current == Some(
                    Page::Item(ItemPage { id: latest.id, name: latest.id }),
                )
                &&& final(self).toasts == old(self).toasts
            },
            latest.item_type@ != "Movie"@ && latest.item_type@ != "Series"@ ==> {
                &&& final(self).current == old(self).current
                &&& final(self).toasts@.len() == old(self).toasts@.len() + 1
                &&& final(self).toasts@.drop_last() == old(self).toasts@
                &&& final(self).toasts@.last().title@ == unsupported_notice(latest.item_type@)
                &&& final(self).toasts@.last().timeout == 3
            },
    {
        proof {
            reveal_strlit("Movie");
            reveal_strlit("Series");
            assert("Movie"@[0] != "Series"@[0]);
        }
        if text_is(&latest.item_type, "Movie") {
            let page = MoviePage::new(latest.id.clone(), latest.name.clone());
            self.set(Page::Movie(page));
        } else if text_is(&latest.item_type, "Series") {
            let page = ItemPage { id: latest.id.clone(), name: latest.id.clone() };
            self.set(Page::Item(page));
        } else {
            let mut title = latest.item_type.clone();
            title.append(" is not supported");
            let ghost before = self.toasts@;
            self.toasts.push(Toast { title, timeout: 3 });
            assert(self.toasts@.drop_last() =~= before);
        }
        self.title = Some(latest.name.clone());
    }

    /// The tiles of the library row: one per library, in order.
    pub fn set_libraryscorll(&self, views: &Vec<Library>) -> (r: Vec<LibraryTile>)
        ensures
            r.len() == views.len(),
            forall|i: int| 0 <= i < views.len() ==> #[trigger] shows_library(r[i], views[i]),
    {
        let mut out: Vec<LibraryTile> = Vec::new();
        let mut i: usize = 0;
        while i < views.len()
            invariant
                i <= views.len(),
                out.len() == i,
                forall|k: int| 0 <= k < i ==> #[trigger] shows_library(out[k], views[k]),
            decreases views.len() - i,
        {
            let v = &views[i];
            out.push(LibraryTile { id: v.id.clone(), caption: v.name.clone() });
            i = i + 1;
        }
        out
    }

    /// The "latest" shelves: one per library, in order, each headed with the
    /// library's name and to be filled with that library's latest items.
    pub fn get_librarysscroll(&self, views: &Vec<Library>) -> (r: Vec<LatestSection>)
        ensures
            r.len() == views.len(),
            forall|i: int| 0 <= i < views.len() ==> #[trigger] heads_section(r[i], views[i]),
    {
        let mut out: Vec<LatestSection> = Vec::new();
        let mut i: usize = 0;
        while i < views.len()
            invariant
                i <= views.len(),
                out.len() == i,
                forall|k: int| 0 <= k < i ==> #[trigger] heads_section(out[k], views[k]),
            decreases views.len() - i,
        {
            let v = &views[i];
            let mut header = String::from_str("<b>Latest ");
            header.append(v.name.as_str());
            header.append("</b>");
            out.push(LatestSection { library_id: v.id.clone(), header_markup: header });
            i = i + 1;
        }
        out
    }

    /// The posters of one shelf: one per latest item, in order.
    pub fn set_librarysscroll(&self, latests: Vec<Latest>) -> (r: Vec<LatestCard>)
        ensures
            r.len() == latests.len(),
            forall|i: int| 0 <= i < latests.len() ==> #[trigger] shows_latest(r[i], latests[i]),
    {
        let mut out: Vec<LatestCard> = Vec::new();
        let mut i: usize = 0;
        while i < latests.len()
            invariant
                i <= latests.len(),
                out.len() == i,
                forall|k: int| 0 <= k < i ==> #[trigger] shows_latest(out[k], latests[k]),
            decreases latests.len() - i,
        {
            out.push(latest_card(&latests[i]));
            i = i + 1;
        }
        out
    }

    /// What the home page lays out when the list of libraries arrives: the
    /// library row and the shelves of latest items.
    pub fn set_library(&self, views: &Vec<Library>) -> (r: LibraryLayout)
        ensures
            r.tiles.len() == views.len(),
            forall|i: int| 0 <= i < views.len() ==> #[trigger] shows_library(r.tiles[i], views[i]),
            r.sections.len() == views.len(),
            forall|i: int|
                0 <= i < views.len() ==> #[trigger] heads_section(r.sections[i], views[i]),
    {
        LibraryLayout {
            tiles: self.set_libraryscorll(views),
            sections: self.get_librarysscroll(views),
        }
    }
}

/// A poster carries a badge exactly when the user data counts unplayed
/// items above zero, and the badge is the count's canonical decimal numeral,
/// which reads back as the count.
pub proof fn badge_reads_back(l: Latest)
    ensures
        unplayed_badge(l).is_some() <==> (l.user_data matches Some(ud)
            && ud.unplayed_item_count matches Some(n) && n > 0),
        unplayed_badge(l) matches Some(b) ==> canonical_numeral(b) && numeral_value(b)
            == l.user_data.unwrap().unplayed_item_count.unwrap(),
{
    if let Some(ud) = l.user_data {
        if let Some(n) = ud.unplayed_item_count {
            decimal_reads_back(n as nat);
        }
    }
}

/// A poster shows its own item: the item's image; a caption that is the
/// item's name, followed, whenever a production year is known (whatever the
/// item's type), by a line break and the year in decimal; a square 167 by 167
/// size for a music album and 167 by 240 for every other type; and a badge
/// with the unplayed count in decimal exactly when that count is above zero.
pub proof fn poster_shows_its_item(c: LatestCard, l: Latest)
    requires
        shows_latest(c, l),
    ensures
        c.id@ == l.id@,
        l.production_year matches Some(y) ==> c.caption@ == l.name@ + "\n"@ + decimal(y as nat),
        l.production_year is None ==> c.caption@ == l.name@,
        l.item_type@ == "MusicAlbum"@ ==> c.width == 167 && c.height == 167,
        l.item_type@ != "MusicAlbum"@ ==> c.width == 167 && c.height == 240,
        (l.user_data matches Some(ud) && ud.unplayed_item_count matches Some(n) && n > 0) ==> (
        c.badge matches Some(b) && b@ == decimal(l.user_data.unwrap().unplayed_item_count.unwrap()
            as nat)),
        !(l.user_data matches Some(ud) && ud.unplayed_item_count matches Some(n) && n > 0)
            ==> c.badge is None,
{
}

/// Each tile shows its own library: its image and its name.
pub proof fn tiles_show_their_own_libraries(tiles: Seq<LibraryTile>, views: Seq<Library>)
    requires
        tiles.len() == views.len(),
        forall|i: int| 0 <= i < views.len() ==> #[trigger] shows_library(tiles[i], views[i]),
    ensures
        forall|i: int|
            0 <= i < views.len() ==> (#[trigger] tiles[i]).id@ == views[i].id@ && tiles[i].caption@
                == views[i].name@,
{
    assert forall|i: int| 0 <= i < views.len() implies (#[trigger] tiles[i]).id@ == views[i].id@
        && tiles[i].caption@ == views[i].name@ by {
        assert(shows_library(tiles[i], views[i]));
    }
}

/// Each shelf belongs to its own library and is headed, in bold, by `Latest`,
/// a space and that library's name.
pub proof fn sections_head_their_own_libraries(sections: Seq<LatestSection>, views: Seq<Library>)
    requires
        sections.len() == views.len(),
        forall|i: int| 0 <= i < views.len() ==> #[trigger] heads_section(sections[i], views[i]),
    ensures
        forall|i: int|
            0 <= i < views.len() ==> (#[trigger] sections[i]).library_id@ == views[i].id@
                && sections[i].header_markup@ == "<b>Latest "@ + views[i].name@ + "</b>"@,
{
    assert forall|i: int| 0 <= i < views.len() implies (#[trigger] sections[i]).library_id@
        == views[i].id@ && sections[i].header_markup@ == "<b>Latest "@ + views[i].name@
        + "</b>"@ by {
        assert(heads_section(sections[i], views[i]));
    }
}

} // verus!
