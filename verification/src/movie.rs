//! The movie page: its backdrop, its media sources and streams, its links and
//! its cast, laid out from what the server sends.

use vstd::prelude::*;
use crate::network::{Item, Media, MediaSource, MediaStream, People, SearchResult, Urls, opt_text};
use crate::text::{
    byte_size_text,
    decimal,
    decimal_text,
    format_bytes,
    text_is,
    to_uppercase,
    uppercase_text,
};

verus! {

// ---------------------------------------------------------------------------
// Streams
// ---------------------------------------------------------------------------

/// A stream is listed unless it is an attachment.
pub open spec fn stream_is_listed(stream_type: Seq<char>) -> bool {
    stream_type != "Attachment"@
}

/// The symbolic icon that stands beside a stream of the given kind.
pub open spec fn stream_icon(stream_type: Seq<char>) -> Seq<char> {
    if stream_type == "Video"@ {
        "video-x-generic-symbolic"@
    } else if stream_type == "Audio"@ {
        "audio-x-generic-symbolic"@
    } else if stream_type == "Subtitle"@ {
        "media-view-subtitles-symbolic"@
    } else {
        "text-x-generic-symbolic"@
    }
}

/// A labelled line of text for an optional field: nothing when it is absent.
pub open spec fn text_segment(label: Seq<char>, v: Option<String>) -> Seq<char> {
    match v {
        Some(t) => label + t@,
        None => Seq::empty(),
    }
}

/// A labelled line for an optional number, written in decimal and followed by
/// `unit`: nothing when it is absent.
pub open spec fn number_segment(label: Seq<char>, v: Option<u64>, unit: Seq<char>) -> Seq<char> {
    match v {
        Some(n) => label + decimal(n as nat) + unit,
        None => Seq::empty(),
    }
}

/// The bit rate line: the rate as a byte size, followed by `it/s`.
pub open spec fn bit_rate_segment(v: Option<u64>) -> Seq<char> {
    match v {
        Some(n) => "\nBitrate: "@ + byte_size_text(n) + "it/s"@,
        None => Seq::empty(),
    }
}

/// The description of a stream: one line for each field that is present, in
/// a fixed order. Every line but the codec's starts with a line break.
#[verifier::opaque]
pub open spec fn stream_details(st: MediaStream) -> Seq<char> {
    text_segment("Codec: "@, st.codec)
        + text_segment("\nLanguage: "@, st.display_language)
        + text_segment("\nTitle: "@, st.title)
        + bit_rate_segment(st.bit_rate)
        + number_segment("\nBitDepth: "@, st.bit_depth, " bit"@)
        + number_segment("\nSampleRate: "@, st.sample_rate, " Hz"@)
        + number_segment("\nHeight: "@, st.height, ""@)
        + number_segment("\nWidth: "@, st.width, ""@)
        + text_segment("\nColorSpace: "@, st.color_space)
        + text_segment("\nDisplayTitle: "@, st.display_title)
        + number_segment("\nChannel: "@, st.channels, ""@)
        + text_segment("\nChannelLayout: "@, st.channel_layout)
        + text_segment("\nAverageFrameRate: "@, st.average_frame_rate)
        + text_segment("\nPixelFormat: "@, st.pixel_format)
}

/// The box that shows one stream: an icon, the stream's kind, its description.
#[derive(Debug, Clone)]
pub struct StreamBox {
    pub icon: String,
    pub type_label: String,
    pub details: String,
}

/// `b` is the box of stream `st`.
pub open spec fn shows_stream(b: StreamBox, st: MediaStream) -> bool {
    &&& b.icon@ == stream_icon(st.stream_type@)
    &&& b.type_label@ == st.stream_type@
    &&& b.details@ == stream_details(st)
}

/// The streams of a source that are listed, in their order.
pub open spec fn listed_streams(s: Seq<MediaStream>) -> Seq<MediaStream>
    decreases s.len(),
{
    if s.len() == 0 {
        Seq::empty()
    } else if stream_is_listed(s.last().stream_type@) {
        listed_streams(s.drop_last()).push(s.last())
    } else {
        listed_streams(s.drop_last())
    }
}

/// `boxes` show, one for one and in order, the listed streams of `streams`.
pub open spec fn shows_streams(boxes: Seq<StreamBox>, streams: Seq<MediaStream>) -> bool {
    &&& boxes.len() == listed_streams(streams).len()
    &&& forall|j: int|
        0 <= j < boxes.len() ==> #[trigger] shows_stream(boxes[j], listed_streams(streams)[j])
}

fn append_text(s: &mut String, label: &str, v: &Option<String>)
    ensures
        final(s)@ == old(s)@ + text_segment(label@, *v),
{
    match v {
        Some(t) => {
            let ghost before = s@;
            s.append(label);
            s.append(t.as_str());
            assert(s@ =~= before + (label@ + t@));
        },
        None => {
            assert(s@ =~= s@ + Seq::<char>::empty());
        },
    }
}

fn append_number(s: &mut String, label: &str, v: Option<u64>, unit: &str)
    ensures
        final(s)@ == old(s)@ + number_segment(label@, v, unit@),
{
    match v {
        Some(n) => {
            let ghost before = s@;
            let digits = decimal_text(n);
            s.append(label);
            s.append(digits.as_str());
            s.append(unit);
            assert(s@ =~= before + (label@ + decimal(n as nat) + unit@));
        },
        None => {
            assert(s@ =~= s@ + Seq::<char>::empty());
        },
    }
}

fn append_bit_rate(s: &mut String, v: Option<u64>)
    ensures
        final(s)@ == old(s)@ + bit_rate_segment(v),
{
    match v {
        Some(n) => {
            let ghost before = s@;
            let size = format_bytes(n);
            s.append("\nBitrate: ");
            s.append(size.as_str());
            s.append("it/s");
            assert(s@ =~= before + ("\nBitrate: "@ + byte_size_text(n) + "it/s"@));
        },
        None => {
            assert(s@ =~= s@ + Seq::<char>::empty());
        },
    }
}

/// Writes the description of a stream.
pub fn describe_stream(st: &MediaStream) -> (r: String)
    ensures
        r@ == stream_details(*st),
{
    let mut s = String::new();
    append_text(&mut s, "Codec: ", &st.codec);
    append_text(&mut s, "\nLanguage: ", &st.display_language);
    append_text(&mut s, "\nTitle: ", &st.title);
    append_bit_rate(&mut s, st.bit_rate);
    append_number(&mut s, "\nBitDepth: ", st.bit_depth, " bit");
    append_number(&mut s, "\nSampleRate: ", st.sample_rate, " Hz");
    append_number(&mut s, "\nHeight: ", st.height, "");
    append_number(&mut s, "\nWidth: ", st.width, "");
    append_text(&mut s, "\nColorSpace: ", &st.color_space);
    append_text(&mut s, "\nDisplayTitle: ", &st.display_title);
    append_number(&mut s, "\nChannel: ", st.channels, "");
    append_text(&mut s, "\nChannelLayout: ", &st.channel_layout);
    append_text(&mut s, "\nAverageFrameRate: ", &st.average_frame_rate);
    append_text(&mut s, "\nPixelFormat: ", &st.pixel_format);
    reveal(stream_details);
    assert(s@ =~= stream_details(*st));
    s
}

/// The icon name for a stream of the given kind.
pub fn icon_for_stream(stream_type: &String) -> (r: String)
    ensures
        r@ == stream_icon(stream_type@),
{
    if text_is(stream_type, "Video") {
        String::from_str("video-x-generic-symbolic")
    } else if text_is(stream_type, "Audio") {
        String::from_str("audio-x-generic-symbolic")
    } else if text_is(stream_type, "Subtitle") {
        String::from_str("media-view-subtitles-symbolic")
    } else {
        String::from_str("text-x-generic-symbolic")
    }
}

/// Lays out one stream.
pub fn stream_box(st: &MediaStream) -> (r: StreamBox)
    ensures
        shows_stream(r, *st),
{
    StreamBox {
        icon: icon_for_stream(&st.stream_type),
        type_label: st.stream_type.clone(),
        details: describe_stream(st),
    }
}

/// Lays out the listed streams of a source, skipping its attachments.
pub fn stream_boxes(streams: &Vec<MediaStream>) -> (r: Vec<StreamBox>)
    ensures
        shows_streams(r@, streams@),
        r.len() == non_attachments(streams@).len(),
{
    let mut out: Vec<StreamBox> = Vec::new();
    let mut i: usize = 0;
    while i < streams.len()
        invariant
            i <= streams.len(),
            shows_streams(out@, streams@.take(i as int)),
        decreases streams.len() - i,
    {
        let ghost prev = streams@.take(i as int);
        let ghost next = streams@.take(i + 1);
        assert(next.drop_last() =~= prev);
        assert(next.last() == streams@[i as int]);
        let st = &streams[i];
        if !text_is(&st.stream_type, "Attachment") {
            let b = stream_box(st);
            let ghost old_out = out@;
            out.push(b);
            assert(listed_streams(next) == listed_streams(prev).push(*st));
            assert forall|j: int| 0 <= j < out@.len() implies #[trigger] shows_stream(
                out@[j],
                listed_streams(next)[j],
            ) by {
                if j < old_out.len() {
                    assert(out@[j] == old_out[j]);
                    assert(shows_stream(old_out[j], listed_streams(prev)[j]));
                }
            }
        } else {
            assert(listed_streams(next) == listed_streams(prev));
        }
        i = i + 1;
    }
    assert(streams@.take(streams.len() as int) =~= streams@);
    proof {
        stream_boxes_show_every_non_attachment(out@, streams@);
    }
    out
}

// ---------------------------------------------------------------------------
// Sources
// ---------------------------------------------------------------------------

/// The heading of a source: its container in upper case and its size on the
/// first line, its name on the second.
pub open spec fn source_info(src: MediaSource) -> Seq<char> {
    uppercase_text(src.container@) + " "@ + byte_size_text(src.size) + "\n"@ + src.name@
}

/// The box that shows one media source and its streams.
#[derive(Debug, Clone)]
pub struct MediaSourceBox {
    pub info: String,
    pub streams: Vec<StreamBox>,
}

/// `b` is the box of source `src`.
pub open spec fn shows_source(b: MediaSourceBox, src: MediaSource) -> bool {
    &&& b.info@ == source_info(src)
    &&& shows_streams(b.streams@, src.media_streams@)
}

/// Writes the heading of a source.
pub fn describe_source(src: &MediaSource) -> (r: String)
    ensures
        r@ == source_info(*src),
{
    let mut s = to_uppercase(src.container.as_str());
    let size = format_bytes(src.size);
    s.append(" ");
    s.append(size.as_str());
    s.append("\n");
    s.append(src.name.as_str());
    s
}

/// Lays out one media source.
pub fn source_box(src: &MediaSource) -> (r: MediaSourceBox)
    ensures
        shows_source(r, *src),
{
    MediaSourceBox { info: describe_source(src), streams: stream_boxes(&src.media_streams) }
}

} // verus!

verus! {

// ---------------------------------------------------------------------------
// Links and cast
// ---------------------------------------------------------------------------

/// A button that opens an external link: it shows `label` and opens `uri`.
#[derive(Debug, Clone)]
pub struct LinkButton {
    pub label: String,
    pub uri: String,
}

/// `b` is the button of link `u`.
pub open spec fn opens_link(b: LinkButton, u: Urls) -> bool {
    b.label@ == u.name@ && b.uri@ == u.url@
}

/// `buttons` are the buttons of `links`, one for one and in order.
pub open spec fn opens_links(buttons: Seq<LinkButton>, links: Seq<Urls>) -> bool {
    &&& buttons.len() == links.len()
    &&& forall|j: int| 0 <= j < links.len() ==> #[trigger] opens_link(buttons[j], links[j])
}

/// A cast member's card: the image of `id`, and a caption when the credit
/// names a role.
#[derive(Debug, Clone)]
pub struct ActorCard {
    pub id: String,
    pub caption: Option<String>,
}

/// The caption of a cast member: the name and, below it, the role; none when
/// the role is unknown.
pub open spec fn actor_caption(p: People) -> Option<Seq<char>> {
    match p.role {
        Some(role) => Some(p.name@ + "\n"@ + role@),
        None => None,
    }
}

/// `c` is the card of cast member `p`.
pub open spec fn shows_actor(c: ActorCard, p: People) -> bool {
    c.id@ == p.id@ && opt_text(c.caption) == actor_caption(p)
}

/// `cards` are the cards of `people`, one for one and in order.
pub open spec fn shows_actors(cards: Seq<ActorCard>, people: Seq<People>) -> bool {
    &&& cards.len() == people.len()
    &&& forall|j: int| 0 <= j < people.len() ==> #[trigger] shows_actor(cards[j], people[j])
}

/// Lays out one cast member.
pub fn actor_card(p: &People) -> (r: ActorCard)
    ensures
        shows_actor(r, *p),
{
    let caption = match &p.role {
        Some(role) => {
            let mut s = p.name.clone();
            s.append("\n");
            s.append(role.as_str());
            Some(s)
        },
        None => None,
    };
    ActorCard { id: p.id.clone(), caption }
}

// ---------------------------------------------------------------------------
// The page
// ---------------------------------------------------------------------------

/// What the overview of a movie shows once its details arrive.
#[derive(Debug, Clone)]
pub struct Overview {
    /// The text of the overview, when the item has one.
    pub text: Option<String>,
    /// The link buttons, when the item lists external links.
    pub links: Option<Vec<LinkButton>>,
    /// The cast, when the item lists people.
    pub actors: Option<Vec<ActorCard>>,
}

/// The page of one movie, made for the movie's id and name.
#[derive(Debug, Clone)]
pub struct MoviePage {
    pub id: String,
    pub moviename: String,
}

impl MoviePage {
    /// A page for the movie `id`, titled `name`.
    pub fn new(id: String, name: String) -> (r: MoviePage)
        ensures
            r.id == id,
            r.moviename == name,
    {
        MoviePage { id, moviename: name }
    }

    /// The movie's id.
    pub fn id(&self) -> (r: String)
        ensures
            r == self.id,
    {
        self.id.clone()
    }

    /// The movie's name.
    pub fn moviename(&self) -> (r: String)
        ensures
            r == self.moviename,
    {
        self.moviename.clone()
    }

    /// The file name under which the movie's backdrop is kept: `b`, the id,
    /// `.png`.
    pub fn backdrop_file_name(&self) -> (r: String)
        ensures
            r@ == "b"@ + self.id@ + ".png"@,
    {
        let mut s = String::from_str("b");
        s.append(self.id.as_str());
        s.append(".png");
        s
    }

    /// Where the backdrop is kept, relative to the user's home directory:
    /// `.local/share/tsukimi/` and the file name.
    pub fn backdrop_home_path(&self) -> (r: String)
        ensures
            r@ == ".local/share/tsukimi/"@ + "b"@ + self.id@ + ".png"@,
    {
        let name = self.backdrop_file_name();
        let mut s = String::from_str(".local/share/tsukimi/");
        s.append(name.as_str());
        assert(s@ =~= ".local/share/tsukimi/"@ + "b"@ + self.id@ + ".png"@);
        s
    }

    /// The search entry that stands for this movie when a source is chosen:
    /// its id and name, of type `Movie`, with no user data.
    pub fn search_info(&self) -> (r: SearchResult)
        ensures
            r.id == self.id,
            r.name == self.moviename,
            r.item_type@ == "Movie"@,
            r.user_data.is_none(),
    {
        SearchResult {
            id: self.id.clone(),
            name: self.moviename.clone(),
            item_type: String::from_str("Movie"),
            user_data: None,
        }
    }

    /// Lays out the media sources of the movie: one box per source, in order,
    /// each with the source's heading and the boxes of its listed streams.
    pub fn createmediabox(&self, media: &Media) -> (r: Vec<MediaSourceBox>)
        ensures
            r.len() == media.media_sources.len(),
            forall|i: int|
                0 <= i < r.len() ==> #[trigger] shows_source(r[i], media.media_sources[i]),
    {
        let sources = &media.media_sources;
        let mut out: Vec<MediaSourceBox> = Vec::new();
        let mut i: usize = 0;
        while i < sources.len()
            invariant
                i <= sources.len(),
                out.len() == i,
                forall|k: int| 0 <= k < i ==> #[trigger] shows_source(out[k], sources[k]),
            decreases sources.len() - i,
        {
            out.push(source_box(&sources[i]));
            i = i + 1;
        }
        out
    }

    /// The buttons of the movie's external links, one per link, in order.
    pub fn setlinksscrolled(&self, links: Vec<Urls>) -> (r: Vec<LinkButton>)
        ensures
            opens_links(r@, links@),
            r.len() == links.len(),
            forall|j: int|
                0 <= j < links.len() ==> (#[trigger] r[j]).uri@ == links[j].url@ && r[j].label@
                    == links[j].name@,
    {
        let mut out: Vec<LinkButton> = Vec::new();
        let mut i: usize = 0;
        while i < links.len()
            invariant
                i <= links.len(),
                out.len() == i,
                forall|k: int| 0 <= k < i ==> #[trigger] opens_link(out[k], links[k]),
            decreases links.len() - i,
        {
            let u = &links[i];
            out.push(LinkButton { label: u.name.clone(), uri: u.url.clone() });
            i = i + 1;
        }
        proof {
            link_buttons_open_their_own_links(out@, links@);
        }
        out
    }

    /// The cards of the movie's cast, one per person, in order.
    pub fn setactorscrolled(&self, actors: Vec<People>) -> (r: Vec<ActorCard>)
        ensures
            shows_actors(r@, actors@),
            r.len() == actors.len(),
            forall|j: int|
                0 <= j < actors.len() ==> {
                    &&& (#[trigger] r[j]).id@ == actors[j].id@
                    &&& actors[j].role matches Some(role) ==> (r[j].caption matches Some(c) && c@
                        == actors[j].name@ + "\n"@ + role@)
                    &&& actors[j].role is None ==> r[j].caption is None
                },
    {
        let mut out: Vec<ActorCard> = Vec::new();
        let mut i: usize = 0;
        while i < actors.len()
            invariant
                i <= actors.len(),
                out.len() == i,
                forall|k: int| 0 <= k < i ==> #[trigger] shows_actor(out[k], actors[k]),
            decreases actors.len() - i,
        {
            out.push(actor_card(&actors[i]));
            i = i + 1;
        }
        proof {
            actor_cards_show_their_own_people(out@, actors@);
        }
        out
    }

    /// What the overview shows once the movie's details arrive: the overview
    /// text if there is one, the links if the item lists them, the cast if
    /// it lists people.
    pub fn setoverview(&self, item: Item) -> (r: Overview)
        ensures
            opt_text(r.text) == opt_text(item.overview),
            r.links.is_some() == item.external_urls.is_some(),
            item.external_urls matches Some(links) ==> opens_links(r.links.unwrap()@, links@),
            r.actors.is_some() == item.people.is_some(),
            item.people matches Some(people) ==> shows_actors(r.actors.unwrap()@, people@),
    {
        let Item { overview, external_urls, people } = item;
        let links = match external_urls {
            Some(links) => Some(self.setlinksscrolled(links)),
            None => None,
        };
        let actors = match people {
            Some(people) => Some(self.setactorscrolled(people)),
            None => None,
        };
        Overview { text: overview, links, actors }
    }
}

} // verus!

verus! {

// ---------------------------------------------------------------------------
// Laws
// ---------------------------------------------------------------------------

/// Listing the streams of a source keeps no attachment and adds nothing: the
/// listed streams are at most as many as the streams, and none of them is an
/// attachment.
pub proof fn listed_streams_exclude_attachments(s: Seq<MediaStream>)
    ensures
        listed_streams(s).len() <= s.len(),
        forall|j: int|
            0 <= j < listed_streams(s).len() ==> stream_is_listed(
                #[trigger] listed_streams(s)[j].stream_type@,
            ),
    decreases s.len(),
{
    if s.len() > 0 {
        listed_streams_exclude_attachments(s.drop_last());
        let p = listed_streams(s.drop_last());
        if stream_is_listed(s.last().stream_type@) {
            assert forall|j: int| 0 <= j < listed_streams(s).len() implies stream_is_listed(
                #[trigger] listed_streams(s)[j].stream_type@,
            ) by {
                if j < p.len() {
                    assert(listed_streams(s)[j] == p[j]);
                }
            }
        }
    }
}

/// A source without attachments has every stream listed, in its order.
pub proof fn listed_streams_keep_the_rest(s: Seq<MediaStream>)
    requires
        forall|i: int| 0 <= i < s.len() ==> stream_is_listed(#[trigger] s[i].stream_type@),
    ensures
        listed_streams(s) == s,
    decreases s.len(),
{
    if s.len() > 0 {
        let q = s.drop_last();
        assert forall|i: int| 0 <= i < q.len() implies stream_is_listed(
            #[trigger] q[i].stream_type@,
        ) by {
            assert(q[i] == s[i]);
        }
        listed_streams_keep_the_rest(q);
        assert(stream_is_listed(s[s.len() - 1].stream_type@));
        assert(q.push(s.last()) =~= s);
    }
}

/// A stream's description is empty exactly when the stream has none of the
/// described fields: each present field adds a nonempty line.
pub proof fn stream_details_empty_iff_bare(st: MediaStream)
    ensures
        stream_details(st).len() == 0 <==> {
            &&& st.codec.is_none()
            &&& st.display_language.is_none()
            &&& st.title.is_none()
            &&& st.bit_rate.is_none()
            &&& st.bit_depth.is_none()
            &&& st.sample_rate.is_none()
            &&& st.height.is_none()
            &&& st.width.is_none()
            &&& st.color_space.is_none()
            &&& st.display_title.is_none()
            &&& st.channels.is_none()
            &&& st.channel_layout.is_none()
            &&& st.average_frame_rate.is_none()
            &&& st.pixel_format.is_none()
        },
{
    reveal(stream_details);
    reveal_strlit("Codec: ");
    reveal_strlit("\nLanguage: ");
    reveal_strlit("\nTitle: ");
    reveal_strlit("\nBitrate: ");
    reveal_strlit("\nBitDepth: ");
    reveal_strlit("\nSampleRate: ");
    reveal_strlit("\nHeight: ");
    reveal_strlit("\nWidth: ");
    reveal_strlit("\nColorSpace: ");
    reveal_strlit("\nDisplayTitle: ");
    reveal_strlit("\nChannel: ");
    reveal_strlit("\nChannelLayout: ");
    reveal_strlit("\nAverageFrameRate: ");
    reveal_strlit("\nPixelFormat: ");
}

} // verus!

verus! {

// The description of a stream, taken apart into its fourteen lines, in order.
spec fn detail_line(st: MediaStream, k: int) -> Seq<char> {
    if k == 0 {
        text_segment("Codec: "@, st.codec)
    } else if k == 1 {
        text_segment("\nLanguage: "@, st.display_language)
    } else if k == 2 {
        text_segment("\nTitle: "@, st.title)
    } else if k == 3 {
        bit_rate_segment(st.bit_rate)
    } else if k == 4 {
        number_segment("\nBitDepth: "@, st.bit_depth, " bit"@)
    } else if k == 5 {
        number_segment("\nSampleRate: "@, st.sample_rate, " Hz"@)
    } else if k == 6 {
        number_segment("\nHeight: "@, st.height, ""@)
    } else if k == 7 {
        number_segment("\nWidth: "@, st.width, ""@)
    } else if k == 8 {
        text_segment("\nColorSpace: "@, st.color_space)
    } else if k == 9 {
        text_segment("\nDisplayTitle: "@, st.display_title)
    } else if k == 10 {
        number_segment("\nChannel: "@, st.channels, ""@)
    } else if k == 11 {
        text_segment("\nChannelLayout: "@, st.channel_layout)
    } else if k == 12 {
        text_segment("\nAverageFrameRate: "@, st.average_frame_rate)
    } else {
        text_segment("\nPixelFormat: "@, st.pixel_format)
    }
}

// The first `n` lines of the description, joined.
spec fn details_upto(st: MediaStream, n: nat) -> Seq<char>
    decreases n,
{
    if n == 0 {
        Seq::empty()
    } else {
        details_upto(st, (n - 1) as nat) + detail_line(st, n - 1)
    }
}

proof fn details_are_their_lines(st: MediaStream)
    ensures
        stream_details(st) == details_upto(st, 14),
{
    reveal(stream_details);
    assert(details_upto(st, 1) == details_upto(st, 0) + text_segment("Codec: "@, st.codec));
    assert(details_upto(st, 2) == details_upto(st, 1) + text_segment("\nLanguage: "@, st.display_language));
    assert(details_upto(st, 3) == details_upto(st, 2) + text_segment("\nTitle: "@, st.title));
    assert(details_upto(st, 4) == details_upto(st, 3) + bit_rate_segment(st.bit_rate));
    assert(details_upto(st, 5) == details_upto(st, 4) + number_segment("\nBitDepth: "@, st.bit_depth, " bit"@));
    assert(details_upto(st, 6) == details_upto(st, 5) + number_segment("\nSampleRate: "@, st.sample_rate, " Hz"@));
    assert(details_upto(st, 7) == details_upto(st, 6) + number_segment("\nHeight: "@, st.height, ""@));
    assert(details_upto(st, 8) == details_upto(st, 7) + number_segment("\nWidth: "@, st.width, ""@));
    assert(details_upto(st, 9) == details_upto(st, 8) + text_segment("\nColorSpace: "@, st.color_space));
    assert(details_upto(st, 10) == details_upto(st, 9) + text_segment("\nDisplayTitle: "@, st.display_title));
    assert(details_upto(st, 11) == details_upto(st, 10) + number_segment("\nChannel: "@, st.channels, ""@));
    assert(details_upto(st, 12) == details_upto(st, 11) + text_segment("\nChannelLayout: "@, st.channel_layout));
    assert(details_upto(st, 13) == details_upto(st, 12) + text_segment("\nAverageFrameRate: "@, st.average_frame_rate));
    assert(details_upto(st, 14) == details_upto(st, 13) + text_segment("\nPixelFormat: "@, st.pixel_format));
    assert(details_upto(st, 0) =~= Seq::<char>::empty());
    assert(Seq::<char>::empty() + text_segment("Codec: "@, st.codec) =~= text_segment("Codec: "@, st.codec));
}

/// `part` occurs in `s` as a contiguous run of characters.
pub open spec fn has_run(s: Seq<char>, part: Seq<char>) -> bool {
    exists|i: int|
        0 <= i && i + part.len() <= s.len() && #[trigger] s.subrange(i, i + part.len()) == part
}

proof fn run_at_end(p: Seq<char>, x: Seq<char>)
    ensures
        has_run(p + x, x),
{
    let s = p + x;
    assert(s.subrange(p.len() as int, (p.len() + x.len()) as int) =~= x);
}

proof fn run_extends(s: Seq<char>, y: Seq<char>, part: Seq<char>)
    requires
        has_run(s, part),
    ensures
        has_run(s + y, part),
{
    let i = choose|i: int|
        0 <= i && i + part.len() <= s.len() && #[trigger] s.subrange(i, i + part.len()) == part;
    assert((s + y).subrange(i, i + part.len()) =~= s.subrange(i, i + part.len()));
}

proof fn line_stays(st: MediaStream, k: nat, n: nat)
    requires
        k < n <= 14,
    ensures
        has_run(details_upto(st, n), detail_line(st, k as int)),
    decreases n,
{
    if n == k + 1 {
        run_at_end(details_upto(st, k), detail_line(st, k as int));
    } else {
        line_stays(st, k, (n - 1) as nat);
        run_extends(details_upto(st, (n - 1) as nat), detail_line(st, n - 1), detail_line(st, k as int));
    }
}

proof fn details_length(st: MediaStream, n: nat)
    requires
        n <= 14,
    ensures
        details_upto(st, n).len() == lines_length(st, n),
    decreases n,
{
    if n > 0 {
        details_length(st, (n - 1) as nat);
    }
}

spec fn lines_length(st: MediaStream, n: nat) -> int
    decreases n,
{
    if n == 0 {
        0
    } else {
        lines_length(st, (n - 1) as nat) + detail_line(st, n - 1).len()
    }
}

/// Every field that a stream has is described, by a line of its own that
/// depends on that field alone: the label and the value (numbers in decimal,
/// the bit rate as a byte size per second), whatever the other fields are.
pub proof fn stream_details_show_every_present_field(st: MediaStream)
    ensures
        st.codec matches Some(v) ==> has_run(stream_details(st), "Codec: "@ + v@),
        st.display_language matches Some(v) ==> has_run(stream_details(st), "\nLanguage: "@ + v@),
        st.title matches Some(v) ==> has_run(stream_details(st), "\nTitle: "@ + v@),
        st.bit_rate matches Some(v) ==> has_run(stream_details(st), "\nBitrate: "@ + byte_size_text(v) + "it/s"@),
        st.bit_depth matches Some(v) ==> has_run(stream_details(st), "\nBitDepth: "@ + decimal(v as nat) + " bit"@),
        st.sample_rate matches Some(v) ==> has_run(stream_details(st), "\nSampleRate: "@ + decimal(v as nat) + " Hz"@),
        st.height matches Some(v) ==> has_run(stream_details(st), "\nHeight: "@ + decimal(v as nat)),
        st.width matches Some(v) ==> has_run(stream_details(st), "\nWidth: "@ + decimal(v as nat)),
        st.color_space matches Some(v) ==> has_run(stream_details(st), "\nColorSpace: "@ + v@),
        st.display_title matches Some(v) ==> has_run(stream_details(st), "\nDisplayTitle: "@ + v@),
        st.channels matches Some(v) ==> has_run(stream_details(st), "\nChannel: "@ + decimal(v as nat)),
        st.channel_layout matches Some(v) ==> has_run(stream_details(st), "\nChannelLayout: "@ + v@),
        st.average_frame_rate matches Some(v) ==> has_run(stream_details(st), "\nAverageFrameRate: "@ + v@),
        st.pixel_format matches Some(v) ==> has_run(stream_details(st), "\nPixelFormat: "@ + v@),
{
    reveal_strlit("");
    details_are_their_lines(st);
    if let Some(v) = st.codec {
        line_stays(st, 0, 14);
        assert(detail_line(st, 0) =~= "Codec: "@ + v@);
    }
    if let Some(v) = st.display_language {
        line_stays(st, 1, 14);
        assert(detail_line(st, 1) =~= "\nLanguage: "@ + v@);
    }
    if let Some(v) = st.title {
        line_stays(st, 2, 14);
        assert(detail_line(st, 2) =~= "\nTitle: "@ + v@);
    }
    if let Some(v) = st.bit_rate {
        line_stays(st, 3, 14);
        assert(detail_line(st, 3) =~= "\nBitrate: "@ + byte_size_text(v) + "it/s"@);
    }
    if let Some(v) = st.bit_depth {
        line_stays(st, 4, 14);
        assert(detail_line(st, 4) =~= "\nBitDepth: "@ + decimal(v as nat) + " bit"@);
    }
    if let Some(v) = st.sample_rate {
        line_stays(st, 5, 14);
        assert(detail_line(st, 5) =~= "\nSampleRate: "@ + decimal(v as nat) + " Hz"@);
    }
    if let Some(v) = st.height {
        line_stays(st, 6, 14);
        assert(detail_line(st, 6) =~= "\nHeight: "@ + decimal(v as nat));
    }
    if let Some(v) = st.width {
        line_stays(st, 7, 14);
        assert(detail_line(st, 7) =~= "\nWidth: "@ + decimal(v as nat));
    }
    if let Some(v) = st.color_space {
        line_stays(st, 8, 14);
        assert(detail_line(st, 8) =~= "\nColorSpace: "@ + v@);
    }
    if let Some(v) = st.display_title {
        line_stays(st, 9, 14);
        assert(detail_line(st, 9) =~= "\nDisplayTitle: "@ + v@);
    }
    if let Some(v) = st.channels {
        line_stays(st, 10, 14);
        assert(detail_line(st, 10) =~= "\nChannel: "@ + decimal(v as nat));
    }
    if let Some(v) = st.channel_layout {
        line_stays(st, 11, 14);
        assert(detail_line(st, 11) =~= "\nChannelLayout: "@ + v@);
    }
    if let Some(v) = st.average_frame_rate {
        line_stays(st, 12, 14);
        assert(detail_line(st, 12) =~= "\nAverageFrameRate: "@ + v@);
    }
    if let Some(v) = st.pixel_format {
        line_stays(st, 13, 14);
        assert(detail_line(st, 13) =~= "\nPixelFormat: "@ + v@);
    }
}

/// A stream's description holds nothing but the lines of its present fields:
/// its length is the sum of their lengths.
#[verifier::rlimit(60)]
pub proof fn stream_details_hold_only_present_fields(st: MediaStream)
    ensures
        stream_details(st).len() == 0
            + (match st.codec {
                Some(v) => "Codec: "@.len() + v@.len(),
                None => 0,
            })
            + (match st.display_language {
                Some(v) => "\nLanguage: "@.len() + v@.len(),
                None => 0,
            })
            + (match st.title {
                Some(v) => "\nTitle: "@.len() + v@.len(),
                None => 0,
            })
            + (match st.bit_rate {
                Some(v) => "\nBitrate: "@.len() + byte_size_text(v).len() + "it/s"@.len(),
                None => 0,
            })
            + (match st.bit_depth {
                Some(v) => "\nBitDepth: "@.len() + decimal(v as nat).len() + " bit"@.len(),
                None => 0,
            })
            + (match st.sample_rate {
                Some(v) => "\nSampleRate: "@.len() + decimal(v as nat).len() + " Hz"@.len(),
                None => 0,
            })
            + (match st.height {
                Some(v) => "\nHeight: "@.len() + decimal(v as nat).len(),
                None => 0,
            })
            + (match st.width {
                Some(v) => "\nWidth: "@.len() + decimal(v as nat).len(),
                None => 0,
            })
            + (match st.color_space {
                Some(v) => "\nColorSpace: "@.len() + v@.len(),
                None => 0,
            })
            + (match st.display_title {
                Some(v) => "\nDisplayTitle: "@.len() + v@.len(),
                None => 0,
            })
            + (match st.channels {
                Some(v) => "\nChannel: "@.len() + decimal(v as nat).len(),
                None => 0,
            })
            + (match st.channel_layout {
                Some(v) => "\nChannelLayout: "@.len() + v@.len(),
                None => 0,
            })
            + (match st.average_frame_rate {
                Some(v) => "\nAverageFrameRate: "@.len() + v@.len(),
                None => 0,
            })
            + (match st.pixel_format {
                Some(v) => "\nPixelFormat: "@.len() + v@.len(),
                None => 0,
            }),
{
    reveal_strlit("");
    details_are_their_lines(st);
    details_length(st, 14);
    assert(lines_length(st, 1) == lines_length(st, 0) + (match st.codec {
        Some(v) => "Codec: "@.len() + v@.len(),
        None => 0,
    })) by {
        assert(detail_line(st, 0).len() == (match st.codec {
        Some(v) => "Codec: "@.len() + v@.len(),
        None => 0,
    }));
    }
    assert(lines_length(st, 2) == lines_length(st, 1) + (match st.display_language {
        Some(v) => "\nLanguage: "@.len() + v@.len(),
        None => 0,
    })) by {
        assert(detail_line(st, 1).len() == (match st.display_language {
        Some(v) => "\nLanguage: "@.len() + v@.len(),
        None => 0,
    }));
    }
    assert(lines_length(st, 3) == lines_length(st, 2) + (match st.title {
        Some(v) => "\nTitle: "@.len() + v@.len(),
        None => 0,
    })) by {
        assert(detail_line(st, 2).len() == (match st.title {
        Some(v) => "\nTitle: "@.len() + v@.len(),
        None => 0,
    }));
    }
    assert(lines_length(st, 4) == lines_length(st, 3) + (match st.bit_rate {
        Some(v) => "\nBitrate: "@.len() + byte_size_text(v).len() + "it/s"@.len(),
        None => 0,
    })) by {
        assert(detail_line(st, 3).len() == (match st.bit_rate {
        Some(v) => "\nBitrate: "@.len() + byte_size_text(v).len() + "it/s"@.len(),
        None => 0,
    }));
    }
    assert(lines_length(st, 5) == lines_length(st, 4) + (match st.bit_depth {
        Some(v) => "\nBitDepth: "@.len() + decimal(v as nat).len() + " bit"@.len(),
        None => 0,
    })) by {
        assert(detail_line(st, 4).len() == (match st.bit_depth {
        Some(v) => "\nBitDepth: "@.len() + decimal(v as nat).len() + " bit"@.len(),
        None => 0,
    }));
    }
    assert(lines_length(st, 6) == lines_length(st, 5) + (match st.sample_rate {
        Some(v) => "\nSampleRate: "@.len() + decimal(v as nat).len() + " Hz"@.len(),
        None => 0,
    })) by {
        assert(detail_line(st, 5).len() == (match st.sample_rate {
        Some(v) => "\nSampleRate: "@.len() + decimal(v as nat).len() + " Hz"@.len(),
        None => 0,
    }));
    }
    assert(lines_length(st, 7) == lines_length(st, 6) + (match st.height {
        Some(v) => "\nHeight: "@.len() + decimal(v as nat).len(),
        None => 0,
    })) by {
        assert(detail_line(st, 6).len() == (match st.height {
        Some(v) => "\nHeight: "@.len() + decimal(v as nat).len(),
        None => 0,
    }));
    }
    assert(lines_length(st, 8) == lines_length(st, 7) + (match st.width {
        Some(v) => "\nWidth: "@.len() + decimal(v as nat).len(),
        None => 0,
    })) by {
        assert(detail_line(st, 7).len() == (match st.width {
        Some(v) => "\nWidth: "@.len() + decimal(v as nat).len(),
        None => 0,
    }));
    }
    assert(lines_length(st, 9) == lines_length(st, 8) + (match st.color_space {
        Some(v) => "\nColorSpace: "@.len() + v@.len(),
        None => 0,
    })) by {
        assert(detail_line(st, 8).len() == (match st.color_space {
        Some(v) => "\nColorSpace: "@.len() + v@.len(),
        None => 0,
    }));
    }
    assert(lines_length(st, 10) == lines_length(st, 9) + (match st.display_title {
        Some(v) => "\nDisplayTitle: "@.len() + v@.len(),
        None => 0,
    })) by {
        assert(detail_line(st, 9).len() == (match st.display_title {
        Some(v) => "\nDisplayTitle: "@.len() + v@.len(),
        None => 0,
    }));
    }
    assert(lines_length(st, 11) == lines_length(st, 10) + (match st.channels {
        Some(v) => "\nChannel: "@.len() + decimal(v as nat).len(),
        None => 0,
    })) by {
        assert(detail_line(st, 10).len() == (match st.channels {
        Some(v) => "\nChannel: "@.len() + decimal(v as nat).len(),
        None => 0,
    }));
    }
    assert(lines_length(st, 12) == lines_length(st, 11) + (match st.channel_layout {
        Some(v) => "\nChannelLayout: "@.len() + v@.len(),
        None => 0,
    })) by {
        assert(detail_line(st, 11).len() == (match st.channel_layout {
        Some(v) => "\nChannelLayout: "@.len() + v@.len(),
        None => 0,
    }));
    }
    assert(lines_length(st, 13) == lines_length(st, 12) + (match st.average_frame_rate {
        Some(v) => "\nAverageFrameRate: "@.len() + v@.len(),
        None => 0,
    })) by {
        assert(detail_line(st, 12).len() == (match st.average_frame_rate {
        Some(v) => "\nAverageFrameRate: "@.len() + v@.len(),
        None => 0,
    }));
    }
    assert(lines_length(st, 14) == lines_length(st, 13) + (match st.pixel_format {
        Some(v) => "\nPixelFormat: "@.len() + v@.len(),
        None => 0,
    })) by {
        assert(detail_line(st, 13).len() == (match st.pixel_format {
        Some(v) => "\nPixelFormat: "@.len() + v@.len(),
        None => 0,
    }));
    }
}

} // verus!

verus! {

/// Each link button shows its own link's name and opens its own link's
/// address: the j-th button belongs to the j-th link, for every j.
pub proof fn link_buttons_open_their_own_links(buttons: Seq<LinkButton>, links: Seq<Urls>)
    requires
        opens_links(buttons, links),
    ensures
        buttons.len() == links.len(),
        forall|j: int|
            0 <= j < links.len() ==> (#[trigger] buttons[j]).uri@ == links[j].url@
                && buttons[j].label@ == links[j].name@,
{
    assert forall|j: int| 0 <= j < links.len() implies (#[trigger] buttons[j]).uri@ == links[j].url@
        && buttons[j].label@ == links[j].name@ by {
        assert(opens_link(buttons[j], links[j]));
    }
}

/// Each cast card shows its own person: the person's image, and, when the
/// person's credit names a role, the person's name over that same role; no
/// caption when it names none.
pub proof fn actor_cards_show_their_own_people(cards: Seq<ActorCard>, people: Seq<People>)
    requires
        shows_actors(cards, people),
    ensures
        cards.len() == people.len(),
        forall|j: int|
            0 <= j < people.len() ==> {
                &&& (#[trigger] cards[j]).id@ == people[j].id@
                &&& people[j].role matches Some(r) ==> (cards[j].caption matches Some(c) && c@
                    == people[j].name@ + "\n"@ + r@)
                &&& people[j].role is None ==> cards[j].caption is None
            },
{
    assert forall|j: int| 0 <= j < people.len() implies {
        &&& (#[trigger] cards[j]).id@ == people[j].id@
        &&& people[j].role matches Some(r) ==> (cards[j].caption matches Some(c) && c@
            == people[j].name@ + "\n"@ + r@)
        &&& people[j].role is None ==> cards[j].caption is None
    } by {
        assert(shows_actor(cards[j], people[j]));
    }
}

/// A stream box shows its stream's kind, the description of that stream, and
/// the icon of its kind: video, audio and subtitle streams have their own
/// icons, every other kind the generic text icon.
pub proof fn stream_box_shows_its_stream(b: StreamBox, st: MediaStream)
    requires
        shows_stream(b, st),
    ensures
        b.type_label@ == st.stream_type@,
        b.details@ == stream_details(st),
        st.stream_type@ == "Video"@ ==> b.icon@ == "video-x-generic-symbolic"@,
        st.stream_type@ == "Audio"@ ==> b.icon@ == "audio-x-generic-symbolic"@,
        st.stream_type@ == "Subtitle"@ ==> b.icon@ == "media-view-subtitles-symbolic"@,
        st.stream_type@ != "Video"@ && st.stream_type@ != "Audio"@ && st.stream_type@
            != "Subtitle"@ ==> b.icon@ == "text-x-generic-symbolic"@,
{
    reveal_strlit("Video");
    reveal_strlit("Audio");
    reveal_strlit("Subtitle");
    assert("Video"@[0] != "Audio"@[0]);
    assert("Video"@[0] != "Subtitle"@[0]);
    assert("Audio"@[0] != "Subtitle"@[0]);
}

/// The streams of a source that are not attachments, in their order.
pub open spec fn non_attachments(s: Seq<MediaStream>) -> Seq<MediaStream> {
    s.filter(|st: MediaStream| st.stream_type@ != "Attachment"@)
}

proof fn listed_are_non_attachments(s: Seq<MediaStream>)
    ensures
        listed_streams(s) == non_attachments(s),
    decreases s.len(),
{
    reveal_with_fuel(Seq::filter, 1);
    if s.len() > 0 {
        listed_are_non_attachments(s.drop_last());
    }
}

/// The stream boxes of a source are exactly one box per stream that is not an
/// attachment, in the streams' order: the j-th box shows the j-th such
/// stream. With no attachment, there is one box per stream.
pub proof fn stream_boxes_show_every_non_attachment(boxes: Seq<StreamBox>, streams: Seq<MediaStream>)
    requires
        shows_streams(boxes, streams),
    ensures
        boxes.len() == non_attachments(streams).len(),
        forall|j: int|
            0 <= j < boxes.len() ==> (#[trigger] boxes[j]).type_label@ == non_attachments(
                streams,
            )[j].stream_type@ && boxes[j].details@ == stream_details(non_attachments(streams)[j]),
        (forall|i: int| 0 <= i < streams.len() ==> (#[trigger] streams[i]).stream_type@ != "Attachment"@)
            ==> boxes.len() == streams.len() && forall|j: int|
            0 <= j < boxes.len() ==> (#[trigger] boxes[j]).type_label@ == streams[j].stream_type@
                && boxes[j].details@ == stream_details(streams[j]),
{
    listed_are_non_attachments(streams);
    assert forall|j: int| 0 <= j < boxes.len() implies (#[trigger] boxes[j]).type_label@
        == non_attachments(streams)[j].stream_type@ && boxes[j].details@ == stream_details(
        non_attachments(streams)[j],
    ) by {
        assert(shows_stream(boxes[j], listed_streams(streams)[j]));
    }
    if forall|i: int| 0 <= i < streams.len() ==> (#[trigger] streams[i]).stream_type@ != "Attachment"@ {
        listed_streams_keep_the_rest(streams);
    }
}

/// The heading of a source box is the source's container in upper case, a
/// space, its size as `bytefmt` writes it, a line break and its name; its
/// stream boxes are those of the source's streams.
pub proof fn source_box_shows_its_source(b: MediaSourceBox, src: MediaSource)
    requires
        shows_source(b, src),
    ensures
        b.info@ == uppercase_text(src.container@) + " "@ + byte_size_text(src.size) + "\n"@
            + src.name@,
        shows_streams(b.streams@, src.media_streams@),
{
}

} // verus!

verus! {

/// The stream with only its first `k` described fields kept (in the order the
/// description lists them) and the others absent.
pub open spec fn first_fields(st: MediaStream, k: nat) -> MediaStream {
    MediaStream {
        stream_type: st.stream_type,
        codec: if k > 0 { st.codec } else { None },
        display_language: if k > 1 { st.display_language } else { None },
        title: if k > 2 { st.title } else { None },
        bit_rate: if k > 3 { st.bit_rate } else { None },
        bit_depth: if k > 4 { st.bit_depth } else { None },
        sample_rate: if k > 5 { st.sample_rate } else { None },
        height: if k > 6 { st.height } else { None },
        width: if k > 7 { st.width } else { None },
        color_space: if k > 8 { st.color_space } else { None },
        display_title: if k > 9 { st.display_title } else { None },
        channels: if k > 10 { st.channels } else { None },
        channel_layout: if k > 11 { st.channel_layout } else { None },
        average_frame_rate: if k > 12 { st.average_frame_rate } else { None },
        pixel_format: if k > 13 { st.pixel_format } else { None },
    }
}

proof fn first_fields_lines(st: MediaStream, k: nat, j: int)
    requires
        0 <= j < 14,
    ensures
        j < k ==> detail_line(first_fields(st, k), j) == detail_line(st, j),
        j >= k ==> detail_line(first_fields(st, k), j) == Seq::<char>::empty(),
{
}

proof fn first_fields_upto(st: MediaStream, k: nat, n: nat)
    requires
        n <= 14,
    ensures
        n <= k ==> details_upto(first_fields(st, k), n) == details_upto(st, n),
        n > k ==> details_upto(first_fields(st, k), n) == details_upto(st, k),
    decreases n,
{
    if n > 0 {
        first_fields_upto(st, k, (n - 1) as nat);
        first_fields_lines(st, k, n - 1);
        if n > k {
            if n - 1 >= k {
                assert(details_upto(first_fields(st, k), n) =~= details_upto(
                    first_fields(st, k),
                    (n - 1) as nat,
                ));
            }
        }
    }
}

proof fn upto_is_prefix(st: MediaStream, k: nat, n: nat)
    requires
        k <= n <= 14,
    ensures
        details_upto(st, k).is_prefix_of(details_upto(st, n)),
    decreases n,
{
    if n > k {
        upto_is_prefix(st, k, (n - 1) as nat);
        assert(details_upto(st, k).is_prefix_of(details_upto(st, n)));
    }
}

/// The description lists its lines in a fixed order: the description of a
/// stream stripped of all but its first `k` fields (codec, language, title,
/// bit rate, bit depth, sample rate, height, width, colour space, display
/// title, channels, channel layout, frame rate, pixel format) is the
/// beginning of the full stream's description.
pub proof fn stream_details_keep_their_order(st: MediaStream, k: nat)
    requires
        k <= 14,
    ensures
        stream_details(first_fields(st, k)).is_prefix_of(stream_details(st)),
{
    details_are_their_lines(st);
    details_are_their_lines(first_fields(st, k));
    first_fields_upto(st, k, 14);
    upto_is_prefix(st, k, 14);
}

} // verus!
