use tsukimi::movie::{MoviePage, describe_source, describe_stream, icon_for_stream, stream_box};
use tsukimi::network::{Item, Media, MediaSource, MediaStream, People, Urls};

fn stream(kind: &str) -> MediaStream {
    MediaStream {
        stream_type: kind.to_string(),
        codec: None,
        display_language: None,
        title: None,
        bit_rate: None,
        bit_depth: None,
        sample_rate: None,
        height: None,
        width: None,
        color_space: None,
        display_title: None,
        channels: None,
        channel_layout: None,
        average_frame_rate: None,
        pixel_format: None,
    }
}

fn page() -> MoviePage {
    MoviePage::new("123".to_string(), "Dune".to_string())
}

#[test]
fn movie_page_keeps_id_and_name() {
    let p = page();
    assert_eq!(p.id(), "123");
    assert_eq!(p.moviename(), "Dune");
}

#[test]
fn backdrop_names() {
    let p = page();
    assert_eq!(p.backdrop_file_name(), "b123.png");
    assert_eq!(p.backdrop_home_path(), ".local/share/tsukimi/b123.png");
}

#[test]
fn search_info_is_a_movie_without_user_data() {
    let info = page().search_info();
    assert_eq!(info.id, "123");
    assert_eq!(info.name, "Dune");
    assert_eq!(info.item_type, "Movie");
    assert!(info.user_data.is_none());
}

#[test]
fn source_heading_uppercases_container_and_formats_size() {
    let src = MediaSource {
        name: "Dune.2021".to_string(),
        size: 1_230_000_000,
        container: "mkv".to_string(),
        media_streams: Vec::new(),
    };
    assert_eq!(describe_source(&src), "MKV 1.23 GB\nDune.2021");
    let src = MediaSource {
        name: "x".to_string(),
        size: 999,
        container: "mp4".to_string(),
        media_streams: Vec::new(),
    };
    assert_eq!(describe_source(&src), "MP4 999 B\nx");
}

#[test]
fn video_stream_details() {
    let mut s = stream("Video");
    s.codec = Some("h264".to_string());
    s.bit_rate = Some(8_000_000);
    s.bit_depth = Some(8);
    s.height = Some(1080);
    s.width = Some(1920);
    s.color_space = Some("bt709".to_string());
    s.display_title = Some("1080p H264 SDR".to_string());
    s.average_frame_rate = Some("23.976".to_string());
    s.pixel_format = Some("yuv420p".to_string());
    assert_eq!(
        describe_stream(&s),
        "Codec: h264\nBitrate: 8 MBit/s\nBitDepth: 8 bit\nHeight: 1080\nWidth: 1920\nColorSpace: bt709\nDisplayTitle: 1080p H264 SDR\nAverageFrameRate: 23.976\nPixelFormat: yuv420p"
    );
}

#[test]
fn audio_stream_details() {
    let mut s = stream("Audio");
    s.codec = Some("aac".to_string());
    s.display_language = Some("English".to_string());
    s.title = Some("Surround".to_string());
    s.bit_rate = Some(384_000);
    s.sample_rate = Some(48_000);
    s.channels = Some(6);
    s.channel_layout = Some("5.1".to_string());
    assert_eq!(
        describe_stream(&s),
        "Codec: aac\nLanguage: English\nTitle: Surround\nBitrate: 384 KBit/s\nSampleRate: 48000 Hz\nChannel: 6\nChannelLayout: 5.1"
    );
}

#[test]
fn stream_details_without_codec_start_with_a_line_break() {
    let mut s = stream("Subtitle");
    s.display_language = Some("Japanese".to_string());
    assert_eq!(describe_stream(&s), "\nLanguage: Japanese");
}

#[test]
fn bare_stream_has_empty_details() {
    assert_eq!(describe_stream(&stream("Video")), "");
    let mut s = stream("Video");
    s.codec = Some(String::new());
    assert_eq!(describe_stream(&s), "Codec: ");
}

#[test]
fn stream_icons_by_kind() {
    assert_eq!(icon_for_stream(&"Video".to_string()), "video-x-generic-symbolic");
    assert_eq!(icon_for_stream(&"Audio".to_string()), "audio-x-generic-symbolic");
    assert_eq!(icon_for_stream(&"Subtitle".to_string()), "media-view-subtitles-symbolic");
    assert_eq!(icon_for_stream(&"Data".to_string()), "text-x-generic-symbolic");
    assert_eq!(icon_for_stream(&"video".to_string()), "text-x-generic-symbolic");
}

#[test]
fn stream_box_shows_kind_icon_and_details() {
    let mut s = stream("Audio");
    s.codec = Some("flac".to_string());
    let b = stream_box(&s);
    assert_eq!(b.icon, "audio-x-generic-symbolic");
    assert_eq!(b.type_label, "Audio");
    assert_eq!(b.details, "Codec: flac");
}

#[test]
fn media_box_skips_attachments_and_keeps_order() {
    let src = MediaSource {
        name: "Dune".to_string(),
        size: 500,
        container: "mkv".to_string(),
        media_streams: vec![stream("Video"), stream("Attachment"), stream("Audio"), stream("Attachment"), stream("Subtitle")],
    };
    let other = MediaSource {
        name: "Dune (Extended)".to_string(),
        size: 2_000_000,
        container: "mp4".to_string(),
        media_streams: vec![stream("Attachment")],
    };
    let boxes = page().createmediabox(&Media { media_sources: vec![src, other] });
    assert_eq!(boxes.len(), 2);
    assert_eq!(boxes[0].info, "MKV 500 B\nDune");
    let kinds: Vec<&str> = boxes[0].streams.iter().map(|b| b.type_label.as_str()).collect();
    assert_eq!(kinds, vec!["Video", "Audio", "Subtitle"]);
    assert_eq!(boxes[1].info, "MP4 2 MB\nDune (Extended)");
    assert!(boxes[1].streams.is_empty());
    assert!(page().createmediabox(&Media { media_sources: Vec::new() }).is_empty());
}

#[test]
fn link_buttons_follow_the_links() {
    let links = vec![
        Urls { name: "IMDb".to_string(), url: "https://www.imdb.com/title/tt1160419".to_string() },
        Urls { name: "TheMovieDb".to_string(), url: "https://www.themoviedb.org/movie/438631".to_string() },
    ];
    let buttons = page().setlinksscrolled(links);
    assert_eq!(buttons.len(), 2);
    assert_eq!(buttons[0].label, "IMDb");
    assert_eq!(buttons[0].uri, "https://www.imdb.com/title/tt1160419");
    assert_eq!(buttons[1].label, "TheMovieDb");
    assert!(page().setlinksscrolled(Vec::new()).is_empty());
}

#[test]
fn actor_captions_need_a_role() {
    let actors = vec![
        People { name: "Timothée Chalamet".to_string(), id: "p1".to_string(), role: Some("Paul Atreides".to_string()) },
        People { name: "Denis Villeneuve".to_string(), id: "p2".to_string(), role: None },
    ];
    let cards = page().setactorscrolled(actors);
    assert_eq!(cards.len(), 2);
    assert_eq!(cards[0].id, "p1");
    assert_eq!(cards[0].caption.as_deref(), Some("Timothée Chalamet\nPaul Atreides"));
    assert_eq!(cards[1].id, "p2");
    assert!(cards[1].caption.is_none());
}

#[test]
fn overview_shows_what_the_item_has() {
    let item = Item {
        overview: Some("A noble family...".to_string()),
        external_urls: Some(vec![Urls { name: "IMDb".to_string(), url: "u".to_string() }]),
        people: None,
    };
    let o = page().setoverview(item);
    assert_eq!(o.text.as_deref(), Some("A noble family..."));
    let links = o.links.unwrap();
    assert_eq!(links.len(), 1);
    assert_eq!(links[0].uri, "u");
    assert!(o.actors.is_none());

    let o = page().setoverview(Item { overview: None, external_urls: None, people: Some(Vec::new()) });
    assert!(o.text.is_none());
    assert!(o.links.is_none());
    assert_eq!(o.actors.unwrap().len(), 0);
}
