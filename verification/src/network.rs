//! The records that the media server sends and that the pages lay out.
//! Each holds, as plain values, the fields that the pages read.

use vstd::prelude::*;

verus! {

/// A library (a top-level collection on the server).
#[derive(Debug, Clone)]
pub struct Library {
    pub name: String,
    pub id: String,
}

/// Per-user state of an item.
#[derive(Debug, Clone)]
pub struct UserData {
    pub unplayed_item_count: Option<u64>,
}

/// A recently added item of a library.
#[derive(Debug, Clone)]
pub struct Latest {
    pub name: String,
    pub id: String,
    /// The server's item type, such as `Movie`, `Series` or `MusicAlbum`.
    pub item_type: String,
    pub user_data: Option<UserData>,
    pub production_year: Option<u64>,
}

/// An item as a search lists it.
#[derive(Debug, Clone)]
pub struct SearchResult {
    pub id: String,
    pub name: String,
    pub item_type: String,
    pub user_data: Option<UserData>,
}

/// An external link of an item.
#[derive(Debug, Clone)]
pub struct Urls {
    pub name: String,
    pub url: String,
}

/// A person credited on an item.
#[derive(Debug, Clone)]
pub struct People {
    pub name: String,
    pub id: String,
    pub role: Option<String>,
}

/// The details of an item that its overview shows.
#[derive(Debug, Clone)]
pub struct Item {
    pub overview: Option<String>,
    pub external_urls: Option<Vec<Urls>>,
    pub people: Option<Vec<People>>,
}

/// The playable sources of an item.
#[derive(Debug, Clone)]
pub struct Media {
    pub media_sources: Vec<MediaSource>,
}

/// One playable source (a file) of an item.
#[derive(Debug, Clone)]
pub struct MediaSource {
    pub name: String,
    /// Size in bytes.
    pub size: u64,
    /// The container format, such as `mkv`.
    pub container: String,
    pub media_streams: Vec<MediaStream>,
}

/// One stream of a source: video, audio, subtitle, attachment, ...
#[derive(Debug, Clone)]
pub struct MediaStream {
    /// The stream's kind, such as `Video`, `Audio`, `Subtitle` or `Attachment`.
    pub stream_type: String,
    pub codec: Option<String>,
    pub display_language: Option<String>,
    pub title: Option<String>,
    /// Bits per second.
    pub bit_rate: Option<u64>,
    pub bit_depth: Option<u64>,
    /// Samples per second.
    pub sample_rate: Option<u64>,
    pub height: Option<u64>,
    pub width: Option<u64>,
    pub color_space: Option<String>,
    pub display_title: Option<String>,
    pub channels: Option<u64>,
    pub channel_layout: Option<String>,
    /// The average frame rate as the server's number is written in decimal.
    pub average_frame_rate: Option<String>,
    pub pixel_format: Option<String>,
}

/// The text of an optional string, as a sequence of characters.
pub open spec fn opt_text(o: Option<String>) -> Option<Seq<char>> {
    match o {
        Some(s) => Some(s@),
        None => None,
    }
}

} // verus!
