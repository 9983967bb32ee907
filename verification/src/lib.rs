//! The logic of the home and movie pages of a media-server client: what the
//! pages show for the libraries, latest items, media sources, links and cast
//! that the server sends, and where opening an item leads.

pub mod home;
pub mod movie;
pub mod network;
pub mod text;
