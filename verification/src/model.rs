//! The values that travel between the provider, the credential store and
//! storage, each with the mathematical view that contracts speak of.

use vstd::prelude::*;

verus! {

/// The text of an optional string.
pub open spec fn opt_text(text: Option<String>) -> Option<Seq<char>> {
    match text {
        Some(t) => Some(t@),
        None => None,
    }
}

/// An access token with the refresh token that renews it.
#[derive(Debug, PartialEq, Eq)]
pub struct TokenPair {
    pub access_token: String,
    pub refresh_token: String,
}

pub struct TokenPairView {
    pub access_token: Seq<char>,
    pub refresh_token: Seq<char>,
}

impl View for TokenPair {
    type V = TokenPairView;

    open spec fn view(&self) -> TokenPairView {
        TokenPairView { access_token: self.access_token@, refresh_token: self.refresh_token@ }
    }
}

impl Clone for TokenPair {
    fn clone(&self) -> (copy: Self)
        ensures
            copy@ == self@,
    {
        TokenPair {
            access_token: self.access_token.clone(),
            refresh_token: self.refresh_token.clone(),
        }
    }
}

/// What the token endpoint answers to a refresh: always a new access token,
/// and a new refresh token only when the provider rotates it.
#[derive(Debug, PartialEq, Eq)]
pub struct MaybeAuth {
    pub access_token: String,
    pub refresh_token: Option<String>,
}

pub struct MaybeAuthView {
    pub access_token: Seq<char>,
    pub refresh_token: Option<Seq<char>>,
}

impl View for MaybeAuth {
    type V = MaybeAuthView;

    open spec fn view(&self) -> MaybeAuthView {
        MaybeAuthView {
            access_token: self.access_token@,
            refresh_token: opt_text(self.refresh_token),
        }
    }
}

/// The credential of one visitor's session.
#[derive(Debug, PartialEq, Eq)]
pub struct SessionAuth(pub TokenPair);

impl View for SessionAuth {
    type V = TokenPairView;

    open spec fn view(&self) -> TokenPairView {
        self.0@
    }
}

impl Clone for SessionAuth {
    fn clone(&self) -> (copy: Self)
        ensures
            copy@ == self@,
    {
        SessionAuth(self.0.clone())
    }
}

/// The one credential that the service itself fetches with.
#[derive(Debug, PartialEq, Eq)]
pub struct GlobalAuth(pub TokenPair);

impl View for GlobalAuth {
    type V = TokenPairView;

    open spec fn view(&self) -> TokenPairView {
        self.0@
    }
}

impl Clone for GlobalAuth {
    fn clone(&self) -> (copy: Self)
        ensures
            copy@ == self@,
    {
        GlobalAuth(self.0.clone())
    }
}

/// The provider's answer to "who am I".
#[derive(Debug, PartialEq, Eq)]
pub struct Me {
    pub id: String,
}

/// One artist credited on a track or an album.
#[derive(Debug, PartialEq, Eq)]
pub struct Artist {
    pub name: String,
    pub id: String,
}

pub struct ArtistView {
    pub name: Seq<char>,
    pub id: Seq<char>,
}

impl View for Artist {
    type V = ArtistView;

    open spec fn view(&self) -> ArtistView {
        ArtistView { name: self.name@, id: self.id@ }
    }
}

/// The views of a list of artists, in order.
pub open spec fn artist_views(artists: Seq<Artist>) -> Seq<ArtistView> {
    artists.map_values(|a: Artist| a@)
}

/// The album that a track belongs to.
#[derive(Debug, PartialEq, Eq)]
pub struct Album {
    pub album_type: String,
    pub artists: Vec<Artist>,
    pub name: String,
    pub kind: String,
    pub id: String,
}

pub struct AlbumView {
    pub album_type: Seq<char>,
    pub artists: Seq<ArtistView>,
    pub name: Seq<char>,
    pub kind: Seq<char>,
    pub id: Seq<char>,
}

impl View for Album {
    type V = AlbumView;

    open spec fn view(&self) -> AlbumView {
        AlbumView {
            album_type: self.album_type@,
            artists: artist_views(self.artists@),
            name: self.name@,
            kind: self.kind@,
            id: self.id@,
        }
    }
}

/// A track as the provider describes it.
#[derive(Debug, PartialEq, Eq)]
pub struct Track {
    pub album: Album,
    pub artists: Vec<Artist>,
    pub name: String,
    pub kind: String,
    pub id: String,
}

pub struct TrackView {
    pub album: AlbumView,
    pub artists: Seq<ArtistView>,
    pub name: Seq<char>,
    pub kind: Seq<char>,
    pub id: Seq<char>,
}

impl View for Track {
    type V = TrackView;

    open spec fn view(&self) -> TrackView {
        TrackView {
            album: self.album@,
            artists: artist_views(self.artists@),
            name: self.name@,
            kind: self.kind@,
            id: self.id@,
        }
    }
}

/// One play: a track and the moment it was played.
#[derive(Debug, PartialEq, Eq)]
pub struct Listen {
    pub played_at: String,
    pub track: Track,
}

pub struct ListenView {
    pub played_at: Seq<char>,
    pub track: TrackView,
}

impl View for Listen {
    type V = ListenView;

    open spec fn view(&self) -> ListenView {
        ListenView { played_at: self.played_at@, track: self.track@ }
    }
}

/// One page of recently played tracks.
#[derive(Debug, PartialEq, Eq)]
pub struct Listens {
    pub items: Vec<Listen>,
}

impl View for Listens {
    type V = Seq<ListenView>;

    open spec fn view(&self) -> Seq<ListenView> {
        self.items@.map_values(|l: Listen| l@)
    }
}

/// A stored play, as a row of the `songs` table: every column may be null.
#[derive(Debug, PartialEq, Eq)]
pub struct SongRecord {
    pub name: Option<String>,
    pub album: Option<String>,
    pub artist: Option<String>,
    pub date: Option<String>,
    pub id: Option<String>,
}

pub struct SongRecordView {
    pub name: Option<Seq<char>>,
    pub album: Option<Seq<char>>,
    pub artist: Option<Seq<char>>,
    pub date: Option<Seq<char>>,
    pub id: Option<Seq<char>>,
}

impl View for SongRecord {
    type V = SongRecordView;

    open spec fn view(&self) -> SongRecordView {
        SongRecordView {
            name: opt_text(self.name),
            album: opt_text(self.album),
            artist: opt_text(self.artist),
            date: opt_text(self.date),
            id: opt_text(self.id),
        }
    }
}

/// The views of a list of stored plays, in order.
pub open spec fn record_views(records: Seq<SongRecord>) -> Seq<SongRecordView> {
    records.map_values(|r: SongRecord| r@)
}

} // verus!
