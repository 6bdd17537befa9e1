//! The credential lifecycle and listen-history core of a small web service that
//! shows what one person has been playing on a music-streaming provider.
//!
//! Everything here is a function from values to values: the network, the
//! database, the session store and the clock belong to the program around it.

pub mod authorization;
pub mod config;
pub mod credentials;
pub mod failure;
pub mod history;
pub mod model;
pub mod pages;
pub mod provider;
pub mod refresh;
pub mod storage;
pub mod text;
pub mod timestamp;
pub mod web;

pub use credentials::{AuthUnavailable, CredentialStore};
pub use config::{Config, ConfigError, StringConfig, ME};
pub use model::{
    Album, Artist, GlobalAuth, Listen, Listens, MaybeAuth, Me, SessionAuth, SongRecord, TokenPair,
    Track,
};
pub use pages::make_link;
pub use web::{SPOTIFY_AUTH_URL, SPOTIFY_TOKEN_URL};
