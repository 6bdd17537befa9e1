use spotti::config::{Config, StringConfig};
use spotti::failure::{Call, InternalError, Phase, Stage, UpstreamError};
use spotti::history::{
    absorb, artist_names, ingest, listing, listing_from, listing_limit, plan_fetch, to_batch,
    to_record, FetchPlan,
};
use spotti::provider::ProviderRequest;
use spotti::storage::ListenStore;
use spotti::{Album, Artist, GlobalAuth, Listen, Listens, SessionAuth, SongRecord, TokenPair, Track};

fn config() -> Config {
    Config::from(StringConfig {
        db_file: String::from("songs.db"),
        error_file: String::from("/tmp/error"),
        bot_pidfile: String::from("/tmp/bot.pid"),
        client_id: String::from("cid"),
        client_secret: String::from("sec"),
        base_url: String::from("https://example.com"),
        authorize_endpoint: String::from("authorize"),
        refresh_endpoint: String::from("refresh"),
        get_new_endpoint: String::new(),
        show_all_endpoint: String::from("all"),
        uptime_endpoint: String::from("uptime"),
        get_new_limit: 20,
        address: String::from("127.0.0.1:3000"),
    })
    .unwrap()
}

fn artists(names: &[&str]) -> Vec<Artist> {
    names.iter().map(|n| Artist { name: String::from(*n), id: format!("id-{}", n) }).collect()
}

fn listen(played_at: &str, track_id: &str, name: &str, names: &[&str]) -> Listen {
    Listen {
        played_at: String::from(played_at),
        track: Track {
            album: Album {
                album_type: String::from("album"),
                artists: artists(&["Various"]),
                name: String::from("The Album"),
                kind: String::from("album"),
                id: String::from("album-1"),
            },
            artists: artists(names),
            name: String::from(name),
            kind: String::from("track"),
            id: String::from(track_id),
        },
    }
}

fn record(played_at: &str, track_id: &str, name: &str, artist: &str) -> SongRecord {
    SongRecord {
        name: Some(String::from(name)),
        album: Some(String::from("The Album")),
        artist: Some(String::from(artist)),
        date: Some(String::from(played_at)),
        id: Some(String::from(track_id)),
    }
}

#[test]
fn artists_are_joined_in_order() {
    assert_eq!(artist_names(&artists(&["A", "B", "C"])), "A, B, C");
    assert_eq!(artist_names(&artists(&["A"])), "A");
    assert_eq!(artist_names(&artists(&[])), "");
    assert_eq!(artist_names(&artists(&["B", "A"])), "B, A");
    assert_eq!(artist_names(&artists(&["", ""])), ", ");
    assert_eq!(artist_names(&artists(&["Earth, Wind & Fire", "X"])), "Earth, Wind & Fire, X");
}

#[test]
fn a_play_becomes_a_row() {
    let play = listen("2024-01-01T00:00:00Z", "abc", "Song", &["A", "B"]);
    assert_eq!(to_record(&play), record("2024-01-01T00:00:00Z", "abc", "Song", "A, B"));
}

#[test]
fn a_page_becomes_a_batch_in_its_order() {
    let page = Listens {
        items: vec![
            listen("2024-01-02T00:00:00Z", "b", "Second", &["B"]),
            listen("2024-01-01T00:00:00Z", "a", "First", &["A"]),
        ],
    };
    assert_eq!(
        to_batch(&page),
        vec![
            record("2024-01-02T00:00:00Z", "b", "Second", "B"),
            record("2024-01-01T00:00:00Z", "a", "First", "A"),
        ]
    );
    assert_eq!(to_batch(&Listens { items: vec![] }), vec![]);
}

#[test]
fn without_a_credential_nothing_is_fetched() {
    assert_eq!(plan_fetch(&None), FetchPlan::Degraded);
}

#[test]
fn with_a_credential_the_last_fifty_plays_are_fetched() {
    let auth = GlobalAuth(TokenPair {
        access_token: String::from("a1"),
        refresh_token: String::from("r1"),
    });
    assert_eq!(
        plan_fetch(&Some(auth)),
        FetchPlan::Send {
            request: ProviderRequest {
                call: Call::Recent,
                url: String::from("https://api.spotify.com/v1/me/player/recently-played?limit=50"),
                bearer: Some(String::from("a1")),
            }
        }
    );
}

#[test]
fn a_page_that_does_not_parse_gives_no_batch_and_keeps_its_body() {
    let raw = "{\"items\": [{\"played_at\": \"2024-01-01T00:00:00Z\"";
    let error = UpstreamError::Format {
        message: String::from("EOF while parsing an object"),
        raw_body: String::from(raw),
    };
    let failure = ingest(Err(error)).unwrap_err();
    assert_eq!(
        failure,
        InternalError {
            stage: Stage::RecentJson,
            message: String::from("EOF while parsing an object"),
            payload: Some(String::from(raw)),
        }
    );
    let escalation = failure.escalate(&config());
    assert_eq!(escalation.status, 500);
    assert_eq!(escalation.payload, Some(String::from(raw)));
    assert_eq!(escalation.report, format!("EOF while parsing an object\n{}", raw));
    assert!(escalation.page.contains("<p>recently-played json</p>"));
}

#[test]
fn a_page_that_does_not_parse_leaves_the_table_untouched() {
    let mut store = ListenStore::new();
    let page = Listens { items: vec![listen("2024-01-01T00:00:00Z", "a", "First", &["A"])] };
    assert_eq!(absorb(&mut store, Ok(page)), Ok(()));
    let before = store.read(None);
    let error = UpstreamError::Format {
        message: String::from("expected value"),
        raw_body: String::from("[{\"played_at\":\"2024-01-02T00:00:00Z\",\"track\":"),
    };
    assert!(absorb(&mut store, Err(error)).is_err());
    assert_eq!(store.read(None), before);
    assert_eq!(store.len(), 1);
}

#[test]
fn a_fetch_that_times_out_is_escalated_and_writes_no_rows() {
    let mut store = ListenStore::new();
    let error = UpstreamError::Transport {
        phase: Phase::Send,
        message: String::from("operation timed out"),
    };
    let failure = absorb(&mut store, Err(error)).unwrap_err();
    assert_eq!(
        failure,
        InternalError {
            stage: Stage::RecentRequest,
            message: String::from("operation timed out"),
            payload: None,
        }
    );
    assert_eq!(store.len(), 0);
    let escalation = failure.escalate(&config());
    assert_eq!(escalation.status, 500);
    assert_eq!(escalation.report, "operation timed out");
    assert_eq!(escalation.payload, None);
    assert!(escalation.page.contains("<pre><code>operation timed out</code></pre>"));
    assert!(escalation.page.contains("<a href=https://example.com/authorize>authing</a>"));
    assert!(escalation.page.contains("<a href=https://example.com/refresh>refreshing</a>"));
}

#[test]
fn two_cycles_with_the_same_play_store_it_once() {
    let mut store = ListenStore::new();
    let first = Listens { items: vec![listen("2024-01-01T00:00:00Z", "abc", "Song", &["A"])] };
    let second = Listens {
        items: vec![
            listen("2024-01-01T00:05:00Z", "def", "Other", &["B"]),
            listen("2024-01-01T00:00:00Z", "abc", "Song", &["A"]),
        ],
    };
    assert_eq!(absorb(&mut store, Ok(first)), Ok(()));
    assert_eq!(absorb(&mut store, Ok(second)), Ok(()));
    let rows = store.read(None);
    assert_eq!(
        rows,
        vec![
            record("2024-01-01T00:05:00Z", "def", "Other", "B"),
            record("2024-01-01T00:00:00Z", "abc", "Song", "A"),
        ]
    );
    let copies = rows
        .iter()
        .filter(|r| {
            r.date.as_deref() == Some("2024-01-01T00:00:00Z") && r.id.as_deref() == Some("abc")
        })
        .count();
    assert_eq!(copies, 1);
}

#[test]
fn the_limit_is_the_configured_one_or_none() {
    let config = config();
    assert_eq!(listing_limit(&config, false), Some(20));
    assert_eq!(listing_limit(&config, true), None);
}

#[test]
fn a_listing_with_the_credential_is_available() {
    let rows = vec![record("2024-01-01T00:00:00Z", "abc", "Song", "A")];
    let response = listing(&config(), &rows, &None, true, Some(20));
    assert_eq!(response.status, 200);
    assert!(!response.body.contains("global auth was not available"));
    assert!(response.body.contains("<td>Song</td>"));
}

#[test]
fn without_the_credential_the_listing_is_degraded_and_still_shows_the_rows() {
    let config = config();
    let mut store = ListenStore::new();
    store.upsert_batch(vec![
        record("2024-01-01T00:00:00Z", "a", "Old", "A"),
        record("2024-01-03T00:00:00Z", "c", "New", "C"),
        record("2024-01-02T00:00:00Z", "b", "Mid", "B"),
    ]);
    assert_eq!(plan_fetch(&None), FetchPlan::Degraded);
    let response = listing_from(&config, &store, &None, false, None);
    assert_eq!(response.status, 202);
    assert!(response.body.contains(
        "<p><em>global auth was not available, this list may not be up to date. please tell zack. <a href=https://example.com/authorize>authorize</a> or <a href=https://example.com/refresh>refresh</a>?</em></p>"
    ));
    let new = response.body.find("<td>New</td>").unwrap();
    let mid = response.body.find("<td>Mid</td>").unwrap();
    let old = response.body.find("<td>Old</td>").unwrap();
    assert!(new < mid && mid < old);
}

#[test]
fn a_listing_from_the_table_is_the_listing_of_what_it_reads() {
    let config = config();
    let mut store = ListenStore::new();
    store.upsert_batch(vec![
        record("2024-01-01T00:00:00Z", "a", "Old", "A"),
        record("2024-01-03T00:00:00Z", "c", "New", "C"),
    ]);
    let session = Some(SessionAuth(TokenPair {
        access_token: String::from("tok"),
        refresh_token: String::from("ref"),
    }));
    assert_eq!(
        listing_from(&config, &store, &session, true, Some(1)),
        listing(&config, &store.read(Some(1)), &session, true, Some(1))
    );
}
