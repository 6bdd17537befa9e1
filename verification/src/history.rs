//! The history synchronizer: on each listing, fetch what was played last with
//! the service's credential, bring it to storage, and list what storage
//! holds. Without the credential nothing is fetched and the listing is marked
//! as degraded.

use crate::config::{Config, ConfigView};
use crate::credentials::{snapshot_view, Slot};
use crate::failure::{
    escalated, upstream_failure, Call, InternalError, InternalErrorView, PageResponse,
    PageResponseView, Stage, UpstreamError, UpstreamErrorView,
};
use crate::model::{
    artist_views, record_views, Artist, ArtistView, GlobalAuth, Listen, ListenView, Listens,
    SessionAuth, SongRecord, SongRecordView,
};
use crate::pages::{listing_page, listing_text, session_token};
use crate::provider::{
    recent_params, recent_request, request_outcome, ProviderRequest, ProviderRequestView,
    FETCH_LIMIT, RECENT_URL,
};
use crate::storage::{listed, upserted_all, ListenStore, Table};
use crate::web::parsed_with_params;
use vstd::prelude::*;

verus! {

/// The names of the artists, in their order, with `", "` between one and the
/// next.
pub open spec fn joined_names(artists: Seq<ArtistView>) -> Seq<char>
    decreases artists.len(),
{
    if artists.len() == 0 {
        Seq::empty()
    } else if artists.len() == 1 {
        artists[0].name
    } else {
        joined_names(artists.drop_last()) + ", "@ + artists.last().name
    }
}

/// The row that a play is stored as.
pub open spec fn record_of(listen: ListenView) -> SongRecordView {
    SongRecordView {
        name: Some(listen.track.name),
        album: Some(listen.track.album.name),
        artist: Some(joined_names(listen.track.artists)),
        date: Some(listen.played_at),
        id: Some(listen.track.id),
    }
}

/// The rows that a page of plays is stored as, in the page's order.
pub open spec fn batch_of(listens: Seq<ListenView>) -> Seq<SongRecordView> {
    listens.map_values(|l: ListenView| record_of(l))
}

/// Joins the names of the artists with `", "`.
pub fn artist_names(artists: &Vec<Artist>) -> (names: String)
    ensures
        names@ == joined_names(artist_views(artists@)),
{
    let ghost views = artist_views(artists@);
    let mut names = String::new();
    let mut i: usize = 0;
    while i < artists.len()
        invariant
            i <= artists.len(),
            views == artist_views(artists@),
            names@ == joined_names(views.take(i as int)),
        decreases artists.len() - i,
    {
        proof {
            let next = views.take(i + 1);
            assert(next.drop_last() == views.take(i as int));
            assert(next.last() == artists@[i as int]@);
            if i == 0 {
                assert(next[0] == artists@[0]@);
                assert(Seq::<char>::empty() + artists@[0]@.name == artists@[0]@.name);
            }
        }
        if i > 0 {
            names.append(", ");
        }
        names.append(artists[i].name.as_str());
        i += 1;
    }
    proof {
        assert(views.take(views.len() as int) == views);
    }
    names
}

/// Makes the row that a play is stored as.
pub fn to_record(listen: &Listen) -> (record: SongRecord)
    ensures
        record@ == record_of(listen@),
{
    SongRecord {
        name: Some(listen.track.name.clone()),
        album: Some(listen.track.album.name.clone()),
        artist: Some(artist_names(&listen.track.artists)),
        date: Some(listen.played_at.clone()),
        id: Some(listen.track.id.clone()),
    }
}

/// Makes the rows that a page of plays is stored as.
pub fn to_batch(listens: &Listens) -> (batch: Vec<SongRecord>)
    ensures
        record_views(batch@) == batch_of(listens@),
{
    let mut batch: Vec<SongRecord> = Vec::new();
    let mut i: usize = 0;
    while i < listens.items.len()
        invariant
            i <= listens.items.len(),
            record_views(batch@) == batch_of(listens@).take(i as int),
        decreases listens.items.len() - i,
    {
        let ghost before = record_views(batch@);
        let record = to_record(&listens.items[i]);
        batch.push(record);
        proof {
            assert(listens@[i as int] == listens.items@[i as int]@);
            assert(record_views(batch@) =~= before.push(record@));
            assert(batch_of(listens@).take(i + 1) =~= batch_of(listens@).take(i as int).push(
                record_of(listens@[i as int]),
            ));
        }
        i += 1;
    }
    proof {
        assert(batch_of(listens@).take(listens@.len() as int) == batch_of(listens@));
    }
    batch
}

/// How a synchronization begins.
#[derive(Debug, PartialEq, Eq)]
pub enum FetchPlan {
    /// There is no credential: fetch nothing, and list what storage holds as
    /// a degraded listing.
    Degraded,
    /// Make this call to the provider and hand the answer on.
    Send { request: ProviderRequest },
    /// Escalate this internal error.
    Escalate { error: InternalError },
}

pub enum FetchPlanView {
    Degraded,
    Send { request: ProviderRequestView },
    Escalate { error: InternalErrorView },
}

impl View for FetchPlan {
    type V = FetchPlanView;

    open spec fn view(&self) -> FetchPlanView {
        match self {
            FetchPlan::Degraded => FetchPlanView::Degraded,
            FetchPlan::Send { request } => FetchPlanView::Send { request: request@ },
            FetchPlan::Escalate { error } => FetchPlanView::Escalate { error: error@ },
        }
    }
}

/// The beginning of a synchronization, from what the credential store held
/// when it was read.
pub open spec fn fetch_plan(snapshot: Slot) -> FetchPlanView {
    match snapshot {
        None => FetchPlanView::Degraded,
        Some(auth) => match request_outcome(
            Call::Recent,
            Some(auth.access_token),
            Stage::RecentRequest,
            parsed_with_params(RECENT_URL@, recent_params(FETCH_LIMIT)),
        ) {
            Ok(request) => FetchPlanView::Send { request },
            Err(error) => FetchPlanView::Escalate { error },
        },
    }
}

/// Whether a listing made from this snapshot counts as available.
pub open spec fn available(snapshot: Slot) -> bool {
    snapshot is Some
}

/// Begins a synchronization with a snapshot of the credential store.
pub fn plan_fetch(snapshot: &Option<GlobalAuth>) -> (plan: FetchPlan)
    ensures
        plan@ == fetch_plan(snapshot_view(*snapshot)),
{
    match snapshot {
        None => FetchPlan::Degraded,
        Some(auth) => match recent_request(auth.0.access_token.as_str(), FETCH_LIMIT) {
            Ok(request) => FetchPlan::Send { request },
            Err(error) => FetchPlan::Escalate { error },
        },
    }
}

/// The view of the provider's answer to a fetch, or of the call's failure.
pub open spec fn fetch_reply_view(reply: Result<Listens, UpstreamError>) -> Result<
    Seq<ListenView>,
    UpstreamErrorView,
> {
    match reply {
        Ok(listens) => Ok(listens@),
        Err(error) => Err(error@),
    }
}

/// What a fetch brings to storage: the rows of the page, or, for a failed
/// call, nothing but the internal error.
pub open spec fn ingested(reply: Result<Seq<ListenView>, UpstreamErrorView>) -> Result<
    Seq<SongRecordView>,
    InternalErrorView,
> {
    match reply {
        Ok(listens) => Ok(batch_of(listens)),
        Err(error) => Err(upstream_failure(Call::Recent, error)),
    }
}

/// The view of a batch or the error in its place.
pub open spec fn batch_view(r: Result<Vec<SongRecord>, InternalError>) -> Result<
    Seq<SongRecordView>,
    InternalErrorView,
> {
    match r {
        Ok(batch) => Ok(record_views(batch@)),
        Err(error) => Err(error@),
    }
}

/// Turns the provider's answer into the batch for storage. A failed call
/// gives no batch at all, so that nothing of it can be stored.
pub fn ingest(reply: Result<Listens, UpstreamError>) -> (r: Result<Vec<SongRecord>, InternalError>)
    ensures
        batch_view(r) == ingested(fetch_reply_view(reply)),
{
    match reply {
        Ok(listens) => Ok(to_batch(&listens)),
        Err(error) => Err(InternalError::from_upstream(Call::Recent, error)),
    }
}

/// The table after a fetch: with the page brought to it, or, after a failed
/// call, as it was.
pub open spec fn absorbed(table: Table, reply: Result<Seq<ListenView>, UpstreamErrorView>)
    -> Table {
    match reply {
        Ok(listens) => upserted_all(table, batch_of(listens)),
        Err(_) => table,
    }
}

/// The view of an outcome without a value.
pub open spec fn done_view(r: Result<(), InternalError>) -> Result<(), InternalErrorView> {
    match r {
        Ok(()) => Ok(()),
        Err(error) => Err(error@),
    }
}

/// What `absorb` answers: nothing, or the internal error of a failed call.
pub open spec fn absorb_outcome(reply: Result<Seq<ListenView>, UpstreamErrorView>) -> Result<
    (),
    InternalErrorView,
> {
    match reply {
        Ok(_) => Ok(()),
        Err(error) => Err(upstream_failure(Call::Recent, error)),
    }
}

/// Brings the provider's answer to the table. A page is brought as one batch;
/// a failed call leaves the table untouched.
pub fn absorb(store: &mut ListenStore, reply: Result<Listens, UpstreamError>) -> (r: Result<
    (),
    InternalError,
>)
    ensures
        final(store)@ == absorbed(old(store)@, fetch_reply_view(reply)),
        done_view(r) == absorb_outcome(fetch_reply_view(reply)),
{
    match ingest(reply) {
        Ok(batch) => {
            store.upsert_batch(batch);
            Ok(())
        },
        Err(error) => Err(error),
    }
}

/// The limit of a listing: the configured number of rows for the short
/// listing, none for the listing of all plays.
pub fn listing_limit(config: &Config, all: bool) -> (limit: Option<u32>)
    ensures
        limit == if all {
            None
        } else {
            Some(config@.get_new_limit)
        },
{
    if all {
        None
    } else {
        Some(config.get_new_limit)
    }
}

/// The status of a listing: 200 where the service's credential was there, 202
/// for a degraded listing.
pub open spec fn listing_status(available: bool) -> u16 {
    if available {
        200
    } else {
        202
    }
}

/// The answer to a listing request.
pub open spec fn listing_view(
    config: ConfigView,
    rows: Seq<SongRecordView>,
    token: Option<Seq<char>>,
    available: bool,
    limit: Option<u32>,
) -> PageResponseView {
    PageResponseView {
        status: listing_status(available),
        body: listing_text(config, rows, token, available, limit is Some),
    }
}

/// Answers a listing request with the rows that storage gave.
pub fn listing(
    config: &Config,
    results: &[SongRecord],
    session_auth: &Option<SessionAuth>,
    available: bool,
    limit: Option<u32>,
) -> (response: PageResponse)
    ensures
        response@ == listing_view(
            config@,
            record_views(results@),
            session_token(*session_auth),
            available,
            limit,
        ),
{
    PageResponse {
        status: if available {
            200
        } else {
            202
        },
        body: listing_page(config, results, session_auth, available, limit.is_some()),
    }
}

/// Answers a listing request from the table in memory.
pub fn listing_from(
    config: &Config,
    store: &ListenStore,
    session_auth: &Option<SessionAuth>,
    available: bool,
    limit: Option<u32>,
) -> (response: PageResponse)
    ensures
        response@ == listing_view(
            config@,
            listed(store@, limit),
            session_token(*session_auth),
            available,
            limit,
        ),
{
    let rows = store.read(limit);
    listing(config, rows.as_slice(), session_auth, available, limit)
}

/// Without the service's credential nothing is fetched, and the listing still
/// shows what storage holds, in storage's order, marked as degraded.
pub proof fn an_empty_store_degrades_the_listing(
    config: ConfigView,
    table: Table,
    token: Option<Seq<char>>,
    limit: Option<u32>,
)
    ensures
        fetch_plan(None) == FetchPlanView::Degraded,
        !available(None),
        listing_view(config, listed(table, limit), token, available(None), limit).status == 202,
        listing_view(config, listed(table, limit), token, available(None), limit).body
            == listing_text(config, listed(table, limit), token, false, limit is Some),
{
}

/// An answer to a fetch that does not parse becomes an internal error that
/// carries the answer's raw body as its payload. It is escalated with status
/// 500 and that payload, and no row of it reaches the table.
pub proof fn a_malformed_page_is_escalated_whole(
    config: ConfigView,
    table: Table,
    message: Seq<char>,
    raw_body: Seq<char>,
)
    ensures
        ({
            let reply = Err::<Seq<ListenView>, UpstreamErrorView>(
                UpstreamErrorView::Format { message, raw_body },
            );
            &&& ingested(reply) matches Err(error) && error.payload == Some(raw_body)
                && error.stage == Stage::RecentJson && escalated(config, error).status == 500
                && escalated(config, error).payload == Some(raw_body)
            &&& absorbed(table, reply) == table
        }),
{
}

} // verus!
