//! The pages that the service answers with, as text. Each page has a spec
//! function that says what its text is, piece by piece, and a function that
//! builds exactly that text.

use crate::config::{Config, ConfigView};
use crate::model::{opt_text, record_views, SessionAuth, SongRecord, SongRecordView};
use crate::text::{debug_form, debug_text, escape_html, escaped, push_signed_decimal, signed_decimal};
use vstd::prelude::*;

verus! {

pub const UNAUTHORIZED_OPEN: &'static str = r#"<!doctype html>
<html>
  <head><title>unauthorized</title></head>
  <body>
    <h1>you're unauthorized</h1>
    <p>go get "#;

pub const UNAUTHORIZED_CLOSE: &'static str = r#"</p>
  </body>
</html>"#;

pub const NOT_FOUND_OPEN: &'static str = r#"<!doctype html>
<html>
  <head><title>uhhhh</title></head>
  <body>
    <h1>uhhhh</h1>
    <p>you DEFINITELY shouldn't be able to see this</p>
    <p>"#;

pub const NOT_FOUND_MIDDLE: &'static str = r#"</p>
    <p>you requested ""#;

pub const NOT_FOUND_CLOSE: &'static str = r#""</p>
  </body>
</html>"#;

pub const REFRESHED_OPEN: &'static str = r#"<!doctype html>
<html>
  <head><title>NOT LAST.FM: refreshed</title></head>
  <body>
    <h1>ahhhhh</h1>
    <p>refreshing. "#;

pub const REFRESHED_CLOSE: &'static str = r#"</p>
  </body>
</html>"#;

pub const AUTHORIZED_OPEN: &'static str = r#"<!doctype html>
  <head><title>NOT LAST.FM: authorized</title></head>
  <body>
    <h1>nice! you're authorized</h1>
    <p><em>"#;

pub const AUTHORIZED_MIDDLE: &'static str = r#"</em></p>
    <p>"#;

pub const AUTHORIZED_CLOSE: &'static str = r#"</p>
  </body>
</html>"#;

/// What the authorized page says to the owner.
pub const OWNER_NOTE: &'static str = "and very handsome at that";

/// What the authorized page says to every other visitor.
pub const VISITOR_NOTE: &'static str = "not globally though :/";

pub const FAILURE_OPEN: &'static str = r#"<!doctype html>
<html>
  <head><title>NOT LAST.FM: 500</title></head>
  <body>
    <h1>500 internal server error</h1>
    <p>"#;

pub const FAILURE_AFTER_REASON: &'static str = r#"</p>
    <pre><code>"#;

pub const FAILURE_AFTER_MESSAGE: &'static str = r#"</code></pre>
    <p>try "#;

pub const FAILURE_AFTER_LINKS: &'static str = ". if the problem persists tell zack</p>";

pub const FAILURE_CLOSE: &'static str = r#"
  </body>
</html>"#;

pub const DETAIL_OPEN: &'static str = r#"
    <p>more info:</p>
    <pre style=white-space:pre-wrap;><code>"#;

pub const DETAIL_CLOSE: &'static str = "</code></pre>";

pub const PAGE_HEADER: &'static str = r#"
<!doctype html>
<head><title>NOT LAST.FM</title></head>
<style>
table, td, th {
    border: 1px solid #090;
    border-collapse: collapse;
    padding-left: 4pt;
    padding-right: 8pt;
}
.datetime {
    width: 20%;
}
</style>
<body>
<h1>what's zack been listening to recently?</h1>
"#;

pub const PAGE_FOOTER: &'static str = "</body></html>";

pub const DEGRADED_OPEN: &'static str =
    "<p><em>global auth was not available, this list may not be up to date. please tell zack. ";

pub const DEGRADED_CLOSE: &'static str = "?</em></p>";

pub const LOG_IN_CLOSE: &'static str =
    " to listen in (make sure your queue is clear, its kinda janky)</p>";

pub const TABLE_OPEN: &'static str = r#"
<table><tr>
<th><b>play</b></th>
<th><b>title</b></th>
<th><b>album</b></th>
<th><b>artists</b></th>
<th><b>time</b></th>
<th><b>id</b></th>
</tr>
"#;

pub const QUEUE_SCRIPT_OPEN: &'static str = r#"
<script type=text/javascript>

function addToQueue(id) {
    let req = {
        'mode': 'cors',
        'method': 'PUT',
        'headers': {
            'Authorization': 'Bearer "#;

pub const QUEUE_SCRIPT_CLOSE: &'static str = r#"'
        },
        'body': JSON.stringify({
            'uris': [id],
        }),
    };

    fetch('https://api.spotify.com/v1/me/player/play', req)
        .then((response) => console.log(response))
}

for (el of document.getElementsByClassName('add')) {
    const id = el.id;
    el.addEventListener('click', function() {
        console.log('click on ' + id);
        addToQueue(id);
    });
}

</script>
    "#;

pub const DATE_SCRIPT: &'static str = r#"
<script type=text/javascript>
for (el of document.getElementsByClassName('datetime')) {
    let date = new Date(el.innerText);
    if (!isNaN(date.getYear())) {
        el.textContent = date.toLocaleDateString(
            'en-us', {
                year: 'numeric',
                month: 'short',
                day: 'numeric',
                hour: 'numeric',
                minute: 'numeric',
                second: 'numeric',
            }
        );
    }
}
</script>
"#;

/// The text of an anchor element that points at `href` and shows `text`.
pub open spec fn link_text(href: Seq<char>, text: Seq<char>) -> Seq<char> {
    "<a href="@ + href + ">"@ + text + "</a>"@
}

/// Builds an HTML anchor element. Neither argument is escaped or quoted.
pub fn make_link(href: &str, text: &str) -> (link: String)
    ensures
        link@ == link_text(href@, text@),
{
    let mut link = String::from_str("<a href=");
    link.append(href);
    link.append(">");
    link.append(text);
    link.append("</a>");
    link
}

/// The page for a visitor who asks for something that needs the service's
/// credential while there is none.
pub open spec fn unauthorized_text(config: ConfigView) -> Seq<char> {
    UNAUTHORIZED_OPEN@ + link_text(config.authorize_url, "authorized"@) + UNAUTHORIZED_CLOSE@
}

/// Builds the page for a visitor who needs a credential that is not there.
pub fn unauthorized_page(config: &Config) -> (page: String)
    ensures
        page@ == unauthorized_text(config@),
{
    let mut page = String::from_str(UNAUTHORIZED_OPEN);
    page.append(config.authorize_link("authorized").as_str());
    page.append(UNAUTHORIZED_CLOSE);
    page
}

/// The page for a path that the service does not serve.
pub open spec fn not_found_text(config: ConfigView, path: Seq<char>) -> Seq<char> {
    NOT_FOUND_OPEN@ + link_text(config.get_new_url, "try this?"@) + NOT_FOUND_MIDDLE@ + path
        + NOT_FOUND_CLOSE@
}

/// Builds the page for a path that the service does not serve.
pub fn not_found_page(config: &Config, path: &str) -> (page: String)
    ensures
        page@ == not_found_text(config@, path@),
{
    let mut page = String::from_str(NOT_FOUND_OPEN);
    page.append(config.get_new_link("try this?").as_str());
    page.append(NOT_FOUND_MIDDLE);
    page.append(path);
    page.append(NOT_FOUND_CLOSE);
    page
}

/// The page after a refresh of the service's credential.
pub open spec fn refreshed_text(config: ConfigView) -> Seq<char> {
    REFRESHED_OPEN@ + link_text(config.get_new_url, "back"@) + REFRESHED_CLOSE@
}

/// Builds the page that follows a refresh.
pub fn refreshed_page(config: &Config) -> (page: String)
    ensures
        page@ == refreshed_text(config@),
{
    let mut page = String::from_str(REFRESHED_OPEN);
    page.append(config.get_new_link("back").as_str());
    page.append(REFRESHED_CLOSE);
    page
}

/// What the authorized page tells a visitor about the election.
pub open spec fn election_note(is_owner: bool) -> Seq<char> {
    if is_owner {
        OWNER_NOTE@
    } else {
        VISITOR_NOTE@
    }
}

/// The page after a visitor's authorization. Its wording depends on whether
/// the visitor is the owner.
pub open spec fn authorized_text(config: ConfigView, is_owner: bool) -> Seq<char> {
    AUTHORIZED_OPEN@ + election_note(is_owner) + AUTHORIZED_MIDDLE@ + link_text(
        config.get_new_url,
        "back"@,
    ) + AUTHORIZED_CLOSE@
}

/// Builds the page that follows a visitor's authorization.
pub fn authorized_page(config: &Config, is_owner: bool) -> (page: String)
    ensures
        page@ == authorized_text(config@, is_owner),
{
    let mut page = String::from_str(AUTHORIZED_OPEN);
    if is_owner {
        page.append(OWNER_NOTE);
    } else {
        page.append(VISITOR_NOTE);
    }
    page.append(AUTHORIZED_MIDDLE);
    page.append(config.get_new_link("back").as_str());
    page.append(AUTHORIZED_CLOSE);
    page
}

/// The part of the failure page that shows a diagnostic payload: the payload
/// as a quoted literal, made safe for HTML. Empty where there is no payload.
pub open spec fn detail_text(payload: Option<Seq<char>>) -> Seq<char> {
    match payload {
        Some(raw) => DETAIL_OPEN@ + escaped(debug_form(raw)) + DETAIL_CLOSE@,
        None => Seq::empty(),
    }
}

/// The page for an internal error: a short reason, the error's own text, links
/// to authorize and to refresh, and the diagnostic payload if there is one.
pub open spec fn failure_text(
    config: ConfigView,
    reason: Seq<char>,
    message: Seq<char>,
    payload: Option<Seq<char>>,
) -> Seq<char> {
    FAILURE_OPEN@ + reason + FAILURE_AFTER_REASON@ + message + FAILURE_AFTER_MESSAGE@ + link_text(
        config.authorize_url,
        "authing"@,
    ) + " or "@ + link_text(config.refresh_url, "refreshing"@) + FAILURE_AFTER_LINKS@
        + detail_text(payload) + FAILURE_CLOSE@
}

fn detail_block(payload: &Option<String>) -> (block: String)
    ensures
        block@ == detail_text(opt_text(*payload)),
{
    match payload {
        Some(raw) => {
            let mut block = String::from_str(DETAIL_OPEN);
            let quoted = debug_text(raw.as_str());
            block.append(escape_html(quoted.as_str()).as_str());
            block.append(DETAIL_CLOSE);
            block
        },
        None => String::new(),
    }
}

/// Builds the page for an internal error. The payload is shown as a quoted
/// literal with `&`, `<` and `>` escaped; reason and message go in as they are.
pub fn failure_page(config: &Config, reason: &str, message: &str, payload: &Option<String>) -> (page:
    String)
    ensures
        page@ == failure_text(config@, reason@, message@, opt_text(*payload)),
{
    let mut page = String::from_str(FAILURE_OPEN);
    page.append(reason);
    page.append(FAILURE_AFTER_REASON);
    page.append(message);
    page.append(FAILURE_AFTER_MESSAGE);
    page.append(config.authorize_link("authing").as_str());
    page.append(" or ");
    page.append(config.refresh_link("refreshing").as_str());
    page.append(FAILURE_AFTER_LINKS);
    page.append(detail_block(payload).as_str());
    page.append(FAILURE_CLOSE);
    page
}

/// The text of an optional column: nothing where the column is null.
pub open spec fn column_text(value: Option<Seq<char>>) -> Seq<char> {
    match value {
        Some(text) => text,
        None => Seq::empty(),
    }
}

/// The first cell of a row. A visitor with a session gets a cell that queues
/// the track when clicked, if the row has a track id; everyone else gets an
/// empty cell.
pub open spec fn play_cell_text(id: Option<Seq<char>>, playable: bool) -> Seq<char> {
    if playable {
        match id {
            Some(track) => "<td "@ + ("style='cursor:pointer;' class='add' id='spotify:track:"@
                + track + "'>▶️</td>"@),
            None => "<td "@ + "></td>"@,
        }
    } else {
        "<td>"@ + "</td>"@
    }
}

/// One row of the table of plays.
pub open spec fn row_text(row: SongRecordView, playable: bool) -> Seq<char> {
    "<tr>"@ + play_cell_text(row.id, playable) + "<td>"@ + column_text(row.name) + "</td>"@
        + "<td>"@ + column_text(row.album) + "</td>"@ + "<td>"@ + column_text(row.artist)
        + "</td>"@ + "<td class='datetime'>"@ + column_text(row.date) + "</td>"@ + "<td>"@
        + column_text(row.id) + "</td>"@ + "</tr>\n"@
}

/// The rows of the table, in order.
pub open spec fn rows_text(rows: Seq<SongRecordView>, playable: bool) -> Seq<char>
    decreases rows.len(),
{
    if rows.len() == 0 {
        Seq::empty()
    } else {
        rows_text(rows.drop_last(), playable) + row_text(rows.last(), playable)
    }
}

/// The table of plays: a heading, one row for each play, in order.
pub open spec fn table_text(rows: Seq<SongRecordView>, playable: bool) -> Seq<char> {
    TABLE_OPEN@ + rows_text(rows, playable) + "</table>"@
}

fn push_column(out: &mut String, value: &Option<String>)
    ensures
        final(out)@ == old(out)@ + column_text(opt_text(*value)),
{
    match value {
        Some(text) => {
            out.append(text.as_str());
        },
        None => {
            assert(old(out)@ + Seq::<char>::empty() == old(out)@);
        },
    }
}

fn play_cell(id: &Option<String>, playable: bool) -> (cell: String)
    ensures
        cell@ == play_cell_text(opt_text(*id), playable),
{
    if playable {
        let mut cell = String::from_str("<td ");
        match id {
            Some(track) => {
                let mut rest = String::from_str(
                    "style='cursor:pointer;' class='add' id='spotify:track:",
                );
                rest.append(track.as_str());
                rest.append("'>▶️</td>");
                cell.append(rest.as_str());
            },
            None => {
                cell.append("></td>");
            },
        }
        cell
    } else {
        let mut cell = String::from_str("<td>");
        cell.append("</td>");
        cell
    }
}

fn table_row(row: &SongRecord, playable: bool) -> (text: String)
    ensures
        text@ == row_text(row@, playable),
{
    let mut text = String::from_str("<tr>");
    text.append(play_cell(&row.id, playable).as_str());
    text.append("<td>");
    push_column(&mut text, &row.name);
    text.append("</td>");
    text.append("<td>");
    push_column(&mut text, &row.album);
    text.append("</td>");
    text.append("<td>");
    push_column(&mut text, &row.artist);
    text.append("</td>");
    text.append("<td class='datetime'>");
    push_column(&mut text, &row.date);
    text.append("</td>");
    text.append("<td>");
    push_column(&mut text, &row.id);
    text.append("</td>");
    text.append("</tr>\n");
    text
}

/// Builds the table of plays. With a session the first cell of each row
/// queues the row's track; without one it is empty.
pub fn make_table(results: &[SongRecord], session_auth: &Option<SessionAuth>) -> (table: String)
    ensures
        table@ == table_text(record_views(results@), session_auth is Some),
{
    let playable = session_auth.is_some();
    let ghost rows = record_views(results@);
    let mut table = String::from_str(TABLE_OPEN);
    let mut i: usize = 0;
    while i < results.len()
        invariant
            i <= results.len(),
            rows == record_views(results@),
            table@ == TABLE_OPEN@ + rows_text(rows.take(i as int), playable),
        decreases results.len() - i,
    {
        let row = table_row(&results[i], playable);
        proof {
            let next = rows.take(i + 1);
            assert(next.drop_last() == rows.take(i as int));
            assert(next.last() == results@[i as int]@);
            assert(TABLE_OPEN@ + rows_text(rows.take(i as int), playable) + row@ == TABLE_OPEN@
                + (rows_text(rows.take(i as int), playable) + row@));
        }
        table.append(row.as_str());
        i += 1;
    }
    proof {
        assert(rows.take(rows.len() as int) == rows);
    }
    table.append("</table>");
    table
}

/// The notice on a listing that was made without the service's credential.
pub open spec fn degraded_text(config: ConfigView) -> Seq<char> {
    DEGRADED_OPEN@ + link_text(config.authorize_url, "authorize"@) + " or "@ + link_text(
        config.refresh_url,
        "refresh"@,
    ) + DEGRADED_CLOSE@
}

/// The link back to the short listing, shown on the listing of all plays.
pub open spec fn back_text(config: ConfigView) -> Seq<char> {
    "<p>"@ + link_text(config.get_new_url, "back"@) + "</p>"@
}

/// The invitation to log in, shown to a visitor without a session.
pub open spec fn log_in_text(config: ConfigView) -> Seq<char> {
    "<p>"@ + link_text(config.authorize_url, "log in"@) + LOG_IN_CLOSE@
}

/// The script that queues a track with the visitor's own access token.
pub open spec fn queue_script_text(access_token: Seq<char>) -> Seq<char> {
    QUEUE_SCRIPT_OPEN@ + access_token + QUEUE_SCRIPT_CLOSE@
}

/// The link to the listing of all plays, shown on the short listing.
pub open spec fn show_all_text(config: ConfigView) -> Seq<char> {
    "<p><em>"@ + link_text(config.show_all_url, "show all"@) + "</em></p>"@
}

/// `part` where `shown` holds, else nothing.
pub open spec fn when(shown: bool, part: Seq<char>) -> Seq<char> {
    if shown {
        part
    } else {
        Seq::empty()
    }
}

/// The access token of a session, if there is one.
pub open spec fn session_token(session: Option<SessionAuth>) -> Option<Seq<char>> {
    match session {
        Some(auth) => Some(auth@.access_token),
        None => None,
    }
}

/// The script for queueing, for a visitor with a session.
pub open spec fn session_script_text(token: Option<Seq<char>>) -> Seq<char> {
    match token {
        Some(access_token) => queue_script_text(access_token),
        None => Seq::empty(),
    }
}

/// The listing page: the notice of a degraded listing where the service's
/// credential was not available, the link back on the listing of all plays,
/// the invitation to log in for a visitor without a session, the table, the
/// queueing script for a visitor with a session, the link to all plays on the
/// short listing, and the script that formats the dates.
pub open spec fn listing_text(
    config: ConfigView,
    rows: Seq<SongRecordView>,
    token: Option<Seq<char>>,
    available: bool,
    limited: bool,
) -> Seq<char> {
    PAGE_HEADER@ + when(!available, degraded_text(config)) + when(!limited, back_text(config))
        + when(token is None, log_in_text(config)) + table_text(rows, token is Some)
        + session_script_text(token) + when(limited, show_all_text(config)) + DATE_SCRIPT@
        + PAGE_FOOTER@
}

fn push_when(out: &mut String, shown: bool, part: String)
    ensures
        final(out)@ == old(out)@ + when(shown, part@),
{
    if shown {
        out.append(part.as_str());
    } else {
        assert(old(out)@ + Seq::<char>::empty() == old(out)@);
    }
}

fn degraded_notice(config: &Config) -> (part: String)
    ensures
        part@ == degraded_text(config@),
{
    let mut part = String::from_str(DEGRADED_OPEN);
    part.append(config.authorize_link("authorize").as_str());
    part.append(" or ");
    part.append(config.refresh_link("refresh").as_str());
    part.append(DEGRADED_CLOSE);
    part
}

fn back_notice(config: &Config) -> (part: String)
    ensures
        part@ == back_text(config@),
{
    let mut part = String::from_str("<p>");
    part.append(config.get_new_link("back").as_str());
    part.append("</p>");
    part
}

fn log_in_notice(config: &Config) -> (part: String)
    ensures
        part@ == log_in_text(config@),
{
    let mut part = String::from_str("<p>");
    part.append(config.authorize_link("log in").as_str());
    part.append(LOG_IN_CLOSE);
    part
}

fn show_all_notice(config: &Config) -> (part: String)
    ensures
        part@ == show_all_text(config@),
{
    let mut part = String::from_str("<p><em>");
    part.append(config.show_all_link("show all").as_str());
    part.append("</em></p>");
    part
}

fn session_script(session_auth: &Option<SessionAuth>) -> (part: String)
    ensures
        part@ == session_script_text(session_token(*session_auth)),
{
    match session_auth {
        Some(auth) => {
            let mut part = String::from_str(QUEUE_SCRIPT_OPEN);
            part.append(auth.0.access_token.as_str());
            part.append(QUEUE_SCRIPT_CLOSE);
            part
        },
        None => String::new(),
    }
}

/// Builds the listing page.
pub fn listing_page(
    config: &Config,
    results: &[SongRecord],
    session_auth: &Option<SessionAuth>,
    available: bool,
    limited: bool,
) -> (page: String)
    ensures
        page@ == listing_text(
            config@,
            record_views(results@),
            session_token(*session_auth),
            available,
            limited,
        ),
{
    let mut page = String::from_str(PAGE_HEADER);
    push_when(&mut page, !available, degraded_notice(config));
    push_when(&mut page, !limited, back_notice(config));
    push_when(&mut page, session_auth.is_none(), log_in_notice(config));
    page.append(make_table(results, session_auth).as_str());
    page.append(session_script(session_auth).as_str());
    push_when(&mut page, limited, show_all_notice(config));
    page.append(DATE_SCRIPT);
    page.append(PAGE_FOOTER);
    page
}

/// The days of an uptime of `seconds`, rounded towards zero.
pub open spec fn uptime_days(seconds: int) -> int {
    if seconds >= 0 {
        seconds / 86400
    } else {
        -((-seconds) / 86400)
    }
}

/// The hours of an uptime beyond its whole days.
pub open spec fn uptime_hours(seconds: int) -> int {
    if seconds >= 0 {
        (seconds / 3600) % 24
    } else {
        -(((-seconds) / 3600) % 24)
    }
}

/// The minutes of an uptime beyond its whole hours.
pub open spec fn uptime_minutes(seconds: int) -> int {
    if seconds >= 0 {
        (seconds / 60) % 60
    } else {
        -(((-seconds) / 60) % 60)
    }
}

/// The seconds of an uptime beyond its whole minutes.
pub open spec fn uptime_seconds(seconds: int) -> int {
    if seconds >= 0 {
        seconds % 60
    } else {
        -((-seconds) % 60)
    }
}

/// An uptime as days, hours, minutes and seconds. Each part of a negative
/// uptime is negative or zero.
pub open spec fn uptime_spec(seconds: int) -> Seq<char> {
    signed_decimal(uptime_days(seconds)) + "d "@ + signed_decimal(uptime_hours(seconds)) + "h "@
        + signed_decimal(uptime_minutes(seconds)) + "m "@ + signed_decimal(
        uptime_seconds(seconds),
    ) + "s"@
}

/// Writes an uptime of `seconds` as days, hours, minutes and seconds.
pub fn uptime_text(seconds: i64) -> (text: String)
    ensures
        text@ == uptime_spec(seconds as int),
{
    let negative = seconds < 0;
    let magnitude: u64 = if negative {
        (-(seconds + 1)) as u64 + 1
    } else {
        seconds as u64
    };
    let days: i64 = (magnitude / 86400) as i64;
    let hours: i64 = ((magnitude / 3600) % 24) as i64;
    let minutes: i64 = ((magnitude / 60) % 60) as i64;
    let rest: i64 = (magnitude % 60) as i64;
    let mut text = String::new();
    proof {
        assert(Seq::<char>::empty() + signed_decimal(uptime_days(seconds as int))
            == signed_decimal(uptime_days(seconds as int)));
    }
    push_signed_decimal(&mut text, if negative { -days } else { days });
    text.append("d ");
    push_signed_decimal(&mut text, if negative { -hours } else { hours });
    text.append("h ");
    push_signed_decimal(&mut text, if negative { -minutes } else { minutes });
    text.append("m ");
    push_signed_decimal(&mut text, if negative { -rest } else { rest });
    text.append("s");
    text
}

} // verus!
