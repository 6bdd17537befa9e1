//! Web addresses. Parsing and rewriting them is the `url` crate's work: this
//! module declares its types, names what its functions return, and wraps each
//! call that the rest of the library makes. Nothing in this file is proved;
//! each contract says what the crate's source and documentation show.

use url::ParseError;
use url::Url;
use vstd::prelude::*;
use vstd::utf8::encode_utf8;

verus! {

/// `url::Url`, a parsed web address. Opaque: only the functions below look inside.
#[verifier::external_type_specification]
#[verifier::external_body]
pub struct ExUrl(url::Url);

/// `url::ParseError`, the reason why a text is no web address.
#[verifier::external_type_specification]
#[verifier::external_body]
pub struct ExParseError(url::ParseError);

/// The provider's authorization page, with the grant type already in its query.
pub const SPOTIFY_AUTH_URL: &'static str =
    "https://accounts.spotify.com/authorize?response_type=code";

/// The provider's token endpoint.
pub const SPOTIFY_TOKEN_URL: &'static str = "https://accounts.spotify.com/api/token";

/// The longest address, and the longest path segment, that a segment is added
/// to: far below the 4 GiB at which the crate's offsets overflow.
pub const MAX_ADDRESS_BYTES: usize = 0x10_0000;

/// The longest text that parameters are added to.
pub const MAX_TEMPLATE_CHARS: usize = 1024;

/// The serialization that an address holds: the text that `Url::as_str` returns.
/// Two addresses with the same serialization are the same address.
pub uninterp spec fn url_text(address: Url) -> Seq<char>;

/// The words of a parse error: the text that its `Display` writes.
pub uninterp spec fn fault_message(fault: ParseError) -> Seq<char>;

/// What `Url::parse` makes of `input`: the serialization of the address that
/// it reads, or the words of the error with which it refuses.
pub uninterp spec fn parsed(input: Seq<char>) -> Result<Seq<char>, Seq<char>>;

/// The host of the address with serialization `text`, where that host is a
/// domain name: what `Url::domain` returns.
pub uninterp spec fn domain_of(text: Seq<char>) -> Option<Seq<char>>;

/// The serialization after `PathSegmentsMut::push` has appended `segment` to
/// the path of the address with serialization `text`.
pub uninterp spec fn with_segment(text: Seq<char>, segment: Seq<char>) -> Seq<char>;

/// What `Url::parse_with_params` makes of `input` and the query parameters
/// `params`: the serialization of the address, or the words of the error with
/// which it refuses `input`.
pub uninterp spec fn parsed_with_params(
    input: Seq<char>,
    params: Seq<(Seq<char>, Seq<char>)>,
) -> Result<Seq<char>, Seq<char>>;

/// Whether an address cannot serve as a base: in its serialization, the first
/// `:` (the one that ends the scheme) is not followed by `/`.
pub open spec fn cannot_be_a_base(text: Seq<char>) -> bool {
    forall|i: int|
        0 <= i < text.len() && text[i] == ':' && !text.take(i).contains(':') ==> !(i + 1
            < text.len() && text[i + 1] == '/')
}

/// Names and values as plain texts.
pub open spec fn pair_texts(params: Seq<(&str, &str)>) -> Seq<(Seq<char>, Seq<char>)> {
    params.map_values(|p: (&str, &str)| (p.0@, p.1@))
}

/// `Url::parse`: reads an absolute address, or says why there is none.
#[verifier::external_body]
pub(crate) fn parse_url(input: &str) -> (r: Result<Url, ParseError>)
    ensures
        match r {
            Ok(address) => parsed(input@) == Ok::<Seq<char>, Seq<char>>(url_text(address)),
            Err(fault) => parsed(input@) == Err::<Seq<char>, Seq<char>>(fault_message(fault)),
        },
{
    Url::parse(input)
}

/// `Url::parse_with_params`: reads an absolute address and appends each pair to
/// its query, form-urlencoded. The crate panics only where an offset passes
/// 4 GiB, which takes a fragment to restore or an address of that size: an
/// input that is short and has no `#` has neither.
#[verifier::external_body]
pub(crate) fn parse_url_with_params(input: &str, params: &Vec<(&str, &str)>) -> (r: Result<
    Url,
    ParseError,
>)
    requires
        input@.len() <= MAX_TEMPLATE_CHARS,
        !input@.contains('#'),
    ensures
        match r {
            Ok(address) => parsed_with_params(input@, pair_texts(params@)) == Ok::<
                Seq<char>,
                Seq<char>,
            >(url_text(address)),
            Err(fault) => parsed_with_params(input@, pair_texts(params@)) == Err::<
                Seq<char>,
                Seq<char>,
            >(fault_message(fault)),
        },
{
    Url::parse_with_params(input, params.iter())
}

/// `ParseError`'s `Display`, through `to_string`: the words of the error.
#[verifier::external_body]
pub(crate) fn fault_text(fault: &ParseError) -> (text: String)
    ensures
        text@ == fault_message(*fault),
{
    fault.to_string()
}

/// `Url::as_str`: the serialization, borrowed from the address.
#[verifier::external_body]
pub(crate) fn url_as_str(address: &Url) -> (text: &str)
    ensures
        text@ == url_text(*address),
{
    address.as_str()
}

/// `Url::clone` (derived): an address with the same serialization.
#[verifier::external_body]
pub(crate) fn clone_url(address: &Url) -> (copy: Url)
    ensures
        url_text(copy) == url_text(*address),
{
    address.clone()
}

/// `Url::domain`: the host, where the host is a domain name and not an IP
/// address or missing. An address that cannot be a base has no host, so one
/// with a domain name can be a base.
#[verifier::external_body]
pub(crate) fn url_domain(address: &Url) -> (domain: Option<&str>)
    ensures
        match domain {
            Some(name) => domain_of(url_text(*address)) == Some(name@),
            None => domain_of(url_text(*address)) is None,
        },
        domain is Some ==> !cannot_be_a_base(url_text(*address)),
{
    address.domain()
}

/// `Url::path_segments_mut`, then `PathSegmentsMut::push` on what it returns.
/// The first refuses an address that cannot be a base and leaves it alone; the
/// second appends one percent-encoded segment to the path. Both panic where
/// the serialization passes 4 GiB; a segment grows at most threefold when it
/// is encoded, so the two bounds keep far from that.
#[verifier::external_body]
pub(crate) fn push_segment(address: &mut Url, segment: &str) -> (r: Result<(), ()>)
    requires
        encode_utf8(url_text(*old(address))).len() <= MAX_ADDRESS_BYTES,
        encode_utf8(segment@).len() <= MAX_ADDRESS_BYTES,
    ensures
        r is Err <==> cannot_be_a_base(url_text(*old(address))),
        r is Ok ==> url_text(*final(address)) == with_segment(
            url_text(*old(address)),
            segment@,
        ),
        r is Err ==> url_text(*final(address)) == url_text(*old(address)),
{
    match address.path_segments_mut() {
        Ok(mut path) => {
            path.push(segment);
            Ok(())
        },
        Err(()) => Err(()),
    }
}

} // verus!
