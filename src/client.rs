//! Building the request URL, and classifying what came back.
use vstd::prelude::*;
use vstd::utf8::{decode_utf8, valid_utf8};

use crate::models::{params_view, Query, QueryParameters};
use crate::options::{masked, maskable, replaced, ClientOptions};
use crate::text::{digit_char, push_char};

verus! {

/// The current-weather endpoint of the service.
pub const V25_ENDPOINT: &'static str = "https://api.openweathermap.org/data/2.5/weather";

/// `url::ParseError`, what `Url::parse` refuses a text with; carried as is
/// in `ApiCallError::ErrorFormingUrl`.
#[verifier::external_type_specification]
#[verifier::external_body]
pub struct ExParseError(url::ParseError);

/// What `url::Url::parse` makes of a text: `None` when it refuses it, else
/// the serialization of the parsed URL.
pub uninterp spec fn parsed_url(s: Seq<char>) -> Option<Seq<char>>;

/// Relies on `url::Url::parse` and `String::from(Url)`: the URL's
/// serialization, or the parse error.
#[verifier::external_body]
fn serialized_url(s: &str) -> (r: Result<String, url::ParseError>)
    ensures
        r is Ok <==> parsed_url(s@) is Some,
        r is Ok ==> r->Ok_0@ == parsed_url(s@)->Some_0,
{
    match url::Url::parse(s) {
        Ok(u) => Ok(u.into()),
        Err(e) => Err(e),
    }
}

/// Bytes that form encoding leaves as they are.
pub open spec fn form_unchanged(b: u8) -> bool {
    b == 42 || b == 45 || b == 46 || (48 <= b <= 57) || (65 <= b <= 90) || b == 95 || (97 <= b
        <= 122)
}

/// An upper-case hexadecimal digit.
pub open spec fn hex_digit(d: nat) -> char {
    if d < 10 {
        digit_char(d)
    } else if d == 10 {
        'A'
    } else if d == 11 {
        'B'
    } else if d == 12 {
        'C'
    } else if d == 13 {
        'D'
    } else if d == 14 {
        'E'
    } else {
        'F'
    }
}

/// The `application/x-www-form-urlencoded` form of one byte.
pub open spec fn form_byte(b: u8) -> Seq<char> {
    if form_unchanged(b) {
        seq![b as char]
    } else if b == 32 {
        seq!['+']
    } else {
        seq!['%', hex_digit((b / 16) as nat), hex_digit((b % 16) as nat)]
    }
}

pub open spec fn form_bytes(bs: Seq<u8>) -> Seq<char>
    decreases bs.len(),
{
    if bs.len() == 0 {
        Seq::empty()
    } else {
        form_byte(bs[0]) + form_bytes(bs.drop_first())
    }
}

/// The form encoding of a text: each byte of its UTF-8 encoding in turn.
pub open spec fn form_encoded(s: Seq<char>) -> Seq<char> {
    form_bytes(vstd::utf8::encode_utf8(s))
}

proof fn lemma_form_bytes_ascii(bs: Seq<u8>)
    ensures
        forall|i: int| 0 <= i < form_bytes(bs).len() ==> (#[trigger] form_bytes(bs)[i] as u32) < 128,
    decreases bs.len(),
{
    if bs.len() > 0 {
        lemma_form_bytes_ascii(bs.drop_first());
        let head = form_byte(bs[0]);
        let b = bs[0];
        assert(((b / 16) as nat) < 16 && ((b % 16) as nat) < 16);
        assert forall|i: int| 0 <= i < head.len() implies (#[trigger] head[i] as u32) < 128 by {
            if form_unchanged(b) {
                assert(head[i] == b as char);
            }
        }
        assert forall|i: int| 0 <= i < form_bytes(bs).len() implies (#[trigger] form_bytes(bs)[i] as u32)
            < 128 by {
            if i >= head.len() {
                assert(form_bytes(bs)[i] == form_bytes(bs.drop_first())[i - head.len()]);
            } else {
                assert(form_bytes(bs)[i] == head[i]);
            }
        }
    }
}

/// Form encoding writes only ASCII characters: every other character of a
/// name or value, such as the `ã` of "Aripuanã", is percent-encoded byte by
/// byte.
pub proof fn lemma_form_encoded_ascii(s: Seq<char>)
    ensures
        forall|i: int| 0 <= i < form_encoded(s).len() ==> (#[trigger] form_encoded(s)[i] as u32) < 128,
{
    lemma_form_bytes_ascii(vstd::utf8::encode_utf8(s));
}

/// `query` after one more `name=value` pair, both form encoded, with `&`
/// before it unless `query` was empty.
pub open spec fn with_pair(query: Seq<char>, name: Seq<char>, value: Seq<char>) -> Seq<char> {
    query + (if query.len() > 0 {
        seq!['&']
    } else {
        Seq::empty()
    }) + form_encoded(name) + seq!['='] + form_encoded(value)
}

/// Relies on `form_urlencoded::Serializer::append_pair` (through `url`):
/// the separator when the target is not empty, then the encoded name, `=`
/// and the encoded value.
#[verifier::external_body]
fn append_pair(query: &mut String, name: &str, value: &str)
    ensures
        final(query)@ == with_pair(old(query)@, name@, value@),
{
    let mut serializer = url::form_urlencoded::Serializer::new(std::mem::take(query));
    serializer.append_pair(name, value);
    *query = serializer.finish();
}

/// The query string of a list of pairs, in their order.
pub open spec fn query_text(ps: Seq<(Seq<char>, Seq<char>)>) -> Seq<char>
    decreases ps.len(),
{
    if ps.len() == 0 {
        Seq::empty()
    } else {
        let last = ps.last();
        with_pair(query_text(ps.drop_last()), last.0, last.1)
    }
}

/// The parameters of a call: units, language and key, then those of the query.
pub open spec fn request_params_spec(options: ClientOptions, query: Query) -> Seq<(Seq<char>, Seq<char>)> {
    seq![
        ("units"@, options.units.name_spec()@),
        ("lang"@, options.language@),
        ("appid"@, options.api_key@),
    ] + query.params_spec()
}

/// The parameters of a call, in the order in which they are sent.
pub fn request_params(options: &ClientOptions, query: &Query) -> (r: QueryParameters)
    ensures
        params_view(r@) == request_params_spec(*options, *query),
{
    let mut r: QueryParameters = vec![
        ("units", String::from_str(options.units.name())),
        ("lang", options.language.clone()),
        ("appid", options.api_key.clone()),
    ];
    let mut qp = query.query_params();
    r.append(&mut qp);
    proof {
        reveal_strlit("units");
        reveal_strlit("lang");
        reveal_strlit("appid");
        assert(params_view(r@) =~= request_params_spec(*options, *query));
    }
    r
}

/// The request URL of a call: the endpoint, `?`, then the encoded parameters.
pub open spec fn request_url_spec(base: Seq<char>, options: ClientOptions, query: Query) -> Seq<char> {
    base + seq!['?'] + query_text(request_params_spec(options, query))
}

/// Why a call failed.
#[derive(Debug)]
pub enum ApiCallError {
    /// The request URL is not a valid request target.
    ErrorFormingUri { error: String },
    /// The endpoint could not be parsed as a URL.
    ErrorFormingUrl(url::ParseError),
    /// The service answered with a status other than 200.
    InvalidResponsStatus { status: u16, body: String },
    /// The call itself failed; `url` has the key masked.
    HttpError { error: String, url: String },
    /// The body is not UTF-8.
    ResponseEncodingError,
    /// The body could not be read.
    ResponseReadError { error: String },
    /// The body does not have the shape of a reading; `content` is the body.
    ResponseParseError { error: String, content: String },
}

/// The request URL for `query` under `options`.
pub fn url_for(options: &ClientOptions, query: &Query) -> (r: Result<String, ApiCallError>)
    ensures
        r is Ok <==> parsed_url(V25_ENDPOINT@) is Some,
        r is Ok ==> r->Ok_0@ == request_url_spec(parsed_url(V25_ENDPOINT@)->Some_0, *options, *query),
        r is Err ==> r->Err_0 is ErrorFormingUrl,
{
    let base = match serialized_url(V25_ENDPOINT) {
        Ok(b) => b,
        Err(e) => {
            return Err(ApiCallError::ErrorFormingUrl(e));
        },
    };
    let params = request_params(options, query);
    let ghost pv = params_view(params@);
    let mut q = String::new();
    let mut i: usize = 0;
    while i < params.len()
        invariant
            i <= params@.len(),
            pv == params_view(params@),
            q@ == query_text(pv.subrange(0, i as int)),
        decreases params@.len() - i,
    {
        append_pair(&mut q, params[i].0, params[i].1.as_str());
        i = i + 1;
        proof {
            let sub = pv.subrange(0, i as int);
            assert(sub.drop_last() =~= pv.subrange(0, i - 1));
        }
    }
    proof {
        assert(pv.subrange(0, i as int) =~= pv);
    }
    let mut url = base;
    push_char(&mut url, '?');
    url.append(q.as_str());
    Ok(url)
}

/// Transport failure of a call to `url`, with the key masked in the URL.
pub fn http_error(options: &ClientOptions, error: String, url: &str) -> (r: ApiCallError)
    requires
        maskable(options.api_key@),
    ensures
        (r matches ApiCallError::HttpError { error: e, url: u } && e@ == error@ && u@ == replaced(
            url@,
            options.api_key@,
            masked(options.api_key@),
        )),
{
    ApiCallError::HttpError { error, url: options.mask_api_key_if_present(url) }
}

/// Relies on `String::from_utf8`: it accepts exactly the valid UTF-8 bytes.
#[verifier::external_body]
fn utf8_text(bytes: Vec<u8>) -> (r: Option<String>)
    ensures
        r is Some <==> valid_utf8(bytes@),
        r is Some ==> r->Some_0@ == decode_utf8(bytes@),
{
    String::from_utf8(bytes).ok()
}

/// What stands for a body that could not be obtained.
pub open spec fn unreadable_body(error: Seq<char>) -> Seq<char> {
    "Error obtaining response body "@ + error
}

/// The body of an answer, or what stands for it when it cannot be had.
pub open spec fn body_or_placeholder(body: Result<Vec<u8>, String>) -> Seq<char> {
    match body {
        Ok(b) => if valid_utf8(b@) {
            decode_utf8(b@)
        } else {
            unreadable_body("ResponseEncodingError"@)
        },
        Err(e) => unreadable_body(e@),
    }
}

/// Classifies an answer of the service: with status 200 its body as text,
/// else the status with the body (or what stands for it).
pub fn response_outcome(status: u16, body: Result<Vec<u8>, String>) -> (r: Result<String, ApiCallError>)
    ensures
        status == 200 ==> match body {
            Ok(b) => if valid_utf8(b@) {
                r is Ok && r->Ok_0@ == decode_utf8(b@)
            } else {
                r is Err && r->Err_0 is ResponseEncodingError
            },
            Err(e) => (r matches Err(ApiCallError::ResponseReadError { error }) && error@ == e@),
        },
        status != 200 ==> (r matches Err(ApiCallError::InvalidResponsStatus { status: s, body: t })
            && s == status && t@ == body_or_placeholder(body)),
{
    let ghost b0 = body;
    if status == 200 {
        match body {
            Ok(bytes) => match utf8_text(bytes) {
                Some(t) => Ok(t),
                None => Err(ApiCallError::ResponseEncodingError),
            },
            Err(e) => Err(ApiCallError::ResponseReadError { error: e }),
        }
    } else {
        let text = match body {
            Ok(bytes) => match utf8_text(bytes) {
                Some(t) => t,
                None => {
                    let mut p = String::from_str("Error obtaining response body ");
                    p.append("ResponseEncodingError");
                    p
                },
            },
            Err(e) => {
                let mut p = String::from_str("Error obtaining response body ");
                p.append(e.as_str());
                p
            },
        };
        Err(ApiCallError::InvalidResponsStatus { status, body: text })
    }
}

/// A body that does not have the shape of a reading, kept for diagnosis.
pub fn parse_error(error: String, content: String) -> (r: ApiCallError)
    ensures
        (r matches ApiCallError::ResponseParseError { error: e, content: c } && e@ == error@ && c@
            == content@),
{
    ApiCallError::ResponseParseError { error, content }
}

} // verus!
