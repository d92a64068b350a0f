use vstd::prelude::*;
use vstd::string::*;

verus! {

/// The essence (`type/subtype`, without parameters) of the media type that
/// `mime` parses from the text, or `None` where it does not parse.
pub uninterp spec fn mime_essence_of(s: Seq<char>) -> Option<Seq<char>>;

/// Whether `serde_json` reads the text as one JSON value.
pub uninterp spec fn is_json_text(s: Seq<char>) -> bool;

/// What `jsonxf::pretty_print` makes of the text, or `None` where it fails.
pub uninterp spec fn pretty_json_of(s: Seq<char>) -> Option<Seq<char>>;

/// Relies on `mime::Mime`'s `FromStr` and `Mime::essence_str`; both depend on
/// the text alone.
#[verifier::external_body]
fn mime_essence(s: &str) -> (r: Option<String>)
    ensures
        match r {
            Some(e) => mime_essence_of(s@) == Some(e@),
            None => mime_essence_of(s@) is None,
        },
{
    match s.parse::<mime::Mime>() {
        Ok(m) => Some(m.essence_str().to_string()),
        Err(_) => None,
    }
}

/// Relies on `serde_json::from_str` into a `serde_json::Value`: whether the text
/// reads as one JSON value; the outcome depends on the text alone.
#[verifier::external_body]
fn json_parses(s: &str) -> (r: bool)
    ensures
        r == is_json_text(s@),
{
    serde_json::from_str::<serde_json::Value>(s).is_ok()
}

/// Relies on `jsonxf::pretty_print`: two-space indentation, one member or
/// element per line; the result depends on the text alone.
#[verifier::external_body]
fn pretty_print(s: &str) -> (r: Option<String>)
    ensures
        match r {
            Some(t) => pretty_json_of(s@) == Some(t@),
            None => pretty_json_of(s@) is None,
        },
{
    jsonxf::pretty_print(s).ok()
}

/// The essence of the JSON media type.
pub open spec fn json_essence() -> Seq<char> {
    seq!['a', 'p', 'p', 'l', 'i', 'c', 'a', 't', 'i', 'o', 'n', '/', 'j', 's', 'o', 'n']
}

/// A content type names JSON when its essence is `application/json`; the
/// parameters (`charset=...`) do not count.
pub open spec fn names_json(ct: Option<Seq<char>>) -> bool {
    match ct {
        Some(c) => mime_essence_of(c) == Some(json_essence()),
        None => false,
    }
}

/// A response body as it is to be shown: pretty-printed JSON, or the raw text.
pub struct RenderedBody {
    pub pretty: bool,
    pub text: String,
}

impl View for RenderedBody {
    type V = (bool, Seq<char>);

    open spec fn view(&self) -> (bool, Seq<char>) {
        (self.pretty, self.text@)
    }
}

/// How a body is shown, given whether its content type names JSON, whether it
/// is well-formed JSON, and what the pretty printer made of it.
pub open spec fn shown_body(json: bool, valid: bool, pretty: Option<Seq<char>>, body: Seq<char>) -> (
    bool,
    Seq<char>,
) {
    if json && valid && pretty is Some {
        (true, pretty->0)
    } else {
        (false, body)
    }
}

/// Whether the `Content-Type` header value names JSON.
pub fn is_json_content_type(ct: &str) -> (r: bool)
    ensures
        r == names_json(Some(ct@)),
{
    match mime_essence(ct) {
        Some(e) => {
            let json = String::from_str("application/json");
            proof {
                reveal_strlit("application/json");
                assert(json@ =~= json_essence());
            }
            e == json
        },
        None => false,
    }
}

/// Chooses what to show of a body from what was learnt of it: the
/// pretty-printed text where the content type names JSON, the body is
/// well-formed JSON and the printer succeeded, and the body unchanged otherwise.
pub fn choose_body(json: bool, valid: bool, pretty: Option<String>, body: &str) -> (r: RenderedBody)
    ensures
        r@ == shown_body(json, valid, match pretty {
            Some(t) => Some(t@),
            None => None,
        }, body@),
{
    if json && valid {
        match pretty {
            Some(t) => {
                return RenderedBody { pretty: true, text: t };
            },
            None => {},
        }
    }
    RenderedBody { pretty: false, text: String::from_str(body) }
}

/// What to show of a response body, given its `Content-Type` header value: a
/// JSON body is pretty-printed; a malformed one, or one of another type, is
/// shown unchanged.
pub fn render_body(content_type: Option<&str>, body: &str) -> (r: RenderedBody)
    ensures
        r@ == shown_body(
            names_json(
                match content_type {
                    Some(c) => Some(c@),
                    None => None,
                },
            ),
            is_json_text(body@),
            pretty_json_of(body@),
            body@,
        ),
{
    let json = match content_type {
        Some(c) => is_json_content_type(c),
        None => false,
    };
    if json {
        let valid = json_parses(body);
        if valid {
            let pretty = pretty_print(body);
            return choose_body(true, true, pretty, body);
        }
        return choose_body(true, false, None, body);
    }
    choose_body(false, false, None, body)
}

} // verus!
