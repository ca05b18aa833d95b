//! The HTTP relay: which requests may be forwarded, how their body is
//! chosen, and how a response is taken apart for the caller.
use vstd::prelude::*;
use crate::text::{eq_ignoring_ascii_case, joined, same_ignoring_ascii_case, same_text};

verus! {

/// The request methods the relay forwards.
#[derive(Debug, Clone, Copy, PartialEq, Eq, Structural)]
pub enum Method {
    Get,
    Post,
}

/// A request as the caller hands it over. Headers and form fields are
/// name/value pairs.
pub struct OutboundRequest {
    pub url: String,
    pub method: String,
    pub headers: Vec<(String, String)>,
    pub body: Option<String>,
    pub form_data: Option<Vec<(String, String)>>,
}

/// The body that goes out with a request.
pub enum RequestBody {
    Empty,
    Raw(String),
    Multipart(Vec<(String, String)>),
}

/// A request checked and ready for the transport.
pub struct PreparedRequest {
    pub method: Method,
    pub url: String,
    pub headers: Vec<(String, String)>,
    pub body: RequestBody,
}

/// A response as the caller receives it: single-value headers apart from
/// the `Set-Cookie` values, which are kept in order.
pub struct InboundResponse {
    pub status: u16,
    pub headers: Vec<(String, String)>,
    pub set_cookies: Vec<String>,
    pub body: String,
    pub url: String,
}

/// What `str::to_uppercase` makes of a text.
pub uninterp spec fn upper_of(s: Seq<char>) -> Seq<char>;

/// Relies on `str::to_uppercase`: its result depends on the text alone, and
/// an empty text stays empty.
#[verifier::external_body]
fn upper_case(s: &str) -> (r: String)
    ensures
        r@ == upper_of(s@),
        s@.len() == 0 ==> r@.len() == 0,
{
    s.to_uppercase()
}

/// The method named by an upper-case method text, if the relay forwards it.
pub open spec fn method_for(upper: Seq<char>) -> Option<Method> {
    if upper == "GET"@ {
        Some(Method::Get)
    } else if upper == "POST"@ {
        Some(Method::Post)
    } else {
        None
    }
}

/// The error reported for a method the relay does not forward.
pub open spec fn unsupported_message(given: Seq<char>) -> Seq<char> {
    "Unsupported method: "@ + given
}

/// The method a request text asks for, compared without regard to case.
pub open spec fn requested_method(given: Seq<char>) -> Option<Method> {
    method_for(upper_of(given))
}

/// Decides the method from its upper-case form; `given` is the text as the
/// caller wrote it, quoted in the error.
pub fn method_from_upper(upper: &str, given: &str) -> (r: Result<Method, String>)
    ensures
        match method_for(upper@) {
            Some(m) => r == Ok::<Method, String>(m),
            None => r is Err && r->Err_0@ == unsupported_message(given@),
        },
{
    if same_text(upper, "GET") {
        Ok(Method::Get)
    } else if same_text(upper, "POST") {
        Ok(Method::Post)
    } else {
        Err(joined("Unsupported method: ", given))
    }
}

/// Decides the method of a request; any case is accepted.
pub fn parse_method(given: &str) -> (r: Result<Method, String>)
    ensures
        match requested_method(given@) {
            Some(m) => r == Ok::<Method, String>(m),
            None => r is Err && r->Err_0@ == unsupported_message(given@),
        },
{
    let upper = upper_case(given);
    method_from_upper(upper.as_str(), given)
}

/// Form fields win over a raw body; with neither, the body is empty.
pub open spec fn body_for(
    body: Option<String>,
    form_data: Option<Vec<(String, String)>>,
) -> RequestBody {
    match form_data {
        Some(fields) => RequestBody::Multipart(fields),
        None => match body {
            Some(b) => RequestBody::Raw(b),
            None => RequestBody::Empty,
        },
    }
}

/// Chooses the body that goes out.
pub fn choose_body(body: Option<String>, form_data: Option<Vec<(String, String)>>) -> (r:
    RequestBody)
    ensures
        r == body_for(body, form_data),
{
    match form_data {
        Some(fields) => RequestBody::Multipart(fields),
        None => match body {
            Some(b) => RequestBody::Raw(b),
            None => RequestBody::Empty,
        },
    }
}

/// Checks a caller's request and fixes what the transport sends. A method
/// other than GET or POST is refused before anything is sent.
pub fn prepare_request(req: OutboundRequest) -> (r: Result<PreparedRequest, String>)
    ensures
        match requested_method(req.method@) {
            Some(m) => r == Ok::<PreparedRequest, String>(
                PreparedRequest {
                    method: m,
                    url: req.url,
                    headers: req.headers,
                    body: body_for(req.body, req.form_data),
                },
            ),
            None => r is Err && r->Err_0@ == unsupported_message(req.method@),
        },
{
    let OutboundRequest { url, method, headers, body, form_data } = req;
    match parse_method(method.as_str()) {
        Ok(m) => Ok(PreparedRequest { method: m, url, headers, body: choose_body(body, form_data) }),
        Err(e) => Err(e),
    }
}


/// A header named `set-cookie` in any case.
pub open spec fn is_cookie_header(name: Seq<char>) -> bool {
    same_ignoring_ascii_case(name, "set-cookie"@)
}

/// A header value as text; one that is not text reads as empty.
pub open spec fn header_text(v: Option<String>) -> Seq<char> {
    match v {
        Some(s) => s@,
        None => Seq::empty(),
    }
}

/// The `Set-Cookie` values of a header list, in order.
pub open spec fn cookies_of(raw: Seq<(String, Option<String>)>) -> Seq<Seq<char>>
    decreases raw.len(),
{
    if raw.len() == 0 {
        Seq::empty()
    } else if is_cookie_header(raw.last().0@) {
        cookies_of(raw.drop_last()).push(header_text(raw.last().1))
    } else {
        cookies_of(raw.drop_last())
    }
}

/// The value of the last header called `name`, if there is one.
pub open spec fn last_value(raw: Seq<(String, Option<String>)>, name: Seq<char>) -> Option<
    Seq<char>,
>
    decreases raw.len(),
{
    if raw.len() == 0 {
        None
    } else if raw.last().0@ == name {
        Some(header_text(raw.last().1))
    } else {
        last_value(raw.drop_last(), name)
    }
}

/// The texts of a list of strings.
pub open spec fn texts(v: Seq<String>) -> Seq<Seq<char>> {
    v.map_values(|s: String| s@)
}

/// No two entries share a name.
pub open spec fn names_distinct(h: Seq<(String, String)>) -> bool {
    forall|i: int, j: int| 0 <= i < j < h.len() ==> h[i].0@ != h[j].0@
}

/// `h` holds one entry for each name of `raw` that is not `Set-Cookie`, with
/// the last value given for it, and nothing else.
pub open spec fn single_headers(h: Seq<(String, String)>, raw: Seq<(String, Option<String>)>) -> bool {
    &&& names_distinct(h)
    &&& forall|i: int|
        0 <= i < h.len() ==> !is_cookie_header(#[trigger] h[i].0@) && last_value(raw, h[i].0@)
            == Some(h[i].1@)
    &&& forall|j: int|
        0 <= j < raw.len() && !is_cookie_header(#[trigger] raw[j].0@) ==> exists|i: int|
            0 <= i < h.len() && #[trigger] h[i].0@ == raw[j].0@
}

fn value_text(v: &Option<String>) -> (r: String)
    ensures
        r@ == header_text(*v),
{
    match v {
        Some(s) => s.clone(),
        None => String::new(),
    }
}

/// Takes a response apart: every `Set-Cookie` value goes to the cookie list,
/// in order and none lost; every other header appears once, with its last
/// value.
pub fn assemble_response(
    status: u16,
    url: String,
    raw_headers: Vec<(String, Option<String>)>,
    body: String,
) -> (r: InboundResponse)
    ensures
        r.status == status,
        r.url == url,
        r.body == body,
        texts(r.set_cookies@) == cookies_of(raw_headers@),
        single_headers(r.headers@, raw_headers@),
{
    let mut headers: Vec<(String, String)> = Vec::new();
    let mut set_cookies: Vec<String> = Vec::new();
    let n = raw_headers.len();
    let mut k: usize = 0;
    assert(raw_headers@.subrange(0, 0) =~= Seq::<(String, Option<String>)>::empty());
    while k < n
        invariant
            n == raw_headers@.len(),
            k <= n,
            texts(set_cookies@) == cookies_of(raw_headers@.subrange(0, k as int)),
            single_headers(headers@, raw_headers@.subrange(0, k as int)),
        decreases n - k,
    {
        let ghost before = raw_headers@.subrange(0, k as int);
        let ghost after = raw_headers@.subrange(0, k + 1);
        assert(after.drop_last() =~= before);
        assert(after.last() == raw_headers@[k as int]);
        let name: &String = &raw_headers[k].0;
        let v = value_text(&raw_headers[k].1);
        if eq_ignoring_ascii_case(name.as_str(), "set-cookie") {
            proof {
                reveal_strlit("set-cookie");
            }
            let ghost old_cookies = set_cookies@;
            set_cookies.push(v);
            assert(texts(set_cookies@) =~= texts(old_cookies).push(v@));
            assert forall|i: int| 0 <= i < headers@.len() implies last_value(after, #[trigger] headers@[i].0@)
                == last_value(before, headers@[i].0@) by {
                assert(headers@[i].0@ != name@);
            }
            assert forall|j: int|
                0 <= j < after.len() && !is_cookie_header(#[trigger] after[j].0@) implies exists|i: int|
                0 <= i < headers@.len() && #[trigger] headers@[i].0@ == after[j].0@ by {
                assert(j < before.len());
                assert(before[j] == after[j]);
            }
        } else {
            let ghost old_h = headers@;
            let mut j: usize = 0;
            while j < headers.len() && !same_text(headers[j].0.as_str(), name.as_str())
                invariant
                    headers@ == old_h,
                    j <= headers@.len(),
                    forall|i: int| 0 <= i < j ==> headers@[i].0@ != name@,
                decreases headers@.len() - j,
            {
                j = j + 1;
            }
            let found = j < headers.len();
            if found {
                headers[j] = (name.clone(), v);
            } else {
                headers.push((name.clone(), v));
            }
            assert(!is_cookie_header(name@));
            assert(last_value(after, name@) == Some(v@));
            assert forall|i: int| 0 <= i < headers@.len() && headers@[i].0@ != name@ implies last_value(
                after,
                #[trigger] headers@[i].0@,
            ) == last_value(before, headers@[i].0@) by {}
            assert forall|a: int, b: int| 0 <= a < b < headers@.len() implies headers@[a].0@
                != headers@[b].0@ by {
                if found {
                    if a != j as int && b != j as int {
                        assert(headers@[a] == old_h[a] && headers@[b] == old_h[b]);
                    } else if a == j as int {
                        assert(headers@[b] == old_h[b]);
                        assert(old_h[a].0@ != old_h[b].0@);
                    } else {
                        assert(headers@[a] == old_h[a]);
                        assert(old_h[a].0@ != old_h[b].0@);
                    }
                } else {
                    if b < old_h.len() {
                        assert(headers@[a] == old_h[a] && headers@[b] == old_h[b]);
                    }
                }
            }
            assert forall|i: int| 0 <= i < headers@.len() implies !is_cookie_header(#[trigger] headers@[i].0@)
                && last_value(after, headers@[i].0@) == Some(headers@[i].1@) by {
                if headers@[i].0@ != name@ {
                    assert(headers@[i] == old_h[i]);
                }
            }
            assert forall|j2: int|
                0 <= j2 < after.len() && !is_cookie_header(#[trigger] after[j2].0@) implies exists|i: int|
                0 <= i < headers@.len() && #[trigger] headers@[i].0@ == after[j2].0@ by {
                if j2 < before.len() {
                    assert(before[j2] == after[j2]);
                    let i0 = choose|i: int| 0 <= i < old_h.len() && #[trigger] old_h[i].0@ == before[j2].0@;
                    assert(headers@[i0].0@ == after[j2].0@);
                } else {
                    let i1: int = if found { j as int } else { old_h.len() as int };
                    assert(headers@[i1].0@ == after[j2].0@);
                }
            }
        }
        k = k + 1;
    }
    assert(raw_headers@.subrange(0, n as int) =~= raw_headers@);
    InboundResponse { status, headers, set_cookies, body, url }
}

} // verus!
