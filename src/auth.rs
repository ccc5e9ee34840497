//! The text logic around authorization: the stored credentials file, the
//! authorization URL, the authorization code in the browser's callback
//! request, and telling a missing-permission failure from other ones.

use vstd::prelude::*;

use crate::text::{
    chars_of, contains_text, find_from, find_text, lemma_find_from, matches_here,
    occurs, string_of,
};

verus! {

/// The text after a key that opens its quoted value: ` = "`.
pub open spec fn value_opener() -> Seq<char> {
    seq![' ', '=', ' ', '"']
}

/// The quote that closes a value.
pub open spec fn quote() -> Seq<char> {
    seq!['"']
}

/// The quoted value written after the first `key = "` in `content`, up to
/// the next quote.
pub open spec fn quoted_value_of(content: Seq<char>, key: Seq<char>) -> Option<Seq<char>> {
    match find_from(content, key + value_opener(), 0) {
        Some(i) => {
            let start = i + key.len() + 4;
            match find_from(content, quote(), start) {
                Some(end) => Some(content.subrange(start, end)),
                None => None,
            }
        },
        None => None,
    }
}

/// The start of the callback request line: `GET /?`.
pub open spec fn request_prefix() -> Seq<char> {
    seq!['G', 'E', 'T', ' ', '/', '?']
}

/// What ends the query of the request line: ` HTTP`.
pub open spec fn query_end_marker() -> Seq<char> {
    seq![' ', 'H', 'T', 'T', 'P']
}

/// The name of the code parameter with its `=`.
pub open spec fn code_key() -> Seq<char> {
    seq!['c', 'o', 'd', 'e', '=']
}

/// Whether a `code=` parameter starts at `i` in the query `req[qs..qe]`.
pub open spec fn is_code_param(req: Seq<char>, qs: int, qe: int, i: int) -> bool {
    &&& qs <= i
    &&& i + 5 <= qe
    &&& (i == qs || req[i - 1] == '&')
    &&& req.subrange(i, i + 5) == code_key()
}

/// The first index at or after `from` where a `code=` parameter starts.
pub open spec fn first_code_param(req: Seq<char>, qs: int, qe: int, from: int) -> Option<int>
    decreases qe - from,
{
    if from >= qe {
        None
    } else if is_code_param(req, qs, qe, from) {
        Some(from)
    } else {
        first_code_param(req, qs, qe, from + 1)
    }
}

/// The end of the parameter running from `from`: the next `&` before `qe`,
/// else `qe`.
pub open spec fn param_end(req: Seq<char>, from: int, qe: int) -> int
    decreases qe - from,
{
    if from >= qe {
        qe
    } else if req[from] == '&' {
        from
    } else {
        param_end(req, from + 1, qe)
    }
}

/// The value of the first `code` parameter in the query of a `GET /?...
/// HTTP` request line.
pub open spec fn auth_code_of(req: Seq<char>) -> Option<Seq<char>> {
    match find_from(req, request_prefix(), 0) {
        Some(q) => match find_from(req, query_end_marker(), q + 6) {
            Some(qe) => match first_code_param(req, q + 6, qe, q + 6) {
                Some(i) => Some(req.subrange(i + 5, param_end(req, i + 5, qe))),
                None => None,
            },
            None => None,
        },
        None => None,
    }
}

/// The quoted value of `key` in a credentials file: the text between the
/// first `key = "` and the next quote.
pub fn quoted_value(content: &str, key: &str) -> (r: Option<String>)
    ensures
        match r {
            Some(v) => quoted_value_of(content@, key@) == Some(v@),
            None => quoted_value_of(content@, key@) is None,
        },
{
    let cv = chars_of(content);
    let mut marker = chars_of(key);
    marker.push(' ');
    marker.push('=');
    marker.push(' ');
    marker.push('"');
    assert(marker@ =~= key@ + value_opener());
    let mut quote_v: Vec<char> = Vec::new();
    quote_v.push('"');
    assert(quote_v@ =~= quote());
    match find_text(&cv, &marker, 0) {
        Some(i) => {
            proof {
                lemma_find_from(cv@, marker@, 0);
            }
            let start = i + marker.len();
            match find_text(&cv, &quote_v, start) {
                Some(end) => {
                    proof {
                        lemma_find_from(cv@, quote_v@, start as int);
                    }
                    Some(string_of(&cv, start, end))
                },
                None => None,
            }
        },
        None => None,
    }
}

/// The authorization code carried by the browser's callback request.
pub fn auth_code(request: &str) -> (r: Option<String>)
    ensures
        match r {
            Some(v) => auth_code_of(request@) == Some(v@),
            None => auth_code_of(request@) is None,
        },
{
    let rv = chars_of(request);
    let mut prefix: Vec<char> = Vec::new();
    prefix.push('G');
    prefix.push('E');
    prefix.push('T');
    prefix.push(' ');
    prefix.push('/');
    prefix.push('?');
    assert(prefix@ =~= request_prefix());
    let mut end_marker: Vec<char> = Vec::new();
    end_marker.push(' ');
    end_marker.push('H');
    end_marker.push('T');
    end_marker.push('T');
    end_marker.push('P');
    assert(end_marker@ =~= query_end_marker());
    let mut key: Vec<char> = Vec::new();
    key.push('c');
    key.push('o');
    key.push('d');
    key.push('e');
    key.push('=');
    assert(key@ =~= code_key());
    let q = match find_text(&rv, &prefix, 0) {
        Some(q) => q,
        None => {
            return None;
        },
    };
    proof {
        lemma_find_from(rv@, prefix@, 0);
    }
    let qs = q + 6;
    let qe = match find_text(&rv, &end_marker, qs) {
        Some(e) => e,
        None => {
            return None;
        },
    };
    proof {
        lemma_find_from(rv@, end_marker@, qs as int);
    }
    let mut i: usize = qs;
    while i < qe
        invariant
            qs <= i <= qe,
            qe <= rv@.len(),
            rv@ == request@,
            key@ == code_key(),
            qs == q + 6,
            find_from(rv@, request_prefix(), 0) == Some(q as int),
            find_from(rv@, query_end_marker(), qs as int) == Some(qe as int),
            first_code_param(rv@, qs as int, qe as int, qs as int) == first_code_param(
                rv@,
                qs as int,
                qe as int,
                i as int,
            ),
        decreases qe - i,
    {
        let at_start = i == qs || rv[i - 1] == '&';
        if at_start && qe - i >= 5 && matches_here(&rv, &key, i) {
            let vs = i + 5;
            assert(is_code_param(rv@, qs as int, qe as int, i as int));
            let mut j: usize = vs;
            while j < qe && rv[j] != '&'
                invariant
                    vs <= j <= qe,
                    qe <= rv@.len(),
                    vs == i + 5,
                    qs <= i,
                    rv@ == request@,
                    is_code_param(rv@, qs as int, qe as int, i as int),
                    first_code_param(rv@, qs as int, qe as int, qs as int) == first_code_param(
                        rv@,
                        qs as int,
                        qe as int,
                        i as int,
                    ),
                    qs == q + 6,
                    find_from(rv@, request_prefix(), 0) == Some(q as int),
                    find_from(rv@, query_end_marker(), qs as int) == Some(qe as int),
                    param_end(rv@, vs as int, qe as int) == param_end(rv@, j as int, qe as int),
                decreases qe - j,
            {
                j = j + 1;
            }
            assert(is_code_param(rv@, qs as int, qe as int, i as int));
            assert(first_code_param(rv@, qs as int, qe as int, i as int) == Some(i as int));
            assert(param_end(rv@, j as int, qe as int) == j as int);
            return Some(string_of(&rv, vs, j));
        }
        assert(!is_code_param(rv@, qs as int, qe as int, i as int));
        i = i + 1;
    }
    assert(first_code_param(rv@, qs as int, qe as int, qe as int) is None);
    None
}

/// Whether a failed request's body tells of a missing read permission.
pub fn is_scope_error(body: &str) -> (r: bool)
    ensures
        r == (occurs(body@, "activity:read_permission"@) || occurs(body@, "missing"@)),
{
    contains_text(body, "activity:read_permission") || contains_text(body, "missing")
}

/// The credentials file holding the three values.
pub fn config_text(client_id: &str, client_secret: &str, refresh_token: &str) -> (r: String)
    ensures
        r@ == "client_id = \""@ + client_id@ + "\"\nclient_secret = \""@ + client_secret@
            + "\"\nrefresh_token = \""@ + refresh_token@ + "\"\n"@,
{
    let mut s = String::from_str("client_id = \"");
    s.append(client_id);
    s.append("\"\nclient_secret = \"");
    s.append(client_secret);
    s.append("\"\nrefresh_token = \"");
    s.append(refresh_token);
    s.append("\"\n");
    s
}

/// The page on which the athlete grants this client read access to their
/// activities; the service then calls back the local listener.
pub fn authorize_url(client_id: &str) -> (r: String)
    ensures
        r@ == "https://www.strava.com/oauth/authorize?client_id="@ + client_id@
            + "&response_type=code&redirect_uri=http://localhost:42424&scope=read,activity:read_all"@,
{
    let mut s = String::from_str("https://www.strava.com/oauth/authorize?client_id=");
    s.append(client_id);
    s.append("&response_type=code&redirect_uri=http://localhost:42424&scope=read,activity:read_all");
    s
}

} // verus!
