//! Direct dispatch without ASGI: the parameter lookups it makes, the
//! conversion of integer and boolean parameters, the status of a handler's
//! result and the classification of a handler's exception.
use vstd::prelude::*;
use crate::framework::route::ResponseType;
use crate::text::{chars_of, range_eq, split_once, string_of_range, trim, trim_bounds, find_char, lemma_split_once_range};

verus! {

// ── Integers ────────────────────────────────────────────────────────────

/// An ASCII decimal digit.
pub open spec fn is_digit(c: char) -> bool {
    '0' <= c && c <= '9'
}

/// The value of a run of decimal digits.
pub open spec fn digits_value(d: Seq<char>) -> int
    decreases d.len(),
{
    if d.len() == 0 {
        0
    } else {
        digits_value(d.drop_last()) * 10 + (d.last() as int - '0' as int)
    }
}

/// The text after an optional leading sign, and whether the sign is `-`.
pub open spec fn unsigned_part(s: Seq<char>) -> (bool, Seq<char>) {
    if s.len() > 0 && s[0] == '-' {
        (true, s.subrange(1, s.len() as int))
    } else if s.len() > 0 && s[0] == '+' {
        (false, s.subrange(1, s.len() as int))
    } else {
        (false, s)
    }
}

/// The integer an optionally signed run of decimal digits names: at least
/// one digit, nothing else.
pub open spec fn int_value(s: Seq<char>) -> Option<int> {
    let (neg, d) = unsigned_part(s);
    if d.len() > 0 && forall|i: int| 0 <= i < d.len() ==> is_digit(#[trigger] d[i]) {
        Some(if neg { -digits_value(d) } else { digits_value(d) })
    } else {
        None
    }
}

/// What `str::parse::<i64>` gives: the named integer when it fits.
pub open spec fn parsed_i64(s: Seq<char>) -> Option<i64> {
    match int_value(s) {
        Some(v) => if i64::MIN <= v && v <= i64::MAX {
            Some(v as i64)
        } else {
            None
        },
        None => None,
    }
}

proof fn lemma_digits_grow(d: Seq<char>, k: int)
    requires
        0 <= k <= d.len(),
        forall|i: int| 0 <= i < d.len() ==> is_digit(#[trigger] d[i]),
    ensures
        0 <= digits_value(d.subrange(0, k)) <= digits_value(d),
    decreases d.len() - k,
{
    if k < d.len() {
        lemma_digits_grow(d, k + 1);
        let p = d.subrange(0, k + 1);
        assert(p.drop_last() =~= d.subrange(0, k));
        assert(is_digit(p.last()));
    } else {
        assert(d.subrange(0, k) =~= d);
        lemma_digits_nonneg(d);
    }
}

proof fn lemma_digits_nonneg(d: Seq<char>)
    requires
        forall|i: int| 0 <= i < d.len() ==> is_digit(#[trigger] d[i]),
    ensures
        digits_value(d) >= 0,
    decreases d.len(),
{
    if d.len() > 0 {
        assert forall|i: int| 0 <= i < d.drop_last().len() implies is_digit(#[trigger] d.drop_last()[i]) by {
            assert(d.drop_last()[i] == d[i]);
        }
        lemma_digits_nonneg(d.drop_last());
        assert(is_digit(d.last()));
    }
}

/// Parse an optionally signed decimal integer that fits in an `i64`, as
/// `str::parse::<i64>` does.
pub fn parse_i64(s: &str) -> (r: Option<i64>)
    ensures
        r == parsed_i64(s@),
{
    let v = chars_of(s);
    let n = v.len();
    if n == 0 {
        return None;
    }
    let neg = v[0] == '-';
    let start: usize = if v[0] == '-' || v[0] == '+' { 1 } else { 0 };
    let ghost d = v@.subrange(start as int, n as int);
    assert(unsigned_part(s@) == (neg, d)) by {
        if start == 0 {
            assert(d =~= v@);
        }
    }
    if start == n {
        return None;
    }
    let mut acc: i64 = 0;
    let mut i: usize = start;
    while i < n
        invariant
            start <= i <= n,
            n == v@.len(),
            v@ == s@,
            d == v@.subrange(start as int, n as int),
            unsigned_part(s@) == (neg, d),
            d.len() > 0,
            forall|k: int| 0 <= k < i - start ==> is_digit(#[trigger] d[k]),
            acc as int == (if neg {
                -digits_value(d.subrange(0, i - start))
            } else {
                digits_value(d.subrange(0, i - start))
            }),
        decreases n - i,
    {
        let c = v[i];
        assert(d[i - start] == c);
        if !('0' <= c && c <= '9') {
            proof {
                assert(!is_digit(d[i - start]));
            }
            return None;
        }
        let dig: i64 = (c as u32 - '0' as u32) as i64;
        let ghost p = d.subrange(0, i - start + 1);
        assert(p.drop_last() =~= d.subrange(0, i - start));
        assert(p.last() == c);
        assert(digits_value(p) == digits_value(d.subrange(0, i - start)) * 10 + dig);
        let next = match acc.checked_mul(10) {
            Some(m) => if neg {
                m.checked_sub(dig)
            } else {
                m.checked_add(dig)
            },
            None => None,
        };
        match next {
            Some(x) => {
                acc = x;
            },
            None => {
                proof {
                    let pre = digits_value(d.subrange(0, i - start));
                    assert forall|k: int| 0 <= k < i - start implies is_digit(#[trigger] d.subrange(0, i - start)[k]) by {
                        assert(d.subrange(0, i - start)[k] == d[k]);
                    }
                    lemma_digits_nonneg(d.subrange(0, i - start));
                    assert(digits_value(p) > i64::MAX || -digits_value(p) < i64::MIN) by (nonlinear_arith)
                        requires
                            pre >= 0,
                            0 <= dig <= 9,
                            digits_value(p) == pre * 10 + dig,
                            neg ==> (acc == -pre) && ((acc * 10 < i64::MIN) || (acc * 10 - dig < i64::MIN)),
                            !neg ==> (acc == pre) && ((acc * 10 > i64::MAX) || (acc * 10 + dig > i64::MAX)),
                    ;
                    if forall|k: int| 0 <= k < d.len() ==> is_digit(#[trigger] d[k]) {
                        lemma_digits_grow(d, i - start + 1);
                    }
                }
                return None;
            },
        }
        i = i + 1;
    }
    assert(d.subrange(0, n - start) =~= d);
    Some(acc)
}

// ── Cookies ─────────────────────────────────────────────────────────────

/// The pieces of `s` between occurrences of `; `, the first prefixed by
/// `cur` (as `str::split("; ")` yields them).
pub open spec fn split_semi_space_from(s: Seq<char>, cur: Seq<char>) -> Seq<Seq<char>>
    decreases s.len(),
{
    if s.len() == 0 {
        seq![cur]
    } else if s.len() >= 2 && s[0] == ';' && s[1] == ' ' {
        seq![cur] + split_semi_space_from(s.subrange(2, s.len() as int), seq![])
    } else {
        split_semi_space_from(s.subrange(1, s.len() as int), cur.push(s[0]))
    }
}

/// A `; ` separator starts at `i`.
pub open spec fn sep_at(s: Seq<char>, i: int) -> bool {
    0 <= i && i + 1 < s.len() && s[i] == ';' && s[i + 1] == ' '
}

proof fn lemma_split_semi_space(s: Seq<char>, cur: Seq<char>, i: int)
    requires
        0 <= i <= s.len(),
        forall|k: int| 0 <= k < i ==> !sep_at(s, k),
        i == s.len() || sep_at(s, i),
    ensures
        i == s.len() ==> split_semi_space_from(s, cur) == seq![cur + s],
        i < s.len() ==> split_semi_space_from(s, cur) == seq![cur + s.subrange(0, i)]
            + split_semi_space_from(s.subrange(i + 2, s.len() as int), seq![]),
    decreases i,
{
    if i > 0 {
        let t = s.subrange(1, s.len() as int);
        assert(!sep_at(s, 0));
        assert forall|k: int| 0 <= k < i - 1 implies !sep_at(t, k) by {
            assert(!sep_at(s, k + 1));
            if sep_at(t, k) {
                assert(t[k] == s[k + 1] && t[k + 1] == s[k + 2]);
            }
        }
        if i < s.len() {
            assert(t[i - 1] == s[i] && t[i] == s[i + 1]);
        }
        lemma_split_semi_space(t, cur.push(s[0]), i - 1);
        assert(cur.push(s[0]) + t =~= cur + s);
        assert(cur.push(s[0]) + t.subrange(0, i - 1) =~= cur + s.subrange(0, i));
        if i < s.len() {
            assert(t.subrange(i + 1, t.len() as int) =~= s.subrange(i + 2, s.len() as int));
        }
    } else if s.len() == 0 {
        assert(cur + s =~= cur);
    } else {
        assert(cur + s.subrange(0, 0) =~= cur);
    }
}

/// The value a raw `key=value` piece gives for `name`: split at its first
/// `=`, the key trimmed, the value trimmed.
pub open spec fn raw_pair_value(piece: Seq<char>, name: Seq<char>) -> Option<Seq<char>> {
    match split_once(piece, '=') {
        Some((k, v)) => if trim(k) == name {
            Some(trim(v))
        } else {
            None
        },
        None => None,
    }
}

/// The first value `name` has among the pieces.
pub open spec fn first_pair_value(pieces: Seq<Seq<char>>, name: Seq<char>) -> Option<Seq<char>>
    decreases pieces.len(),
{
    if pieces.len() == 0 {
        None
    } else {
        match raw_pair_value(pieces[0], name) {
            Some(v) => Some(v),
            None => first_pair_value(pieces.subrange(1, pieces.len() as int), name),
        }
    }
}

/// The value of cookie `name` in a `Cookie` header split at `; `.
pub open spec fn direct_cookie_value(header: Seq<char>, name: Seq<char>) -> Option<Seq<char>> {
    first_pair_value(split_semi_space_from(header, seq![]), name)
}

fn raw_pair_match(v: &Vec<char>, lo: usize, hi: usize, name: &Vec<char>) -> (r: Option<(usize, usize)>)
    requires
        lo <= hi <= v.len(),
    ensures
        match raw_pair_value(v@.subrange(lo as int, hi as int), name@) {
            Some(x) => r matches Some((a, b)) && a <= b <= v.len() && v@.subrange(a as int, b as int) == x,
            None => r is None,
        },
{
    let e = find_char(v, lo, hi, '=');
    proof {
        lemma_split_once_range(v@, lo as int, hi as int, '=', e as int);
    }
    if e == hi {
        return None;
    }
    let (ka, kb) = trim_bounds(v, lo, e);
    if !range_eq(v, ka, kb, name.as_slice()) {
        return None;
    }
    let (va, vb) = trim_bounds(v, e + 1, hi);
    Some((va, vb))
}

/// The value of cookie `name` as direct dispatch reads it: the header is
/// split at `; `, each piece at its first `=`, and the first piece whose
/// trimmed key is `name` gives its trimmed value.
pub fn find_cookie_direct(header: &str, name: &str) -> (r: Option<String>)
    ensures
        match direct_cookie_value(header@, name@) {
            Some(x) => r matches Some(s) && s@ == x,
            None => r is None,
        },
{
    let v = chars_of(header);
    let nm = chars_of(name);
    let n = v.len();
    let mut start: usize = 0;
    assert(v@.subrange(0, n as int) =~= v@);
    while start <= n
        invariant
            start <= n,
            n == v@.len(),
            v@ == header@,
            nm@ == name@,
            direct_cookie_value(header@, name@) == first_pair_value(
                split_semi_space_from(v@.subrange(start as int, n as int), seq![]),
                name@,
            ),
        decreases n - start,
    {
        let mut j = start;
        while j < n && !(v[j] == ';' && j + 1 < n && v[j + 1] == ' ')
            invariant
                start <= j <= n,
                n == v@.len(),
                forall|k: int| start <= k < j ==> !sep_at(v@, k),
            decreases n - j,
        {
            j = j + 1;
        }
        let ghost rest = v@.subrange(start as int, n as int);
        proof {
            assert forall|k: int| 0 <= k < j - start implies !sep_at(rest, k) by {
                assert(!sep_at(v@, start + k));
                if sep_at(rest, k) {
                    assert(rest[k] == v@[start + k] && rest[k + 1] == v@[start + k + 1]);
                }
            }
            if j < n {
                assert(sep_at(v@, j as int));
                assert(rest[j - start] == v@[j as int] && rest[j - start + 1] == v@[j + 1]);
            }
            lemma_split_semi_space(rest, seq![], j - start);
            assert(Seq::<char>::empty() + rest =~= rest);
            assert(Seq::<char>::empty() + rest.subrange(0, j - start) =~= v@.subrange(start as int, j as int));
            if j < n {
                assert(rest.subrange(j - start + 2, rest.len() as int) =~= v@.subrange(j + 2, n as int));
            }
        }
        let ghost pieces = split_semi_space_from(rest, seq![]);
        assert(pieces[0] == v@.subrange(start as int, j as int)) by {
            if j == n {
                assert(v@.subrange(start as int, j as int) =~= rest);
            }
        }
        match raw_pair_match(&v, start, j, &nm) {
            Some((a, b)) => {
                return Some(string_of_range(&v, a, b));
            },
            None => {},
        }
        if j == n {
            assert(pieces.len() == 1);
            assert(pieces.subrange(1, pieces.len() as int) =~= Seq::<Seq<char>>::empty());
            assert(first_pair_value(Seq::<Seq<char>>::empty(), name@) is None);
            return None;
        }
        assert(pieces.subrange(1, pieces.len() as int) =~= split_semi_space_from(v@.subrange(j + 2, n as int), seq![]));
        start = j + 2;
    }
    None
}

// ── Query ───────────────────────────────────────────────────────────────

/// Name for the `(name, value)` pairs `form_urlencoded::parse` yields for a
/// query string, decoded.
pub uninterp spec fn form_pairs(input: Seq<u8>) -> Seq<(Seq<char>, Seq<char>)>;

/// The pairs as plain sequences.
pub open spec fn pair_views(v: Seq<(String, String)>) -> Seq<(Seq<char>, Seq<char>)> {
    v.map_values(|p: (String, String)| (p.0@, p.1@))
}

/// Calls `form_urlencoded::parse` and collects the decoded pairs. The
/// contract says only that they are the ones named by `form_pairs`, a
/// function of the bytes alone.
#[verifier::external_body]
fn parse_query_pairs(input: &[u8]) -> (r: Vec<(String, String)>)
    ensures
        pair_views(r@) == form_pairs(input@),
{
    form_urlencoded::parse(input).map(|(k, v)| (k.into_owned(), v.into_owned())).collect()
}

/// The first value keyed `name` among decoded pairs.
pub open spec fn first_value_of(ps: Seq<(Seq<char>, Seq<char>)>, name: Seq<char>) -> Option<Seq<char>>
    decreases ps.len(),
{
    if ps.len() == 0 {
        None
    } else if ps[0].0 == name {
        Some(ps[0].1)
    } else {
        first_value_of(ps.subrange(1, ps.len() as int), name)
    }
}

/// The first value keyed `name` among decoded query pairs.
pub fn first_pair_named(pairs: &Vec<(String, String)>, name: &str) -> (r: Option<String>)
    ensures
        match first_value_of(pair_views(pairs@), name@) {
            Some(x) => r matches Some(s) && s@ == x,
            None => r is None,
        },
{
    let ghost ps = pair_views(pairs@);
    let mut i: usize = 0;
    assert(ps.subrange(0, ps.len() as int) =~= ps);
    while i < pairs.len()
        invariant
            i <= pairs.len(),
            ps == pair_views(pairs@),
            ps.len() == pairs.len(),
            first_value_of(ps, name@) == first_value_of(ps.subrange(i as int, ps.len() as int), name@),
        decreases pairs.len() - i,
    {
        let ghost rest = ps.subrange(i as int, ps.len() as int);
        assert(rest[0] == ps[i as int]);
        assert(ps[i as int] == (pairs@[i as int].0@, pairs@[i as int].1@));
        if crate::text::str_eq(pairs[i].0.as_str(), name) {
            return Some(pairs[i].1.clone());
        }
        assert(rest.subrange(1, rest.len() as int) =~= ps.subrange(i + 1, ps.len() as int));
        i = i + 1;
    }
    None
}

/// A query parameter as direct dispatch reads it: the first pair with the
/// wire name among those `form_urlencoded::parse` decodes.
pub fn query_param(query_string: &[u8], wire_name: &str) -> (r: Option<String>)
    ensures
        match first_value_of(form_pairs(query_string@), wire_name@) {
            Some(x) => r matches Some(s) && s@ == x,
            None => r is None,
        },
{
    let pairs = parse_query_pairs(query_string);
    first_pair_named(&pairs, wire_name)
}

/// The wire name of a parameter: its alias, else its name.
pub fn wire_name<'a>(name: &'a str, alias: &'a Option<String>) -> (r: &'a str)
    ensures
        r@ == match alias {
            Some(a) => a@,
            None => name@,
        },
{
    match alias {
        Some(a) => a.as_str(),
        None => name,
    }
}

/// A directly dispatched parameter value before it reaches Python.
#[derive(Debug)]
pub enum DirectScalar {
    Int(i64),
    /// A float parameter's text; floats are parsed where Python is called.
    Float(String),
    Bool(bool),
    Str(String),
}

/// Convert a directly dispatched parameter by its type: `int` must parse
/// as an `i64` (else the body-parse error), `bool` is true for `true`,
/// `True`, `1` and `yes`, `float` keeps its text, anything else stays a
/// string.
pub fn convert_scalar(value: &str, type_qualname: &str) -> (r: Result<DirectScalar, crate::framework::error::AppError>)
    ensures
        type_qualname@ == "int"@ ==> match parsed_i64(value@) {
            Some(x) => r matches Ok(DirectScalar::Int(y)) && y == x,
            None => r matches Err(e) && e == crate::framework::error::AppError::BodyParse(
                crate::framework::error::BodyParseKind::InvalidJson,
            ),
        },
        type_qualname@ == "float"@ ==> (r matches Ok(DirectScalar::Float(t)) && t@ == value@),
        type_qualname@ == "bool"@ ==> (r matches Ok(DirectScalar::Bool(b)) && b == (value@ == "true"@
            || value@ == "True"@ || value@ == "1"@ || value@ == "yes"@)),
        !(type_qualname@ == "int"@ || type_qualname@ == "float"@ || type_qualname@ == "bool"@) ==> (r matches Ok(
            DirectScalar::Str(t),
        ) && t@ == value@),
{
    proof {
        reveal_strlit("int");
        reveal_strlit("float");
        reveal_strlit("bool");
        assert("int"@.len() == 3 && "float"@.len() == 5 && "bool"@.len() == 4);
    }
    match crate::framework::extract::scalar_kind(type_qualname) {
        crate::framework::extract::ScalarKind::Int => match parse_i64(value) {
            Some(x) => Ok(DirectScalar::Int(x)),
            None => Err(crate::framework::extract::direct_param_error()),
        },
        crate::framework::extract::ScalarKind::Float => Ok(DirectScalar::Float(String::from_str(value))),
        crate::framework::extract::ScalarKind::Bool => Ok(DirectScalar::Bool(crate::framework::extract::parse_bool(value))),
        crate::framework::extract::ScalarKind::Str => Ok(DirectScalar::Str(String::from_str(value))),
    }
}

// ── Results and exceptions ──────────────────────────────────────────────

/// The status of a handler's result: `None` gives the model's status or
/// 204; any other value the model's status or 200.
pub fn result_status(result_is_none: bool, response_type: &ResponseType) -> (r: u16)
    ensures
        r == match *response_type {
            ResponseType::Model { status_code, .. } => status_code,
            _ => if result_is_none {
                204u16
            } else {
                200u16
            },
        },
{
    match response_type {
        ResponseType::Model { status_code, .. } => *status_code,
        _ => if result_is_none {
            204
        } else {
            200
        },
    }
}

/// How a handler's exception is answered.
#[derive(Debug)]
pub enum HandlerFailure {
    /// An `HTTPException`: its status and detail.
    Http { status: u16, detail: String },
    /// Any other exception, rendered.
    Internal(String),
}

/// Classify a handler's exception: an `HTTPException` keeps its status
/// (500 when unreadable) and detail (`Internal Server Error` when
/// unreadable); anything else is internal.
pub fn classify_handler_error(
    is_http_exception: bool,
    status: Option<u16>,
    detail: Option<String>,
    rendered: String,
) -> (r: HandlerFailure)
    ensures
        is_http_exception ==> (r matches HandlerFailure::Http { status: s, detail: d } && s == match status {
            Some(x) => x,
            None => 500u16,
        } && d@ == match detail {
            Some(x) => x@,
            None => "Internal Server Error"@,
        }),
        !is_http_exception ==> (r matches HandlerFailure::Internal(m) && m@ == rendered@),
{
    if is_http_exception {
        let s = match status {
            Some(x) => x,
            None => 500,
        };
        let d = match detail {
            Some(x) => x,
            None => String::from_str("Internal Server Error"),
        };
        HandlerFailure::Http { status: s, detail: d }
    } else {
        HandlerFailure::Internal(rendered)
    }
}

} // verus!
