//! Request-parameter lookup: path, query, header and cookie values, the
//! errors for missing or malformed ones, and the scalar conversions that
//! need no Python.
use vstd::prelude::*;
use crate::framework::error::{AppError, BodyParseKind, ValidationErrorItem};
use crate::text::{
    chars_of, concat2, concat3, find_char, lemma_split_on_first, lemma_split_once_range,
    range_eq, split_on, split_once, str_eq, string_of_range, trim, trim_bounds,
};

verus! {

/// A failed lookup, as the plan executor reports it.
#[derive(Debug)]
pub enum ExtractError {
    /// The request is malformed (400).
    BadRequest(String),
    /// A required value is missing (422), with the validation items.
    Validation(Vec<ValidationErrorItem>),
}

/// A validation item `{loc: [place, name], msg, type: "missing"}`.
pub fn missing_item(place: &str, name: &str, msg: String) -> (r: ValidationErrorItem)
    ensures
        r.loc@.len() == 2,
        r.loc@[0]@ == place@,
        r.loc@[1]@ == name@,
        r.msg@ == msg@,
        r.error_type@ == "missing"@,
{
    let mut loc: Vec<String> = Vec::new();
    loc.push(String::from_str(place));
    loc.push(String::from_str(name));
    ValidationErrorItem { loc, msg, error_type: String::from_str("missing") }
}

// ── Path and query ──────────────────────────────────────────────────────

/// Index of the first pair whose key is `name`.
pub open spec fn first_key(ps: Seq<(String, String)>, name: Seq<char>) -> Option<int> {
    if exists|i: int| 0 <= i < ps.len() && ps[i].0@ == name {
        Some(choose|i: int|
            0 <= i < ps.len() && ps[i].0@ == name && forall|j: int| 0 <= j < i ==> ps[j].0@ != name)
    } else {
        None
    }
}

/// Index of the last pair whose key is `name`.
pub open spec fn last_key(ps: Seq<(String, String)>, name: Seq<char>) -> Option<int> {
    if exists|i: int| 0 <= i < ps.len() && ps[i].0@ == name {
        Some(choose|i: int|
            0 <= i < ps.len() && ps[i].0@ == name && forall|j: int| i < j < ps.len() ==> ps[j].0@ != name)
    } else {
        None
    }
}

/// The value of the first pair keyed `name` (path parameters).
pub fn first_value<'a>(params: &'a [(String, String)], name: &str) -> (r: Option<&'a str>)
    ensures
        match first_key(params@, name@) {
            Some(i) => r matches Some(v) && v@ == params@[i].1@,
            None => r is None,
        },
{
    let mut i: usize = 0;
    while i < params.len()
        invariant
            i <= params.len(),
            forall|j: int| 0 <= j < i ==> params@[j].0@ != name@,
        decreases params.len() - i,
    {
        if str_eq(params[i].0.as_str(), name) {
            proof {
                let k = choose|k: int|
                    0 <= k < params@.len() && params@[k].0@ == name@ && forall|j: int|
                        0 <= j < k ==> params@[j].0@ != name@;
                assert(params@[i as int].0@ == name@);
                if k < i {
                    assert(params@[k].0@ != name@);
                } else if k > i {
                    assert(params@[i as int].0@ != name@);
                }
            }
            return Some(params[i].1.as_str());
        }
        i = i + 1;
    }
    None
}

/// The value of the last pair keyed `name` (query parameters: the last
/// occurrence wins).
pub fn last_value<'a>(params: &'a [(String, String)], name: &str) -> (r: Option<&'a str>)
    ensures
        match last_key(params@, name@) {
            Some(i) => r matches Some(v) && v@ == params@[i].1@,
            None => r is None,
        },
{
    let mut i: usize = params.len();
    while i > 0
        invariant
            i <= params.len(),
            forall|j: int| i <= j < params.len() ==> params@[j].0@ != name@,
        decreases i,
    {
        if str_eq(params[i - 1].0.as_str(), name) {
            proof {
                let k = choose|k: int|
                    0 <= k < params@.len() && params@[k].0@ == name@ && forall|j: int|
                        k < j < params@.len() ==> params@[j].0@ != name@;
                assert(params@[i - 1].0@ == name@);
                if k < i - 1 {
                    assert(params@[i - 1].0@ != name@);
                } else if k > i - 1 {
                    assert(params@[k].0@ != name@);
                }
            }
            return Some(params[i - 1].1.as_str());
        }
        i = i - 1;
    }
    None
}

/// A path parameter: its value, nothing when it is optional and absent,
/// and a bad request when it is required and absent.
pub fn extract_path_value<'a>(path_params: &'a [(String, String)], name: &str, required: bool) -> (r: Result<Option<&'a str>, ExtractError>)
    ensures
        match first_key(path_params@, name@) {
            Some(i) => r matches Ok(Some(v)) && v@ == path_params@[i].1@,
            None => if required {
                r matches Err(ExtractError::BadRequest(m)) && m@ == "missing path parameter: "@ + name@
            } else {
                r matches Ok(None)
            },
        },
{
    match first_value(path_params, name) {
        Some(v) => Ok(Some(v)),
        None => if required {
            Err(ExtractError::BadRequest(concat2("missing path parameter: ", name)))
        } else {
            Ok(None)
        },
    }
}

/// A query parameter (the last occurrence): its value, nothing when it is
/// optional and absent (the default applies), and a `Field required`
/// validation error when it is required and absent.
pub fn extract_query_value<'a>(query_params: &'a [(String, String)], name: &str, required: bool) -> (r: Result<Option<&'a str>, ExtractError>)
    ensures
        match last_key(query_params@, name@) {
            Some(i) => r matches Ok(Some(v)) && v@ == query_params@[i].1@,
            None => if required {
                r matches Err(ExtractError::Validation(items)) && items@.len() == 1 && items@[0].loc@.len() == 2
                    && items@[0].loc@[0]@ == "query"@ && items@[0].loc@[1]@ == name@
                    && items@[0].msg@ == "Field required"@ && items@[0].error_type@ == "missing"@
            } else {
                r matches Ok(None)
            },
        },
{
    match last_value(query_params, name) {
        Some(v) => Ok(Some(v)),
        None => if required {
            let item = missing_item("query", name, String::from_str("Field required"));
            let mut items: Vec<ValidationErrorItem> = Vec::new();
            items.push(item);
            Err(ExtractError::Validation(items))
        } else {
            Ok(None)
        },
    }
}

// ── Headers ─────────────────────────────────────────────────────────────

/// Whether a header byte is visible ASCII or a tab, the bytes
/// `http::HeaderValue::to_str` accepts.
pub open spec fn visible_ascii(b: u8) -> bool {
    (32 <= b && b < 127) || b == 9
}

/// The text of a header value made of visible ASCII (and tabs): each byte
/// read as the character with its code.
pub open spec fn ascii_text(b: Seq<u8>) -> Seq<char> {
    b.map_values(|x: u8| x as char)
}

/// The text of a header value, as `http::HeaderValue::to_str` reads it:
/// `None` when a byte is not visible ASCII or a tab.
pub fn header_str(value: &[u8]) -> (r: Option<String>)
    ensures
        (forall|i: int| 0 <= i < value@.len() ==> visible_ascii(#[trigger] value@[i])) ==> (r matches Some(
            s,
        ) && s@ == ascii_text(value@)),
        !(forall|i: int| 0 <= i < value@.len() ==> visible_ascii(#[trigger] value@[i])) ==> r is None,
{
    let mut s = String::new();
    let mut i: usize = 0;
    while i < value.len()
        invariant
            i <= value.len(),
            forall|k: int| 0 <= k < i ==> visible_ascii(#[trigger] value@[k]),
            s@ == ascii_text(value@.subrange(0, i as int)),
        decreases value.len() - i,
    {
        let b = value[i];
        if !((32 <= b && b < 127) || b == 9) {
            return None;
        }
        let ghost before = s@;
        crate::text::string_push(&mut s, b as char);
        assert(ascii_text(value@.subrange(0, i + 1)) =~= ascii_text(value@.subrange(0, i as int)).push(b as char));
        i = i + 1;
    }
    assert(value@.subrange(0, value@.len() as int) =~= value@);
    Some(s)
}

/// A header parameter by wire name: its text; a bad request when it holds
/// a byte that is not visible ASCII; nothing when optional and absent; a
/// validation error when required and absent.
pub fn extract_header_value(value: Option<&[u8]>, wire_name: &str, required: bool) -> (r: Result<Option<String>, ExtractError>)
    ensures
        match value {
            Some(b) => if forall|i: int| 0 <= i < b@.len() ==> visible_ascii(#[trigger] b@[i]) {
                r matches Ok(Some(s)) && s@ == ascii_text(b@)
            } else {
                r matches Err(ExtractError::BadRequest(m)) && m@ == "header '"@ + wire_name@
                    + "' contains non-ASCII characters"@
            },
            None => if required {
                r matches Err(ExtractError::Validation(items)) && items@.len() == 1 && items@[0].loc@.len() == 2
                    && items@[0].loc@[0]@ == "header"@ && items@[0].loc@[1]@ == wire_name@
                    && items@[0].msg@ == "missing required header: "@ + wire_name@
                    && items@[0].error_type@ == "missing"@
            } else {
                r matches Ok(None)
            },
        },
{
    match value {
        Some(b) => match header_str(b) {
            Some(s) => Ok(Some(s)),
            None => Err(ExtractError::BadRequest(concat3("header '", wire_name, "' contains non-ASCII characters"))),
        },
        None => if required {
            let item = missing_item("header", wire_name, concat2("missing required header: ", wire_name));
            let mut items: Vec<ValidationErrorItem> = Vec::new();
            items.push(item);
            Err(ExtractError::Validation(items))
        } else {
            Ok(None)
        },
    }
}

// ── Cookies ─────────────────────────────────────────────────────────────

/// The value a `key=value` piece gives for `name`: both sides trimmed.
pub open spec fn pair_value(piece: Seq<char>, name: Seq<char>) -> Option<Seq<char>> {
    match split_once(trim(piece), '=') {
        Some((k, v)) => if trim(k) == name {
            Some(trim(v))
        } else {
            None
        },
        None => None,
    }
}

/// The first value `name` has among `;`-separated pieces.
pub open spec fn cookie_in(pieces: Seq<Seq<char>>, name: Seq<char>) -> Option<Seq<char>>
    decreases pieces.len(),
{
    if pieces.len() == 0 {
        None
    } else {
        match pair_value(pieces[0], name) {
            Some(v) => Some(v),
            None => cookie_in(pieces.subrange(1, pieces.len() as int), name),
        }
    }
}

/// The value of cookie `name` in a `Cookie` header.
pub open spec fn cookie_value(header: Seq<char>, name: Seq<char>) -> Option<Seq<char>> {
    cookie_in(split_on(header, ';'), name)
}

fn pair_match(v: &Vec<char>, lo: usize, hi: usize, name: &Vec<char>) -> (r: Option<(usize, usize)>)
    requires
        lo <= hi <= v.len(),
    ensures
        match pair_value(v@.subrange(lo as int, hi as int), name@) {
            Some(x) => r matches Some((a, b)) && a <= b <= v.len() && v@.subrange(a as int, b as int) == x,
            None => r is None,
        },
{
    let (a, b) = trim_bounds(v, lo, hi);
    let e = find_char(v, a, b, '=');
    proof {
        lemma_split_once_range(v@, a as int, b as int, '=', e as int);
    }
    if e == b {
        return None;
    }
    let (ka, kb) = trim_bounds(v, a, e);
    if !range_eq(v, ka, kb, name.as_slice()) {
        return None;
    }
    let (va, vb) = trim_bounds(v, e + 1, b);
    Some((va, vb))
}

/// The value of cookie `name` in a `Cookie` header: the pieces between
/// `;` are trimmed and split at their first `=`; the first piece whose
/// trimmed key is `name` gives its trimmed value.
pub fn find_cookie(header: &str, name: &str) -> (r: Option<String>)
    ensures
        match cookie_value(header@, name@) {
            Some(x) => r matches Some(s) && s@ == x,
            None => r is None,
        },
{
    let v = chars_of(header);
    let nm = chars_of(name);
    let n = v.len();
    let mut start: usize = 0;
    assert(v@.subrange(0, n as int) =~= v@);
    while start <= n
        invariant
            start <= n + 1,
            n == v@.len(),
            v@ == header@,
            nm@ == name@,
            start <= n ==> cookie_value(header@, name@) == cookie_in(
                split_on(v@.subrange(start as int, n as int), ';'),
                name@,
            ),
            start > n ==> cookie_value(header@, name@) is None,
        decreases n + 1 - start,
    {
        let end = find_char(&v, start, n, ';');
        let ghost rest = v@.subrange(start as int, n as int);
        proof {
            assert forall|k: int| 0 <= k < end - start implies #[trigger] rest[k] != ';' by {
                assert(rest[k] == v@[start + k]);
            }
            lemma_split_on_first(rest, ';', end - start);
            assert(rest.subrange(0, end - start) =~= v@.subrange(start as int, end as int));
            if end < n {
                assert(rest.subrange(end - start + 1, rest.len() as int) =~= v@.subrange(end + 1, n as int));
            }
        }
        let ghost pieces = split_on(rest, ';');
        assert(pieces[0] == v@.subrange(start as int, end as int));
        match pair_match(&v, start, end, &nm) {
            Some((a, b)) => {
                return Some(string_of_range(&v, a, b));
            },
            None => {},
        }
        if end == n {
            assert(pieces.len() == 1);
            assert(pieces.subrange(1, pieces.len() as int) =~= Seq::<Seq<char>>::empty());
            assert(cookie_in(Seq::<Seq<char>>::empty(), name@) is None);
            assert(cookie_in(pieces, name@) is None);
            return None;
        }
        assert(pieces.subrange(1, pieces.len() as int) =~= split_on(v@.subrange(end + 1, n as int), ';'));
        start = end + 1;
    }
    None
}

/// A cookie parameter: its value; nothing when optional and absent; a
/// validation error when required and absent. A missing (or unreadable)
/// `Cookie` header counts as empty.
pub fn extract_cookie_value(cookie_header: Option<&str>, name: &str, required: bool) -> (r: Result<Option<String>, ExtractError>)
    ensures
        match cookie_value(
            match cookie_header {
                Some(h) => h@,
                None => Seq::empty(),
            },
            name@,
        ) {
            Some(x) => r matches Ok(Some(s)) && s@ == x,
            None => if required {
                r matches Err(ExtractError::Validation(items)) && items@.len() == 1 && items@[0].loc@.len() == 2
                    && items@[0].loc@[0]@ == "cookie"@ && items@[0].loc@[1]@ == name@
                    && items@[0].msg@ == "missing required cookie: "@ + name@
                    && items@[0].error_type@ == "missing"@
            } else {
                r matches Ok(None)
            },
        },
{
    let h: &str = match cookie_header {
        Some(h) => h,
        None => "",
    };
    proof {
        reveal_strlit("");
    }
    match find_cookie(h, name) {
        Some(s) => Ok(Some(s)),
        None => if required {
            let item = missing_item("cookie", name, concat2("missing required cookie: ", name));
            let mut items: Vec<ValidationErrorItem> = Vec::new();
            items.push(item);
            Err(ExtractError::Validation(items))
        } else {
            Ok(None)
        },
    }
}

// ── Scalar conversion ───────────────────────────────────────────────────

/// The conversion a parameter's type asks for.
#[derive(Debug, Clone, Copy, PartialEq, Eq, Structural)]
pub enum ScalarConversion {
    Int,
    Float,
    Str,
}

impl ScalarConversion {
    /// `int` and `float` convert; every other type stays a string.
    pub fn from_type_name(name: &str) -> (r: ScalarConversion)
        ensures
            r == (if name@ == "int"@ {
                ScalarConversion::Int
            } else if name@ == "float"@ {
                ScalarConversion::Float
            } else {
                ScalarConversion::Str
            }),
    {
        if str_eq(name, "int") {
            ScalarConversion::Int
        } else if str_eq(name, "float") {
            ScalarConversion::Float
        } else {
            ScalarConversion::Str
        }
    }

    /// The error when a value does not convert.
    pub fn conversion_error(self, value: &str) -> (r: ExtractError)
        requires
            self != ScalarConversion::Str,
        ensures
            r matches ExtractError::BadRequest(m) && m@ == "path param is not a valid "@ + (if self
                == ScalarConversion::Int {
                "integer"@
            } else {
                "float"@
            }) + ": "@ + value@,
    {
        let label = match self {
            ScalarConversion::Int => "integer",
            _ => "float",
        };
        let mut m = concat2("path param is not a valid ", label);
        m.append(": ");
        m.append(value);
        ExtractError::BadRequest(m)
    }
}

/// The conversion of a directly dispatched parameter.
#[derive(Debug, Clone, Copy, PartialEq, Eq, Structural)]
pub enum ScalarKind {
    Int,
    Float,
    Bool,
    Str,
}

/// `int`, `float` and `bool` convert; every other type stays a string.
pub fn scalar_kind(type_qualname: &str) -> (r: ScalarKind)
    ensures
        r == (if type_qualname@ == "int"@ {
            ScalarKind::Int
        } else if type_qualname@ == "float"@ {
            ScalarKind::Float
        } else if type_qualname@ == "bool"@ {
            ScalarKind::Bool
        } else {
            ScalarKind::Str
        }),
{
    if str_eq(type_qualname, "int") {
        ScalarKind::Int
    } else if str_eq(type_qualname, "float") {
        ScalarKind::Float
    } else if str_eq(type_qualname, "bool") {
        ScalarKind::Bool
    } else {
        ScalarKind::Str
    }
}

/// The texts read as `true`; every other text is `false`.
pub fn parse_bool(value: &str) -> (r: bool)
    ensures
        r == (value@ == "true"@ || value@ == "True"@ || value@ == "1"@ || value@ == "yes"@),
{
    str_eq(value, "true") || str_eq(value, "True") || str_eq(value, "1") || str_eq(value, "yes")
}

/// The error of a directly dispatched parameter that is required and
/// absent, or does not convert.
pub fn direct_param_error() -> (r: AppError)
    ensures
        r == AppError::BodyParse(BodyParseKind::InvalidJson),
{
    AppError::BodyParse(BodyParseKind::InvalidJson)
}

} // verus!
