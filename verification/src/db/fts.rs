//! FTS5 full-text search: query sanitizing, query enhancement and the SQL
//! text of the FTS5 table operations.
use vstd::prelude::*;
use crate::text::{
    char_is_alphanumeric, char_is_ascii_lower, char_is_ascii_upper, char_is_ws, chars_of,
    is_ascii_lower, is_ascii_upper, is_ws, join, join_strings, string_of, string_push,
    trim_char_bounds, trim_end_char, trim_start_char, unicode_alphanumeric, views, words,
    words_from, string_of_range, str_eq, concat3, u64_to_string, decimal, join_strs, str_views,
};

verus! {

// ── Query sanitizing ────────────────────────────────────────────────────

/// A character kept inside a search term.
pub open spec fn term_char(c: char) -> bool {
    unicode_alphanumeric(c) || c == '_' || c == '-' || c == '.'
}

/// A word with every character that is not a term character removed.
pub open spec fn clean_term(w: Seq<char>) -> Seq<char>
    decreases w.len(),
{
    if w.len() == 0 {
        w
    } else if term_char(w.last()) {
        clean_term(w.drop_last()).push(w.last())
    } else {
        clean_term(w.drop_last())
    }
}

/// `w` between double quotes.
pub open spec fn quoted(w: Seq<char>) -> Seq<char> {
    seq!['"'] + w + seq!['"']
}

/// The quoted, cleaned terms of a list of words; words that clean to
/// nothing are dropped.
pub open spec fn fts_terms(ws: Seq<Seq<char>>) -> Seq<Seq<char>>
    decreases ws.len(),
{
    if ws.len() == 0 {
        Seq::empty()
    } else {
        let rest = fts_terms(ws.drop_last());
        let c = clean_term(ws.last());
        if c.len() > 0 {
            rest.push(quoted(c))
        } else {
            rest
        }
    }
}

/// What `sanitize_fts5_terms` returns for a query.
pub open spec fn sanitized_terms(q: Seq<char>) -> Seq<Seq<char>> {
    fts_terms(words(q))
}

/// The separator of FTS5 alternatives.
pub open spec fn or_sep() -> Seq<char> {
    " OR "@
}

pub proof fn lemma_fts_terms_append(a: Seq<Seq<char>>, b: Seq<Seq<char>>)
    ensures
        fts_terms(a + b) == fts_terms(a) + fts_terms(b),
    decreases b.len(),
{
    if b.len() == 0 {
        assert(a + b =~= a);
        assert(fts_terms(a) + fts_terms(b) =~= fts_terms(a));
    } else {
        lemma_fts_terms_append(a, b.drop_last());
        assert((a + b).drop_last() =~= a + b.drop_last());
        assert((a + b).last() == b.last());
        let c = clean_term(b.last());
        if c.len() > 0 {
            assert(fts_terms(a) + fts_terms(b.drop_last()).push(quoted(c)) =~= (fts_terms(a)
                + fts_terms(b.drop_last())).push(quoted(c)));
        }
    }
}

/// A term that FTS5 reads as a literal: at least one term character
/// between double quotes, with nothing else inside.
pub open spec fn literal_term(t: Seq<char>) -> bool {
    t.len() >= 3 && t[0] == '"' && t[t.len() - 1] == '"' && forall|j: int|
        1 <= j < t.len() - 1 ==> term_char(#[trigger] t[j])
}

proof fn lemma_clean_term_chars(w: Seq<char>)
    ensures
        forall|j: int| 0 <= j < clean_term(w).len() ==> term_char(#[trigger] clean_term(w)[j]),
    decreases w.len(),
{
    if w.len() > 0 {
        lemma_clean_term_chars(w.drop_last());
        let r = clean_term(w.drop_last());
        assert forall|j: int| 0 <= j < clean_term(w).len() implies term_char(
            #[trigger] clean_term(w)[j],
        ) by {
            if j < r.len() {
                assert(clean_term(w)[j] == r[j]);
            }
        }
    }
}

proof fn lemma_fts_terms_literal(ws: Seq<Seq<char>>)
    ensures
        forall|i: int| 0 <= i < fts_terms(ws).len() ==> literal_term(#[trigger] fts_terms(ws)[i]),
    decreases ws.len(),
{
    if ws.len() > 0 {
        lemma_fts_terms_literal(ws.drop_last());
        let c = clean_term(ws.last());
        lemma_clean_term_chars(ws.last());
        if c.len() > 0 {
            let t = quoted(c);
            assert forall|j: int| 1 <= j < t.len() - 1 implies term_char(#[trigger] t[j]) by {
                assert(t[j] == c[j - 1]);
            }
            assert(literal_term(t));
        }
        let r = fts_terms(ws.drop_last());
        assert forall|i: int| 0 <= i < fts_terms(ws).len() implies literal_term(
            #[trigger] fts_terms(ws)[i],
        ) by {
            if i < r.len() {
                assert(fts_terms(ws)[i] == r[i]);
            }
        }
    }
}

/// Sanitizing leaves only literal terms: each is a non-empty run of
/// letters, digits, `_`, `-` or `.` between double quotes, so no FTS5
/// operator, quote or whitespace of the query survives inside a term.
pub proof fn law_sanitized_terms_are_literals(q: Seq<char>)
    ensures
        forall|i: int| 0 <= i < sanitized_terms(q).len() ==> literal_term(#[trigger] sanitized_terms(q)[i]),
{
    lemma_fts_terms_literal(words(q));
}

/// The term characters of a word, in order.
pub open spec fn term_chars(w: Seq<char>) -> Seq<char> {
    w.filter(|c: char| term_char(c))
}

proof fn lemma_clean_is_filter(w: Seq<char>)
    ensures
        clean_term(w) == term_chars(w),
    decreases w.len(),
{
    reveal(Seq::filter);
    if w.len() > 0 {
        lemma_clean_is_filter(w.drop_last());
    }
}

proof fn lemma_fts_terms_filter(ws: Seq<Seq<char>>)
    ensures
        fts_terms(ws) == ws.map_values(|w: Seq<char>| term_chars(w)).filter(|c: Seq<char>| c.len() > 0).map_values(
            |c: Seq<char>| quoted(c),
        ),
    decreases ws.len(),
{
    reveal(Seq::filter);
    let m = ws.map_values(|w: Seq<char>| term_chars(w));
    if ws.len() == 0 {
        assert(m =~= Seq::<Seq<char>>::empty());
        assert(m.filter(|c: Seq<char>| c.len() > 0).map_values(|c: Seq<char>| quoted(c)) =~= Seq::<Seq<char>>::empty());
    } else {
        let p = ws.drop_last();
        lemma_fts_terms_filter(p);
        lemma_clean_is_filter(ws.last());
        assert(m.drop_last() =~= p.map_values(|w: Seq<char>| term_chars(w)));
        assert(m.last() == term_chars(ws.last()));
        let f = p.map_values(|w: Seq<char>| term_chars(w)).filter(|c: Seq<char>| c.len() > 0);
        if term_chars(ws.last()).len() > 0 {
            assert(m.filter(|c: Seq<char>| c.len() > 0) == f.push(m.last()));
            assert(f.push(m.last()).map_values(|c: Seq<char>| quoted(c)) =~= f.map_values(|c: Seq<char>| quoted(c)).push(
                quoted(m.last()),
            ));
        } else {
            assert(m.filter(|c: Seq<char>| c.len() > 0) == f);
        }
    }
}

/// Sanitizing keeps, for each whitespace-separated word of the query in
/// order, exactly the word's letters, digits, `_`, `-` and `.` in their
/// order, between double quotes; words left with no such character are
/// dropped.
pub proof fn law_terms_are_filtered_words(q: Seq<char>)
    ensures
        sanitized_terms(q) == words(q).map_values(|w: Seq<char>| term_chars(w)).filter(
            |c: Seq<char>| c.len() > 0,
        ).map_values(|c: Seq<char>| quoted(c)),
{
    lemma_fts_terms_filter(words(q));
}

proof fn lemma_fts_terms_single(w: Seq<char>)
    ensures
        fts_terms(seq![w]) == (if clean_term(w).len() > 0 {
            seq![quoted(clean_term(w))]
        } else {
            Seq::<Seq<char>>::empty()
        }),
{
    let s = seq![w];
    assert(s.drop_last() =~= Seq::<Seq<char>>::empty());
    assert(fts_terms(s.drop_last()) =~= Seq::<Seq<char>>::empty());
    assert(s.last() == w);
    if clean_term(w).len() > 0 {
        assert(Seq::<Seq<char>>::empty().push(quoted(clean_term(w))) =~= seq![quoted(clean_term(w))]);
    }
}

/// Appends the quoted term for `clean` when it is non-empty.
fn push_term(out: &mut Vec<String>, clean: &Vec<char>)
    ensures
        views(final(out)@) == views(old(out)@) + (if clean@.len() > 0 {
            seq![quoted(clean@)]
        } else {
            Seq::<Seq<char>>::empty()
        }),
{
    if clean.len() > 0 {
        let mut t = String::new();
        string_push(&mut t, '"');
        let body = string_of(clean.as_slice());
        t.append(body.as_str());
        string_push(&mut t, '"');
        assert(t@ =~= quoted(clean@));
        let ghost before = views(out@);
        out.push(t);
        assert(views(out@) =~= before + seq![quoted(clean@)]);
    } else {
        assert(views(out@) =~= views(out@) + Seq::<Seq<char>>::empty());
    }
}

/// Sanitize a query into individually quoted FTS5 terms (no joining).
///
/// Each whitespace-separated token keeps only alphanumeric characters and
/// `_`, `-`, `.`, and is wrapped in double quotes; empty tokens are dropped.
pub fn sanitize_fts5_terms(query: &str) -> (r: Vec<String>)
    ensures
        views(r@) == sanitized_terms(query@),
{
    let v = chars_of(query);
    let mut out: Vec<String> = Vec::new();
    let mut clean: Vec<char> = Vec::new();
    let ghost mut raw: Seq<char> = Seq::empty();
    let mut i: usize = 0;
    assert(v@.subrange(0, v@.len() as int) =~= v@);
    assert(views(out@) =~= Seq::<Seq<char>>::empty());
    assert(Seq::<Seq<char>>::empty() + fts_terms(words(v@)) =~= fts_terms(words(v@)));
    while i < v.len()
        invariant
            i <= v.len(),
            v@ == query@,
            clean@ == clean_term(raw),
            fts_terms(words(v@)) == views(out@) + fts_terms(
                words_from(v@.subrange(i as int, v.len() as int), raw),
            ),
        decreases v.len() - i,
    {
        let c = v[i];
        let ghost rest = v@.subrange(i as int, v.len() as int);
        let ghost next = v@.subrange(i + 1, v.len() as int);
        assert(rest[0] == c);
        assert(rest.subrange(1, rest.len() as int) =~= next);
        if char_is_ws(c) {
            proof {
                let first: Seq<Seq<char>> = if raw.len() > 0 {
                    seq![raw]
                } else {
                    Seq::empty()
                };
                assert(words_from(rest, raw) == first + words_from(next, seq![]));
                lemma_fts_terms_append(first, words_from(next, seq![]));
                if raw.len() > 0 {
                    lemma_fts_terms_single(raw);
                } else {
                    assert(fts_terms(first) =~= Seq::<Seq<char>>::empty());
                }
            }
            let ghost before = views(out@);
            push_term(&mut out, &clean);
            proof {
                assert(before + fts_terms(words_from(rest, raw)) =~= views(out@) + fts_terms(
                    words_from(next, seq![]),
                ));
                raw = Seq::empty();
            }
            clean = Vec::new();
            assert(clean@ =~= clean_term(raw));
        } else {
            let keep = char_is_alphanumeric(c) || c == '_' || c == '-' || c == '.';
            proof {
                assert(raw.push(c).drop_last() =~= raw);
                assert(raw.push(c).last() == c);
            }
            if keep {
                clean.push(c);
            }
            proof {
                raw = raw.push(c);
            }
        }
        i = i + 1;
    }
    proof {
        let rest = v@.subrange(i as int, v.len() as int);
        assert(rest =~= Seq::<char>::empty());
        if raw.len() > 0 {
            lemma_fts_terms_single(raw);
        } else {
            assert(words_from(rest, raw) =~= Seq::<Seq<char>>::empty());
        }
    }
    let ghost before = views(out@);
    push_term(&mut out, &clean);
    assert(views(out@) =~= before + fts_terms(
        words_from(v@.subrange(i as int, v.len() as int), raw),
    ));
    out
}

/// What `sanitize_fts5_query` returns for a query.
pub open spec fn sanitized_query(q: Seq<char>) -> Seq<char> {
    join(sanitized_terms(q), or_sep())
}

/// Sanitize a query string for FTS5 MATCH syntax: the quoted terms joined
/// with ` OR `.
pub fn sanitize_fts5_query(query: &str) -> (r: String)
    ensures
        r@ == sanitized_query(query@),
{
    let terms = sanitize_fts5_terms(query);
    join_strings(&terms, " OR ")
}

// ── Query enhancement ───────────────────────────────────────────────────

/// Whether a string looks like PascalCase: an ASCII capital first, and at
/// least one ASCII lowercase letter somewhere.
pub open spec fn pascal(s: Seq<char>) -> bool {
    s.len() > 0 && is_ascii_upper(s[0]) && exists|i: int| 0 <= i < s.len() && is_ascii_lower(
        #[trigger] s[i],
    )
}

fn range_is_pascal(v: &Vec<char>, lo: usize, hi: usize) -> (r: bool)
    requires
        lo <= hi <= v.len(),
    ensures
        r == pascal(v@.subrange(lo as int, hi as int)),
{
    let ghost s = v@.subrange(lo as int, hi as int);
    if lo == hi {
        return false;
    }
    assert(s[0] == v@[lo as int]);
    if !char_is_ascii_upper(v[lo]) {
        return false;
    }
    let mut i = lo;
    while i < hi
        invariant
            lo <= i <= hi <= v.len(),
            s == v@.subrange(lo as int, hi as int),
            s.len() > 0,
            is_ascii_upper(s[0]),
            forall|k: int| lo <= k < i ==> !is_ascii_lower(#[trigger] v@[k]),
        decreases hi - i,
    {
        if char_is_ascii_lower(v[i]) {
            assert(s[i - lo] == v@[i as int]);
            return true;
        }
        i = i + 1;
    }
    assert forall|k: int| 0 <= k < s.len() implies !is_ascii_lower(#[trigger] s[k]) by {
        assert(s[k] == v@[lo + k]);
    }
    false
}

/// Check if a string looks like PascalCase (starts with uppercase, contains lowercase).
pub fn is_pascal_case(s: &str) -> (r: bool)
    ensures
        r == pascal(s@),
{
    let v = chars_of(s);
    assert(v@.subrange(0, v@.len() as int) =~= v@);
    range_is_pascal(&v, 0, v.len())
}

/// Name for what `str::to_lowercase` returns (full Unicode case mapping).
pub uninterp spec fn lowercase(s: Seq<char>) -> Seq<char>;

/// Calls `str::to_lowercase`; the contract names the result by `lowercase`,
/// a function of the argument alone.
#[verifier::external_body]
fn to_lowercase(s: &str) -> (r: String)
    ensures
        r@ == lowercase(s@),
{
    s.to_lowercase()
}

/// Words that only guide boosting and are dropped from the query.
pub open spec fn hint_word(w: Seq<char>) -> bool {
    w == "fields"@ || w == "attributes"@ || w == "members"@ || w == "properties"@
}

/// A term without its surrounding double quotes.
pub open spec fn unquoted(t: Seq<char>) -> Seq<char> {
    trim_end_char(trim_start_char(t, '"'), '"')
}

/// The entity clauses and the regular terms produced from a list of terms.
pub open spec fn enhanced_parts(ts: Seq<Seq<char>>) -> (Seq<Seq<char>>, Seq<Seq<char>>)
    decreases ts.len(),
{
    if ts.len() == 0 {
        (Seq::empty(), Seq::empty())
    } else {
        let p = enhanced_parts(ts.drop_last());
        let t = ts.last();
        let clean = unquoted(t);
        if hint_word(lowercase(clean)) {
            p
        } else if pascal(clean) {
            (p.0.push("entity:"@ + t), p.1.push(t))
        } else {
            (p.0, p.1.push(t))
        }
    }
}

/// What `enhance_fts5_query` returns: entity clauses first, then the
/// regular terms, joined with ` OR `.
pub open spec fn enhanced_query(ts: Seq<Seq<char>>) -> Seq<char> {
    let p = enhanced_parts(ts);
    join(p.0 + p.1, or_sep())
}

proof fn lemma_enhanced_parts_filter(ts: Seq<Seq<char>>)
    ensures
        enhanced_parts(ts).1 == ts.filter(|t: Seq<char>| !hint_word(lowercase(unquoted(t)))),
        enhanced_parts(ts).0 == ts.filter(|t: Seq<char>| !hint_word(lowercase(unquoted(t)))).filter(
            |t: Seq<char>| pascal(unquoted(t)),
        ).map_values(|t: Seq<char>| "entity:"@ + t),
    decreases ts.len(),
{
    reveal(Seq::filter);
    if ts.len() == 0 {
        let k = ts.filter(|t: Seq<char>| !hint_word(lowercase(unquoted(t))));
        assert(k =~= Seq::<Seq<char>>::empty());
        assert(k.filter(|t: Seq<char>| pascal(unquoted(t))).map_values(|t: Seq<char>| "entity:"@ + t)
            =~= Seq::<Seq<char>>::empty());
    } else {
        let p = ts.drop_last();
        let t = ts.last();
        lemma_enhanced_parts_filter(p);
        let kp = p.filter(|t: Seq<char>| !hint_word(lowercase(unquoted(t))));
        let ep = kp.filter(|t: Seq<char>| pascal(unquoted(t)));
        if !hint_word(lowercase(unquoted(t))) {
            let k = kp.push(t);
            assert(ts.filter(|t: Seq<char>| !hint_word(lowercase(unquoted(t)))) == k);
            assert(k.drop_last() =~= kp);
            assert(k.last() == t);
            if pascal(unquoted(t)) {
                assert(k.filter(|t: Seq<char>| pascal(unquoted(t))) == ep.push(t));
                assert(ep.push(t).map_values(|t: Seq<char>| "entity:"@ + t) =~= ep.map_values(
                    |t: Seq<char>| "entity:"@ + t,
                ).push("entity:"@ + t));
            } else {
                assert(k.filter(|t: Seq<char>| pascal(unquoted(t))) == ep);
            }
        } else {
            assert(ts.filter(|t: Seq<char>| !hint_word(lowercase(unquoted(t)))) == kp);
        }
    }
}

/// Enhancing drops the hint words (`fields`, `attributes`, `members`,
/// `properties`, in any case), keeps every other term in order, and puts
/// before them one `entity:<term>` clause for each kept PascalCase term,
/// in order; everything is joined with ` OR `.
pub proof fn law_enhanced_query_clauses(ts: Seq<Seq<char>>)
    ensures
        enhanced_query(ts) == join(
            ts.filter(|t: Seq<char>| !hint_word(lowercase(unquoted(t)))).filter(
                |t: Seq<char>| pascal(unquoted(t)),
            ).map_values(|t: Seq<char>| "entity:"@ + t) + ts.filter(
                |t: Seq<char>| !hint_word(lowercase(unquoted(t))),
            ),
            " OR "@,
        ),
{
    lemma_enhanced_parts_filter(ts);
}

/// Enhance pre-sanitized FTS5 terms to boost entity/class matches.
///
/// A PascalCase term also contributes an `entity:<term>` clause; the hint
/// words "fields", "attributes", "members" and "properties" are dropped.
pub fn enhance_fts5_query(terms: &[String]) -> (r: String)
    ensures
        r@ == enhanced_query(views(terms@)),
{
    let mut entity_terms: Vec<String> = Vec::new();
    let mut regular_terms: Vec<String> = Vec::new();
    let ghost ts = views(terms@);
    let mut i: usize = 0;
    while i < terms.len()
        invariant
            i <= terms.len(),
            ts == views(terms@),
            enhanced_parts(ts.take(i as int)) == (views(entity_terms@), views(regular_terms@)),
        decreases terms.len() - i,
    {
        let token = &terms[i];
        let tv = chars_of(token.as_str());
        let (a, b) = trim_char_bounds(&tv, 0, tv.len(), '"');
        assert(tv@.subrange(0, tv@.len() as int) =~= tv@);
        let clean = string_of_range(&tv, a, b);
        let lower = to_lowercase(clean.as_str());
        let hint = str_eq(lower.as_str(), "fields") || str_eq(lower.as_str(), "attributes")
            || str_eq(lower.as_str(), "members") || str_eq(lower.as_str(), "properties");
        proof {
            assert(ts.take(i + 1).drop_last() =~= ts.take(i as int));
            assert(ts.take(i + 1).last() == token@);
        }
        if !hint {
            let ghost re = views(regular_terms@);
            let ghost en = views(entity_terms@);
            if range_is_pascal(&tv, a, b) {
                let mut e = String::from_str("entity:");
                e.append(token.as_str());
                entity_terms.push(e);
                assert(views(entity_terms@) =~= en.push("entity:"@ + token@));
            }
            regular_terms.push(token.clone());
            assert(views(regular_terms@) =~= re.push(token@));
        }
        i = i + 1;
    }
    assert(ts.take(terms.len() as int) =~= ts);
    let ghost e = views(entity_terms@);
    let ghost r = views(regular_terms@);
    let mut k: usize = 0;
    while k < regular_terms.len()
        invariant
            k <= regular_terms.len(),
            r == views(regular_terms@),
            views(entity_terms@) == e + r.take(k as int),
        decreases regular_terms.len() - k,
    {
        entity_terms.push(regular_terms[k].clone());
        assert(e + r.take(k + 1) =~= (e + r.take(k as int)).push(r[k as int]));
        k = k + 1;
    }
    assert(r.take(regular_terms.len() as int) =~= r);
    join_strings(&entity_terms, " OR ")
}

// ── Identifiers ─────────────────────────────────────────────────────────

/// A valid identifier: non-empty, alphanumeric characters and underscores only.
pub open spec fn valid_identifier(s: Seq<char>) -> bool {
    s.len() > 0 && forall|i: int| 0 <= i < s.len() ==> (unicode_alphanumeric(#[trigger] s[i]) || s[i]
        == '_')
}

/// The error `validate_identifier` reports for an invalid identifier.
pub open spec fn identifier_error(s: Seq<char>) -> Seq<char> {
    if s.len() == 0 {
        "Identifier cannot be empty"@
    } else {
        "Invalid identifier '"@ + s
            + "': only alphanumeric characters and underscores allowed"@
    }
}

/// Validate that an identifier contains only alphanumeric characters and underscores.
pub fn validate_identifier(name: &str) -> (r: Result<(), String>)
    ensures
        r.is_ok() == valid_identifier(name@),
        r matches Err(e) ==> e@ == identifier_error(name@),
{
    if name.is_empty() {
        return Err(String::from_str("Identifier cannot be empty"));
    }
    let v = chars_of(name);
    let mut i: usize = 0;
    while i < v.len()
        invariant
            i <= v.len(),
            v@ == name@,
            forall|k: int| 0 <= k < i ==> (unicode_alphanumeric(#[trigger] v@[k]) || v@[k] == '_'),
        decreases v.len() - i,
    {
        if !(char_is_alphanumeric(v[i]) || v[i] == '_') {
            return Err(concat3(
                "Invalid identifier '",
                name,
                "': only alphanumeric characters and underscores allowed",
            ));
        }
        i = i + 1;
    }
    Ok(())
}

// ── FTS5 table ──────────────────────────────────────────────────────────

/// Column definition for an FTS5 table.
#[derive(Debug, Clone, Copy)]
pub struct Fts5Column {
    /// Column name (must be alphanumeric + underscore).
    pub name: &'static str,
    /// Whether the column is indexed for full-text search
    /// (`false` maps to FTS5 `UNINDEXED`).
    pub indexed: bool,
}

/// Schema of an FTS5 virtual table: a validated name, at least one column
/// and a tokenizer.
#[derive(Debug, Clone)]
pub struct Fts5Table {
    table_name: String,
    columns: Vec<Fts5Column>,
    tokenizer: String,
}

/// Model of an FTS5 table.
pub struct Fts5TableView {
    pub table_name: Seq<char>,
    pub columns: Seq<(Seq<char>, bool)>,
    pub tokenizer: Seq<char>,
}

pub open spec fn column_views(cs: Seq<Fts5Column>) -> Seq<(Seq<char>, bool)> {
    cs.map_values(|c: Fts5Column| (c.name@, c.indexed))
}

impl View for Fts5Table {
    type V = Fts5TableView;

    closed spec fn view(&self) -> Fts5TableView {
        Fts5TableView {
            table_name: self.table_name@,
            columns: column_views(self.columns@),
            tokenizer: self.tokenizer@,
        }
    }
}

/// The error of `Fts5Table::new`, if any: the table name first, then each
/// column name in order, then the column count.
pub open spec fn schema_error(name: Seq<char>, cols: Seq<(Seq<char>, bool)>) -> Option<Seq<char>> {
    if !valid_identifier(name) {
        Some(identifier_error(name))
    } else if exists|i: int| 0 <= i < cols.len() && !valid_identifier(#[trigger] cols[i].0) {
        let i = choose|i: int|
            0 <= i < cols.len() && !valid_identifier(#[trigger] cols[i].0) && forall|j: int|
                0 <= j < i ==> valid_identifier(#[trigger] cols[j].0);
        Some(identifier_error(cols[i].0))
    } else if cols.len() == 0 {
        Some("FTS5 table must have at least one column"@)
    } else {
        None
    }
}

/// The first column whose name is not a valid identifier.
fn first_invalid_column(columns: &Vec<Fts5Column>) -> (r: Option<usize>)
    ensures
        match r {
            Some(i) => i < columns.len() && !valid_identifier(column_views(columns@)[i as int].0)
                && forall|j: int| 0 <= j < i ==> valid_identifier(#[trigger] column_views(columns@)[j].0),
            None => forall|j: int|
                0 <= j < columns.len() ==> valid_identifier(#[trigger] column_views(columns@)[j].0),
        },
{
    let ghost cols = column_views(columns@);
    let mut i: usize = 0;
    while i < columns.len()
        invariant
            i <= columns.len(),
            cols == column_views(columns@),
            forall|j: int| 0 <= j < i ==> valid_identifier(#[trigger] cols[j].0),
        decreases columns.len() - i,
    {
        let ok = validate_identifier(columns[i].name).is_ok();
        assert(cols[i as int].0 == columns@[i as int].name@);
        if !ok {
            return Some(i);
        }
        i = i + 1;
    }
    None
}

proof fn lemma_first_invalid(cols: Seq<(Seq<char>, bool)>, i: int)
    requires
        0 <= i < cols.len(),
        !valid_identifier(cols[i].0),
        forall|j: int| 0 <= j < i ==> valid_identifier(#[trigger] cols[j].0),
    ensures
        (choose|k: int|
            0 <= k < cols.len() && !valid_identifier(#[trigger] cols[k].0) && forall|j: int|
                0 <= j < k ==> valid_identifier(#[trigger] cols[j].0)) == i,
{
    let k = choose|k: int|
        0 <= k < cols.len() && !valid_identifier(#[trigger] cols[k].0) && forall|j: int|
            0 <= j < k ==> valid_identifier(#[trigger] cols[j].0);
    assert(0 <= k < cols.len() && !valid_identifier(cols[k].0));
    if k < i {
        assert(valid_identifier(cols[k].0));
    } else if k > i {
        assert(valid_identifier(cols[i].0));
    }
}

impl Fts5Table {
    /// Construct with a validated table name and column names.
    pub fn new(table_name: &str, columns: Vec<Fts5Column>) -> (r: Result<Self, String>)
        ensures
            match schema_error(table_name@, column_views(columns@)) {
                Some(e) => r matches Err(m) && m@ == e,
                None => r matches Ok(t) && t@.table_name == table_name@ && t@.columns
                    == column_views(columns@) && t@.tokenizer == "porter unicode61"@,
            },
    {
        let ghost cols = column_views(columns@);
        match validate_identifier(table_name) {
            Err(e) => {
                return Err(e);
            },
            Ok(()) => {},
        }
        match first_invalid_column(&columns) {
            Some(i) => {
                proof {
                    lemma_first_invalid(cols, i as int);
                }
                let e = validate_identifier(columns[i].name);
                assert(cols[i as int].0 == columns@[i as int].name@);
                match e {
                    Err(m) => {
                        return Err(m);
                    },
                    Ok(()) => {
                        assert(false);
                        return Err(String::new());
                    },
                }
            },
            None => {},
        }
        if columns.len() == 0 {
            return Err(String::from_str("FTS5 table must have at least one column"));
        }
        Ok(Fts5Table {
            table_name: String::from_str(table_name),
            columns,
            tokenizer: String::from_str("porter unicode61"),
        })
    }

    /// Set a custom tokenizer (default: `"porter unicode61"`).
    pub fn with_tokenizer(self, tokenizer: &str) -> (r: Self)
        ensures
            r@.tokenizer == tokenizer@,
            r@.table_name == self@.table_name,
            r@.columns == self@.columns,
    {
        let mut s = self;
        s.tokenizer = String::from_str(tokenizer);
        s
    }

    /// Get the table name.
    pub fn table_name(&self) -> (r: &str)
        ensures
            r@ == self@.table_name,
    {
        self.table_name.as_str()
    }

    /// `DROP TABLE IF EXISTS "<table>"`.
    pub fn drop_sql(&self) -> (r: String)
        ensures
            r@ == "DROP TABLE IF EXISTS \""@ + self@.table_name + "\""@,
    {
        concat3("DROP TABLE IF EXISTS \"", self.table_name.as_str(), "\"")
    }

    /// `CREATE VIRTUAL TABLE "<table>" USING fts5(<columns>, tokenize='<tokenizer>')`.
    pub fn create_sql(&self) -> (r: String)
        ensures
            r@ == "CREATE VIRTUAL TABLE \""@ + self@.table_name + "\" USING fts5("@ + join(
                column_defs(self@.columns),
                ", "@,
            ) + ", tokenize='"@ + self@.tokenizer + "')"@,
    {
        let mut defs: Vec<String> = Vec::new();
        let ghost cols = self@.columns;
        let mut i: usize = 0;
        while i < self.columns.len()
            invariant
                i <= self.columns.len(),
                cols == column_views(self.columns@),
                views(defs@) == column_defs(cols.take(i as int)),
            decreases self.columns.len() - i,
        {
            let c = self.columns[i];
            let d = if c.indexed {
                String::from_str(c.name)
            } else {
                concat3(c.name, " UNINDEXED", "")
            };
            let ghost before = views(defs@);
            defs.push(d);
            proof {
                assert(cols.take(i + 1).drop_last() =~= cols.take(i as int));
                assert(cols.take(i + 1).last() == (c.name@, c.indexed));
                assert(c.name@ + " UNINDEXED"@ + ""@ =~= c.name@ + " UNINDEXED"@) by {
                    reveal_strlit("");
                }
                assert(views(defs@) =~= before.push(column_def((c.name@, c.indexed))));
            }
            i = i + 1;
        }
        assert(cols.take(self.columns.len() as int) =~= cols);
        let mut r = concat3("CREATE VIRTUAL TABLE \"", self.table_name.as_str(), "\" USING fts5(");
        let body = join_strings(&defs, ", ");
        r.append(body.as_str());
        r.append(", tokenize='");
        r.append(self.tokenizer.as_str());
        r.append("')");
        r
    }

    /// The `INSERT` statement for one row of `n` values, or the error when
    /// `n` differs from the number of columns.
    pub fn insert_sql(&self, n: usize) -> (r: Result<String, String>)
        ensures
            n != self@.columns.len() ==> (r matches Err(e) && e@ == "Expected "@ + decimal(
                self@.columns.len() as nat,
            ) + " values, got "@ + decimal(n as nat)),
            n == self@.columns.len() ==> (r matches Ok(sql) && sql@ == "INSERT INTO \""@
                + self@.table_name + "\" ("@ + join(
                self@.columns.map_values(|c: (Seq<char>, bool)| c.0),
                ", "@,
            ) + ") VALUES ("@ + join(placeholders(n as nat), ", "@) + ")"@),
    {
        if n != self.columns.len() {
            let mut e = String::from_str("Expected ");
            let a = u64_to_string(self.columns.len() as u64);
            e.append(a.as_str());
            e.append(" values, got ");
            let b = u64_to_string(n as u64);
            e.append(b.as_str());
            return Err(e);
        }
        let ghost cols = self@.columns;
        let mut names: Vec<&str> = Vec::new();
        let mut holders: Vec<String> = Vec::new();
        let mut i: usize = 0;
        while i < self.columns.len()
            invariant
                i <= self.columns.len(),
                n == self.columns.len(),
                cols == column_views(self.columns@),
                str_views(names@) == cols.map_values(|c: (Seq<char>, bool)| c.0).take(i as int),
                views(holders@) == placeholders(i as nat),
            decreases self.columns.len() - i,
        {
            let ghost nv = str_views(names@);
            names.push(self.columns[i].name);
            let mut h = String::from_str("?");
            let d = u64_to_string((i + 1) as u64);
            h.append(d.as_str());
            let ghost hv = views(holders@);
            holders.push(h);
            proof {
                let names_of = cols.map_values(|c: (Seq<char>, bool)| c.0);
                assert(cols[i as int].0 == self.columns@[i as int].name@);
                assert(str_views(names@) =~= nv.push(self.columns@[i as int].name@));
                assert(names_of.take(i + 1) =~= names_of.take(i as int).push(names_of[i as int]));
                assert(str_views(names@) =~= names_of.take(i + 1));
                assert(views(holders@) =~= hv.push("?"@ + decimal((i + 1) as nat)));
            }
            i = i + 1;
        }
        assert(cols.map_values(|c: (Seq<char>, bool)| c.0).take(self.columns.len() as int)
            =~= cols.map_values(|c: (Seq<char>, bool)| c.0));
        let mut sql = concat3("INSERT INTO \"", self.table_name.as_str(), "\" (");
        let cols_text = join_strs(names.as_slice(), ", ");
        sql.append(cols_text.as_str());
        sql.append(") VALUES (");
        let holders_text = join_strings(&holders, ", ");
        sql.append(holders_text.as_str());
        sql.append(")");
        Ok(sql)
    }

    /// The first requested column that is not a table column (and, when
    /// `allow_rank` holds, not `rank` either).
    fn first_unknown_column(&self, result_columns: &[&str], allow_rank: bool) -> (r: Option<usize>)
        ensures
            match r {
                Some(k) => k < result_columns.len() && !known_column(
                    self@.columns,
                    result_columns@[k as int]@,
                    allow_rank,
                ) && forall|j: int|
                    0 <= j < k ==> known_column(
                        self@.columns,
                        #[trigger] result_columns@[j]@,
                        allow_rank,
                    ),
                None => forall|j: int|
                    0 <= j < result_columns.len() ==> known_column(
                        self@.columns,
                        #[trigger] result_columns@[j]@,
                        allow_rank,
                    ),
            },
    {
        let mut k: usize = 0;
        while k < result_columns.len()
            invariant
                k <= result_columns.len(),
                forall|j: int|
                    0 <= j < k ==> known_column(
                        self@.columns,
                        #[trigger] result_columns@[j]@,
                        allow_rank,
                    ),
            decreases result_columns.len() - k,
        {
            let col = result_columns[k];
            let mut known = allow_rank && str_eq(col, "rank");
            let mut i: usize = 0;
            while i < self.columns.len() && !known
                invariant
                    i <= self.columns.len(),
                    known == ((allow_rank && col@ == "rank"@) || exists|m: int|
                        0 <= m < i && #[trigger] self@.columns[m].0 == col@),
                decreases self.columns.len() - i,
            {
                assert(self@.columns[i as int].0 == self.columns@[i as int].name@);
                if str_eq(self.columns[i].name, col) {
                    known = true;
                }
                i = i + 1;
            }
            if !known {
                return Some(k);
            }
            k = k + 1;
        }
        None
    }

    /// The `SELECT` statement of a search ranked by FTS5's built-in `rank`,
    /// or the error for the first unknown result column (`rank` is allowed).
    pub fn search_sql(&self, result_columns: &[&str]) -> (r: Result<String, String>)
        ensures
            match first_unknown(self@.columns, str_views(result_columns@), true) {
                Some(k) => r matches Err(e) && e@ == "Unknown column '"@ + result_columns@[k]@
                    + "' in result_columns"@,
                None => r matches Ok(sql) && sql@ == "SELECT "@ + join(
                    str_views(result_columns@),
                    ", "@,
                ) + " FROM \""@ + self@.table_name + "\" WHERE \""@ + self@.table_name
                    + "\" MATCH ?1 ORDER BY rank LIMIT ?2"@,
            },
    {
        match self.first_unknown_column(result_columns, true) {
            Some(k) => {
                proof {
                    lemma_first_unknown(self@.columns, str_views(result_columns@), true, k as int);
                }
                Err(concat3("Unknown column '", result_columns[k], "' in result_columns"))
            },
            None => {
                proof {
                    lemma_no_unknown(self@.columns, str_views(result_columns@), true);
                }
                let mut sql = String::from_str("SELECT ");
                let cols = join_strs(result_columns, ", ");
                sql.append(cols.as_str());
                sql.append(" FROM \"");
                sql.append(self.table_name.as_str());
                sql.append("\" WHERE \"");
                sql.append(self.table_name.as_str());
                sql.append("\" MATCH ?1 ORDER BY rank LIMIT ?2");
                Ok(sql)
            },
        }
    }

    /// The weight of every column for a `bm25()` ranking: the given weights
    /// for the indexed columns, in order, and `zero` for the others. Fails
    /// for the first unknown result column, then for a weight count that
    /// differs from the number of indexed columns.
    pub fn search_bm25_weights<W: Copy>(
        &self,
        bm25_weights: &[W],
        zero: W,
        result_columns: &[&str],
    ) -> (r: Result<Vec<W>, String>)
        ensures
            match first_unknown(self@.columns, str_views(result_columns@), false) {
                Some(k) => r matches Err(e) && e@ == "Unknown column '"@ + result_columns@[k]@
                    + "' in result_columns"@,
                None => if bm25_weights@.len() != indexed_count(self@.columns) {
                    r matches Err(e) && e@ == "Expected "@ + decimal(
                        indexed_count(self@.columns),
                    ) + " bm25 weights (one per indexed column), got "@ + decimal(
                        bm25_weights@.len(),
                    )
                } else {
                    r matches Ok(ws) && ws@ == expanded_weights(self@.columns, bm25_weights@, zero)
                },
            },
    {
        match self.first_unknown_column(result_columns, false) {
            Some(k) => {
                proof {
                    lemma_first_unknown(self@.columns, str_views(result_columns@), false, k as int);
                }
                return Err(concat3("Unknown column '", result_columns[k], "' in result_columns"));
            },
            None => {
                proof {
                    lemma_no_unknown(self@.columns, str_views(result_columns@), false);
                }
            },
        }
        let ghost cols = self@.columns;
        let mut indexed: usize = 0;
        let mut i: usize = 0;
        while i < self.columns.len()
            invariant
                i <= self.columns.len(),
                cols == column_views(self.columns@),
                indexed == indexed_count(cols.take(i as int)),
                indexed <= i,
            decreases self.columns.len() - i,
        {
            assert(cols.take(i + 1).drop_last() =~= cols.take(i as int));
            if self.columns[i].indexed {
                indexed = indexed + 1;
            }
            i = i + 1;
        }
        assert(cols.take(self.columns.len() as int) =~= cols);
        if bm25_weights.len() != indexed {
            let mut e = String::from_str("Expected ");
            let a = u64_to_string(indexed as u64);
            e.append(a.as_str());
            e.append(" bm25 weights (one per indexed column), got ");
            let b = u64_to_string(bm25_weights.len() as u64);
            e.append(b.as_str());
            return Err(e);
        }
        let mut all: Vec<W> = Vec::new();
        let mut w: usize = 0;
        let mut j: usize = 0;
        while j < self.columns.len()
            invariant
                j <= self.columns.len(),
                cols == column_views(self.columns@),
                w == indexed_count(cols.take(j as int)),
                bm25_weights@.len() == indexed_count(cols),
                w <= j,
                all@ == expanded_weights(cols.take(j as int), bm25_weights@, zero),
            decreases self.columns.len() - j,
        {
            proof {
                assert(cols.take(j + 1).drop_last() =~= cols.take(j as int));
                lemma_indexed_count_prefix(cols, j + 1);
            }
            if self.columns[j].indexed {
                all.push(bm25_weights[w]);
                w = w + 1;
            } else {
                all.push(zero);
            }
            j = j + 1;
        }
        assert(cols.take(self.columns.len() as int) =~= cols);
        Ok(all)
    }

    /// The `SELECT` statement of a search ranked by `bm25()` with the given
    /// comma-separated column weights.
    pub fn search_bm25_sql(&self, weights_csv: &str, result_columns: &[&str]) -> (r: String)
        ensures
            r@ == "SELECT "@ + join(str_views(result_columns@), ", "@) + ", bm25(\""@
                + self@.table_name + "\", "@ + weights_csv@ + ") AS rank FROM \""@
                + self@.table_name + "\" WHERE \""@ + self@.table_name
                + "\" MATCH ?1 ORDER BY rank LIMIT ?2"@,
    {
        let mut sql = String::from_str("SELECT ");
        let cols = join_strs(result_columns, ", ");
        sql.append(cols.as_str());
        sql.append(", bm25(\"");
        sql.append(self.table_name.as_str());
        sql.append("\", ");
        sql.append(weights_csv);
        sql.append(") AS rank FROM \"");
        sql.append(self.table_name.as_str());
        sql.append("\" WHERE \"");
        sql.append(self.table_name.as_str());
        sql.append("\" MATCH ?1 ORDER BY rank LIMIT ?2");
        sql
    }
}

/// The column definition in a `CREATE VIRTUAL TABLE`.
pub open spec fn column_def(c: (Seq<char>, bool)) -> Seq<char> {
    if c.1 {
        c.0
    } else {
        c.0 + " UNINDEXED"@
    }
}

pub open spec fn column_defs(cs: Seq<(Seq<char>, bool)>) -> Seq<Seq<char>> {
    cs.map_values(|c: (Seq<char>, bool)| column_def(c))
}

/// `?1, ?2, ..., ?n` as separate pieces.
pub open spec fn placeholders(n: nat) -> Seq<Seq<char>>
    decreases n,
{
    if n == 0 {
        Seq::empty()
    } else {
        placeholders((n - 1) as nat).push("?"@ + decimal(n))
    }
}

/// A result column that may be requested.
pub open spec fn known_column(cols: Seq<(Seq<char>, bool)>, c: Seq<char>, allow_rank: bool) -> bool {
    (allow_rank && c == "rank"@) || exists|m: int| 0 <= m < cols.len() && #[trigger] cols[m].0 == c
}

/// Index of the first result column that may not be requested.
pub open spec fn first_unknown(cols: Seq<(Seq<char>, bool)>, rc: Seq<Seq<char>>, allow_rank: bool) -> Option<int> {
    if exists|k: int| 0 <= k < rc.len() && !known_column(cols, #[trigger] rc[k], allow_rank) {
        Some(choose|k: int|
            0 <= k < rc.len() && !known_column(cols, #[trigger] rc[k], allow_rank) && forall|j: int|
                0 <= j < k ==> known_column(cols, #[trigger] rc[j], allow_rank))
    } else {
        None
    }
}

proof fn lemma_first_unknown(cols: Seq<(Seq<char>, bool)>, rc: Seq<Seq<char>>, allow_rank: bool, k: int)
    requires
        0 <= k < rc.len(),
        !known_column(cols, rc[k], allow_rank),
        forall|j: int| 0 <= j < k ==> known_column(cols, #[trigger] rc[j], allow_rank),
    ensures
        first_unknown(cols, rc, allow_rank) == Some(k),
{
    let m = choose|m: int|
        0 <= m < rc.len() && !known_column(cols, #[trigger] rc[m], allow_rank) && forall|j: int|
            0 <= j < m ==> known_column(cols, #[trigger] rc[j], allow_rank);
    assert(0 <= m < rc.len() && !known_column(cols, rc[m], allow_rank));
    if m < k {
        assert(known_column(cols, rc[m], allow_rank));
    } else if m > k {
        assert(known_column(cols, rc[k], allow_rank));
    }
}

proof fn lemma_no_unknown(cols: Seq<(Seq<char>, bool)>, rc: Seq<Seq<char>>, allow_rank: bool)
    requires
        forall|j: int| 0 <= j < rc.len() ==> known_column(cols, #[trigger] rc[j], allow_rank),
    ensures
        first_unknown(cols, rc, allow_rank) == None::<int>,
{
}

/// Number of indexed columns.
pub open spec fn indexed_count(cs: Seq<(Seq<char>, bool)>) -> nat
    decreases cs.len(),
{
    if cs.len() == 0 {
        0
    } else {
        indexed_count(cs.drop_last()) + if cs.last().1 {
            1nat
        } else {
            0nat
        }
    }
}

proof fn lemma_indexed_count_prefix(cs: Seq<(Seq<char>, bool)>, j: int)
    requires
        0 <= j <= cs.len(),
    ensures
        indexed_count(cs.take(j)) <= indexed_count(cs),
    decreases cs.len() - j,
{
    if j < cs.len() {
        lemma_indexed_count_prefix(cs, j + 1);
        assert(cs.take(j + 1).drop_last() =~= cs.take(j));
    } else {
        assert(cs.take(j) =~= cs);
    }
}

/// The per-column weights: indexed columns take the next given weight,
/// the others take `zero`.
pub open spec fn expanded_weights<W>(cs: Seq<(Seq<char>, bool)>, ws: Seq<W>, zero: W) -> Seq<W>
    decreases cs.len(),
{
    if cs.len() == 0 {
        Seq::empty()
    } else {
        let rest = expanded_weights(cs.drop_last(), ws, zero);
        if cs.last().1 {
            rest.push(ws[indexed_count(cs.drop_last()) as int])
        } else {
            rest.push(zero)
        }
    }
}

} // verus!
