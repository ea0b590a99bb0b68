//! INI-style parser for `.databrickscfg` files.
//!
//! Only section names and `host` values are extracted. A section becomes a
//! profile when it has a `host` key; the last `host` of a section wins.
use vstd::prelude::*;
use crate::text::{chars_of, find_char, lemma_split_on_first, lemma_split_once_range, range_eq, split_from, split_on, split_once, string_of_range, trim, trim_bounds};

verus! {

/// A single `[section]` with its `host = ...` value.
#[derive(Debug, Clone)]
pub struct ProfileEntry {
    /// Section name (e.g. `"DEFAULT"`, `"staging"`).
    pub name: String,
    /// The `host` value from this section.
    pub host: String,
}

/// Mathematical model of a [`ProfileEntry`].
pub struct ProfileView {
    pub name: Seq<char>,
    pub host: Seq<char>,
}

impl View for ProfileEntry {
    type V = ProfileView;

    open spec fn view(&self) -> ProfileView {
        ProfileView { name: self.name@, host: self.host@ }
    }
}

/// A parsed `.databrickscfg` file.
#[derive(Debug, Clone)]
pub struct ConfigParser {
    profiles: Vec<ProfileEntry>,
}

impl View for ConfigParser {
    type V = Seq<ProfileView>;

    closed spec fn view(&self) -> Seq<ProfileView> {
        self.profiles@.map_values(|p: ProfileEntry| p@)
    }
}

/// Parser state between two lines.
pub struct ParseState {
    pub profiles: Seq<ProfileView>,
    pub section: Option<Seq<char>>,
    pub host: Option<Seq<char>>,
}

pub open spec fn initial_state() -> ParseState {
    ParseState { profiles: Seq::empty(), section: None, host: None }
}

/// The profiles once the current section is closed: it is kept when it has
/// both a name and a host.
pub open spec fn flushed(st: ParseState) -> Seq<ProfileView> {
    match (st.section, st.host) {
        (Some(name), Some(host)) => st.profiles.push(ProfileView { name, host }),
        _ => st.profiles,
    }
}

pub open spec fn host_key() -> Seq<char> {
    seq!['h', 'o', 's', 't']
}

/// A trimmed line that opens a section: it starts with `[` and ends with `]`.
pub open spec fn is_header(t: Seq<char>) -> bool {
    t.len() >= 1 && t[0] == '[' && t[t.len() - 1] == ']'
}

/// The effect of one line on the parser state.
pub open spec fn step(st: ParseState, line: Seq<char>) -> ParseState {
    let t = trim(line);
    if is_header(t) {
        ParseState { profiles: flushed(st), section: Some(t.subrange(1, t.len() - 1)), host: None }
    } else {
        match split_once(t, '=') {
            Some(kv) => if trim(kv.0) == host_key() {
                ParseState { host: Some(trim(kv.1)), ..st }
            } else {
                st
            },
            None => st,
        }
    }
}

/// Feeds `lines` to the parser, in order.
pub open spec fn run(st: ParseState, lines: Seq<Seq<char>>) -> ParseState
    decreases lines.len(),
{
    if lines.len() == 0 {
        st
    } else {
        run(step(st, lines[0]), lines.subrange(1, lines.len() as int))
    }
}

/// The profiles that `content` describes, in file order.
pub open spec fn parse_profiles(content: Seq<char>) -> Seq<ProfileView> {
    flushed(run(initial_state(), split_on(content, '\n')))
}

proof fn lemma_run_cons(st: ParseState, line: Seq<char>, rest: Seq<Seq<char>>)
    ensures
        run(st, seq![line] + rest) == run(step(st, line), rest),
{
    let l = seq![line] + rest;
    assert(l[0] == line);
    assert(l.subrange(1, l.len() as int) =~= rest);
}

proof fn lemma_run_single(st: ParseState, line: Seq<char>)
    ensures
        run(st, seq![line]) == step(st, line),
{
    let l = seq![line];
    assert(l.subrange(1, l.len() as int) =~= Seq::<Seq<char>>::empty());
    assert(run(step(st, line), Seq::<Seq<char>>::empty()) == step(st, line));
}

impl ConfigParser {
    /// A configuration without profiles.
    pub fn empty() -> (r: ConfigParser)
        ensures
            r@ == Seq::<ProfileView>::empty(),
    {
        let r = ConfigParser { profiles: Vec::new() };
        assert(r@ =~= Seq::<ProfileView>::empty());
        r
    }

    /// All parsed profiles with their host values.
    pub fn profiles(&self) -> (r: &[ProfileEntry])
        ensures
            r@.map_values(|p: ProfileEntry| p@) == self@,
    {
        self.profiles.as_slice()
    }

    /// Find the first profile with the given name.
    pub fn get_profile(&self, name: &str) -> (r: Option<&ProfileEntry>)
        ensures
            match first_named(self@, name@) {
                Some(i) => r.is_some() && r.unwrap()@ == self@[i],
                None => r.is_none(),
            },
    {
        let mut i: usize = 0;
        while i < self.profiles.len()
            invariant
                i <= self.profiles.len(),
                self@ == self.profiles@.map_values(|p: ProfileEntry| p@),
                forall|j: int| 0 <= j < i ==> self@[j].name != name@,
            decreases self.profiles.len() - i,
        {
            if crate::text::str_eq(self.profiles[i].name.as_str(), name) {
                assert(self@[i as int].name == name@);
                let ghost f = first_named(self@, name@);
                proof {
                    let k = f.unwrap();
                    if k < i {
                    } else if k > i {
                    }
                }
                return Some(&self.profiles[i]);
            }
            i = i + 1;
        }
        None
    }

    /// Unique profile names in order of first appearance, plus `DEFAULT`
    /// when no section declares it.
    pub fn list_profiles(&self) -> (r: Vec<String>)
        ensures
            crate::text::views(r@) == listed_names(self@),
    {
        let mut names: Vec<String> = Vec::new();
        let ghost all = self@.map_values(|p: ProfileView| p.name);
        let mut i: usize = 0;
        while i < self.profiles.len()
            invariant
                i <= self.profiles.len(),
                self@ == self.profiles@.map_values(|p: ProfileEntry| p@),
                all == self@.map_values(|p: ProfileView| p.name),
                crate::text::views(names@) == dedup(all.take(i as int)),
            decreases self.profiles.len() - i,
        {
            let found = contains_string(&names, self.profiles[i].name.as_str());
            proof {
                assert(all.take(i + 1).drop_last() =~= all.take(i as int));
                assert(all.take(i + 1).last() == self.profiles@[i as int].name@);
            }
            if !found {
                names.push(self.profiles[i].name.clone());
                assert(crate::text::views(names@) =~= dedup(all.take(i as int)).push(
                    self.profiles@[i as int].name@,
                ));
            }
            i = i + 1;
        }
        assert(all.take(self.profiles.len() as int) =~= all);
        let default_name = String::from_str("DEFAULT");
        proof {
            reveal_strlit("DEFAULT");
            assert(default_name@ =~= default_profile_name());
        }
        if !contains_string(&names, default_name.as_str()) {
            names.push(default_name);
            assert(crate::text::views(names@) =~= dedup(all).push(default_profile_name()));
        }
        names
    }

    /// Process one line `v[lo..hi]`.
    fn apply_line(
        v: &Vec<char>,
        lo: usize,
        hi: usize,
        profiles: &mut Vec<ProfileEntry>,
        section: &mut Option<String>,
        host: &mut Option<String>,
    )
        requires
            lo <= hi <= v.len(),
        ensures
            ({
                let before = ParseState {
                    profiles: old(profiles)@.map_values(|p: ProfileEntry| p@),
                    section: opt_view(*old(section)),
                    host: opt_view(*old(host)),
                };
                let after = ParseState {
                    profiles: final(profiles)@.map_values(|p: ProfileEntry| p@),
                    section: opt_view(*final(section)),
                    host: opt_view(*final(host)),
                };
                after == step(before, v@.subrange(lo as int, hi as int))
            }),
    {
        let ghost line = v@.subrange(lo as int, hi as int);
        let (a, b) = trim_bounds(v, lo, hi);
        let ghost t = v@.subrange(a as int, b as int);
        if a < b && v[a] == '[' && v[b - 1] == ']' {
            assert(t[0] == v@[a as int] && t[t.len() - 1] == v@[b - 1]);
            assert(b - a >= 2);
            let ghost old_profiles = profiles@;
            let s = section.take();
            let h = host.take();
            match (s, h) {
                (Some(name), Some(hv)) => {
                    profiles.push(ProfileEntry { name, host: hv });
                    assert(profiles@.map_values(|p: ProfileEntry| p@) =~= old_profiles.map_values(
                        |p: ProfileEntry| p@,
                    ).push(profiles@.last()@));
                },
                _ => {},
            }
            *section = Some(string_of_range(v, a + 1, b - 1));
            assert(v@.subrange(a + 1, b - 1) =~= t.subrange(1, t.len() - 1));
        } else {
            let e = find_char(v, a, b, '=');
            proof {
                lemma_split_once_range(v@, a as int, b as int, '=', e as int);
            }
            if e < b {
                let (ka, kb) = trim_bounds(v, a, e);
                let key: [char; 4] = ['h', 'o', 's', 't'];
                assert(key@ =~= host_key());
                if range_eq(v, ka, kb, &key) {
                    let (va, vb) = trim_bounds(v, e + 1, b);
                    *host = Some(string_of_range(v, va, vb));
                }
            }
        }
    }

    /// Parse from an in-memory string.
    pub fn parse_str(content: &str) -> (r: Self)
        ensures
            r@ == parse_profiles(content@),
    {
        let v = chars_of(content);
        let mut profiles: Vec<ProfileEntry> = Vec::new();
        let mut section: Option<String> = None;
        let mut host: Option<String> = None;
        let mut start: usize = 0;
        let mut i: usize = 0;
        let ghost lines = split_on(v@, '\n');
        proof {
            assert(v@.subrange(0, 0) =~= Seq::<char>::empty());
            assert(v@.subrange(0, v@.len() as int) =~= v@);
            assert(split_from(v@.subrange(0, v@.len() as int), '\n', v@.subrange(0, 0)) == lines);
            assert(lines.subrange(0, lines.len() as int) =~= lines);
            assert(profiles@.map_values(|p: ProfileEntry| p@) =~= Seq::<ProfileView>::empty());
        }
        while i < v.len()
            invariant
                start <= i <= v.len(),
                v@ == content@,
                lines == split_on(v@, '\n'),
                run(initial_state(), lines) == run(
                    ParseState {
                        profiles: profiles@.map_values(|p: ProfileEntry| p@),
                        section: opt_view(section),
                        host: opt_view(host),
                    },
                    split_from(
                        v@.subrange(i as int, v.len() as int),
                        '\n',
                        v@.subrange(start as int, i as int),
                    ),
                ),
                exists|n: int|
                    0 <= n <= lines.len() && split_from(
                        v@.subrange(i as int, v.len() as int),
                        '\n',
                        v@.subrange(start as int, i as int),
                    ) == lines.subrange(n, lines.len() as int),
            decreases v.len() - i,
        {
            let ghost rest = v@.subrange(i as int, v.len() as int);
            let ghost cur = v@.subrange(start as int, i as int);
            assert(rest[0] == v@[i as int]);
            assert(rest.subrange(1, rest.len() as int) =~= v@.subrange(i + 1, v.len() as int));
            if v[i] == '\n' {
                let ghost n = choose|n: int|
                    0 <= n <= lines.len() && split_from(rest, '\n', cur) == lines.subrange(
                        n,
                        lines.len() as int,
                    );
                proof {
                    let tail = split_from(v@.subrange(i + 1, v.len() as int), '\n', seq![]);
                    assert(split_from(rest, '\n', cur) == seq![cur] + tail);
                    assert(lines.subrange(n, lines.len() as int)[0] == cur);
                    lemma_run_cons(
                        ParseState {
                            profiles: profiles@.map_values(|p: ProfileEntry| p@),
                            section: opt_view(section),
                            host: opt_view(host),
                        },
                        cur,
                        tail,
                    );
                    let big = lines.subrange(n, lines.len() as int);
                    assert((seq![cur] + tail).subrange(1, (seq![cur] + tail).len() as int) =~= tail);
                    assert(big.subrange(1, big.len() as int) =~= lines.subrange(
                        n + 1,
                        lines.len() as int,
                    ));
                    assert(tail =~= lines.subrange(n + 1, lines.len() as int));
                    assert(v@.subrange(i + 1, i + 1) =~= Seq::<char>::empty());
                }
                Self::apply_line(&v, start, i, &mut profiles, &mut section, &mut host);
                start = i + 1;
            } else {
                proof {
                    assert(cur.push(v@[i as int]) =~= v@.subrange(start as int, i + 1));
                }
            }
            i = i + 1;
        }
        proof {
            let cur = v@.subrange(start as int, i as int);
            let rest = v@.subrange(i as int, v.len() as int);
            assert(rest =~= Seq::<char>::empty());
            let n = choose|n: int|
                0 <= n <= lines.len() && split_from(rest, '\n', cur) == lines.subrange(
                    n,
                    lines.len() as int,
                );
            assert(lines.subrange(n, lines.len() as int)[0] == cur);
            lemma_run_single(
                ParseState {
                    profiles: profiles@.map_values(|p: ProfileEntry| p@),
                    section: opt_view(section),
                    host: opt_view(host),
                },
                cur,
            );
        }
        Self::apply_line(&v, start, i, &mut profiles, &mut section, &mut host);
        let ghost before_flush = profiles@;
        match (section, host) {
            (Some(name), Some(h)) => {
                profiles.push(ProfileEntry { name, host: h });
                assert(profiles@.map_values(|p: ProfileEntry| p@) =~= before_flush.map_values(
                    |p: ProfileEntry| p@,
                ).push(profiles@.last()@));
            },
            _ => {},
        }
        ConfigParser { profiles }
    }
}

/// The name every configuration offers even when no section declares it.
pub open spec fn default_profile_name() -> Seq<char> {
    seq!['D', 'E', 'F', 'A', 'U', 'L', 'T']
}

/// The distinct elements of `s`, in order of first occurrence.
pub open spec fn dedup(s: Seq<Seq<char>>) -> Seq<Seq<char>>
    decreases s.len(),
{
    if s.len() == 0 {
        Seq::empty()
    } else {
        let d = dedup(s.drop_last());
        if d.contains(s.last()) {
            d
        } else {
            d.push(s.last())
        }
    }
}

/// What `list_profiles` returns for the given profiles.
pub open spec fn listed_names(ps: Seq<ProfileView>) -> Seq<Seq<char>> {
    let d = dedup(ps.map_values(|p: ProfileView| p.name));
    if d.contains(default_profile_name()) {
        d
    } else {
        d.push(default_profile_name())
    }
}

/// Index of the first profile called `name`, if any.
pub open spec fn first_named(ps: Seq<ProfileView>, name: Seq<char>) -> Option<int> {
    if exists|i: int| 0 <= i < ps.len() && ps[i].name == name {
        Some(choose|i: int| 0 <= i < ps.len() && ps[i].name == name && forall|j: int| 0 <= j < i ==> ps[j].name != name)
    } else {
        None
    }
}

/// `dedup` keeps exactly the elements of `s`, each once.
pub proof fn lemma_dedup(s: Seq<Seq<char>>)
    ensures
        dedup(s).no_duplicates(),
        forall|x: Seq<char>| dedup(s).contains(x) <==> s.contains(x),
    decreases s.len(),
{
    if s.len() > 0 {
        let t = s.drop_last();
        lemma_dedup(t);
        let d = dedup(t);
        let l = s.last();
        assert forall|x: Seq<char>| dedup(s).contains(x) <==> s.contains(x) by {
            if s.contains(x) {
                let k = choose|k: int| 0 <= k < s.len() && s[k] == x;
                if k < s.len() - 1 {
                    assert(t[k] == x);
                    assert(t.contains(x));
                    assert(d.contains(x));
                    if !d.contains(l) {
                        let m = choose|m: int| 0 <= m < d.len() && d[m] == x;
                        assert(d.push(l)[m] == x);
                    }
                } else {
                    if !d.contains(l) {
                        assert(d.push(l)[d.len() as int] == l);
                    }
                }
            }
            if dedup(s).contains(x) {
                let m = choose|m: int| 0 <= m < dedup(s).len() && dedup(s)[m] == x;
                if m < d.len() {
                    assert(d[m] == x);
                    assert(d.contains(x));
                    assert(t.contains(x));
                    let k = choose|k: int| 0 <= k < t.len() && t[k] == x;
                    assert(s[k] == x);
                } else {
                    assert(x == l);
                    assert(s[s.len() - 1] == x);
                }
            }
        }
    }
}

/// A line that opens a section.
pub open spec fn header_line(line: Seq<char>) -> bool {
    is_header(trim(line))
}

/// The name of the section a header line opens: the text between its brackets.
pub open spec fn header_name(line: Seq<char>) -> Seq<char> {
    trim(line).subrange(1, trim(line).len() - 1)
}

/// The value a `host = value` line sets (key and value trimmed), or `None`
/// for any other line.
pub open spec fn host_line_value(line: Seq<char>) -> Option<Seq<char>> {
    if header_line(line) {
        None
    } else {
        match split_once(trim(line), '=') {
            Some(kv) => if trim(kv.0) == host_key() {
                Some(trim(kv.1))
            } else {
                None
            },
            None => None,
        }
    }
}

/// Line `h` is a header naming `p`, line `k` of the same section is the
/// section's last host line and holds `p`'s host, and the section ends at
/// `e` (the next header, or the end of the text), no later than `bound`.
pub open spec fn section_witness(
    lines: Seq<Seq<char>>,
    bound: int,
    p: ProfileView,
    h: int,
    k: int,
    e: int,
) -> bool {
    &&& 0 <= h < k < e <= bound <= lines.len()
    &&& header_line(lines[h]) && header_name(lines[h]) == p.name
    &&& host_line_value(lines[k]) == Some(p.host)
    &&& forall|j: int| h < j < e ==> !header_line(#[trigger] lines[j])
    &&& forall|j: int| k < j < e ==> (#[trigger] host_line_value(lines[j])) is None
    &&& (e == lines.len() || header_line(lines[e]))
}

/// `p` comes from a section of `lines` that closes no later than `bound`.
pub open spec fn from_section(lines: Seq<Seq<char>>, bound: int, p: ProfileView) -> bool {
    exists|h: int, k: int, e: int| #[trigger] section_witness(lines, bound, p, h, k, e)
}

/// The section opened at header `h` is still open before line `m`, and
/// `host` is what its host lines so far set (its last one, at `k`).
pub open spec fn open_witness(
    lines: Seq<Seq<char>>,
    m: int,
    name: Seq<char>,
    host: Option<Seq<char>>,
    h: int,
    k: int,
) -> bool {
    &&& 0 <= h < m <= lines.len()
    &&& header_line(lines[h]) && header_name(lines[h]) == name
    &&& forall|j: int| h < j < m ==> !header_line(#[trigger] lines[j])
    &&& match host {
        Some(v) => h < k < m && host_line_value(lines[k]) == Some(v) && forall|j: int|
            k < j < m ==> (#[trigger] host_line_value(lines[j])) is None,
        None => forall|j: int| h < j < m ==> (#[trigger] host_line_value(lines[j])) is None,
    }
}

spec fn parse_inv(st: ParseState, lines: Seq<Seq<char>>, m: int) -> bool {
    &&& forall|i: int| 0 <= i < st.profiles.len() ==> from_section(lines, m, #[trigger] st.profiles[i])
    &&& (st.section matches Some(name) ==> exists|h: int, k: int| #[trigger] open_witness(lines, m, name, st.host, h, k))
}

proof fn lemma_step_inv(st: ParseState, lines: Seq<Seq<char>>, m: int)
    requires
        0 <= m < lines.len(),
        parse_inv(st, lines, m),
    ensures
        parse_inv(step(st, lines[m]), lines, m + 1),
{
    let line = lines[m];
    let next = step(st, line);
    assert forall|i: int| 0 <= i < st.profiles.len() implies from_section(lines, m + 1, #[trigger] st.profiles[i]) by {
        let p = st.profiles[i];
        let (h, k, e) = choose|h: int, k: int, e: int| #[trigger] section_witness(lines, m, p, h, k, e);
        assert(section_witness(lines, m + 1, p, h, k, e));
    }
    if header_line(line) {
        assert(next.profiles == flushed(st));
        match (st.section, st.host) {
            (Some(name), Some(v)) => {
                let (h, k) = choose|h: int, k: int| #[trigger] open_witness(lines, m, name, st.host, h, k);
                let p = ProfileView { name, host: v };
                assert(section_witness(lines, m + 1, p, h, k, m));
                assert(from_section(lines, m + 1, p));
                assert forall|i: int| 0 <= i < next.profiles.len() implies from_section(
                    lines,
                    m + 1,
                    #[trigger] next.profiles[i],
                ) by {
                    if i < st.profiles.len() {
                        assert(next.profiles[i] == st.profiles[i]);
                    } else {
                        assert(next.profiles[i] == p);
                    }
                }
            },
            _ => {},
        }
        assert(next.section == Some(header_name(line)));
        assert(next.host is None);
        assert(open_witness(lines, m + 1, next.section->0, next.host, m, 0));
        assert(forall|i: int| 0 <= i < next.profiles.len() ==> from_section(lines, m + 1, #[trigger] next.profiles[i]));
    } else {
        assert(next.profiles == st.profiles);
        match st.section {
            Some(name) => {
                let (h, k) = choose|h: int, k: int| #[trigger] open_witness(lines, m, name, st.host, h, k);
                match host_line_value(line) {
                    Some(v) => {
                        assert(next.host == Some(v));
                        assert(open_witness(lines, m + 1, name, next.host, h, m));
                    },
                    None => {
                        assert(next.host == st.host);
                        assert(open_witness(lines, m + 1, name, next.host, h, k));
                    },
                }
            },
            None => {},
        }
        assert(forall|i: int| 0 <= i < next.profiles.len() ==> from_section(lines, m + 1, #[trigger] next.profiles[i]));
    }
}

proof fn lemma_run_inv(st: ParseState, lines: Seq<Seq<char>>, m: int)
    requires
        0 <= m <= lines.len(),
        parse_inv(st, lines, m),
    ensures
        parse_inv(run(st, lines.subrange(m, lines.len() as int)), lines, lines.len() as int),
    decreases lines.len() - m,
{
    let rest = lines.subrange(m, lines.len() as int);
    if m < lines.len() {
        assert(rest[0] == lines[m]);
        assert(rest.subrange(1, rest.len() as int) =~= lines.subrange(m + 1, lines.len() as int));
        lemma_step_inv(st, lines, m);
        lemma_run_inv(step(st, lines[m]), lines, m + 1);
    }
}

/// Every profile comes from its own section: a header line names it, and
/// its host is the value of the last `host = ...` line between that header
/// and the next header (or the end of the file). A section with no host
/// line yields no profile, and no host carries over from another section.
pub proof fn law_profiles_come_from_their_sections(content: Seq<char>)
    ensures
        forall|i: int| 0 <= i < parse_profiles(content).len() ==> from_section(
            split_on(content, '\n'),
            split_on(content, '\n').len() as int,
            #[trigger] parse_profiles(content)[i],
        ),
{
    let lines = split_on(content, '\n');
    let n = lines.len() as int;
    assert(lines.subrange(0, n) =~= lines);
    assert(parse_inv(initial_state(), lines, 0));
    lemma_run_inv(initial_state(), lines, 0);
    let st = run(initial_state(), lines);
    assert forall|i: int| 0 <= i < parse_profiles(content).len() implies from_section(
        lines,
        n,
        #[trigger] parse_profiles(content)[i],
    ) by {
        if i < st.profiles.len() {
            assert(parse_profiles(content)[i] == st.profiles[i]);
        } else {
            match (st.section, st.host) {
                (Some(name), Some(v)) => {
                    let (h, k) = choose|h: int, k: int| #[trigger] open_witness(lines, n, name, st.host, h, k);
                    let p = ProfileView { name, host: v };
                    assert(parse_profiles(content)[i] == p);
                    assert(section_witness(lines, n, p, h, k, n));
                },
                _ => {},
            }
        }
    }
}

/// The names that `list_profiles` reports are distinct, always include
/// `DEFAULT`, and are exactly the section names of the profiles plus `DEFAULT`.
pub proof fn law_listed_names(ps: Seq<ProfileView>)
    ensures
        listed_names(ps).no_duplicates(),
        listed_names(ps).contains(default_profile_name()),
        forall|x: Seq<char>|
            listed_names(ps).contains(x) <==> (x == default_profile_name() || exists|i: int|
                0 <= i < ps.len() && ps[i].name == x),
{
    let names = ps.map_values(|p: ProfileView| p.name);
    lemma_dedup(names);
    let d = dedup(names);
    if !d.contains(default_profile_name()) {
        assert(d.push(default_profile_name())[d.len() as int] == default_profile_name());
        assert forall|a: int, b: int|
            0 <= a < b < d.push(default_profile_name()).len() implies d.push(
            default_profile_name(),
        )[a] != d.push(default_profile_name())[b] by {
            if b == d.len() {
                assert(d[a] == d.push(default_profile_name())[a]);
            }
        }
    }
    assert forall|x: Seq<char>|
        listed_names(ps).contains(x) <==> (x == default_profile_name() || exists|i: int|
            0 <= i < ps.len() && ps[i].name == x) by {
        if exists|i: int| 0 <= i < ps.len() && ps[i].name == x {
            let i = choose|i: int| 0 <= i < ps.len() && ps[i].name == x;
            assert(names[i] == x);
        }
        if names.contains(x) {
            let i = choose|i: int| 0 <= i < names.len() && names[i] == x;
            assert(ps[i].name == x);
        }
        if listed_names(ps).contains(x) && x != default_profile_name() {
            let m = choose|m: int| 0 <= m < listed_names(ps).len() && listed_names(ps)[m] == x;
            if m < d.len() {
                assert(d[m] == x);
            }
        }
        if d.contains(x) && !d.contains(default_profile_name()) {
            let m = choose|m: int| 0 <= m < d.len() && d[m] == x;
            assert(d.push(default_profile_name())[m] == x);
        }
    }
}

/// Whether `v` holds a string equal to `s`.
pub fn contains_string(v: &Vec<String>, s: &str) -> (r: bool)
    ensures
        r == crate::text::views(v@).contains(s@),
{
    let mut i: usize = 0;
    while i < v.len()
        invariant
            i <= v.len(),
            forall|j: int| 0 <= j < i ==> v@[j]@ != s@,
        decreases v.len() - i,
    {
        if crate::text::str_eq(v[i].as_str(), s) {
            assert(crate::text::views(v@)[i as int] == s@);
            return true;
        }
        i = i + 1;
    }
    proof {
        if crate::text::views(v@).contains(s@) {
            let k = choose|k: int| 0 <= k < v@.len() && crate::text::views(v@)[k] == s@;
            assert(v@[k]@ == s@);
        }
    }
    false
}

/// The view of an optional string.
pub open spec fn opt_view(o: Option<String>) -> Option<Seq<char>> {
    match o {
        Some(s) => Some(s@),
        None => None,
    }
}

} // verus!
