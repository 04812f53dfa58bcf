//! Parsing of a `WWW-Authenticate: Digest ...` challenge into directives.
use vstd::prelude::*;
use vstd::string::*;
use crate::text::{copy_range, same_text};

verus! {

/// Unicode `White_Space`, the set that `char::is_whitespace` and `str::trim` use.
pub open spec fn is_space(c: char) -> bool {
    let u = c as u32;
    (0x9 <= u <= 0xD) || u == 0x20 || u == 0x85 || u == 0xA0 || u == 0x1680
        || (0x2000 <= u <= 0x200A) || u == 0x2028 || u == 0x2029 || u == 0x202F
        || u == 0x205F || u == 0x3000
}

pub open spec fn trim_start(s: Seq<char>) -> Seq<char>
    decreases s.len(),
{
    if s.len() > 0 && is_space(s[0]) {
        trim_start(s.skip(1))
    } else {
        s
    }
}

pub open spec fn trim_end(s: Seq<char>) -> Seq<char>
    decreases s.len(),
{
    if s.len() > 0 && is_space(s.last()) {
        trim_end(s.drop_last())
    } else {
        s
    }
}

/// `s` without leading and trailing white space.
pub open spec fn trim(s: Seq<char>) -> Seq<char> {
    trim_end(trim_start(s))
}

/// `s` without one leading and one trailing `"`, each where present.
pub open spec fn unquote(s: Seq<char>) -> Seq<char> {
    let t = if s.len() > 0 && s[0] == '"' { s.skip(1) } else { s };
    if t.len() > 0 && t.last() == '"' { t.drop_last() } else { t }
}

pub open spec fn scheme_prefix() -> Seq<char> {
    seq!['D', 'i', 'g', 'e', 's', 't', ' ']
}

/// The header value without its leading `"Digest "`, where it has one.
pub open spec fn strip_scheme(s: Seq<char>) -> Seq<char> {
    if s.len() >= 7 && s.take(7) == scheme_prefix() { s.skip(7) } else { s }
}

/// `s` cut at every `,`: one more segment than there are commas.
pub open spec fn segments(s: Seq<char>) -> Seq<Seq<char>>
    decreases s.len(),
{
    if s.len() == 0 {
        seq![Seq::empty()]
    } else {
        let prev = segments(s.drop_last());
        if s.last() == ',' {
            prev.push(Seq::empty())
        } else {
            prev.update(prev.len() - 1, prev.last().push(s.last()))
        }
    }
}

/// `e` is the position of the first `=` in `seg`.
pub open spec fn first_equals_at(seg: Seq<char>, e: int) -> bool {
    0 <= e < seg.len() && seg[e] == '=' && forall|j: int| 0 <= j < e ==> seg[j] != '='
}

/// The directive of one segment: split at its first `=`, the name trimmed,
/// the value trimmed and unquoted; none where the segment has no `=`.
pub open spec fn directive_of(seg: Seq<char>) -> Option<(Seq<char>, Seq<char>)> {
    if exists|e: int| first_equals_at(seg, e) {
        let e = choose|e: int| first_equals_at(seg, e);
        Some((trim(seg.take(e)), unquote(trim(seg.skip(e + 1)))))
    } else {
        None
    }
}

pub open spec fn directives_of(segs: Seq<Seq<char>>) -> Seq<(Seq<char>, Seq<char>)>
    decreases segs.len(),
{
    if segs.len() == 0 {
        Seq::empty()
    } else {
        let prev = directives_of(segs.drop_last());
        match directive_of(segs.last()) {
            Some(d) => prev.push(d),
            None => prev,
        }
    }
}

/// The directives of a challenge header value, in order of appearance.
pub open spec fn challenge_directives(header: Seq<char>) -> Seq<(Seq<char>, Seq<char>)> {
    directives_of(segments(strip_scheme(header)))
}

/// The value of the last directive named `key`: a later one overrides.
pub open spec fn lookup(d: Seq<(Seq<char>, Seq<char>)>, key: Seq<char>) -> Option<Seq<char>>
    decreases d.len(),
{
    if d.len() == 0 {
        None
    } else if d.last().0 == key {
        Some(d.last().1)
    } else {
        lookup(d.drop_last(), key)
    }
}

pub open spec fn pairs_view(v: Seq<(String, String)>) -> Seq<(Seq<char>, Seq<char>)> {
    v.map_values(|p: (String, String)| (p.0@, p.1@))
}

/// The directives of a Digest challenge.
pub struct Challenge {
    pub directives: Vec<(String, String)>,
}

impl Challenge {
    pub open spec fn view(&self) -> Seq<(Seq<char>, Seq<char>)> {
        pairs_view(self.directives@)
    }

    /// The value of the directive named `key`; the last one where it repeats.
    pub fn get(&self, key: &str) -> (r: Option<String>)
        ensures
            r matches Some(v) ==> lookup(self.view(), key@) == Some(v@),
            r is None ==> lookup(self.view(), key@) is None,
    {
        let mut found: Option<String> = None;
        let mut i: usize = 0;
        while i < self.directives.len()
            invariant
                i <= self.directives@.len(),
                found matches Some(v) ==> lookup(self.view().take(i as int), key@) == Some(v@),
                found is None ==> lookup(self.view().take(i as int), key@) is None,
            decreases self.directives@.len() - i,
        {
            let ghost d = self.view();
            assert(d.take(i + 1).drop_last() == d.take(i as int));
            if same_text(self.directives[i].0.as_str(), key) {
                found = Some(self.directives[i].1.clone());
            }
            i = i + 1;
        }
        assert(self.view().take(self.directives@.len() as int) == self.view());
        found
    }
}

fn space(c: char) -> (r: bool)
    ensures
        r == is_space(c),
{
    let u = c as u32;
    (0x9 <= u && u <= 0xD) || u == 0x20 || u == 0x85 || u == 0xA0 || u == 0x1680
        || (0x2000 <= u && u <= 0x200A) || u == 0x2028 || u == 0x2029 || u == 0x202F
        || u == 0x205F || u == 0x3000
}

/// The bounds of `s[a..b]` with white space trimmed from both ends.
fn trimmed_range(s: &str, a: usize, b: usize) -> (r: (usize, usize))
    requires
        a <= b <= s@.len(),
    ensures
        a <= r.0 <= r.1 <= b,
        s@.subrange(r.0 as int, r.1 as int) == trim(s@.subrange(a as int, b as int)),
{
    let mut lo = a;
    while lo < b && space(s.get_char(lo))
        invariant
            a <= lo <= b <= s@.len(),
            trim_start(s@.subrange(a as int, b as int)) == trim_start(s@.subrange(lo as int, b as int)),
        decreases b - lo,
    {
        assert(s@.subrange(lo as int, b as int).skip(1) == s@.subrange(lo + 1, b as int));
        lo = lo + 1;
    }
    let mut hi = b;
    while hi > lo && space(s.get_char(hi - 1))
        invariant
            a <= lo <= hi <= b <= s@.len(),
            trim_start(s@.subrange(a as int, b as int)) == s@.subrange(lo as int, b as int),
            trim(s@.subrange(a as int, b as int)) == trim_end(s@.subrange(lo as int, hi as int)),
        decreases hi - lo,
    {
        assert(s@.subrange(lo as int, hi as int).drop_last() == s@.subrange(lo as int, hi - 1));
        hi = hi - 1;
    }
    (lo, hi)
}

/// The bounds of `s[a..b]` without one leading and one trailing quote.
fn unquoted_range(s: &str, a: usize, b: usize) -> (r: (usize, usize))
    requires
        a <= b <= s@.len(),
    ensures
        a <= r.0 <= r.1 <= b,
        s@.subrange(r.0 as int, r.1 as int) == unquote(s@.subrange(a as int, b as int)),
{
    let mut lo = a;
    if a < b && s.get_char(a) == '"' {
        assert(s@.subrange(a as int, b as int).skip(1) =~= s@.subrange(a + 1, b as int));
        lo = a + 1;
    }
    let mut hi = b;
    if lo < b && s.get_char(b - 1) == '"' {
        assert(s@.subrange(lo as int, b as int).drop_last() =~= s@.subrange(lo as int, b - 1));
        hi = b - 1;
    }
    (lo, hi)
}

/// The directive of the segment `s[a..b]`.
fn segment_directive(s: &str, a: usize, b: usize) -> (r: Option<(String, String)>)
    requires
        a <= b <= s@.len(),
    ensures
        r matches Some(p) ==> directive_of(s@.subrange(a as int, b as int)) == Some((p.0@, p.1@)),
        r is None ==> directive_of(s@.subrange(a as int, b as int)) is None,
{
    let ghost seg = s@.subrange(a as int, b as int);
    let mut e = a;
    while e < b && s.get_char(e) != '='
        invariant
            a <= e <= b <= s@.len(),
            seg == s@.subrange(a as int, b as int),
            forall|j: int| 0 <= j < e - a ==> seg[j] != '=',
        decreases b - e,
    {
        e = e + 1;
    }
    if e == b {
        assert(!exists|k: int| first_equals_at(seg, k));
        None
    } else {
        let ghost k = e - a;
        assert(first_equals_at(seg, k));
        let ghost c = choose|c: int| first_equals_at(seg, c);
        assert(c == k) by {
            if c < k {
                assert(seg[c] != '=');
            } else if k < c {
                assert(seg[k] != '=');
            }
        }
        assert(seg.take(k) == s@.subrange(a as int, e as int));
        assert(seg.skip(k + 1) == s@.subrange(e + 1, b as int));
        let (ka, kb) = trimmed_range(s, a, e);
        let (va, vb) = trimmed_range(s, e + 1, b);
        let (qa, qb) = unquoted_range(s, va, vb);
        Some((copy_range(s, ka, kb), copy_range(s, qa, qb)))
    }
}

/// Whether `s` starts with `"Digest "`.
fn has_scheme_prefix(s: &str) -> (r: bool)
    ensures
        r == (s@.len() >= 7 && s@.take(7) == scheme_prefix()),
{
    if s.unicode_len() < 7 {
        return false;
    }
    let r = s.get_char(0) == 'D' && s.get_char(1) == 'i' && s.get_char(2) == 'g'
        && s.get_char(3) == 'e' && s.get_char(4) == 's' && s.get_char(5) == 't'
        && s.get_char(6) == ' ';
    if r {
        assert(s@.take(7) =~= scheme_prefix());
    } else {
        assert(s@.take(7)[0] == s@[0] && s@.take(7)[1] == s@[1] && s@.take(7)[2] == s@[2]
            && s@.take(7)[3] == s@[3] && s@.take(7)[4] == s@[4] && s@.take(7)[5] == s@[5]
            && s@.take(7)[6] == s@[6]);
    }
    r
}

/// Parses the value of a `WWW-Authenticate` header into its directives.
///
/// A leading `"Digest "` is dropped, the rest is cut at each `,`, and each
/// segment with an `=` gives one directive; malformed input gives fewer
/// directives, never an error.
pub fn parse_challenge(header: &str) -> (r: Challenge)
    ensures
        r.view() == challenge_directives(header@),
{
    let n = header.unicode_len();
    let start: usize = if has_scheme_prefix(header) { 7 } else { 0 };
    let ghost t = strip_scheme(header@);
    assert(t == header@.subrange(start as int, n as int));
    let mut out: Vec<(String, String)> = Vec::new();
    let ghost mut done: Seq<Seq<char>> = Seq::empty();
    let mut seg_start = start;
    let mut i = start;
    assert(t.take(0) =~= Seq::<char>::empty());
    assert(header@.subrange(start as int, start as int) =~= Seq::<char>::empty());
    while i < n
        invariant
            start <= seg_start <= i <= n,
            n == header@.len(),
            t == header@.subrange(start as int, n as int),
            segments(t.take(i - start)) == done.push(header@.subrange(seg_start as int, i as int)),
            pairs_view(out@) == directives_of(done),
        decreases n - i,
    {
        let ghost cur = header@.subrange(seg_start as int, i as int);
        assert(t.take(i + 1 - start).drop_last() == t.take(i - start));
        assert(t.take(i + 1 - start).last() == header@[i as int]);
        if header.get_char(i) == ',' {
            let d = segment_directive(header, seg_start, i);
            let ghost prev = out@;
            match d {
                Some(p) => {
                    out.push(p);
                    assert(pairs_view(out@) =~= pairs_view(prev).push((p.0@, p.1@)));
                },
                None => {},
            }
            proof {
                assert(done.push(cur).drop_last() == done);
                done = done.push(cur);
            }
            seg_start = i + 1;
            assert(header@.subrange(seg_start as int, i + 1) =~= Seq::<char>::empty());
        } else {
            assert(header@.subrange(seg_start as int, i + 1) =~= cur.push(header@[i as int]));
            assert(done.push(cur).update(done.len() as int, cur.push(header@[i as int]))
                =~= done.push(cur.push(header@[i as int])));
        }
        i = i + 1;
    }
    let ghost last = header@.subrange(seg_start as int, n as int);
    assert(t.take(n - start) == t);
    let d = segment_directive(header, seg_start, n);
    let ghost prev = out@;
    assert(done.push(last).drop_last() == done);
    match d {
        Some(p) => {
            out.push(p);
            assert(pairs_view(out@) =~= pairs_view(prev).push((p.0@, p.1@)));
        },
        None => {},
    }
    Challenge { directives: out }
}

} // verus!
