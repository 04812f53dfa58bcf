//! The HTTP methods that requests may use.
use vstd::prelude::*;

verus! {

/// One of the four methods that requests may use.
#[derive(Debug, Clone, Copy, PartialEq, Eq, Structural)]
pub enum Method {
    Get,
    Post,
    Put,
    Delete,
}

/// `c` upper-cases to the single capital `upper`: it is `upper`, its ASCII
/// lower-case form, or the long s (U+017F) for `S`.
pub open spec fn same_letter(c: char, upper: char) -> bool {
    c == upper || (('A' <= upper <= 'Z') && c as u32 == upper as u32 + 32) || (upper == 'S' && c
        == '\u{17F}')
}

/// `c` is one of the ligatures st (U+FB05, U+FB06), which upper-case to `ST`.
pub open spec fn is_st_ligature(c: char) -> bool {
    c == '\u{FB05}' || c == '\u{FB06}'
}

/// `s` upper-cases to `name` (written in capitals): each character upper-cases
/// to the next one or, for an st ligature, the next two letters of `name`.
pub open spec fn spells(s: Seq<char>, name: Seq<char>) -> bool
    decreases s.len(),
{
    if s.len() == 0 {
        name.len() == 0
    } else if name.len() >= 2 && name[0] == 'S' && name[1] == 'T' && is_st_ligature(s[0]) {
        spells(s.skip(1), name.skip(2))
    } else {
        name.len() >= 1 && same_letter(s[0], name[0]) && spells(s.skip(1), name.skip(1))
    }
}

/// The method that `s` names, case-insensitively; none for any other text.
pub open spec fn method_of(s: Seq<char>) -> Option<Method> {
    if spells(s, seq!['G', 'E', 'T']) {
        Some(Method::Get)
    } else if spells(s, seq!['P', 'O', 'S', 'T']) {
        Some(Method::Post)
    } else if spells(s, seq!['P', 'U', 'T']) {
        Some(Method::Put)
    } else if spells(s, seq!['D', 'E', 'L', 'E', 'T', 'E']) {
        Some(Method::Delete)
    } else {
        None
    }
}

fn letter_matches(c: char, upper: char) -> (r: bool)
    ensures
        r == same_letter(c, upper),
{
    c == upper || ('A' <= upper && upper <= 'Z' && c as u32 == upper as u32 + 32) || (upper == 'S' && c
        == '\u{17F}')
}

fn spells_name(s: &str, name: &[char]) -> (r: bool)
    ensures
        r == spells(s@, name@),
{
    let n = s.unicode_len();
    let m = name.len();
    let mut i: usize = 0;
    let mut j: usize = 0;
    assert(s@.skip(0) =~= s@);
    assert(name@.skip(0) =~= name@);
    while i < n
        invariant
            n == s@.len(),
            m == name@.len(),
            i <= n,
            j <= m,
            spells(s@, name@) == spells(s@.skip(i as int), name@.skip(j as int)),
        decreases n - i,
    {
        let c = s.get_char(i);
        assert(s@.skip(i as int)[0] == c);
        assert(s@.skip(i as int).skip(1) =~= s@.skip(i + 1));
        if m - j >= 2 && name[j] == 'S' && name[j + 1] == 'T' && (c == '\u{FB05}' || c == '\u{FB06}') {
            assert(name@.skip(j as int).skip(2) =~= name@.skip(j + 2));
            j = j + 2;
        } else if j < m && letter_matches(c, name[j]) {
            assert(name@.skip(j as int).skip(1) =~= name@.skip(j + 1));
            j = j + 1;
        } else {
            return false;
        }
        i = i + 1;
    }
    assert(s@.skip(n as int).len() == 0);
    j == m
}

impl Method {
    /// The method that `s` names, ignoring ASCII case.
    pub fn parse(s: &str) -> (r: Option<Method>)
        ensures
            r == method_of(s@),
    {
        let get: [char; 3] = ['G', 'E', 'T'];
        let post: [char; 4] = ['P', 'O', 'S', 'T'];
        let put: [char; 3] = ['P', 'U', 'T'];
        let delete: [char; 6] = ['D', 'E', 'L', 'E', 'T', 'E'];
        assert(get@ =~= seq!['G', 'E', 'T']);
        assert(post@ =~= seq!['P', 'O', 'S', 'T']);
        assert(put@ =~= seq!['P', 'U', 'T']);
        assert(delete@ =~= seq!['D', 'E', 'L', 'E', 'T', 'E']);
        if spells_name(s, &get) {
            Some(Method::Get)
        } else if spells_name(s, &post) {
            Some(Method::Post)
        } else if spells_name(s, &put) {
            Some(Method::Put)
        } else if spells_name(s, &delete) {
            Some(Method::Delete)
        } else {
            None
        }
    }

    pub open spec fn name(&self) -> Seq<char> {
        match self {
            Method::Get => "GET"@,
            Method::Post => "POST"@,
            Method::Put => "PUT"@,
            Method::Delete => "DELETE"@,
        }
    }

    /// The method's name in capitals.
    pub fn as_str(&self) -> (r: &'static str)
        ensures
            r@ == self.name(),
    {
        match self {
            Method::Get => "GET",
            Method::Post => "POST",
            Method::Put => "PUT",
            Method::Delete => "DELETE",
        }
    }
}

} // verus!
