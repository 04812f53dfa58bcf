//! Header tables: name/value pairs with distinct names, read as a map in
//! which a later pair overrides an earlier one of the same name.
use vstd::prelude::*;
use crate::text::same_text;

verus! {

/// The headers as a map: for a repeated name the last value counts.
pub open spec fn header_map(h: Seq<(String, String)>) -> Map<Seq<char>, Seq<char>>
    decreases h.len(),
{
    if h.len() == 0 {
        Map::empty()
    } else {
        header_map(h.drop_last()).insert(h.last().0@, h.last().1@)
    }
}

/// No name occurs twice.
pub open spec fn distinct_names(h: Seq<(String, String)>) -> bool {
    forall|i: int, j: int| 0 <= i < j < h.len() ==> h[i].0@ != h[j].0@
}

proof fn lemma_replace_value(h: Seq<(String, String)>, j: int, p: (String, String))
    requires
        distinct_names(h),
        0 <= j < h.len(),
        h[j].0@ == p.0@,
    ensures
        header_map(h.update(j, p)) == header_map(h).insert(p.0@, p.1@),
        distinct_names(h.update(j, p)),
    decreases h.len(),
{
    let u = h.update(j, p);
    if j == h.len() - 1 {
        assert(u.drop_last() == h.drop_last());
        assert(header_map(u) =~= header_map(h).insert(p.0@, p.1@));
    } else {
        assert(u.drop_last() == h.drop_last().update(j, p));
        lemma_replace_value(h.drop_last(), j, p);
        assert(h.last().0@ != p.0@);
        assert(header_map(u) =~= header_map(h).insert(p.0@, p.1@));
    }
}

/// Sets `name` to `value`: replaces the value where the name is present,
/// appends the pair where it is not.
pub fn set_header(table: &mut Vec<(String, String)>, name: String, value: String)
    requires
        distinct_names(old(table)@),
    ensures
        distinct_names(final(table)@),
        header_map(final(table)@) == header_map(old(table)@).insert(name@, value@),
{
    let mut j: usize = 0;
    while j < table.len()
        invariant
            j <= table@.len(),
            table@ == old(table)@,
            distinct_names(table@),
            forall|k: int| 0 <= k < j ==> table@[k].0@ != name@,
        decreases table@.len() - j,
    {
        if same_text(table[j].0.as_str(), name.as_str()) {
            proof {
                lemma_replace_value(table@, j as int, (name, value));
            }
            table.set(j, (name, value));
            return;
        }
        j = j + 1;
    }
    let ghost prev = table@;
    table.push((name, value));
    assert(table@.drop_last() == prev);
}

/// The table that `pairs` describe, the last value of a repeated name kept.
pub fn header_table(pairs: &Vec<(String, String)>) -> (r: Vec<(String, String)>)
    ensures
        distinct_names(r@),
        header_map(r@) == header_map(pairs@),
{
    let mut r: Vec<(String, String)> = Vec::new();
    let mut i: usize = 0;
    while i < pairs.len()
        invariant
            i <= pairs@.len(),
            distinct_names(r@),
            header_map(r@) == header_map(pairs@.take(i as int)),
        decreases pairs@.len() - i,
    {
        assert(pairs@.take(i + 1).drop_last() == pairs@.take(i as int));
        let name = pairs[i].0.clone();
        let value = pairs[i].1.clone();
        set_header(&mut r, name, value);
        i = i + 1;
    }
    assert(pairs@.take(pairs@.len() as int) == pairs@);
    r
}

/// The characters are equal, or are one ASCII letter in its two cases.
pub open spec fn same_char_ignoring_case(x: char, y: char) -> bool {
    x == y || ('A' <= x <= 'Z' && y as u32 == x as u32 + 32) || ('A' <= y <= 'Z' && x as u32 == y as u32 + 32)
}

/// Two header names that are equal when ASCII case is ignored.
pub open spec fn same_name(a: Seq<char>, b: Seq<char>) -> bool {
    a.len() == b.len() && forall|i: int| 0 <= i < a.len() ==> same_char_ignoring_case(a[i], b[i])
}

/// Every header name that equals `name` when ASCII case is ignored.
pub open spec fn names_like(name: Seq<char>) -> Set<Seq<char>> {
    Set::new(|k: Seq<char>| same_name(k, name))
}

/// `m` with `name` set to `value`, after every name like it, ignoring
/// ASCII case, is taken out.
pub open spec fn override_header(m: Map<Seq<char>, Seq<char>>, name: Seq<char>, value: Seq<char>) -> Map<Seq<char>, Seq<char>> {
    m.remove_keys(names_like(name)).insert(name, value)
}

fn same_char_exec(x: char, y: char) -> (r: bool)
    ensures
        r == same_char_ignoring_case(x, y),
{
    x == y || ('A' <= x && x <= 'Z' && y as u32 == x as u32 + 32) || ('A' <= y && y <= 'Z' && x as u32 == y as u32 + 32)
}

/// Whether the two names are equal when ASCII case is ignored.
pub fn same_name_text(a: &str, b: &str) -> (r: bool)
    ensures
        r == same_name(a@, b@),
{
    let n = a.unicode_len();
    if n != b.unicode_len() {
        return false;
    }
    let mut i: usize = 0;
    while i < n
        invariant
            n == a@.len(),
            n == b@.len(),
            i <= n,
            forall|j: int| 0 <= j < i ==> same_char_ignoring_case(a@[j], b@[j]),
        decreases n - i,
    {
        if !same_char_exec(a.get_char(i), b.get_char(i)) {
            return false;
        }
        i = i + 1;
    }
    true
}

/// Removes every header whose name equals `name` when ASCII case is ignored.
pub fn drop_names_like(table: &mut Vec<(String, String)>, name: &str)
    requires
        distinct_names(old(table)@),
    ensures
        distinct_names(final(table)@),
        header_map(final(table)@) == header_map(old(table)@).remove_keys(names_like(name@)),
{
    let ghost h = table@;
    let mut out: Vec<(String, String)> = Vec::new();
    let ghost mut src: Seq<int> = Seq::empty();
    let mut i: usize = 0;
    assert(h.take(0) =~= Seq::<(String, String)>::empty());
    assert(header_map(out@) =~= header_map(h.take(0)).remove_keys(names_like(name@)));
    while i < table.len()
        invariant
            i <= h.len(),
            table@ == h,
            distinct_names(h),
            src.len() == out@.len(),
            forall|j: int| 0 <= j < out@.len() ==> 0 <= #[trigger] src[j] < i && out@[j].0@ == h[src[j]].0@,
            distinct_names(out@),
            header_map(out@) == header_map(h.take(i as int)).remove_keys(names_like(name@)),
        decreases h.len() - i,
    {
        assert(h.take(i + 1).drop_last() == h.take(i as int));
        if !same_name_text(table[i].0.as_str(), name) {
            let ghost prev = out@;
            let ghost psrc = src;
            out.push((table[i].0.clone(), table[i].1.clone()));
            proof {
                src = src.push(i as int);
                assert forall|j: int| 0 <= j < out@.len() implies 0 <= #[trigger] src[j] < i + 1 && out@[j].0@ == h[src[j]].0@ by {
                    if j < prev.len() {
                        assert(src[j] == psrc[j]);
                    }
                }
                assert forall|a: int, b: int| 0 <= a < b < out@.len() implies out@[a].0@ != out@[b].0@ by {
                    if b == prev.len() {
                        assert(src[a] < i);
                        assert(h[src[a]].0@ != h[i as int].0@);
                    } else {
                        assert(out@[a] == prev[a] && out@[b] == prev[b]);
                    }
                }
            }
            assert(out@.drop_last() == prev);
            assert(header_map(out@) =~= header_map(h.take(i + 1)).remove_keys(names_like(name@)));
        } else {
            assert(header_map(out@) =~= header_map(h.take(i + 1)).remove_keys(names_like(name@)));
        }
        i = i + 1;
    }
    assert(h.take(h.len() as int) == h);
    *table = out;
}

} // verus!
