//! HTTP header maps.
//!
//! The proxy keeps the header map of the `http` crate (re-exported by
//! `hyper`). Its contents are modelled as a sequence of groups: one group per
//! header name, in the order the names were first added, each holding its
//! values in the order they were added. This is the order in which the map is
//! iterated.
use vstd::prelude::*;
use crate::text::push_str;

verus! {

/// The `http` crate's header map.
#[verifier::external_type_specification]
#[verifier::external_body]
#[verifier::reject_recursive_types(T)]
pub struct ExHyperHeaderMap<T>(hyper::HeaderMap<T>);

/// The `http` crate's header value.
#[verifier::external_type_specification]
#[verifier::external_body]
pub struct ExHyperHeaderValue(hyper::header::HeaderValue);

/// A header name and the values stored under it.
pub type HeaderGroup = (Seq<u8>, Seq<Seq<u8>>);

/// What a `hyper::HeaderMap` holds: its groups, in iteration order.
pub uninterp spec fn header_groups(m: hyper::HeaderMap) -> Seq<HeaderGroup>;

/// The byte a header name byte becomes once normalized (a lower-case token
/// character), or 0 when the byte cannot appear in a header name.
pub open spec fn name_char(b: u8) -> u8 {
    if (97 <= b && b <= 122) || (48 <= b && b <= 57) {
        b
    } else if 65 <= b && b <= 90 {
        (b + 32) as u8
    } else if b == 33 || b == 35 || b == 36 || b == 37 || b == 38 || b == 39
        || b == 42 || b == 43 || b == 45 || b == 46 || b == 94 || b == 95
        || b == 96 || b == 124 || b == 126 {
        b
    } else {
        0
    }
}

/// A valid header name: 1 to 65535 token characters.
pub open spec fn valid_header_name(s: Seq<u8>) -> bool {
    &&& 1 <= s.len() <= 65535
    &&& forall|i: int| 0 <= i < s.len() ==> name_char(#[trigger] s[i]) != 0
}

/// The normalized (lower-case) form of a header name.
pub open spec fn normalize_name(s: Seq<u8>) -> Seq<u8> {
    s.map_values(|b: u8| name_char(b))
}

/// A byte allowed in a header value.
pub open spec fn value_byte_ok(b: u8) -> bool {
    (b >= 32 && b != 127) || b == 9
}

pub open spec fn valid_header_value(s: Seq<u8>) -> bool {
    forall|i: int| 0 <= i < s.len() ==> value_byte_ok(#[trigger] s[i])
}

/// A byte that `HeaderValue::to_str` accepts: visible ASCII or a tab.
pub open spec fn visible_byte(b: u8) -> bool {
    (b >= 32 && b < 127) || b == 9
}

pub open spec fn visible_ascii(s: Seq<u8>) -> bool {
    forall|i: int| 0 <= i < s.len() ==> visible_byte(#[trigger] s[i])
}

/// The characters of an ASCII byte string.
pub open spec fn ascii_chars(s: Seq<u8>) -> Seq<char> {
    s.map_values(|b: u8| b as char)
}

/// Index of the first group named `name` at or after `i`, or -1.
pub open spec fn find_group_from(g: Seq<HeaderGroup>, name: Seq<u8>, i: int) -> int
    decreases g.len() - i,
{
    if i < 0 || i >= g.len() {
        -1
    } else if g[i].0 == name {
        i
    } else {
        find_group_from(g, name, i + 1)
    }
}

/// Index of the group named `name`, or -1.
pub open spec fn find_group(g: Seq<HeaderGroup>, name: Seq<u8>) -> int {
    find_group_from(g, name, 0)
}

/// The group a lookup by the string `key` finds, or -1: keys are normalized
/// like names, and an invalid key finds nothing.
pub open spec fn lookup(g: Seq<HeaderGroup>, key: Seq<u8>) -> int {
    if valid_header_name(key) {
        find_group(g, normalize_name(key))
    } else {
        -1
    }
}

/// The values stored under `key` (empty when there are none).
pub open spec fn values_of(g: Seq<HeaderGroup>, key: Seq<u8>) -> Seq<Seq<u8>> {
    let i = lookup(g, key);
    if i < 0 {
        Seq::empty()
    } else {
        g[i].1
    }
}

/// `append`: the value goes after the values already under the name.
pub open spec fn groups_append(g: Seq<HeaderGroup>, name: Seq<u8>, v: Seq<u8>) -> Seq<HeaderGroup> {
    let i = find_group(g, name);
    if i < 0 {
        g.push((name, seq![v]))
    } else {
        g.update(i, (g[i].0, g[i].1.push(v)))
    }
}

/// `insert`: the value replaces every value under the name, which keeps its
/// place.
pub open spec fn groups_insert(g: Seq<HeaderGroup>, name: Seq<u8>, v: Seq<u8>) -> Seq<HeaderGroup> {
    let i = find_group(g, name);
    if i < 0 {
        g.push((name, seq![v]))
    } else {
        g.update(i, (g[i].0, seq![v]))
    }
}

/// `remove`: the group leaves, and the last group takes its place.
pub open spec fn groups_remove(g: Seq<HeaderGroup>, key: Seq<u8>) -> Seq<HeaderGroup> {
    let i = lookup(g, key);
    if i < 0 {
        g
    } else {
        g.update(i, g.last()).drop_last()
    }
}

/// The (name, value) pairs of the groups, in iteration order.
pub open spec fn flatten(g: Seq<HeaderGroup>) -> Seq<(Seq<u8>, Seq<u8>)>
    decreases g.len(),
{
    if g.len() == 0 {
        Seq::empty()
    } else {
        flatten(g.drop_last()) + g.last().1.map_values(|v: Seq<u8>| (g.last().0, v))
    }
}

/// The groups a map holds after `headers` were appended in order, each name
/// and value replaced by a fixed valid one when it is not valid.
pub open spec fn groups_of_headers(headers: Seq<(Seq<u8>, Seq<u8>)>) -> Seq<HeaderGroup>
    decreases headers.len(),
{
    if headers.len() == 0 {
        Seq::empty()
    } else {
        let h = headers.last();
        groups_append(
            groups_of_headers(headers.drop_last()),
            normalize_name(name_or_placeholder(h.0)),
            value_or_placeholder(h.1),
        )
    }
}

pub open spec fn invalid_name_placeholder() -> Seq<u8> {
    seq![105u8, 110, 118, 97, 108, 105, 100, 45, 104, 101, 97, 100, 101, 114, 45, 110, 97, 109, 101]
}

pub open spec fn invalid_value_placeholder() -> Seq<u8> {
    seq![
        105u8, 110, 118, 97, 108, 105, 100, 45, 104, 101, 97, 100, 101, 114, 45, 118, 97, 108,
        117, 101,
    ]
}

pub open spec fn name_or_placeholder(s: Seq<u8>) -> Seq<u8> {
    if valid_header_name(s) {
        s
    } else {
        invalid_name_placeholder()
    }
}

pub open spec fn value_or_placeholder(s: Seq<u8>) -> Seq<u8> {
    if valid_header_value(s) {
        s
    } else {
        invalid_value_placeholder()
    }
}

/// Group count below which adding to a `hyper::HeaderMap` cannot exceed its
/// maximum size (adding panics past it).
pub const MAX_HEADER_GROUPS: usize = 6553;

/// `HeaderMap::new`: an empty map.
#[verifier::external_body]
fn hyper_map_new() -> (m: hyper::HeaderMap)
    ensures
        header_groups(m) == Seq::<HeaderGroup>::empty(),
{
    hyper::HeaderMap::new()
}

/// `HeaderMap::append` with a name and value parsed by `HeaderName::from_bytes`
/// and `HeaderValue::from_bytes`; when either does not parse the map is left
/// as it was and `false` is returned.
#[verifier::external_body]
fn hyper_append(m: &mut hyper::HeaderMap, name: &[u8], value: &[u8]) -> (ok: bool)
    requires
        header_groups(*old(m)).len() < MAX_HEADER_GROUPS,
    ensures
        ok == (valid_header_name(name@) && valid_header_value(value@)),
        ok ==> header_groups(*final(m)) == groups_append(
            header_groups(*old(m)),
            normalize_name(name@),
            value@,
        ),
        !ok ==> header_groups(*final(m)) == header_groups(*old(m)),
{
    match (
        hyper::header::HeaderName::from_bytes(name),
        hyper::header::HeaderValue::from_bytes(value),
    ) {
        (Ok(n), Ok(v)) => {
            m.append(n, v);
            true
        },
        _ => false,
    }
}

/// `HeaderMap::insert` with a name and value parsed as in `hyper_append`.
#[verifier::external_body]
fn hyper_insert(m: &mut hyper::HeaderMap, name: &[u8], value: &[u8]) -> (ok: bool)
    requires
        header_groups(*old(m)).len() < MAX_HEADER_GROUPS,
    ensures
        ok == (valid_header_name(name@) && valid_header_value(value@)),
        ok ==> header_groups(*final(m)) == groups_insert(
            header_groups(*old(m)),
            normalize_name(name@),
            value@,
        ),
        !ok ==> header_groups(*final(m)) == header_groups(*old(m)),
{
    match (
        hyper::header::HeaderName::from_bytes(name),
        hyper::header::HeaderValue::from_bytes(value),
    ) {
        (Ok(n), Ok(v)) => {
            m.insert(n, v);
            true
        },
        _ => false,
    }
}

/// `HeaderMap::get_all`: the values stored under `key`, in order (none when
/// `key` is not a header name).
#[verifier::external_body]
fn hyper_get_all(m: &hyper::HeaderMap, key: &[u8]) -> (r: Vec<Vec<u8>>)
    ensures
        r@.map_values(|v: Vec<u8>| v@) == values_of(header_groups(*m), key@),
{
    match hyper::header::HeaderName::from_bytes(key) {
        Ok(k) => m.get_all(&k).iter().map(|v| v.as_bytes().to_vec()).collect(),
        Err(_) => Vec::new(),
    }
}

/// `HeaderMap::clone`: a map with the same groups. A map holds each name
/// once (`append` and `insert` add to the entry already there), so the
/// names of the copy's groups are distinct.
#[verifier::external_body]
fn hyper_clone(m: &hyper::HeaderMap) -> (r: hyper::HeaderMap)
    ensures
        header_groups(r) == header_groups(*m),
        unique_names(header_groups(r)),
{
    m.clone()
}

/// A hexadecimal digit, lower case.
pub open spec fn hex_digit(d: int) -> char {
    if d < 10 {
        (d + 48) as char
    } else {
        (d + 87) as char
    }
}

/// A byte in hexadecimal as `{:x}` writes it: lower case, no leading zero.
pub open spec fn hex_text(b: u8) -> Seq<char> {
    if b < 16 {
        seq![hex_digit(b as int)]
    } else {
        seq![hex_digit(b as int / 16), hex_digit(b as int % 16)]
    }
}

/// How a header value's `Debug` writes one of its bytes: `\"` for a quote,
/// a visible byte (or a tab) as itself, any other byte as `\x` and its
/// hexadecimal.
pub open spec fn value_byte_debug(b: u8) -> Seq<char> {
    if b == 34 {
        seq!['\\', '"']
    } else if visible_byte(b) {
        seq![b as char]
    } else {
        seq!['\\', 'x'] + hex_text(b)
    }
}

/// The bytes of a header value as its `Debug` writes them, between the
/// quotes.
pub open spec fn bytes_debug(v: Seq<u8>) -> Seq<char>
    decreases v.len(),
{
    if v.len() == 0 {
        Seq::empty()
    } else {
        bytes_debug(v.drop_last()) + value_byte_debug(v.last())
    }
}

/// A header value as its `Debug` writes it (a value not marked
/// sensitive): in quotes.
pub open spec fn value_debug(v: Seq<u8>) -> Seq<char> {
    seq!['"'] + bytes_debug(v) + seq!['"']
}

/// A header name as its `Debug` writes it: the name's text in quotes (the
/// characters of a header name need no escape).
pub open spec fn name_debug(n: Seq<u8>) -> Seq<char> {
    seq!['"'] + ascii_chars(n) + seq!['"']
}

/// One entry of a map's `Debug`: `name: value`.
pub open spec fn pair_debug(p: (Seq<u8>, Seq<u8>)) -> Seq<char> {
    name_debug(p.0) + seq![':', ' '] + value_debug(p.1)
}

/// The entries, separated by `, `.
pub open spec fn pairs_debug(ps: Seq<(Seq<u8>, Seq<u8>)>) -> Seq<char>
    decreases ps.len(),
{
    if ps.len() == 0 {
        Seq::empty()
    } else if ps.len() == 1 {
        pair_debug(ps[0])
    } else {
        pairs_debug(ps.drop_last()) + seq![',', ' '] + pair_debug(ps.last())
    }
}

/// How `Debug` writes a header map holding these (name, value) pairs, in
/// iteration order: `{`, the entries, `}`.
pub open spec fn header_map_debug(pairs: Seq<(Seq<u8>, Seq<u8>)>) -> Seq<char> {
    seq!['{'] + pairs_debug(pairs) + seq!['}']
}

/// `HeaderMap(`, the map's pairs as `Debug` writes them, `)`.
pub open spec fn headers_debug_text(g: Seq<HeaderGroup>) -> Seq<char> {
    seq!['H', 'e', 'a', 'd', 'e', 'r', 'M', 'a', 'p', '('] + header_map_debug(flatten(g)) + seq![')']
}

fn push_hex_digit(r: &mut String, d: u8)
    requires
        d < 16,
    ensures
        final(r)@ == old(r)@.push(hex_digit(d as int)),
{
    if d < 10 {
        r.push((d + 48) as char);
    } else {
        r.push((d + 87) as char);
    }
}

/// Appends a header value as its `Debug` writes it.
fn push_value_debug(r: &mut String, v: &[u8])
    ensures
        final(r)@ == old(r)@ + value_debug(v@),
{
    r.push('"');
    let ghost start = r@;
    let mut i: usize = 0;
    while i < v.len()
        invariant
            i <= v.len(),
            r@ == start + bytes_debug(v@.subrange(0, i as int)),
        decreases v.len() - i,
    {
        let b = v[i];
        let ghost before = r@;
        if b == 34 {
            r.push('\\');
            r.push('"');
        } else if (b >= 32 && b < 127) || b == 9 {
            r.push(b as char);
        } else {
            r.push('\\');
            r.push('x');
            if b >= 16 {
                push_hex_digit(r, b / 16);
            }
            push_hex_digit(r, b % 16);
        }
        proof {
            assert(r@ == before + value_byte_debug(b));
            assert(v@.subrange(0, i + 1).drop_last() == v@.subrange(0, i as int));
        }
        i += 1;
    }
    assert(v@.subrange(0, v@.len() as int) == v@);
    r.push('"');
}

/// Appends the entry for a (name, value) pair.
fn push_pair_debug(r: &mut String, name: &[u8], value: &[u8])
    ensures
        final(r)@ == old(r)@ + pair_debug((name@, value@)),
{
    r.push('"');
    let n = ascii_string(name);
    push_str(r, n.as_str());
    r.push('"');
    r.push(':');
    r.push(' ');
    push_value_debug(r, value);
}

/// The map's pairs as `Debug` writes them.
fn map_debug(m: &hyper::HeaderMap) -> (r: String)
    ensures
        r@ == header_map_debug(flatten(header_groups(*m))),
{
    let pairs = hyper_iter(m);
    let ghost f = flatten(header_groups(*m));
    let mut r = String::new();
    r.push('{');
    let mut i: usize = 0;
    while i < pairs.len()
        invariant
            i <= pairs.len(),
            pairs@.map_values(|p: (Vec<u8>, Vec<u8>)| (p.0@, p.1@)) == f,
            r@ == seq!['{'] + pairs_debug(f.subrange(0, i as int)),
        decreases pairs.len() - i,
    {
        let ghost p = (pairs@[i as int].0@, pairs@[i as int].1@);
        assert(f[i as int] == p);
        if i > 0 {
            r.push(',');
            r.push(' ');
        }
        push_pair_debug(&mut r, pairs[i].0.as_slice(), pairs[i].1.as_slice());
        proof {
            let next = f.subrange(0, i + 1);
            assert(next.drop_last() == f.subrange(0, i as int));
            assert(next.last() == p);
            if i == 0 {
                assert(next.len() == 1 && next[0] == p);
            }
        }
        i += 1;
    }
    assert(f.subrange(0, f.len() as int) == f);
    r.push('}');
    r
}

/// `HeaderMap::remove`: drops every value stored under `key` (nothing when
/// `key` is not a header name).
#[verifier::external_body]
fn hyper_remove(m: &mut hyper::HeaderMap, key: &[u8])
    ensures
        header_groups(*final(m)) == groups_remove(header_groups(*old(m)), key@),
{
    if let Ok(k) = hyper::header::HeaderName::from_bytes(key) {
        m.remove(&k);
    }
}

/// `HeaderMap::len`: the number of (name, value) pairs stored.
#[verifier::external_body]
fn hyper_len(m: &hyper::HeaderMap) -> (r: usize)
    ensures
        r == flatten(header_groups(*m)).len(),
{
    m.len()
}

/// `HeaderMap::keys_len`: the number of distinct names stored.
#[verifier::external_body]
fn hyper_keys_len(m: &hyper::HeaderMap) -> (r: usize)
    ensures
        r == header_groups(*m).len(),
{
    m.keys_len()
}

/// `HeaderMap::iter`: every (name, value) pair, in iteration order.
#[verifier::external_body]
fn hyper_iter(m: &hyper::HeaderMap) -> (r: Vec<(Vec<u8>, Vec<u8>)>)
    ensures
        r@.map_values(|p: (Vec<u8>, Vec<u8>)| (p.0@, p.1@)) == flatten(header_groups(*m)),
{
    m.iter().map(|(k, v)| (k.as_str().as_bytes().to_vec(), v.as_bytes().to_vec())).collect()
}


/// The bytes of a string with the characters `s`.
pub open spec fn str_bytes(s: Seq<char>) -> Seq<u8> {
    vstd::utf8::encode_utf8(s)
}

/// The values that `HeaderValue::to_str` accepts, as strings, in order.
pub open spec fn visible_values(vals: Seq<Seq<u8>>) -> Seq<Seq<char>>
    decreases vals.len(),
{
    if vals.len() == 0 {
        Seq::empty()
    } else {
        let rest = visible_values(vals.drop_last());
        if visible_ascii(vals.last()) {
            rest.push(ascii_chars(vals.last()))
        } else {
            rest
        }
    }
}

/// `name_char` as an executable function.
pub fn normalized_name_byte(b: u8) -> (r: u8)
    ensures
        r == name_char(b),
{
    if (97 <= b && b <= 122) || (48 <= b && b <= 57) {
        b
    } else if 65 <= b && b <= 90 {
        b + 32
    } else if b == 33 || b == 35 || b == 36 || b == 37 || b == 38 || b == 39
        || b == 42 || b == 43 || b == 45 || b == 46 || b == 94 || b == 95
        || b == 96 || b == 124 || b == 126 {
        b
    } else {
        0
    }
}

/// Whether `s` is a valid header name.
pub fn is_valid_header_name(s: &[u8]) -> (r: bool)
    ensures
        r == valid_header_name(s@),
{
    if s.len() == 0 || s.len() > 65535 {
        return false;
    }
    let mut i: usize = 0;
    while i < s.len()
        invariant
            i <= s.len(),
            forall|j: int| 0 <= j < i ==> name_char(#[trigger] s@[j]) != 0,
        decreases s.len() - i,
    {
        if normalized_name_byte(s[i]) == 0 {
            return false;
        }
        i += 1;
    }
    true
}

/// Whether `s` is a valid header value.
pub fn is_valid_header_value(s: &[u8]) -> (r: bool)
    ensures
        r == valid_header_value(s@),
{
    let mut i: usize = 0;
    while i < s.len()
        invariant
            i <= s.len(),
            forall|j: int| 0 <= j < i ==> value_byte_ok(#[trigger] s@[j]),
        decreases s.len() - i,
    {
        let b = s[i];
        if !((b >= 32 && b != 127) || b == 9) {
            return false;
        }
        i += 1;
    }
    true
}

/// Whether every byte of `s` is visible ASCII or a tab.
pub fn is_visible_ascii(s: &[u8]) -> (r: bool)
    ensures
        r == visible_ascii(s@),
{
    let mut i: usize = 0;
    while i < s.len()
        invariant
            i <= s.len(),
            forall|j: int| 0 <= j < i ==> visible_byte(#[trigger] s@[j]),
        decreases s.len() - i,
    {
        let b = s[i];
        if !((b >= 32 && b < 127) || b == 9) {
            return false;
        }
        i += 1;
    }
    true
}

/// The string whose characters are the bytes of `s`, one for one.
pub fn ascii_string(s: &[u8]) -> (r: String)
    ensures
        r@ == ascii_chars(s@),
{
    let mut r = String::new();
    let mut i: usize = 0;
    while i < s.len()
        invariant
            i <= s.len(),
            r@ == ascii_chars(s@.subrange(0, i as int)),
        decreases s.len() - i,
    {
        let c = s[i] as char;
        r.push(c);
        assert(s@.subrange(0, i + 1) == s@.subrange(0, i as int).push(s@[i as int]));
        i += 1;
    }
    assert(s@.subrange(0, s@.len() as int) == s@);
    r
}

/// A group search ends at a group of that name, or finds none.
pub proof fn lemma_find_group_from(g: Seq<HeaderGroup>, name: Seq<u8>, i: int)
    requires
        0 <= i,
    ensures
        find_group_from(g, name, i) == -1 || (i <= find_group_from(g, name, i) < g.len()
            && g[find_group_from(g, name, i)].0 == name),
        find_group_from(g, name, i) == -1 ==> forall|j: int| i <= j < g.len() ==> g[j].0 != name,
        find_group_from(g, name, i) != -1 ==> forall|j: int|
            i <= j < find_group_from(g, name, i) ==> g[j].0 != name,
    decreases g.len() - i,
{
    if i < g.len() && g[i].0 != name {
        lemma_find_group_from(g, name, i + 1);
    }
}

pub proof fn lemma_find_group(g: Seq<HeaderGroup>, name: Seq<u8>)
    ensures
        find_group(g, name) == -1 || (0 <= find_group(g, name) < g.len() && g[find_group(
            g,
            name,
        )].0 == name),
        find_group(g, name) == -1 ==> forall|j: int| 0 <= j < g.len() ==> g[j].0 != name,
        find_group(g, name) != -1 ==> forall|j: int| 0 <= j < find_group(g, name) ==> g[j].0 != name,
{
    lemma_find_group_from(g, name, 0);
}

/// No two groups share a name.
pub open spec fn unique_names(g: Seq<HeaderGroup>) -> bool {
    forall|i: int, j: int| 0 <= i < j < g.len() ==> g[i].0 != g[j].0
}

/// Adding and removing keep names unique, and after a removal by `key` a
/// lookup by `key` finds nothing.
pub proof fn lemma_unique_preserved(g: Seq<HeaderGroup>, name: Seq<u8>, v: Seq<u8>, key: Seq<u8>)
    requires
        unique_names(g),
    ensures
        unique_names(groups_append(g, name, v)),
        unique_names(groups_insert(g, name, v)),
        unique_names(groups_remove(g, key)),
        lookup(groups_remove(g, key), key) == -1,
{
    lemma_find_group(g, name);
    let i = find_group(g, name);
    if i < 0 {
        let a = groups_append(g, name, v);
        assert forall|x: int, y: int| 0 <= x < y < a.len() implies a[x].0 != a[y].0 by {
            if y == a.len() - 1 {
                assert(g[x].0 != name);
            }
        }
    }
    if valid_header_name(key) {
        let k = normalize_name(key);
        lemma_find_group(g, k);
        let r = groups_remove(g, key);
        lemma_find_group(r, k);
        let j = find_group(g, k);
        if j >= 0 {
            assert forall|x: int, y: int| 0 <= x < y < r.len() implies r[x].0 != r[y].0 by {
                if x == j {
                    assert(r[x] == g[g.len() - 1]);
                    assert(r[y] == g[y]);
                } else if y == j {
                    assert(r[y] == g[g.len() - 1]);
                    assert(r[x] == g[x]);
                } else {
                    assert(r[x] == g[x] && r[y] == g[y]);
                }
            }
            if find_group(r, k) >= 0 {
                let t = find_group(r, k);
                if t == j {
                    assert(r[t] == g[g.len() - 1]);
                    assert(g[j].0 == k);
                } else {
                    assert(r[t] == g[t]);
                }
            }
        }
    }
}

/// After `insert`, a lookup by a key naming the inserted name finds exactly
/// the inserted value.
pub proof fn lemma_insert_then_lookup(g: Seq<HeaderGroup>, key: Seq<u8>, v: Seq<u8>)
    requires
        valid_header_name(key),
    ensures
        values_of(groups_insert(g, normalize_name(key), v), key) == seq![v],
{
    let name = normalize_name(key);
    lemma_find_group(g, name);
    let r = groups_insert(g, name, v);
    lemma_find_group(r, name);
    let i = find_group(g, name);
    let t = find_group(r, name);
    if i < 0 {
        if t >= 0 && t < g.len() {
            assert(r[t] == g[t]);
        }
        assert(r[g.len() as int].0 == name);
    } else {
        if t >= 0 && t < i {
            assert(r[t] == g[t]);
        }
        assert(r[i].0 == name);
    }
}

/// Appending never takes a group away.
pub proof fn lemma_append_keeps_groups(g: Seq<HeaderGroup>, name: Seq<u8>, v: Seq<u8>)
    ensures
        groups_append(g, name, v).len() >= g.len(),
{
    lemma_find_group(g, name);
}

/// A prefix of a list of headers makes no more groups than the whole list.
pub proof fn lemma_prefix_groups(h: Seq<(Seq<u8>, Seq<u8>)>, i: int)
    requires
        0 <= i <= h.len(),
    ensures
        groups_of_headers(h.subrange(0, i)).len() <= groups_of_headers(h).len(),
    decreases h.len() - i,
{
    if i < h.len() {
        lemma_prefix_groups(h, i + 1);
        let next = h.subrange(0, i + 1);
        assert(next.drop_last() == h.subrange(0, i));
        lemma_append_keeps_groups(
            groups_of_headers(h.subrange(0, i)),
            normalize_name(name_or_placeholder(next.last().0)),
            value_or_placeholder(next.last().1),
        );
    } else {
        assert(h.subrange(0, h.len() as int) == h);
    }
}

/// A header: a name and a value, as given.
#[derive(Clone, Debug, PartialEq)]
pub struct Header(pub String, pub String);

impl Header {
    pub fn new(key: String, value: String) -> (r: Self)
        ensures
            r.0@ == key@,
            r.1@ == value@,
    {
        Header(key, value)
    }

    pub fn key(&self) -> (r: &str)
        ensures
            r@ == self.0@,
    {
        self.0.as_str()
    }

    pub fn value(&self) -> (r: &str)
        ensures
            r@ == self.1@,
    {
        self.1.as_str()
    }
}

/// The raw bytes of a list of headers.
pub open spec fn header_bytes(headers: Seq<Header>) -> Seq<(Seq<u8>, Seq<u8>)> {
    headers.map_values(|h: Header| (str_bytes(h.0@), str_bytes(h.1@)))
}

/// A map from header names to their values.
#[derive(Debug, PartialEq)]
pub struct HttpHeaders {
    map: hyper::HeaderMap,
}

impl HttpHeaders {
    #[verifier::type_invariant]
    spec fn names_unique(&self) -> bool {
        unique_names(header_groups(self.map))
    }

    /// The groups the map holds, in iteration order.
    pub closed spec fn groups(&self) -> Seq<HeaderGroup> {
        header_groups(self.map)
    }

    /// An empty map.
    pub fn empty() -> (r: Self)
        ensures
            r.groups() == Seq::<HeaderGroup>::empty(),
            unique_names(r.groups()),
    {
        HttpHeaders { map: hyper_map_new() }
    }

    /// Builds a map from `headers`, appended in order. A name that is not a
    /// valid header name becomes `invalid-header-name`; a value that is not
    /// a valid header value becomes `invalid-header-value`.
    pub fn new(headers: Vec<Header>) -> (r: Self)
        requires
            groups_of_headers(header_bytes(headers@)).len() < MAX_HEADER_GROUPS,
        ensures
            r.groups() == groups_of_headers(header_bytes(headers@)),
            unique_names(r.groups()),
    {
        let mut map = hyper_map_new();
        let ghost hb = header_bytes(headers@);
        let mut i: usize = 0;
        while i < headers.len()
            invariant
                i <= headers.len(),
                hb == header_bytes(headers@),
                groups_of_headers(hb).len() < MAX_HEADER_GROUPS,
                header_groups(map) == groups_of_headers(hb.subrange(0, i as int)),
                unique_names(header_groups(map)),
            decreases headers.len() - i,
        {
            let name = headers[i].0.as_str().as_bytes();
            let value = headers[i].1.as_str().as_bytes();
            let name_ok = is_valid_header_name(name);
            let value_ok = is_valid_header_value(value);
            let placeholder_name: Vec<u8> = vec![
                105u8, 110, 118, 97, 108, 105, 100, 45, 104, 101, 97, 100, 101, 114, 45, 110, 97,
                109, 101,
            ];
            let placeholder_value: Vec<u8> = vec![
                105u8, 110, 118, 97, 108, 105, 100, 45, 104, 101, 97, 100, 101, 114, 45, 118, 97,
                108, 117, 101,
            ];
            assert(placeholder_name@ == invalid_name_placeholder());
            assert(placeholder_value@ == invalid_value_placeholder());
            let n = if name_ok { name } else { placeholder_name.as_slice() };
            let v = if value_ok { value } else { placeholder_value.as_slice() };
            proof {
                assert(valid_header_name(invalid_name_placeholder()));
                assert(valid_header_value(invalid_value_placeholder()));
                lemma_prefix_groups(hb, i as int);
                lemma_unique_preserved(header_groups(map), normalize_name(n@), v@, Seq::empty());
                let pre = hb.subrange(0, i as int);
                let next = hb.subrange(0, i + 1);
                assert(next.drop_last() == pre);
                assert(next.last() == hb[i as int]);
            }
            let ok = hyper_append(&mut map, n, v);
            i += 1;
        }
        assert(hb.subrange(0, headers.len() as int) == hb);
        HttpHeaders { map }
    }

    /// The first value stored under `key`, when it is visible ASCII.
    pub fn get(&self, key: &str) -> (r: Option<String>)
        ensures
            ({
                let vals = values_of(self.groups(), str_bytes(key@));
                match r {
                    Some(s) => vals.len() > 0 && visible_ascii(vals[0]) && s@ == ascii_chars(
                        vals[0],
                    ),
                    None => vals.len() == 0 || !visible_ascii(vals[0]),
                }
            }),
    {
        let vals = hyper_get_all(&self.map, key.as_bytes());
        if vals.len() == 0 {
            return None;
        }
        assert(vals@.map_values(|v: Vec<u8>| v@)[0] == vals@[0]@);
        if is_visible_ascii(vals[0].as_slice()) {
            Some(ascii_string(vals[0].as_slice()))
        } else {
            None
        }
    }

    /// The values stored under `key` that are visible ASCII, in order.
    pub fn get_all(&self, key: &str) -> (r: Vec<String>)
        ensures
            r@.map_values(|s: String| s@) == visible_values(
                values_of(self.groups(), str_bytes(key@)),
            ),
    {
        let vals = hyper_get_all(&self.map, key.as_bytes());
        let ghost vs = vals@.map_values(|v: Vec<u8>| v@);
        let mut r: Vec<String> = Vec::new();
        let mut i: usize = 0;
        while i < vals.len()
            invariant
                i <= vals.len(),
                vs == vals@.map_values(|v: Vec<u8>| v@),
                r@.map_values(|s: String| s@) == visible_values(vs.subrange(0, i as int)),
            decreases vals.len() - i,
        {
            let ghost pre = vs.subrange(0, i as int);
            let ghost next = vs.subrange(0, i + 1);
            assert(next.drop_last() == pre);
            assert(next.last() == vals@[i as int]@);
            if is_visible_ascii(vals[i].as_slice()) {
                let s = ascii_string(vals[i].as_slice());
                let ghost old_r = r@;
                r.push(s);
                assert(r@.map_values(|s: String| s@) == old_r.map_values(|s: String| s@).push(
                    s@,
                ));
            }
            i += 1;
        }
        assert(vs.subrange(0, vals.len() as int) == vs);
        r
    }

    /// Every (name, value) pair in iteration order, the value given when it
    /// is visible ASCII.
    pub fn pairs(&self) -> (r: Vec<(String, Option<String>)>)
        ensures
            r.len() == flatten(self.groups()).len(),
            forall|i: int|
                0 <= i < r.len() ==> {
                    let p = #[trigger] flatten(self.groups())[i];
                    &&& r[i].0@ == ascii_chars(p.0)
                    &&& match r[i].1 {
                        Some(v) => visible_ascii(p.1) && v@ == ascii_chars(p.1),
                        None => !visible_ascii(p.1),
                    }
                },
    {
        let all = hyper_iter(&self.map);
        let ghost f = flatten(self.groups());
        assert(all@.len() == f.len());
        let mut r: Vec<(String, Option<String>)> = Vec::new();
        let mut i: usize = 0;
        while i < all.len()
            invariant
                i <= all.len(),
                f == flatten(self.groups()),
                all@.map_values(|p: (Vec<u8>, Vec<u8>)| (p.0@, p.1@)) == f,
                r.len() == i,
                forall|j: int|
                    0 <= j < i ==> {
                        let p = #[trigger] f[j];
                        &&& r[j].0@ == ascii_chars(p.0)
                        &&& match r[j].1 {
                            Some(v) => visible_ascii(p.1) && v@ == ascii_chars(p.1),
                            None => !visible_ascii(p.1),
                        }
                    },
            decreases all.len() - i,
        {
            assert(f[i as int] == (all@[i as int].0@, all@[i as int].1@));
            let name = ascii_string(all[i].0.as_slice());
            let value = if is_visible_ascii(all[i].1.as_slice()) {
                Some(ascii_string(all[i].1.as_slice()))
            } else {
                None
            };
            r.push((name, value));
            i += 1;
        }
        r
    }

    /// The number of (name, value) pairs.
    pub fn len(&self) -> (r: usize)
        ensures
            r == flatten(self.groups()).len(),
    {
        hyper_len(&self.map)
    }

    /// Adds a value under `name` after the values already there; an invalid
    /// name or value leaves the map unchanged and gives `false`.
    pub fn append(&mut self, name: &str, value: &str) -> (ok: bool)
        requires
            old(self).groups().len() < MAX_HEADER_GROUPS,
        ensures
            ok == (valid_header_name(str_bytes(name@)) && valid_header_value(str_bytes(value@))),
            ok ==> final(self).groups() == groups_append(
                old(self).groups(),
                normalize_name(str_bytes(name@)),
                str_bytes(value@),
            ),
            !ok ==> final(self).groups() == old(self).groups(),
            unique_names(final(self).groups()),
    {
        proof {
            use_type_invariant(&*self);
        }
        let mut m = hyper_map_new();
        std::mem::swap(&mut m, &mut self.map);
        let ghost before = header_groups(m);
        let r = hyper_append(&mut m, name.as_bytes(), value.as_bytes());
        proof {
            lemma_unique_preserved(before, normalize_name(str_bytes(name@)), str_bytes(value@), Seq::empty());
        }
        self.map = m;
        r
    }

    /// Replaces every value under `name` by `value`; an invalid name or value
    /// leaves the map unchanged and gives `false`.
    pub fn insert(&mut self, name: &str, value: &str) -> (ok: bool)
        requires
            old(self).groups().len() < MAX_HEADER_GROUPS,
        ensures
            ok == (valid_header_name(str_bytes(name@)) && valid_header_value(str_bytes(value@))),
            ok ==> final(self).groups() == groups_insert(
                old(self).groups(),
                normalize_name(str_bytes(name@)),
                str_bytes(value@),
            ),
            !ok ==> final(self).groups() == old(self).groups(),
            unique_names(final(self).groups()),
    {
        proof {
            use_type_invariant(&*self);
        }
        let mut m = hyper_map_new();
        std::mem::swap(&mut m, &mut self.map);
        let ghost before = header_groups(m);
        let r = hyper_insert(&mut m, name.as_bytes(), value.as_bytes());
        proof {
            lemma_unique_preserved(before, normalize_name(str_bytes(name@)), str_bytes(value@), Seq::empty());
        }
        self.map = m;
        r
    }

    /// Removes every value stored under `key`.
    pub fn remove(&mut self, key: &str)
        ensures
            final(self).groups() == groups_remove(old(self).groups(), str_bytes(key@)),
            unique_names(final(self).groups()),
    {
        proof {
            use_type_invariant(&*self);
        }
        let mut m = hyper_map_new();
        std::mem::swap(&mut m, &mut self.map);
        let ghost before = header_groups(m);
        let r = hyper_remove(&mut m, key.as_bytes());
        proof {
            lemma_unique_preserved(before, Seq::empty(), Seq::empty(), str_bytes(key@));
        }
        self.map = m;
        r
    }

    /// The values stored under the header name `key`, in order.
    pub fn values(&self, key: &[u8]) -> (r: Vec<Vec<u8>>)
        ensures
            r@.map_values(|v: Vec<u8>| v@) == values_of(self.groups(), key@),
    {
        hyper_get_all(&self.map, key)
    }

    /// Removes every value stored under the header name `key`.
    pub fn remove_name(&mut self, key: &[u8])
        ensures
            final(self).groups() == groups_remove(old(self).groups(), key@),
            unique_names(final(self).groups()),
    {
        proof {
            use_type_invariant(&*self);
        }
        let mut m = hyper_map_new();
        std::mem::swap(&mut m, &mut self.map);
        let ghost before = header_groups(m);
        let r = hyper_remove(&mut m, key);
        proof {
            lemma_unique_preserved(before, Seq::empty(), Seq::empty(), key@);
        }
        self.map = m;
        r
    }

    /// Replaces every value under `name` by `value` (both given as bytes).
    pub fn insert_bytes(&mut self, name: &[u8], value: &[u8]) -> (ok: bool)
        requires
            old(self).groups().len() < MAX_HEADER_GROUPS,
        ensures
            ok == (valid_header_name(name@) && valid_header_value(value@)),
            ok ==> final(self).groups() == groups_insert(old(self).groups(), normalize_name(name@), value@),
            !ok ==> final(self).groups() == old(self).groups(),
            unique_names(final(self).groups()),
    {
        proof {
            use_type_invariant(&*self);
        }
        let mut m = hyper_map_new();
        std::mem::swap(&mut m, &mut self.map);
        let ghost before = header_groups(m);
        let r = hyper_insert(&mut m, name, value);
        proof {
            lemma_unique_preserved(before, normalize_name(name@), value@, Seq::empty());
        }
        self.map = m;
        r
    }

    /// A map holding what a map of the `http` crate holds: a copy of it.
    pub fn from_hyper(map: &hyper::HeaderMap) -> (r: Self)
        ensures
            r.groups() == header_groups(*map),
    {
        HttpHeaders { map: hyper_clone(map) }
    }

    /// The number of distinct names.
    pub fn group_count(&self) -> (r: usize)
        ensures
            r == self.groups().len(),
    {
        hyper_keys_len(&self.map)
    }

    /// The groups have distinct names.
    pub fn check_names_unique(&self)
        ensures
            unique_names(self.groups()),
    {
        proof {
            use_type_invariant(self);
        }
    }

    /// The map of the `http` crate this holds.
    pub fn into_hyper(self) -> (r: hyper::HeaderMap)
        ensures
            header_groups(r) == self.groups(),
    {
        self.map
    }

    /// How `Debug` writes the map: `HeaderMap(` and the map's pairs `)`.
    /// A value marked sensitive would be written `Sensitive` there; the
    /// text here writes every value out, as `Debug` writes a value that is
    /// not marked (hyper marks none of the values it parses, nor does this
    /// library).
    pub fn debug_text(&self) -> (r: String)
        ensures
            r@ == headers_debug_text(self.groups()),
    {
        let mut r = "HeaderMap(".to_owned();
        proof {
            reveal_strlit("HeaderMap(");
            assert("HeaderMap("@ =~= seq!['H', 'e', 'a', 'd', 'e', 'r', 'M', 'a', 'p', '(']);
        }
        let inner = map_debug(&self.map);
        push_str(&mut r, inner.as_str());
        r.push(')');
        r
    }

    /// A map with the same groups.
    pub fn duplicate(&self) -> (r: Self)
        ensures
            r.groups() == self.groups(),
            unique_names(r.groups()),
    {
        proof {
            use_type_invariant(self);
        }
        HttpHeaders { map: hyper_clone(&self.map) }
    }

    /// Whether some value is stored under `key`.
    pub fn contains(&self, key: &str) -> (r: bool)
        ensures
            r == (values_of(self.groups(), str_bytes(key@)).len() > 0),
    {
        let vals = hyper_get_all(&self.map, key.as_bytes());
        vals.len() > 0
    }
}

/// The header pairs as text: each name, and each value when it is visible
/// ASCII, else `<invalid UTF-8 in header value>`.
pub open spec fn header_texts(g: Seq<HeaderGroup>) -> Seq<(Seq<char>, Seq<char>)> {
    flatten(g).map_values(
        |p: (Seq<u8>, Seq<u8>)|
            (
                ascii_chars(p.0),
                if visible_ascii(p.1) {
                    ascii_chars(p.1)
                } else {
                    "<invalid UTF-8 in header value>"@
                },
            ),
    )
}

/// The header pairs as text, in order.
pub fn headers_to_vec(headers: &HttpHeaders) -> (r: Vec<(String, String)>)
    ensures
        r@.len() == header_texts(headers.groups()).len(),
        forall|i: int|
            #![trigger r@[i]]
            0 <= i < r@.len() ==> r@[i].0@ == header_texts(headers.groups())[i].0 && r@[i].1@
                == header_texts(headers.groups())[i].1,
{
    let pairs = headers.pairs();
    let ghost texts = header_texts(headers.groups());
    let mut r: Vec<(String, String)> = Vec::new();
    let mut i: usize = 0;
    while i < pairs.len()
        invariant
            i <= pairs.len(),
            texts == header_texts(headers.groups()),
            pairs.len() == flatten(headers.groups()).len(),
            forall|j: int|
                0 <= j < pairs.len() ==> {
                    let p = #[trigger] flatten(headers.groups())[j];
                    &&& pairs[j].0@ == ascii_chars(p.0)
                    &&& match pairs[j].1 {
                        Some(v) => visible_ascii(p.1) && v@ == ascii_chars(p.1),
                        None => !visible_ascii(p.1),
                    }
                },
            r@.len() == i,
            forall|j: int|
                #![trigger r@[j]]
                0 <= j < i ==> r@[j].0@ == texts[j].0 && r@[j].1@ == texts[j].1,
        decreases pairs.len() - i,
    {
        let name = pairs[i].0.clone();
        let value = match &pairs[i].1 {
            Some(v) => v.clone(),
            None => {
                let mut t = String::new();
                push_str(&mut t, "<invalid UTF-8 in header value>");
                t
            },
        };
        let ghost p = flatten(headers.groups())[i as int];
        r.push((name, value));
        assert(texts[i as int] == (
            ascii_chars(p.0),
            if visible_ascii(p.1) {
                ascii_chars(p.1)
            } else {
                "<invalid UTF-8 in header value>"@
            },
        ));
        i += 1;
    }
    r
}

} // verus!
