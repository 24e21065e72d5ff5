//! The client patcher: it finds the game's static-server URL and RSA key in the memory of the
//! running client and overwrites them with the private server's.
//!
//! Reading and writing the process's memory stays outside; what is decided here is which
//! regions to search, where a byte sequence occurs in a region, what the replacements are,
//! and when the search is over.

use vstd::prelude::*;

use memmem::Searcher;

verus! {

// ---------------------------------------------------------------------------------------
// Memory regions, as `/proc/<pid>/maps` lists them
// ---------------------------------------------------------------------------------------

#[derive(Debug)]
pub struct MemoryRegion {
    pub start: usize,
    pub end: usize,
    pub offset: usize,
    pub perms: String,
    pub inode: String,
    pub dev: String,
    pub pathname: Option<String>,
}

impl MemoryRegion {
    /// The number of bytes in the region.
    pub fn size(&self) -> (r: usize)
        requires
            self.start <= self.end,
        ensures
            r == self.end - self.start,
    {
        self.end - self.start
    }
}

/// What `char::is_whitespace` holds: the characters of Unicode's `White_Space` property.
pub open spec fn is_whitespace(c: char) -> bool {
    ||| '\u{9}' <= c <= '\u{d}'
    ||| c == ' '
    ||| c == '\u{85}'
    ||| c == '\u{a0}'
    ||| c == '\u{1680}'
    ||| '\u{2000}' <= c <= '\u{200a}'
    ||| c == '\u{2028}'
    ||| c == '\u{2029}'
    ||| c == '\u{202f}'
    ||| c == '\u{205f}'
    ||| c == '\u{3000}'
}

pub fn char_is_whitespace(c: char) -> (r: bool)
    ensures
        r == is_whitespace(c),
{
    ('\u{9}' <= c && c <= '\u{d}') || c == ' ' || c == '\u{85}' || c == '\u{a0}' || c == '\u{1680}'
        || ('\u{2000}' <= c && c <= '\u{200a}') || c == '\u{2028}' || c == '\u{2029}' || c == '\u{202f}'
        || c == '\u{205f}' || c == '\u{3000}'
}

/// The words of a text read left to right: the finished ones, and the one being read.
pub open spec fn words_state(s: Seq<char>) -> (Seq<Seq<char>>, Seq<char>)
    decreases s.len(),
{
    if s.len() == 0 {
        (seq![], seq![])
    } else {
        let (done, cur) = words_state(s.drop_last());
        if is_whitespace(s.last()) {
            if cur.len() > 0 { (done.push(cur), seq![]) } else { (done, seq![]) }
        } else {
            (done, cur.push(s.last()))
        }
    }
}

/// What `split_whitespace` gives: the maximal runs of characters that are not whitespace.
pub open spec fn words(s: Seq<char>) -> Seq<Seq<char>> {
    let (done, cur) = words_state(s);
    if cur.len() > 0 { done.push(cur) } else { done }
}

pub fn split_whitespace(line: &str) -> (r: Vec<String>)
    ensures
        r@.map_values(|w: String| w@) == words(line@),
{
    let cs = crate::text::chars_of(line);
    let mut done: Vec<String> = Vec::new();
    let mut cur = String::new();
    let mut i: usize = 0;
    while i < cs.len()
        invariant
            i <= cs@.len(),
            cs@ == line@,
            (done@.map_values(|w: String| w@), cur@) == words_state(cs@.subrange(0, i as int)),
        decreases cs@.len() - i,
    {
        let ghost pre = cs@.subrange(0, i as int);
        assert(cs@.subrange(0, i + 1).drop_last() =~= pre);
        let c = cs[i];
        if char_is_whitespace(c) {
            if !cur.as_str().is_empty() {
                let ghost before = done@;
                let word = cur;
                done.push(word);
                assert(done@.map_values(|w: String| w@) =~= before.map_values(|w: String| w@).push(word@));
            }
            cur = String::new();
        } else {
            crate::text::push_char(&mut cur, c);
        }
        i = i + 1;
    }
    assert(cs@.subrange(0, cs@.len() as int) =~= cs@);
    if !cur.as_str().is_empty() {
        let ghost before = done@;
        let word = cur;
        done.push(word);
        assert(done@.map_values(|w: String| w@) =~= before.map_values(|w: String| w@).push(word@));
    }
    done
}

/// The value of a hex digit of either case.
pub open spec fn hex_char_value(c: char) -> Option<int> {
    if '0' <= c <= '9' {
        Some(c as int - '0' as int)
    } else if 'a' <= c <= 'f' {
        Some(c as int - 'a' as int + 10)
    } else if 'A' <= c <= 'F' {
        Some(c as int - 'A' as int + 10)
    } else {
        None
    }
}

pub open spec fn all_hex(s: Seq<char>) -> bool {
    forall|i: int| 0 <= i < s.len() ==> (#[trigger] hex_char_value(s[i])) is Some
}

/// The number hex digits write, most significant first.
pub open spec fn hex_value(s: Seq<char>) -> nat
    decreases s.len(),
{
    if s.len() == 0 {
        0
    } else {
        (hex_value(s.drop_last()) * 16 + hex_char_value(s.last()).unwrap()) as nat
    }
}

/// What `usize::from_str_radix(s, 16).ok()` gives: an optional `+`, then at least one hex
/// digit, the number fitting in a `usize`.
pub open spec fn spec_parse_hex_usize(s: Seq<char>) -> Option<usize> {
    if hex_digits_part(s).len() > 0 && all_hex(hex_digits_part(s)) && hex_value(hex_digits_part(s)) <= usize::MAX {
        Some(hex_value(hex_digits_part(s)) as usize)
    } else {
        None
    }
}

/// The text without a leading `+`.
pub open spec fn hex_digits_part(s: Seq<char>) -> Seq<char> {
    if s.len() > 0 && s[0] == '+' { s.drop_first() } else { s }
}

pub fn parse_hex_usize(s: &str) -> (r: Option<usize>)
    ensures
        r == spec_parse_hex_usize(s@),
{
    let cs = crate::text::chars_of(s);
    let n = cs.len();
    let mut start: usize = 0;
    if n > 0 && cs[0] == '+' {
        start = 1;
    }
    let ghost digits = hex_digits_part(s@);
    assert(cs@.subrange(start as int, n as int) =~= digits);
    if start == n {
        return None;
    }
    let mut acc: usize = 0;
    let mut i: usize = start;
    while i < n
        invariant
            start <= i <= n,
            n == cs@.len(),
            cs@ == s@,
            digits == hex_digits_part(s@),
            digits == cs@.subrange(start as int, n as int),
            all_hex(cs@.subrange(start as int, i as int)),
            acc == hex_value(cs@.subrange(start as int, i as int)),
        decreases n - i,
    {
        let c = cs[i];
        let d: usize = if '0' <= c && c <= '9' {
            (c as u32 - '0' as u32) as usize
        } else if 'a' <= c && c <= 'f' {
            (c as u32 - 'a' as u32 + 10) as usize
        } else if 'A' <= c && c <= 'F' {
            (c as u32 - 'A' as u32 + 10) as usize
        } else {
            assert(digits[i - start] == c);
            assert(hex_char_value(digits[i - start]) is None);
            assert(!all_hex(digits));
            assert(spec_parse_hex_usize(s@) is None);
            return None;
        };
        let ghost prev = cs@.subrange(start as int, i as int);
        assert(cs@.subrange(start as int, i + 1) =~= prev.push(c));
        assert(prev.push(c).drop_last() =~= prev);
        assert(hex_char_value(c) == Some(d as int));
        assert(all_hex(cs@.subrange(start as int, i + 1))) by {
            assert forall|j: int| 0 <= j < i + 1 - start implies (#[trigger] hex_char_value(cs@.subrange(start as int, i + 1)[j])) is Some by {
                if j < i - start {
                    assert(cs@.subrange(start as int, i + 1)[j] == prev[j]);
                }
            }
        }
        if acc > (usize::MAX - d) / 16 {
            proof {
                assert(acc * 16 + d > usize::MAX) by (nonlinear_arith)
                    requires
                        acc > (usize::MAX - d) / 16,
                        d < 16,
                ;
                let whole = cs@.subrange(start as int, n as int);
                let part = cs@.subrange(start as int, i + 1);
                assert(whole.subrange(0, part.len() as int) =~= part);
                assert(part.drop_last() =~= prev);
                assert(part.last() == c);
                assert(hex_value(part) == hex_value(prev) * 16 + d);
                lemma_hex_value_grows(part, whole);
                assert(whole == digits);
                assert(spec_parse_hex_usize(s@) is None);
            }
            return None;
        }
        acc = acc * 16 + d;
        i = i + 1;
    }
    Some(acc)
}

/// A longer run of hex digits is worth at least as much as its first part.
proof fn lemma_hex_value_grows(prefix: Seq<char>, s: Seq<char>)
    requires
        prefix.len() <= s.len(),
        prefix == s.subrange(0, prefix.len() as int),
        all_hex(s.subrange(0, prefix.len() as int)),
    ensures
        all_hex(s) ==> hex_value(prefix) <= hex_value(s),
    decreases s.len(),
{
    if all_hex(s) && prefix.len() < s.len() {
        assert(s.drop_last().subrange(0, prefix.len() as int) == prefix);
        lemma_hex_value_grows(prefix, s.drop_last());
    } else if prefix.len() == s.len() {
        assert(prefix =~= s);
    }
}

/// A line of the maps file, read.
#[derive(Debug)]
pub enum MapsLine {
    /// Fewer than five fields: not a region.
    Skip,
    Region(MemoryRegion),
    /// The address range or the offset does not read.
    Malformed,
}

/// The text before and after the first `-`.
pub open spec fn split_dash(s: Seq<char>) -> Option<(Seq<char>, Seq<char>)> {
    if exists|i: int| 0 <= i < s.len() && s[i] == '-' {
        let i = choose|i: int| 0 <= i < s.len() && s[i] == '-' && forall|j: int| 0 <= j < i ==> s[j] != '-';
        Some((s.subrange(0, i), s.subrange(i + 1, s.len() as int)))
    } else {
        None
    }
}

/// Words joined with single spaces.
pub open spec fn joined(ws: Seq<Seq<char>>) -> Seq<char>
    decreases ws.len(),
{
    if ws.len() == 0 {
        seq![]
    } else if ws.len() == 1 {
        ws[0]
    } else {
        joined(ws.drop_last()) + seq![' '] + ws.last()
    }
}

/// What a line of the maps file says: its fields are the address range `start-end` in hex,
/// the permissions, the offset in hex, the device, the inode, and a path of the remaining
/// fields joined with spaces, where there are any.
pub open spec fn maps_line_spec(line: Seq<char>, r: MapsLine) -> bool {
    let parts = words(line);
    if parts.len() < 5 {
        r is Skip
    } else {
        match (split_dash(parts[0]), spec_parse_hex_usize(parts[2])) {
            (Some((a, b)), Some(offset)) => match (spec_parse_hex_usize(a), spec_parse_hex_usize(b)) {
                (Some(start), Some(end)) => r matches MapsLine::Region(m) && {
                    &&& m.start == start
                    &&& m.end == end
                    &&& m.offset == offset
                    &&& m.perms@ == parts[1]
                    &&& m.dev@ == parts[3]
                    &&& m.inode@ == parts[4]
                    &&& if parts.len() > 5 {
                        m.pathname matches Some(p) && p@ == joined(parts.subrange(5, parts.len() as int))
                    } else {
                        m.pathname is None
                    }
                },
                _ => r is Malformed,
            },
            _ => r is Malformed,
        }
    }
}

fn split_at_dash(s: &str) -> (r: Option<(String, String)>)
    ensures
        match r {
            Some((a, b)) => split_dash(s@) == Some((a@, b@)),
            None => split_dash(s@) is None,
        },
{
    let cs = crate::text::chars_of(s);
    let mut i: usize = 0;
    let mut before = String::new();
    while i < cs.len() && cs[i] != '-'
        invariant
            i <= cs@.len(),
            cs@ == s@,
            before@ == cs@.subrange(0, i as int),
            forall|j: int| 0 <= j < i ==> cs@[j] != '-',
        decreases cs@.len() - i,
    {
        crate::text::push_char(&mut before, cs[i]);
        assert(cs@.subrange(0, i + 1) =~= cs@.subrange(0, i as int).push(cs@[i as int]));
        i = i + 1;
    }
    if i == cs.len() {
        return None;
    }
    let dash = i;
    let mut after = String::new();
    let mut j: usize = dash + 1;
    while j < cs.len()
        invariant
            dash < j <= cs@.len(),
            cs@ == s@,
            after@ == cs@.subrange(dash + 1, j as int),
        decreases cs@.len() - j,
    {
        crate::text::push_char(&mut after, cs[j]);
        assert(cs@.subrange(dash + 1, j + 1) =~= cs@.subrange(dash + 1, j as int).push(cs@[j as int]));
        j = j + 1;
    }
    proof {
        let k = choose|k: int| 0 <= k < s@.len() && s@[k] == '-' && forall|q: int| 0 <= q < k ==> s@[q] != '-';
        assert(s@[dash as int] == '-');
        if k < dash {
            assert(cs@[k] != '-');
        } else if dash < k {
            assert(s@[dash as int] != '-');
        }
    }
    Some((before, after))
}

fn join_words(ws: &Vec<String>, from: usize) -> (r: String)
    requires
        from < ws@.len(),
    ensures
        r@ == joined(ws@.map_values(|w: String| w@).subrange(from as int, ws@.len() as int)),
{
    let ghost view = ws@.map_values(|w: String| w@);
    let n = ws.len();
    let mut r = ws[from].clone();
    let mut k: usize = from + 1;
    assert(view.subrange(from as int, k as int) =~= seq![view[from as int]]);
    while k < ws.len()
        invariant
            from < k <= ws@.len(),
            view == ws@.map_values(|w: String| w@),
            r@ == joined(view.subrange(from as int, k as int)),
        decreases ws@.len() - k,
    {
        crate::text::push_char(&mut r, ' ');
        crate::text::push_str(&mut r, ws[k].as_str());
        let ghost sub = view.subrange(from as int, k + 1);
        assert(sub.drop_last() =~= view.subrange(from as int, k as int));
        assert(sub.last() == ws@[k as int]@);
        k = k + 1;
    }
    r
}

/// A line of `/proc/<pid>/maps`, read.
pub fn parse_maps_line(line: &str) -> (r: MapsLine)
    ensures
        maps_line_spec(line@, r),
{
    let parts = split_whitespace(line);
    let ghost view = parts@.map_values(|w: String| w@);
    if parts.len() < 5 {
        return MapsLine::Skip;
    }
    assert(view[0] == parts@[0]@ && view[1] == parts@[1]@ && view[2] == parts@[2]@);
    assert(view[3] == parts@[3]@ && view[4] == parts@[4]@);
    let range = split_at_dash(parts[0].as_str());
    let offset = parse_hex_usize(parts[2].as_str());
    match (range, offset) {
        (Some((a, b)), Some(offset)) => match (parse_hex_usize(a.as_str()), parse_hex_usize(b.as_str())) {
            (Some(start), Some(end)) => {
                let pathname = if parts.len() > 5 {
                    Some(join_words(&parts, 5))
                } else {
                    None
                };
                MapsLine::Region(MemoryRegion {
                    start,
                    end,
                    offset,
                    perms: parts[1].clone(),
                    dev: parts[3].clone(),
                    inode: parts[4].clone(),
                    pathname,
                })
            },
            _ => MapsLine::Malformed,
        },
        _ => MapsLine::Malformed,
    }
}

/// The regions the patcher searches: those it may write to, in order.
pub open spec fn writable(m: MemoryRegion) -> bool {
    m.perms@.contains('w')
}

fn has_w(perms: &str) -> (r: bool)
    ensures
        r == perms@.contains('w'),
{
    let cs = crate::text::chars_of(perms);
    let mut i: usize = 0;
    while i < cs.len()
        invariant
            i <= cs@.len(),
            cs@ == perms@,
            forall|j: int| 0 <= j < i ==> cs@[j] != 'w',
        decreases cs@.len() - i,
    {
        if cs[i] == 'w' {
            return true;
        }
        i = i + 1;
    }
    false
}

pub fn get_suitable_regions(regions: Vec<MemoryRegion>) -> (r: Vec<MemoryRegion>)
    ensures
        r@ == regions@.filter(|m: MemoryRegion| writable(m)),
{
    let ghost all = regions@;
    let mut rest = regions;
    let mut kept: Vec<MemoryRegion> = Vec::new();
    let ghost mut n: int = 0;
    while rest.len() > 0
        invariant
            0 <= n <= all.len(),
            rest@ == all.skip(n),
            kept@ == all.subrange(0, n).filter(|m: MemoryRegion| writable(m)),
        decreases rest@.len(),
    {
        let m = rest.remove(0);
        assert(m == all[n]);
        let ghost pre = all.subrange(0, n);
        assert(all.subrange(0, n + 1) =~= pre.push(m));
        assert(pre.push(m).drop_last() =~= pre);
        reveal(Seq::filter);
        if has_w(m.perms.as_str()) {
            kept.push(m);
        }
        proof {
            n = n + 1;
        }
        assert(rest@ =~= all.skip(n));
    }
    assert(all.subrange(0, n) =~= all);
    kept
}

// ---------------------------------------------------------------------------------------
// Searching a region
// ---------------------------------------------------------------------------------------

/// The needle occurs in the haystack at `i`.
pub open spec fn occurs_at(haystack: Seq<u8>, needle: Seq<u8>, i: int) -> bool {
    0 <= i && i + needle.len() <= haystack.len() && haystack.subrange(i, i + needle.len()) == needle
}

/// The first place the needle occurs in the haystack at or after `from`.
pub open spec fn first_occurrence(haystack: Seq<u8>, needle: Seq<u8>, from: int, i: int) -> bool {
    &&& from <= i
    &&& occurs_at(haystack, needle, i)
    &&& forall|j: int| from <= j < i ==> !occurs_at(haystack, needle, j)
}

/// `TwoWaySearcher::new(needle).search_in(&haystack[from..])` of memmem: where the needle
/// first occurs in the haystack from `from` on, counted from `from`.
#[verifier::external_body]
pub(crate) fn search_from(haystack: &[u8], from: usize, needle: &[u8]) -> (r: Option<usize>)
    requires
        from <= haystack@.len(),
        needle@.len() > 0,
    ensures
        r matches Some(p) ==> first_occurrence(haystack@, needle@, from as int, from + p),
        r is None ==> forall|j: int| from <= j ==> !occurs_at(haystack@, needle@, j),
{
    memmem::TwoWaySearcher::new(needle).search_in(&haystack[from..])
}

/// The places the needle occurs, scanning from `from` and going on after each match.
pub open spec fn occurrences(haystack: Seq<u8>, needle: Seq<u8>, from: int) -> Seq<int>
    decreases haystack.len() - from,
{
    if needle.len() == 0 || from > haystack.len() {
        seq![]
    } else if exists|i: int| first_occurrence(haystack, needle, from, i) {
        let i = choose|i: int| first_occurrence(haystack, needle, from, i);
        if i + needle.len() > from {
            seq![i] + occurrences(haystack, needle, i + needle.len())
        } else {
            seq![]
        }
    } else {
        seq![]
    }
}

proof fn lemma_first_occurrence_unique(h: Seq<u8>, n: Seq<u8>, from: int, i: int, j: int)
    requires
        first_occurrence(h, n, from, i),
        first_occurrence(h, n, from, j),
    ensures
        i == j,
{
}

/// The places in a region's bytes where a sequence starts, the matches not overlapping:
/// after each match the search goes on past its end.
pub fn search_byte_sequence(buffer: &[u8], sequence: &[u8]) -> (r: Vec<usize>)
    requires
        sequence@.len() > 0,
    ensures
        r@.map_values(|a: usize| a as int) == occurrences(buffer@, sequence@, 0),
{
    let mut start: usize = 0;
    let mut addresses: Vec<usize> = Vec::new();
    let n = buffer.len();
    while start <= n
        invariant
            start <= n,
            n == buffer@.len(),
            sequence@.len() > 0,
            addresses@.map_values(|a: usize| a as int) + occurrences(buffer@, sequence@, start as int)
                == occurrences(buffer@, sequence@, 0),
        decreases n + 1 - start,
    {
        let ghost before = addresses@.map_values(|a: usize| a as int);
        match search_from(buffer, start, sequence) {
            Some(p) => {
                let ghost i = start + p;
                proof {
                    let c = choose|c: int| first_occurrence(buffer@, sequence@, start as int, c);
                    lemma_first_occurrence_unique(buffer@, sequence@, start as int, c, i);
                }
                let address = start + p;
                addresses.push(address);
                assert(addresses@.map_values(|a: usize| a as int) =~= before.push(address as int));
                let next = address + sequence.len();
                if next > n {
                    assert(occurrences(buffer@, sequence@, next as int) == Seq::<int>::empty());
                    assert(before.push(address as int) =~= before + occurrences(buffer@, sequence@, start as int));
                    return addresses;
                }
                assert(before + occurrences(buffer@, sequence@, start as int)
                    =~= before.push(address as int) + occurrences(buffer@, sequence@, next as int));
                start = next;
            },
            None => {
                assert(!exists|i: int| first_occurrence(buffer@, sequence@, start as int, i));
                assert(before =~= before + occurrences(buffer@, sequence@, start as int));
                return addresses;
            },
        }
    }
    addresses
}

// ---------------------------------------------------------------------------------------
// The replacements
// ---------------------------------------------------------------------------------------

/// The URL of the game's static server.
pub open spec fn original_static_url() -> Seq<char> {
    "https://static-prd-wonder.sesisoft.com/"@
}

/// The modulus of the game's own RSA key, big-endian, as `libil2cpp.so` holds it in base64:
/// `6dNRoG04n56HX2LiOAkpCC9fgjxvMKDyZGyx35Owh/sOU8HjpOdGHBy96ytzw9WMxzyvJkl29Q82mc4y7zKy3Skc
/// hVC16mnckCO26kf6Wn4Xe5lN0i7Ot5kIueWY2ioo8iRudj/EbNdumTU8I7oC7dWuvIEovK4eDJdFJO2tzZ8=`.
pub open spec fn original_key_spec() -> Seq<u8> {
    seq![
        0xe9u8, 0xd3u8, 0x51u8, 0xa0u8, 0x6du8, 0x38u8, 0x9fu8, 0x9eu8, 0x87u8, 0x5fu8, 0x62u8, 0xe2u8, 0x38u8, 0x09u8, 0x29u8, 0x08u8,
        0x2fu8, 0x5fu8, 0x82u8, 0x3cu8, 0x6fu8, 0x30u8, 0xa0u8, 0xf2u8, 0x64u8, 0x6cu8, 0xb1u8, 0xdfu8, 0x93u8, 0xb0u8, 0x87u8, 0xfbu8,
        0x0eu8, 0x53u8, 0xc1u8, 0xe3u8, 0xa4u8, 0xe7u8, 0x46u8, 0x1cu8, 0x1cu8, 0xbdu8, 0xebu8, 0x2bu8, 0x73u8, 0xc3u8, 0xd5u8, 0x8cu8,
        0xc7u8, 0x3cu8, 0xafu8, 0x26u8, 0x49u8, 0x76u8, 0xf5u8, 0x0fu8, 0x36u8, 0x99u8, 0xceu8, 0x32u8, 0xefu8, 0x32u8, 0xb2u8, 0xddu8,
        0x29u8, 0x1cu8, 0x85u8, 0x50u8, 0xb5u8, 0xeau8, 0x69u8, 0xdcu8, 0x90u8, 0x23u8, 0xb6u8, 0xeau8, 0x47u8, 0xfau8, 0x5au8, 0x7eu8,
        0x17u8, 0x7bu8, 0x99u8, 0x4du8, 0xd2u8, 0x2eu8, 0xceu8, 0xb7u8, 0x99u8, 0x08u8, 0xb9u8, 0xe5u8, 0x98u8, 0xdau8, 0x2au8, 0x28u8,
        0xf2u8, 0x24u8, 0x6eu8, 0x76u8, 0x3fu8, 0xc4u8, 0x6cu8, 0xd7u8, 0x6eu8, 0x99u8, 0x35u8, 0x3cu8, 0x23u8, 0xbau8, 0x02u8, 0xedu8,
        0xd5u8, 0xaeu8, 0xbcu8, 0x81u8, 0x28u8, 0xbcu8, 0xaeu8, 0x1eu8, 0x0cu8, 0x97u8, 0x45u8, 0x24u8, 0xedu8, 0xadu8, 0xcdu8, 0x9fu8,
    ]
}

pub fn original_key() -> (r: Vec<u8>)
    ensures
        r@ == original_key_spec(),
{
    let r: Vec<u8> = vec![
        0xe9, 0xd3, 0x51, 0xa0, 0x6d, 0x38, 0x9f, 0x9e, 0x87, 0x5f, 0x62, 0xe2, 0x38, 0x09, 0x29, 0x08,
        0x2f, 0x5f, 0x82, 0x3c, 0x6f, 0x30, 0xa0, 0xf2, 0x64, 0x6c, 0xb1, 0xdf, 0x93, 0xb0, 0x87, 0xfb,
        0x0e, 0x53, 0xc1, 0xe3, 0xa4, 0xe7, 0x46, 0x1c, 0x1c, 0xbd, 0xeb, 0x2b, 0x73, 0xc3, 0xd5, 0x8c,
        0xc7, 0x3c, 0xaf, 0x26, 0x49, 0x76, 0xf5, 0x0f, 0x36, 0x99, 0xce, 0x32, 0xef, 0x32, 0xb2, 0xdd,
        0x29, 0x1c, 0x85, 0x50, 0xb5, 0xea, 0x69, 0xdc, 0x90, 0x23, 0xb6, 0xea, 0x47, 0xfa, 0x5a, 0x7e,
        0x17, 0x7b, 0x99, 0x4d, 0xd2, 0x2e, 0xce, 0xb7, 0x99, 0x08, 0xb9, 0xe5, 0x98, 0xda, 0x2a, 0x28,
        0xf2, 0x24, 0x6e, 0x76, 0x3f, 0xc4, 0x6c, 0xd7, 0x6e, 0x99, 0x35, 0x3c, 0x23, 0xba, 0x02, 0xed,
        0xd5, 0xae, 0xbc, 0x81, 0x28, 0xbc, 0xae, 0x1e, 0x0c, 0x97, 0x45, 0x24, 0xed, 0xad, 0xcd, 0x9f,
    ];
    assert(r@ =~= original_key_spec());
    r
}

/// The value of a character of the standard base64 alphabet; -1 for any other character.
pub open spec fn base64_digit(c: char) -> int {
    if 'A' <= c && c <= 'Z' {
        c as int - 'A' as int
    } else if 'a' <= c && c <= 'z' {
        c as int - 'a' as int + 26
    } else if '0' <= c && c <= '9' {
        c as int - '0' as int + 52
    } else if c == '+' {
        62
    } else if c == '/' {
        63
    } else {
        -1
    }
}

/// The bytes that standard, padded base64 text stands for, four characters to three bytes;
/// a group that ends in one `=` stands for two bytes, one that ends in two for one byte.
pub open spec fn base64_text_bytes(text: Seq<char>) -> Seq<u8>
    decreases text.len(),
{
    if text.len() < 4 {
        seq![]
    } else {
        let a = base64_digit(text[0]);
        let b = base64_digit(text[1]);
        let c = if text[2] == '=' { 0 } else { base64_digit(text[2]) };
        let d = if text[3] == '=' { 0 } else { base64_digit(text[3]) };
        let n = ((a * 64 + b) * 64 + c) * 64 + d;
        let group: Seq<u8> = if text[2] == '=' {
            seq![(n / 65536) as u8]
        } else if text[3] == '=' {
            seq![(n / 65536) as u8, ((n / 256) % 256) as u8]
        } else {
            seq![(n / 65536) as u8, ((n / 256) % 256) as u8, (n % 256) as u8]
        };
        group + base64_text_bytes(text.subrange(4, text.len() as int))
    }
}

/// The game's RSA public key modulus as `libil2cpp` holds it, in base64.
pub open spec fn documented_key_base64() -> Seq<char> {
    seq![
        '6', 'd', 'N', 'R', 'o', 'G', '0', '4', 'n', '5', '6', 'H', 'X', '2', 'L', 'i',
        'O', 'A', 'k', 'p', 'C', 'C', '9', 'f', 'g', 'j', 'x', 'v', 'M', 'K', 'D', 'y',
        'Z', 'G', 'y', 'x', '3', '5', 'O', 'w', 'h', '/', 's', 'O', 'U', '8', 'H', 'j',
        'p', 'O', 'd', 'G', 'H', 'B', 'y', '9', '6', 'y', 't', 'z', 'w', '9', 'W', 'M',
        'x', 'z', 'y', 'v', 'J', 'k', 'l', '2', '9', 'Q', '8', '2', 'm', 'c', '4', 'y',
        '7', 'z', 'K', 'y', '3', 'S', 'k', 'c', 'h', 'V', 'C', '1', '6', 'm', 'n', 'c',
        'k', 'C', 'O', '2', '6', 'k', 'f', '6', 'W', 'n', '4', 'X', 'e', '5', 'l', 'N',
        '0', 'i', '7', 'O', 't', '5', 'k', 'I', 'u', 'e', 'W', 'Y', '2', 'i', 'o', 'o',
        '8', 'i', 'R', 'u', 'd', 'j', '/', 'E', 'b', 'N', 'd', 'u', 'm', 'T', 'U', '8',
        'I', '7', 'o', 'C', '7', 'd', 'W', 'u', 'v', 'I', 'E', 'o', 'v', 'K', '4', 'e',
        'D', 'J', 'd', 'F', 'J', 'O', '2', 't', 'z', 'Z', '8', '='
    ]
}

/// The key the patcher looks for is the game's own: the base64 text `libil2cpp` holds,
/// decoded.
#[verifier::rlimit(100)]
pub proof fn law_original_key_is_the_game_key()
    ensures
        base64_text_bytes(documented_key_base64()) == original_key_spec(),
        original_key_spec().len() == 128,
{
    reveal_with_fuel(base64_text_bytes, 44);
    assert(base64_text_bytes(documented_key_base64()) =~= original_key_spec());
}

/// The original URL as the patcher searches for it in memory.
pub fn original_url_bytes() -> (r: Vec<u8>)
    ensures
        r@ == units_bytes(utf16_units(original_static_url())),
{
    str_to_utf16_bytes("https://static-prd-wonder.sesisoft.com/")
}

/// The code units of the text in UTF-16, as `encode_utf16` writes them.
pub open spec fn utf16_units(s: Seq<char>) -> Seq<u16>
    decreases s.len(),
{
    if s.len() == 0 {
        seq![]
    } else {
        let c = s.last() as u32;
        let units = if c < 0x10000 {
            seq![c as u16]
        } else {
            seq![(0xD800 + (c - 0x10000) / 1024) as u16, (0xDC00 + (c - 0x10000) % 1024) as u16]
        };
        utf16_units(s.drop_last()) + units
    }
}

/// Each unit as two bytes, high byte first.
pub open spec fn units_bytes(u: Seq<u16>) -> Seq<u8> {
    Seq::new(2 * u.len(), |i: int| if i % 2 == 0 { (u[i / 2] / 256) as u8 } else { (u[i / 2] % 256) as u8 })
}

/// The text in UTF-16, each code unit high byte first, as the patcher searches for it.
pub fn str_to_utf16_bytes(input: &str) -> (r: Vec<u8>)
    ensures
        r@ == units_bytes(utf16_units(input@)),
{
    let cs = crate::text::chars_of(input);
    let mut bytes: Vec<u8> = Vec::new();
    let mut i: usize = 0;
    while i < cs.len()
        invariant
            i <= cs@.len(),
            cs@ == input@,
            bytes@ == units_bytes(utf16_units(cs@.subrange(0, i as int))),
        decreases cs@.len() - i,
    {
        let ghost pre = cs@.subrange(0, i as int);
        assert(cs@.subrange(0, i + 1).drop_last() =~= pre);
        let ch = cs[i];
        let c = ch as u32;
        proof {
            vstd::utf8::char_is_scalar(ch);
        }
        assert(c <= 0x10FFFF);
        let ghost before = utf16_units(pre);
        assert(cs@.subrange(0, i + 1).last() == ch);
        if c < 0x10000 {
            let w = c as u16;
            assert(utf16_units(cs@.subrange(0, i + 1)) == before + seq![w]);
            bytes.push((w / 256) as u8);
            bytes.push((w % 256) as u8);
            assert(bytes@ =~= units_bytes(before + seq![w]));
        } else {
            let v = c - 0x10000;
            let hi = (0xD800 + v / 1024) as u16;
            let lo = (0xDC00 + v % 1024) as u16;
            assert(utf16_units(cs@.subrange(0, i + 1)) == before + seq![hi, lo]);
            bytes.push((hi / 256) as u8);
            bytes.push((hi % 256) as u8);
            bytes.push((lo / 256) as u8);
            bytes.push((lo % 256) as u8);
            assert(bytes@ =~= units_bytes(before + seq![hi, lo]));
        }
        i = i + 1;
    }
    assert(cs@.subrange(0, cs@.len() as int) =~= cs@);
    bytes
}

/// The URL that replaces the original: the new one padded with `/` to the original's
/// length in characters. There is none where the new URL is longer, in bytes, than the
/// original.
pub open spec fn padded_url_spec(url: Seq<char>) -> Option<Seq<char>> {
    if vstd::utf8::encode_utf8(url).len() > vstd::utf8::encode_utf8(original_static_url()).len() {
        None
    } else if url.len() < original_static_url().len() {
        Some(url + Seq::new((original_static_url().len() - url.len()) as nat, |i: int| '/'))
    } else {
        Some(url)
    }
}

pub fn padded_static_url(url: &str) -> (r: Option<String>)
    ensures
        match r {
            Some(p) => padded_url_spec(url@) == Some(p@),
            None => padded_url_spec(url@) is None,
        },
{
    let original = "https://static-prd-wonder.sesisoft.com/";
    if url.as_bytes().len() > original.as_bytes().len() {
        return None;
    }
    let width = crate::text::chars_of(original).len();
    let count = crate::text::chars_of(url).len();
    let mut padded = url.to_owned();
    let mut k: usize = count;
    while k < width
        invariant
            count <= k <= width || (k == count && count >= width),
            width == original_static_url().len(),
            count == url@.len(),
            padded@ == url@ + Seq::new((k - count) as nat, |i: int| '/'),
        decreases width - k,
    {
        crate::text::push_char(&mut padded, '/');
        assert(url@ + Seq::new((k + 1 - count) as nat, |i: int| '/') =~= (url@ + Seq::new((k - count) as nat, |i: int| '/')).push('/'));
        k = k + 1;
    }
    proof {
        if count >= width {
            assert(padded@ =~= url@);
        }
    }
    Some(padded)
}

/// The bytes in reverse: the order a key sits in memory.
pub fn reversed_bytes(bytes: &[u8]) -> (r: Vec<u8>)
    ensures
        r@ == bytes@.reverse(),
{
    let mut r: Vec<u8> = Vec::new();
    let mut i: usize = bytes.len();
    while i > 0
        invariant
            i <= bytes@.len(),
            r@ == bytes@.subrange(i as int, bytes@.len() as int).reverse(),
        decreases i,
    {
        r.push(bytes[i - 1]);
        assert(r@ =~= bytes@.subrange(i - 1, bytes@.len() as int).reverse());
        i = i - 1;
    }
    assert(bytes@.subrange(0, bytes@.len() as int) =~= bytes@);
    r
}

/// What a pass over the regions found.
#[derive(Debug, Clone, Copy, PartialEq, Eq)]
pub enum ScanOutcome {
    /// The original was replaced this many times: done.
    Replaced(u64),
    /// The replacement was already there this many times: done.
    AlreadyPatched(u64),
    /// Neither was found: the user is asked to try again.
    NotFound,
}

/// After a pass: replacing wins over finding the replacement already in place.
pub fn scan_outcome(found_original: u64, found_patched: u64) -> (r: ScanOutcome)
    ensures
        found_original > 0 ==> r == ScanOutcome::Replaced(found_original),
        found_original == 0 && found_patched > 0 ==> r == ScanOutcome::AlreadyPatched(found_patched),
        found_original == 0 && found_patched == 0 ==> r == ScanOutcome::NotFound,
{
    if found_original > 0 {
        ScanOutcome::Replaced(found_original)
    } else if found_patched > 0 {
        ScanOutcome::AlreadyPatched(found_patched)
    } else {
        ScanOutcome::NotFound
    }
}

/// The counts a pass keeps as it goes: the occurrences of the original it overwrote, and the
/// occurrences of the replacement it found already in place.
#[derive(Debug, Clone, Copy, PartialEq, Eq)]
pub struct PatchTally {
    pub found_original: u64,
    pub found_patched: u64,
}

impl PatchTally {
    /// Nothing found yet.
    pub fn new() -> (r: Self)
        ensures
            r.found_original == 0 && r.found_patched == 0,
    {
        PatchTally { found_original: 0, found_patched: 0 }
    }

    /// A region held the replacement this many times already.
    pub fn count_patched(&mut self, occurrences: u64)
        requires
            old(self).found_patched + occurrences <= u64::MAX,
        ensures
            final(self).found_patched == old(self).found_patched + occurrences,
            final(self).found_original == old(self).found_original,
    {
        self.found_patched = self.found_patched + occurrences;
    }

    /// One occurrence of the original was overwritten.
    pub fn count_replaced(&mut self)
        requires
            old(self).found_original < u64::MAX,
        ensures
            final(self).found_original == old(self).found_original + 1,
            final(self).found_patched == old(self).found_patched,
    {
        self.found_original = self.found_original + 1;
    }

    /// What the pass found, once it is over.
    pub fn outcome(&self) -> (r: ScanOutcome)
        ensures
            r == scan_outcome_spec(self.found_original, self.found_patched),
    {
        scan_outcome(self.found_original, self.found_patched)
    }
}

/// After a pass: replacing wins over finding the replacement already in place.
pub open spec fn scan_outcome_spec(found_original: u64, found_patched: u64) -> ScanOutcome {
    if found_original > 0 {
        ScanOutcome::Replaced(found_original)
    } else if found_patched > 0 {
        ScanOutcome::AlreadyPatched(found_patched)
    } else {
        ScanOutcome::NotFound
    }
}

// ---------------------------------------------------------------------------------------
// The new key
// ---------------------------------------------------------------------------------------

/// The modulus of the RSA public key in PEM text (`-----BEGIN PUBLIC KEY-----`), big-endian.
pub uninterp spec fn pem_public_modulus(pem: Seq<u8>) -> Option<Seq<u8>>;

/// `Rsa::public_key_from_pem(pem)` of openssl, then `n().to_vec()`. The modulus is named.
#[verifier::external_body]
pub(crate) fn public_key_modulus(pem: &[u8]) -> (r: Option<Vec<u8>>)
    ensures
        r matches Some(n) ==> pem_public_modulus(pem@) == Some(n@),
        r is None ==> pem_public_modulus(pem@) is None,
{
    openssl::rsa::Rsa::public_key_from_pem(pem).ok().map(|rsa| rsa.n().to_vec())
}

/// `Rsa::private_key_from_pem(pem)` of openssl, then `n().to_vec()`. Nothing is stated of
/// the result: for an encrypted key, the C library may ask for a passphrase on the terminal,
/// so what comes back need not be a function of the text alone.
#[verifier::external_body]
pub(crate) fn private_key_modulus(pem: &[u8]) -> (r: Option<Vec<u8>>)
{
    openssl::rsa::Rsa::private_key_from_pem(pem).ok().map(|rsa| rsa.n().to_vec())
}

/// The modulus of the key in a PEM file: read as a public key, else as a private key. Where
/// the text holds a public key, its modulus; else whatever openssl reads of a private key.
pub fn read_public_key(pem: &[u8]) -> (r: Option<Vec<u8>>)
    ensures
        pem_public_modulus(pem@) matches Some(n) ==> r matches Some(m) && m@ == n,
{
    match public_key_modulus(pem) {
        Some(n) => Some(n),
        None => private_key_modulus(pem),
    }
}

} // verus!
