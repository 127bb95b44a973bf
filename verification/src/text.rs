//! Verified text building blocks: decimal rendering and parsing of
//! integers, and hex rendering of byte strings. Stored paths, download
//! filenames and API URLs are all assembled from these.

use vstd::prelude::*;
use vstd::string::*;

verus! {

/// The decimal digit character for a value below ten.
pub open spec fn digit_char(d: int) -> char {
    if d == 0 {
        '0'
    } else if d == 1 {
        '1'
    } else if d == 2 {
        '2'
    } else if d == 3 {
        '3'
    } else if d == 4 {
        '4'
    } else if d == 5 {
        '5'
    } else if d == 6 {
        '6'
    } else if d == 7 {
        '7'
    } else if d == 8 {
        '8'
    } else {
        '9'
    }
}

/// Whether `c` is a decimal digit character.
pub open spec fn is_digit(c: char) -> bool {
    c == '0' || c == '1' || c == '2' || c == '3' || c == '4' || c == '5' || c == '6' || c == '7'
        || c == '8' || c == '9'
}

/// The value of a decimal digit character.
pub open spec fn digit_val(c: char) -> int {
    if c == '0' {
        0
    } else if c == '1' {
        1
    } else if c == '2' {
        2
    } else if c == '3' {
        3
    } else if c == '4' {
        4
    } else if c == '5' {
        5
    } else if c == '6' {
        6
    } else if c == '7' {
        7
    } else if c == '8' {
        8
    } else {
        9
    }
}

/// The usual decimal rendering of a non-negative integer, most significant
/// digit first, no leading zeros (except for zero itself).
pub open spec fn dec_of(n: int) -> Seq<char>
    recommends
        n >= 0,
    decreases n,
{
    if n <= 9 {
        seq![digit_char(n)]
    } else {
        dec_of(n / 10) + seq![digit_char(n % 10)]
    }
}

fn digit_str(d: u64) -> (r: &'static str)
    requires
        d < 10,
    ensures
        r@ =~= seq![digit_char(d as int)],
{
    proof {
        reveal_strlit("0");
        reveal_strlit("1");
        reveal_strlit("2");
        reveal_strlit("3");
        reveal_strlit("4");
        reveal_strlit("5");
        reveal_strlit("6");
        reveal_strlit("7");
        reveal_strlit("8");
        reveal_strlit("9");
    }
    match d {
        0 => "0",
        1 => "1",
        2 => "2",
        3 => "3",
        4 => "4",
        5 => "5",
        6 => "6",
        7 => "7",
        8 => "8",
        _ => "9",
    }
}

/// Render `n` in decimal.
pub fn u64_to_dec(n: u64) -> (r: String)
    ensures
        r@ == dec_of(n as int),
    decreases n,
{
    if n <= 9 {
        digit_str(n).to_owned()
    } else {
        let mut s = u64_to_dec(n / 10);
        s.append(digit_str(n % 10));
        s
    }
}

/// The decimal rendering of a signed integer.
pub open spec fn dec_of_i64(n: int) -> Seq<char> {
    if n < 0 {
        seq!['-'] + dec_of(-n)
    } else {
        dec_of(n)
    }
}

/// Render `n` in decimal, with a leading minus for negative values.
pub fn i64_to_dec(n: i64) -> (r: String)
    ensures
        r@ == dec_of_i64(n as int),
{
    if n >= 0 {
        u64_to_dec(n as u64)
    } else {
        let mag: u64 = if n == i64::MIN {
            9223372036854775808u64
        } else {
            (-n) as u64
        };
        proof {
            reveal_strlit("-");
            assert("-"@ =~= seq!['-']);
        }
        let mut s = String::from_str("-");
        let d = u64_to_dec(mag);
        s.append(d.as_str());
        s
    }
}

/// A non-empty string of decimal digits.
pub open spec fn is_dec_seq(s: Seq<char>) -> bool {
    s.len() > 0 && (forall|i: int| 0 <= i < s.len() ==> is_digit(#[trigger] s[i]))
}

/// The integer a digit string denotes.
pub open spec fn dec_val(s: Seq<char>) -> int
    decreases s.len(),
{
    if s.len() == 0 {
        0
    } else {
        dec_val(s.drop_last()) * 10 + digit_val(s.last())
    }
}

pub proof fn lemma_dec_val_nonneg(s: Seq<char>)
    ensures
        dec_val(s) >= 0,
    decreases s.len(),
{
    if s.len() > 0 {
        lemma_dec_val_nonneg(s.drop_last());
    }
}

/// Extending a digit string on the right never lowers its value.
proof fn lemma_dec_val_prefix(s: Seq<char>, i: int)
    requires
        0 <= i <= s.len(),
    ensures
        dec_val(s.subrange(0, i)) <= dec_val(s),
    decreases s.len() - i,
{
    if i < s.len() {
        lemma_dec_val_prefix(s, i + 1);
        let shorter = s.subrange(0, i);
        let longer = s.subrange(0, i + 1);
        assert(longer.drop_last() =~= shorter);
        lemma_dec_val_nonneg(shorter);
    } else {
        assert(s.subrange(0, i) =~= s);
    }
}

fn digit_of(c: char) -> (r: Option<u64>)
    ensures
        match r {
            Some(v) => is_digit(c) && v == digit_val(c) && v < 10,
            None => !is_digit(c),
        },
{
    match c {
        '0' => Some(0),
        '1' => Some(1),
        '2' => Some(2),
        '3' => Some(3),
        '4' => Some(4),
        '5' => Some(5),
        '6' => Some(6),
        '7' => Some(7),
        '8' => Some(8),
        '9' => Some(9),
        _ => None,
    }
}

/// Parse a decimal integer. Returns the denoted value exactly when the
/// input is a non-empty string of digits whose value fits in a `u64`.
pub fn parse_u64(s: &str) -> (r: Option<u64>)
    ensures
        match r {
            Some(v) => is_dec_seq(s@) && v == dec_val(s@),
            None => !is_dec_seq(s@) || dec_val(s@) > u64::MAX,
        },
{
    let n = s.unicode_len();
    if n == 0 {
        return None;
    }
    let mut acc: u64 = 0;
    let mut i: usize = 0;
    while i < n
        invariant
            0 <= i <= n,
            n == s@.len(),
            forall|j: int| 0 <= j < i ==> is_digit(#[trigger] s@[j]),
            acc == dec_val(s@.subrange(0, i as int)),
        decreases n - i,
    {
        let c = s.get_char(i);
        let d = match digit_of(c) {
            Some(d) => d,
            None => {
                return None;
            },
        };
        proof {
            let prefix = s@.subrange(0, i as int);
            let next = s@.subrange(0, i as int + 1);
            assert(next.drop_last() =~= prefix);
            assert(next.last() == s@[i as int]);
            lemma_dec_val_nonneg(prefix);
        }
        if acc > (u64::MAX - d) / 10 {
            proof {
                lemma_dec_val_prefix(s@, i as int + 1);
            }
            return None;
        }
        acc = acc * 10 + d;
        i = i + 1;
    }
    proof {
        assert(s@.subrange(0, n as int) =~= s@);
    }
    Some(acc)
}

/// The hex digit character for a value below sixteen.
pub open spec fn hex_digit(d: int) -> char {
    if d < 10 {
        digit_char(d)
    } else if d == 10 {
        'a'
    } else if d == 11 {
        'b'
    } else if d == 12 {
        'c'
    } else if d == 13 {
        'd'
    } else if d == 14 {
        'e'
    } else {
        'f'
    }
}

/// Lowercase hex rendering of a byte string, two digits per byte.
pub open spec fn hex_of(bytes: Seq<u8>) -> Seq<char>
    decreases bytes.len(),
{
    if bytes.len() == 0 {
        Seq::empty()
    } else {
        hex_of(bytes.drop_last()) + seq![
            hex_digit(bytes.last() as int / 16),
            hex_digit(bytes.last() as int % 16),
        ]
    }
}

pub proof fn lemma_hex_len(bytes: Seq<u8>)
    ensures
        hex_of(bytes).len() == 2 * bytes.len(),
    decreases bytes.len(),
{
    if bytes.len() > 0 {
        lemma_hex_len(bytes.drop_last());
    }
}

pub(crate) fn hex_digit_str(d: u8) -> (r: &'static str)
    requires
        d < 16,
    ensures
        r@ =~= seq![hex_digit(d as int)],
{
    if d < 10 {
        digit_str(d as u64)
    } else {
        proof {
            reveal_strlit("a");
            reveal_strlit("b");
            reveal_strlit("c");
            reveal_strlit("d");
            reveal_strlit("e");
            reveal_strlit("f");
        }
        match d {
            10 => "a",
            11 => "b",
            12 => "c",
            13 => "d",
            14 => "e",
            _ => "f",
        }
    }
}

/// Render a byte string as lowercase hex.
pub fn bytes_to_hex(bytes: &Vec<u8>) -> (r: String)
    ensures
        r@ == hex_of(bytes@),
{
    let mut out = String::new();
    let mut i: usize = 0;
    while i < bytes.len()
        invariant
            0 <= i <= bytes@.len(),
            out@ == hex_of(bytes@.subrange(0, i as int)),
        decreases bytes@.len() - i,
    {
        let b = bytes[i];
        out.append(hex_digit_str(b / 16));
        out.append(hex_digit_str(b % 16));
        proof {
            let prefix = bytes@.subrange(0, i as int);
            let next = bytes@.subrange(0, i as int + 1);
            assert(next.drop_last() =~= prefix);
            assert(next.last() == bytes@[i as int]);
        }
        i = i + 1;
    }
    proof {
        assert(bytes@.subrange(0, bytes@.len() as int) =~= bytes@);
    }
    out
}

/// The value a hex digit character denotes (sixteen for non-hex characters).
pub open spec fn hex_digit_val(c: char) -> int {
    if is_digit(c) {
        digit_val(c)
    } else if c == 'a' {
        10
    } else if c == 'b' {
        11
    } else if c == 'c' {
        12
    } else if c == 'd' {
        13
    } else if c == 'e' {
        14
    } else if c == 'f' {
        15
    } else {
        16
    }
}

proof fn lemma_hex_digit_inverse(d: int)
    requires
        0 <= d < 16,
    ensures
        hex_digit_val(hex_digit(d)) == d,
{
}

/// Hex rendering is injective: distinct byte strings render differently.
pub proof fn lemma_hex_injective(a: Seq<u8>, b: Seq<u8>)
    requires
        a != b,
    ensures
        hex_of(a) != hex_of(b),
    decreases a.len(),
{
    lemma_hex_len(a);
    lemma_hex_len(b);
    if a.len() != b.len() {
        // lengths of the renderings differ
    } else if a.len() == 0 {
        assert(a =~= b);
    } else {
        let ha = hex_of(a);
        let hb = hex_of(b);
        if a.last() != b.last() {
            let la = a.last() as int;
            let lb = b.last() as int;
            lemma_hex_digit_inverse(la / 16);
            lemma_hex_digit_inverse(lb / 16);
            lemma_hex_digit_inverse(la % 16);
            lemma_hex_digit_inverse(lb % 16);
            if la / 16 == lb / 16 && la % 16 == lb % 16 {
                assert(la == lb);
            }
            assert(ha.len() == 2 * a.len());
            if hex_digit(la / 16) != hex_digit(lb / 16) {
                assert(ha[ha.len() - 2] != hb[hb.len() - 2]);
            } else {
                assert(ha[ha.len() - 1] != hb[hb.len() - 1]);
            }
        } else {
            if a.drop_last() == b.drop_last() {
                assert(a =~= a.drop_last().push(a.last()));
                assert(b =~= b.drop_last().push(b.last()));
                assert(a == b);
            }
            lemma_hex_injective(a.drop_last(), b.drop_last());
            lemma_hex_len(a.drop_last());
            lemma_hex_len(b.drop_last());
            let pa = hex_of(a.drop_last());
            let pb = hex_of(b.drop_last());
            assert(pa.len() == pb.len());
            assert(exists|k: int| 0 <= k < pa.len() && pa[k] != pb[k]) by {
                if !(exists|k: int| 0 <= k < pa.len() && #[trigger] pa[k] != pb[k]) {
                    assert(pa =~= pb);
                }
            }
            let k = choose|k: int| 0 <= k < pa.len() && pa[k] != pb[k];
            assert(ha[k] == pa[k]);
            assert(hb[k] == pb[k]);
        }
    }
}

/// Whether `p` is a prefix of `s`.
pub open spec fn spec_starts_with(s: Seq<char>, p: Seq<char>) -> bool {
    p.len() <= s.len() && s.subrange(0, p.len() as int) == p
}

/// Whether `p` is a suffix of `s`.
pub open spec fn spec_ends_with(s: Seq<char>, p: Seq<char>) -> bool {
    p.len() <= s.len() && s.subrange(s.len() - p.len(), s.len() as int) == p
}

/// Character-wise string equality.
pub fn str_eq(a: &str, b: &str) -> (r: bool)
    ensures
        r == (a@ == b@),
{
    let an = a.unicode_len();
    let bn = b.unicode_len();
    if an != bn {
        proof {
            assert(a@ != b@);
        }
        return false;
    }
    let mut i: usize = 0;
    while i < an
        invariant
            0 <= i <= an,
            an == a@.len(),
            an == b@.len(),
            forall|j: int| 0 <= j < i ==> a@[j] == b@[j],
        decreases an - i,
    {
        if a.get_char(i) != b.get_char(i) {
            return false;
        }
        i = i + 1;
    }
    proof {
        assert(a@ =~= b@);
    }
    true
}

/// Prefix test.
pub fn str_starts_with(s: &str, p: &str) -> (r: bool)
    ensures
        r == spec_starts_with(s@, p@),
{
    let sn = s.unicode_len();
    let pn = p.unicode_len();
    if pn > sn {
        return false;
    }
    let mut i: usize = 0;
    while i < pn
        invariant
            0 <= i <= pn,
            pn <= sn,
            sn == s@.len(),
            pn == p@.len(),
            forall|j: int| 0 <= j < i ==> s@[j] == p@[j],
        decreases pn - i,
    {
        if s.get_char(i) != p.get_char(i) {
            proof {
                assert(s@.subrange(0, p@.len() as int)[i as int] != p@[i as int]);
            }
            return false;
        }
        i = i + 1;
    }
    proof {
        assert(s@.subrange(0, p@.len() as int) =~= p@);
    }
    true
}

/// Suffix test.
pub fn str_ends_with(s: &str, p: &str) -> (r: bool)
    ensures
        r == spec_ends_with(s@, p@),
{
    let sn = s.unicode_len();
    let pn = p.unicode_len();
    if pn > sn {
        return false;
    }
    let off = sn - pn;
    let mut i: usize = 0;
    while i < pn
        invariant
            0 <= i <= pn,
            pn <= sn,
            off == sn - pn,
            sn == s@.len(),
            pn == p@.len(),
            forall|j: int| 0 <= j < i ==> s@[off + j] == p@[j],
        decreases pn - i,
    {
        if s.get_char(off + i) != p.get_char(i) {
            proof {
                let pi = i as int;
                assert(s@.subrange(s@.len() - p@.len(), s@.len() as int)[pi] != p@[pi]);
            }
            return false;
        }
        i = i + 1;
    }
    proof {
        assert(s@.subrange(s@.len() - p@.len(), s@.len() as int) =~= p@);
    }
    true
}

/// The index of the last occurrence of `c` in `s`, or `-1` when absent.
pub open spec fn last_index_of(s: Seq<char>, c: char) -> int
    decreases s.len(),
{
    if s.len() == 0 {
        -1
    } else if s.last() == c {
        s.len() - 1
    } else {
        last_index_of(s.drop_last(), c)
    }
}

/// What `last_index_of` means: the returned index holds `c` and nothing
/// after it does; `-1` means `c` does not occur at all.
pub proof fn lemma_last_index_of(s: Seq<char>, c: char)
    ensures
        -1 <= last_index_of(s, c) < s.len(),
        last_index_of(s, c) >= 0 ==> s[last_index_of(s, c)] == c,
        forall|j: int| last_index_of(s, c) < j < s.len() ==> s[j] != c,
    decreases s.len(),
{
    if s.len() > 0 && s.last() != c {
        lemma_last_index_of(s.drop_last(), c);
        assert forall|j: int| last_index_of(s, c) < j < s.len() implies s[j] != c by {
            if j < s.len() - 1 {
                assert(s.drop_last()[j] == s[j]);
            } else {
                assert(s[j] == s.last());
            }
        }
    }
}

/// The index of the first occurrence of `c` in `s`, or `-1` when absent.
pub open spec fn first_index_of(s: Seq<char>, c: char) -> int
    decreases s.len(),
{
    if s.len() == 0 {
        -1
    } else if s[0] == c {
        0
    } else {
        let r = first_index_of(s.drop_first(), c);
        if r == -1 {
            -1
        } else {
            r + 1
        }
    }
}

/// What `first_index_of` means: the returned index holds `c` and nothing
/// before it does; `-1` means `c` does not occur at all.
pub proof fn lemma_first_index_of(s: Seq<char>, c: char)
    ensures
        -1 <= first_index_of(s, c) < s.len(),
        first_index_of(s, c) >= 0 ==> s[first_index_of(s, c)] == c,
        forall|j: int| 0 <= j < first_index_of(s, c) ==> s[j] != c,
        first_index_of(s, c) == -1 ==> forall|j: int| 0 <= j < s.len() ==> s[j] != c,
    decreases s.len(),
{
    if s.len() > 0 && s[0] != c {
        lemma_first_index_of(s.drop_first(), c);
        assert forall|j: int| 0 <= j < first_index_of(s, c) implies s[j] != c by {
            if j > 0 {
                assert(s.drop_first()[j - 1] == s[j]);
            }
        }
        if first_index_of(s, c) == -1 {
            assert forall|j: int| 0 <= j < s.len() implies s[j] != c by {
                if j > 0 {
                    assert(s.drop_first()[j - 1] == s[j]);
                }
            }
        }
    }
}

/// Find the first occurrence of `c` in `s`.
pub fn find_first_char(s: &str, c: char) -> (r: Option<usize>)
    ensures
        match r {
            Some(i) => i == first_index_of(s@, c),
            None => first_index_of(s@, c) == -1,
        },
{
    proof {
        lemma_first_index_of(s@, c);
    }
    let n = s.unicode_len();
    let mut i: usize = 0;
    while i < n
        invariant
            0 <= i <= n,
            n == s@.len(),
            forall|j: int| 0 <= j < i ==> s@[j] != c,
        decreases n - i,
    {
        if s.get_char(i) == c {
            proof {
                lemma_first_index_of(s@, c);
                if i as int != first_index_of(s@, c) {
                    assert(s@[first_index_of(s@, c)] == c);
                }
            }
            return Some(i);
        }
        i = i + 1;
    }
    None
}

/// The fields of `s` split at every occurrence of `c`: always at least one
/// field, one more per separator, separators not included.
pub open spec fn spec_split(s: Seq<char>, c: char) -> Seq<Seq<char>>
    decreases s.len(),
{
    if s.len() == 0 {
        seq![Seq::empty()]
    } else if s.last() == c {
        spec_split(s.drop_last(), c).push(Seq::empty())
    } else {
        let r = spec_split(s.drop_last(), c);
        r.update(r.len() - 1, r.last().push(s.last()))
    }
}

pub proof fn lemma_split_len(s: Seq<char>, c: char)
    ensures
        spec_split(s, c).len() >= 1,
    decreases s.len(),
{
    if s.len() > 0 {
        lemma_split_len(s.drop_last(), c);
    }
}

/// Split `s` at every occurrence of `c`.
pub fn split_char(s: &str, c: char) -> (r: Vec<String>)
    ensures
        r@.map_values(|x: String| x@) == spec_split(s@, c),
{
    let n = s.unicode_len();
    let mut done: Vec<String> = Vec::new();
    let mut cur = String::new();
    let mut i: usize = 0;
    while i < n
        invariant
            0 <= i <= n,
            n == s@.len(),
            spec_split(s@.subrange(0, i as int), c) == done@.map_values(|x: String| x@).push(cur@),
        decreases n - i,
    {
        let ch = s.get_char(i);
        let ghost prefix = s@.subrange(0, i as int);
        let ghost next = s@.subrange(0, i as int + 1);
        let ghost oldcur = cur@;
        let ghost oldviews = done@.map_values(|x: String| x@);
        proof {
            assert(next.drop_last() =~= prefix);
            assert(next.last() == s@[i as int]);
            lemma_split_len(prefix, c);
        }
        if ch == c {
            done.push(cur);
            cur = String::new();
            proof {
                assert(done@.map_values(|x: String| x@) =~= oldviews.push(oldcur));
                assert(spec_split(next, c) == spec_split(prefix, c).push(Seq::empty()));
                assert(spec_split(next, c) =~= done@.map_values(|x: String| x@).push(cur@));
            }
        } else {
            cur.append(s.substring_char(i, i + 1));
            proof {
                assert(s@.subrange(i as int, i as int + 1) =~= seq![s@[i as int]]);
                assert(cur@ =~= oldcur.push(s@[i as int]));
                let r = spec_split(prefix, c);
                assert(r == oldviews.push(oldcur));
                assert(r.last() == oldcur);
                assert(spec_split(next, c) == r.update(r.len() - 1, r.last().push(s@[i as int])));
                assert(spec_split(next, c) =~= oldviews.push(cur@));
                assert(done@.map_values(|x: String| x@) == oldviews);
            }
        }
        i = i + 1;
    }
    done.push(cur);
    proof {
        assert(s@.subrange(0, n as int) =~= s@);
    }
    done
}

/// ASCII whitespace.
pub open spec fn is_ws(c: char) -> bool {
    c == ' ' || c == '\t' || c == '\r' || c == '\n'
}

/// `s` without leading whitespace.
pub open spec fn spec_trim_start(s: Seq<char>) -> Seq<char>
    decreases s.len(),
{
    if s.len() > 0 && is_ws(s[0]) {
        spec_trim_start(s.drop_first())
    } else {
        s
    }
}

/// `s` without trailing whitespace.
pub open spec fn spec_trim_end(s: Seq<char>) -> Seq<char>
    decreases s.len(),
{
    if s.len() > 0 && is_ws(s.last()) {
        spec_trim_end(s.drop_last())
    } else {
        s
    }
}

/// `s` without leading and trailing whitespace.
pub open spec fn spec_trim(s: Seq<char>) -> Seq<char> {
    spec_trim_end(spec_trim_start(s))
}

proof fn lemma_trim_start_at(s: Seq<char>, a: int)
    requires
        0 <= a <= s.len(),
        forall|j: int| 0 <= j < a ==> is_ws(s[j]),
        a < s.len() ==> !is_ws(s[a]),
    ensures
        spec_trim_start(s) == s.subrange(a, s.len() as int),
    decreases a,
{
    if a == 0 {
        assert(s.subrange(0, s.len() as int) =~= s);
    } else {
        lemma_trim_start_at(s.drop_first(), a - 1);
        assert(forall|j: int|
            0 <= j < s.len() - 1 ==> #[trigger] s.drop_first()[j] == s[j + 1]);
        assert(s.drop_first().subrange(a - 1, s.len() - 1) =~= s.subrange(a, s.len() as int));
    }
}

proof fn lemma_trim_end_at(s: Seq<char>, b: int)
    requires
        0 <= b <= s.len(),
        forall|j: int| b <= j < s.len() ==> is_ws(s[j]),
        b > 0 ==> !is_ws(s[b - 1]),
    ensures
        spec_trim_end(s) == s.subrange(0, b),
    decreases s.len() - b,
{
    if b == s.len() {
        assert(s.subrange(0, s.len() as int) =~= s);
    } else {
        lemma_trim_end_at(s.drop_last(), b);
        assert(s.drop_last().subrange(0, b) =~= s.subrange(0, b));
    }
}

/// Strip leading and trailing ASCII whitespace.
pub fn trim_ws(s: &str) -> (r: String)
    ensures
        r@ == spec_trim(s@),
{
    let n = s.unicode_len();
    let mut a: usize = 0;
    while a < n && is_ws_char(s.get_char(a))
        invariant
            0 <= a <= n,
            n == s@.len(),
            forall|j: int| 0 <= j < a ==> is_ws(s@[j]),
        decreases n - a,
    {
        a = a + 1;
    }
    proof {
        lemma_trim_start_at(s@, a as int);
    }
    let mut b: usize = n;
    while b > a && is_ws_char(s.get_char(b - 1))
        invariant
            a <= b <= n,
            n == s@.len(),
            forall|j: int| b <= j < n ==> is_ws(s@[j]),
            forall|j: int| 0 <= j < a ==> is_ws(s@[j]),
            a < n ==> !is_ws(s@[a as int]),
        decreases b,
    {
        b = b - 1;
    }
    let r = s.substring_char(a, b).to_owned();
    proof {
        let st = s@.subrange(a as int, n as int);
        lemma_trim_end_at(st, b - a);
        assert(st.subrange(0, b - a) =~= s@.subrange(a as int, b as int));
    }
    r
}

fn is_ws_char(c: char) -> (r: bool)
    ensures
        r == is_ws(c),
{
    c == ' ' || c == '\t' || c == '\r' || c == '\n'
}

/// The index of the first `": "` in `s`, or `-1` when it has none.
pub open spec fn first_colon_space(s: Seq<char>) -> int
    decreases s.len(),
{
    if s.len() < 2 {
        -1
    } else if s[0] == ':' && s[1] == ' ' {
        0
    } else {
        let r = first_colon_space(s.drop_first());
        if r == -1 {
            -1
        } else {
            r + 1
        }
    }
}

pub proof fn lemma_first_colon_space(s: Seq<char>)
    ensures
        -1 <= first_colon_space(s) <= s.len() - 2 || (s.len() < 2 && first_colon_space(s) == -1),
        first_colon_space(s) >= 0 ==> s[first_colon_space(s)] == ':' && s[first_colon_space(s)
            + 1] == ' ',
        forall|j: int|
            0 <= j < first_colon_space(s) ==> !((#[trigger] s[j]) == ':' && s[j + 1] == ' '),
        first_colon_space(s) == -1 ==> forall|j: int|
            0 <= j < s.len() - 1 ==> !((#[trigger] s[j]) == ':' && s[j + 1] == ' '),
    decreases s.len(),
{
    if s.len() >= 2 && !(s[0] == ':' && s[1] == ' ') {
        lemma_first_colon_space(s.drop_first());
        assert forall|j: int|
            0 <= j < first_colon_space(s) implies !((#[trigger] s[j]) == ':' && s[j + 1]
            == ' ') by {
            if j > 0 {
                assert(s.drop_first()[j - 1] == s[j]);
                assert(s.drop_first()[j] == s[j + 1]);
            }
        }
        if first_colon_space(s) == -1 {
            assert forall|j: int|
                0 <= j < s.len() - 1 implies !((#[trigger] s[j]) == ':' && s[j + 1] == ' ') by {
                if j > 0 {
                    assert(s.drop_first()[j - 1] == s[j]);
                    assert(s.drop_first()[j] == s[j + 1]);
                }
            }
        }
    }
}

/// Find the first `": "` in `s`.
pub fn find_colon_space(s: &str) -> (r: Option<usize>)
    ensures
        match r {
            Some(i) => i == first_colon_space(s@),
            None => first_colon_space(s@) == -1,
        },
{
    proof {
        lemma_first_colon_space(s@);
    }
    let n = s.unicode_len();
    if n < 2 {
        return None;
    }
    let mut i: usize = 0;
    while i < n - 1
        invariant
            0 <= i <= n - 1,
            2 <= n == s@.len(),
            forall|j: int| 0 <= j < i ==> !((#[trigger] s@[j]) == ':' && s@[j + 1] == ' '),
        decreases n - i,
    {
        if s.get_char(i) == ':' && s.get_char(i + 1) == ' ' {
            proof {
                lemma_first_colon_space(s@);
                if i as int != first_colon_space(s@) {
                    assert(first_colon_space(s@) >= 0);
                }
            }
            return Some(i);
        }
        i = i + 1;
    }
    None
}

/// Find the last occurrence of `c` in `s`.
pub fn find_last_char(s: &str, c: char) -> (r: Option<usize>)
    ensures
        match r {
            Some(i) => i == last_index_of(s@, c),
            None => last_index_of(s@, c) == -1,
        },
{
    proof {
        lemma_last_index_of(s@, c);
    }
    let n = s.unicode_len();
    let mut i: usize = n;
    while i > 0
        invariant
            0 <= i <= n,
            n == s@.len(),
            forall|j: int| i <= j < n ==> s@[j] != c,
        decreases i,
    {
        i = i - 1;
        if s.get_char(i) == c {
            proof {
                if i as int != last_index_of(s@, c) {
                    lemma_last_index_of(s@, c);
                }
            }
            return Some(i);
        }
    }
    None
}

} // verus!
