use vstd::prelude::*;

verus! {

/// ASCII white space: the ASCII characters that `char::is_whitespace`
/// accepts (tab, line feed, vertical tab, form feed, carriage return and
/// space). PulseAudio's report separates its tokens with these.
pub open spec fn is_space(b: u8) -> bool {
    b == 32 || (9 <= b <= 13)
}

pub fn is_space_byte(b: u8) -> (r: bool)
    ensures
        r == is_space(b),
{
    b == 32 || (9 <= b && b <= 13)
}

pub open spec fn is_digit(b: u8) -> bool {
    48 <= b <= 57
}

pub open spec fn all_digits(s: Seq<u8>) -> bool {
    forall|i: int| 0 <= i < s.len() ==> is_digit(#[trigger] s[i])
}

/// The number that a run of decimal digits writes.
pub open spec fn digits_value(s: Seq<u8>) -> nat
    decreases s.len(),
{
    if s.len() == 0 {
        0
    } else {
        digits_value(s.drop_last()) * 10 + (s.last() - 48) as nat
    }
}

/// The percentage that a run of decimal digits reports, held to at most 100;
/// none where the run is empty or holds anything but digits.
pub open spec fn percent_of_digits(s: Seq<u8>) -> Option<nat> {
    if s.len() > 0 && all_digits(s) {
        Some(if digits_value(s) > 100 { 100 } else { digits_value(s) })
    } else {
        None
    }
}

/// The three bytes are the UTF-8 form of a white-space character: U+1680,
/// U+2000 to U+200A, U+2028, U+2029, U+202F, U+205F or U+3000.
pub open spec fn is_wide_space(a: u8, b: u8, c: u8) -> bool {
    ||| (a == 0xE1 && b == 0x9A && c == 0x80)
    ||| (a == 0xE2 && b == 0x80 && ((0x80 <= c <= 0x8A) || c == 0xA8 || c == 0xA9 || c == 0xAF))
    ||| (a == 0xE2 && b == 0x81 && c == 0x9F)
    ||| (a == 0xE3 && b == 0x80 && c == 0x80)
}

/// The two bytes are the UTF-8 form of U+0085 or U+00A0.
pub open spec fn is_latin_space(a: u8, b: u8) -> bool {
    a == 0xC2 && (b == 0x85 || b == 0xA0)
}

/// The length of the white-space character that `t` starts with, as
/// `char::is_whitespace` has them, in UTF-8; 0 where it starts with none.
pub open spec fn space_len_at_start(t: Seq<u8>) -> nat {
    if t.len() >= 1 && is_space(t[0]) {
        1
    } else if t.len() >= 2 && is_latin_space(t[0], t[1]) {
        2
    } else if t.len() >= 3 && is_wide_space(t[0], t[1], t[2]) {
        3
    } else {
        0
    }
}

/// The length of the white-space character that `t` ends with; 0 where it
/// ends with none.
pub open spec fn space_len_at_end(t: Seq<u8>) -> nat {
    let n = t.len() as int;
    if n >= 1 && is_space(t[n - 1]) {
        1
    } else if n >= 2 && is_latin_space(t[n - 2], t[n - 1]) {
        2
    } else if n >= 3 && is_wide_space(t[n - 3], t[n - 2], t[n - 1]) {
        3
    } else {
        0
    }
}

pub open spec fn trim_start(s: Seq<u8>) -> Seq<u8>
    decreases s.len(),
{
    if space_len_at_start(s) > 0 {
        trim_start(s.subrange(space_len_at_start(s) as int, s.len() as int))
    } else {
        s
    }
}

pub open spec fn trim_end(s: Seq<u8>) -> Seq<u8>
    decreases s.len(),
{
    if space_len_at_end(s) > 0 {
        trim_end(s.subrange(0, s.len() - space_len_at_end(s)))
    } else {
        s
    }
}

/// UTF-8 text without the white space at either end, as `str::trim` cuts
/// it: every character that `char::is_whitespace` accepts.
pub open spec fn trim(s: Seq<u8>) -> Seq<u8> {
    trim_end(trim_start(s))
}

fn space_at_start(s: &[u8], i: usize, j: usize) -> (r: usize)
    requires
        i <= j <= s@.len(),
    ensures
        r == space_len_at_start(s@.subrange(i as int, j as int)),
        r <= j - i,
{
    let ghost t = s@.subrange(i as int, j as int);
    let n = j - i;
    if n >= 1 {
        assert(t[0] == s@[i as int]);
    }
    if n >= 2 {
        assert(t[1] == s@[i + 1]);
    }
    if n >= 3 {
        assert(t[2] == s@[i + 2]);
    }
    if n >= 1 && is_space_byte(s[i]) {
        1
    } else if n >= 2 && s[i] == 0xC2 && (s[i + 1] == 0x85 || s[i + 1] == 0xA0) {
        2
    } else if n >= 3 && wide_space(s[i], s[i + 1], s[i + 2]) {
        3
    } else {
        0
    }
}

fn space_at_end(s: &[u8], i: usize, j: usize) -> (r: usize)
    requires
        i <= j <= s@.len(),
    ensures
        r == space_len_at_end(s@.subrange(i as int, j as int)),
        r <= j - i,
{
    let ghost t = s@.subrange(i as int, j as int);
    let n = j - i;
    if n >= 1 {
        assert(t[n - 1] == s@[j - 1]);
    }
    if n >= 2 {
        assert(t[n - 2] == s@[j - 2]);
    }
    if n >= 3 {
        assert(t[n - 3] == s@[j - 3]);
    }
    if n >= 1 && is_space_byte(s[j - 1]) {
        1
    } else if n >= 2 && s[j - 2] == 0xC2 && (s[j - 1] == 0x85 || s[j - 1] == 0xA0) {
        2
    } else if n >= 3 && wide_space(s[j - 3], s[j - 2], s[j - 1]) {
        3
    } else {
        0
    }
}

fn wide_space(a: u8, b: u8, c: u8) -> (r: bool)
    ensures
        r == is_wide_space(a, b, c),
{
    (a == 0xE1 && b == 0x9A && c == 0x80) || (a == 0xE2 && b == 0x80 && ((0x80 <= c && c <= 0x8A)
        || c == 0xA8 || c == 0xA9 || c == 0xAF)) || (a == 0xE2 && b == 0x81 && c == 0x9F) || (a
        == 0xE3 && b == 0x80 && c == 0x80)
}

/// The percentage that a decimal integer reports, held to at most 100: a
/// run of digits, with an optional `+` before it, as Rust's integer parsing
/// reads it; none for any other text.
pub open spec fn percent_of_number(s: Seq<u8>) -> Option<nat> {
    if s.len() > 0 && s[0] == 43 {
        percent_of_digits(s.drop_first())
    } else {
        percent_of_digits(s)
    }
}

/// Reads the percentage written in `s[lo..hi]`.
pub fn parse_percent(s: &[u8], lo: usize, hi: usize) -> (r: Option<u8>)
    requires
        lo <= hi <= s@.len(),
    ensures
        match percent_of_number(s@.subrange(lo as int, hi as int)) {
            Some(p) => r == Some(p as u8),
            None => r is None,
        },
{
    let ghost t = s@.subrange(lo as int, hi as int);
    if lo < hi && s[lo] == 43 {
        assert(t[0] == s@[lo as int]);
        assert(t.drop_first() =~= s@.subrange(lo + 1, hi as int));
        parse_digits(s, lo + 1, hi)
    } else {
        if lo < hi {
            assert(t[0] == s@[lo as int]);
        }
        parse_digits(s, lo, hi)
    }
}

/// Reads the percentage written in digits in `s[lo..hi]`.
fn parse_digits(s: &[u8], lo: usize, hi: usize) -> (r: Option<u8>)
    requires
        lo <= hi <= s@.len(),
    ensures
        match percent_of_digits(s@.subrange(lo as int, hi as int)) {
            Some(p) => r == Some(p as u8),
            None => r is None,
        },
{
    if lo == hi {
        return None;
    }
    let mut v: u64 = 0;
    let mut i: usize = lo;
    while i < hi
        invariant
            lo <= i <= hi <= s@.len(),
            all_digits(s@.subrange(lo as int, i as int)),
            v == (if digits_value(s@.subrange(lo as int, i as int)) > 100 {
                101
            } else {
                digits_value(s@.subrange(lo as int, i as int))
            }),
        decreases hi - i,
    {
        let b = s[i];
        let ghost pre = s@.subrange(lo as int, i as int);
        let ghost next = s@.subrange(lo as int, i + 1);
        if b < 48 || b > 57 {
            proof {
                let whole = s@.subrange(lo as int, hi as int);
                assert(whole[i - lo] == b);
            }
            return None;
        }
        proof {
            assert(next.drop_last() =~= pre);
            assert(next.last() == b);
            assert forall|k: int| 0 <= k < next.len() implies is_digit(#[trigger] next[k]) by {
                if k < pre.len() {
                    assert(next[k] == pre[k]);
                }
            }
        }
        let d = (b - 48) as u64;
        if v <= 100 {
            v = v * 10 + d;
            if v > 100 {
                v = 101;
            }
        }
        i += 1;
    }
    if v > 100 {
        Some(100)
    } else {
        Some(v as u8)
    }
}

/// Finds the part of `s` left once the white space at both ends is cut off.
pub fn trimmed_bounds(s: &[u8]) -> (r: (usize, usize))
    ensures
        r.0 <= r.1 <= s@.len(),
        r.0 == s@.len() - trim_start(s@).len(),
        r.1 == r.0 + trim(s@).len(),
        s@.subrange(r.0 as int, r.1 as int) == trim(s@),
{
    let n = s.len();
    let mut i: usize = 0;
    assert(s@.subrange(0, n as int) =~= s@);
    let mut k = space_at_start(s, 0, n);
    while k > 0
        invariant
            i <= n == s@.len(),
            k == space_len_at_start(s@.subrange(i as int, n as int)),
            k <= n - i,
            trim_start(s@.subrange(i as int, n as int)) == trim_start(s@),
        decreases n - i,
    {
        let ghost t = s@.subrange(i as int, n as int);
        assert(t.subrange(k as int, t.len() as int) =~= s@.subrange(i + k, n as int));
        i += k;
        k = space_at_start(s, i, n);
    }
    let mut j: usize = n;
    let mut k = space_at_end(s, i, n);
    while k > 0
        invariant
            i <= j <= n == s@.len(),
            k == space_len_at_end(s@.subrange(i as int, j as int)),
            k <= j - i,
            trim_start(s@) == s@.subrange(i as int, n as int),
            trim_end(s@.subrange(i as int, j as int)) == trim(s@),
        decreases j - i,
    {
        let ghost t = s@.subrange(i as int, j as int);
        assert(t.subrange(0, t.len() - k) =~= s@.subrange(i as int, j - k));
        j -= k;
        k = space_at_end(s, i, j);
    }
    (i, j)
}

/// The percentage that macOS's script interpreter reports for the output
/// volume: the whole text, once trimmed as `str::trim` trims, is a decimal
/// integer.
pub open spec fn mac_volume(s: Seq<u8>) -> Option<nat> {
    percent_of_number(trim(s))
}

pub fn read_mac_volume(s: &[u8]) -> (r: Option<u8>)
    ensures
        match mac_volume(s@) {
            Some(p) => r == Some(p as u8),
            None => r is None,
        },
{
    let (lo, hi) = trimmed_bounds(s);
    parse_percent(s, lo, hi)
}

/// The word `true`.
pub open spec fn true_word() -> Seq<u8> {
    seq![116u8, 114u8, 117u8, 101u8]
}

/// The word `false`.
pub open spec fn false_word() -> Seq<u8> {
    seq![102u8, 97u8, 108u8, 115u8, 101u8]
}

/// macOS answers whether the output is muted with the word `true` or
/// `false`, around white space; any other answer is no mute state.
pub open spec fn mac_mute_answer(s: Seq<u8>) -> Option<bool> {
    if trim(s) == true_word() {
        Some(true)
    } else if trim(s) == false_word() {
        Some(false)
    } else {
        None
    }
}

/// Whether `s[lo..hi]` is exactly `word`.
pub fn span_is(s: &[u8], lo: usize, hi: usize, word: &[u8]) -> (r: bool)
    requires
        lo <= hi <= s@.len(),
    ensures
        r == (s@.subrange(lo as int, hi as int) == word@),
{
    let ghost t = s@.subrange(lo as int, hi as int);
    if hi - lo != word.len() {
        return false;
    }
    let mut k: usize = 0;
    while k < word.len()
        invariant
            hi - lo == word@.len(),
            lo <= hi <= s@.len(),
            t == s@.subrange(lo as int, hi as int),
            k <= word@.len(),
            forall|m: int| 0 <= m < k ==> t[m] == word@[m],
        decreases word@.len() - k,
    {
        if s[lo + k] != word[k] {
            assert(t[k as int] != word@[k as int]);
            return false;
        }
        k += 1;
    }
    assert(t =~= word@);
    true
}

pub fn read_mac_mute_answer(s: &[u8]) -> (r: Option<bool>)
    ensures
        r == mac_mute_answer(s@),
{
    let (lo, hi) = trimmed_bounds(s);
    let true_bytes: [u8; 4] = [116u8, 114u8, 117u8, 101u8];
    let false_bytes: [u8; 5] = [102u8, 97u8, 108u8, 115u8, 101u8];
    assert(true_bytes@ =~= true_word());
    assert(false_bytes@ =~= false_word());
    if span_is(s, lo, hi, true_bytes.as_slice()) {
        Some(true)
    } else if span_is(s, lo, hi, false_bytes.as_slice()) {
        Some(false)
    } else {
        None
    }
}

/// The word `yes` starts at index `i` of `s`.
pub open spec fn yes_at(s: Seq<u8>, i: int) -> bool {
    0 <= i && i + 3 <= s.len() && s[i] == 121 && s[i + 1] == 101 && s[i + 2] == 115
}

/// PulseAudio's control tool reports the sink as muted when its answer holds
/// the word `yes`.
pub open spec fn pactl_muted(s: Seq<u8>) -> bool {
    exists|i: int| #[trigger] yes_at(s, i)
}

pub fn read_pactl_muted(s: &[u8]) -> (r: bool)
    ensures
        r == pactl_muted(s@),
{
    let n = s.len();
    let mut i: usize = 0;
    while n >= 3 && i <= n - 3
        invariant
            n == s@.len(),
            forall|k: int| 0 <= k < i ==> !#[trigger] yes_at(s@, k),
        decreases n - i,
    {
        if s[i] == 121 && s[i + 1] == 101 && s[i + 2] == 115 {
            assert(yes_at(s@, i as int));
            return true;
        }
        i += 1;
    }
    false
}

/// `p` is the place of the first `%` in `s`.
pub open spec fn first_percent_at(s: Seq<u8>, p: int) -> bool {
    0 <= p < s.len() && s[p] == 37 && forall|k: int| 0 <= k < p ==> s[k] != 37
}

/// `q` is the last white space before `p`.
pub open spec fn space_before(s: Seq<u8>, q: int, p: int) -> bool {
    0 <= q < p && is_space(s[q]) && forall|k: int| q < k < p ==> !is_space(s[k])
}

/// The percentage in a report of PulseAudio's control tool: the token that
/// ends at the first `%` and starts after the last white space before it.
pub open spec fn pactl_volume(s: Seq<u8>) -> Option<nat> {
    if exists|p: int| first_percent_at(s, p) {
        let p = choose|p: int| first_percent_at(s, p);
        if exists|q: int| space_before(s, q, p) {
            let q = choose|q: int| space_before(s, q, p);
            percent_of_number(s.subrange(q + 1, p))
        } else {
            None
        }
    } else {
        None
    }
}

pub fn read_pactl_volume(s: &[u8]) -> (r: Option<u8>)
    ensures
        match pactl_volume(s@) {
            Some(p) => r == Some(p as u8),
            None => r is None,
        },
{
    let n = s.len();
    let mut p: usize = 0;
    while p < n && s[p] != 37
        invariant
            p <= n == s@.len(),
            forall|k: int| 0 <= k < p ==> s@[k] != 37,
        decreases n - p,
    {
        p += 1;
    }
    if p == n {
        assert(!exists|x: int| first_percent_at(s@, x));
        return None;
    }
    assert(first_percent_at(s@, p as int));
    proof {
        let c = choose|x: int| first_percent_at(s@, x);
        assert(c == p) by {
            if c < p {
                assert(s@[c] != 37);
            } else if c > p {
                assert(s@[p as int] != 37);
            }
        }
    }
    let mut j: usize = p;
    while j > 0 && !is_space_byte(s[j - 1])
        invariant
            j <= p < n == s@.len(),
            forall|k: int| j <= k < p ==> !is_space(s@[k]),
        decreases j,
    {
        j -= 1;
    }
    if j == 0 {
        assert(!exists|x: int| space_before(s@, x, p as int)) by {
            if exists|x: int| space_before(s@, x, p as int) {
                let x = choose|x: int| space_before(s@, x, p as int);
                assert(!is_space(s@[x]));
            }
        }
        return None;
    }
    assert(space_before(s@, j - 1, p as int));
    proof {
        let c = choose|x: int| space_before(s@, x, p as int);
        assert(c == j - 1) by {
            if c < j - 1 {
                assert(!is_space(s@[j - 1]));
            } else if c > j - 1 {
                assert(!is_space(s@[c]));
            }
        }
    }
    parse_percent(s, j, p)
}

} // verus!
