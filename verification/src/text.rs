//! Character-level helpers shared by the parsers and the script builders:
//! whitespace tokenizing, decimal parsing and rendering, prefix and
//! substring tests.
use vstd::prelude::*;

verus! {

// ------------------------------------------------------------------ std names

/// Whether `char::is_whitespace` holds of `c` (the Unicode `White_Space` property).
pub uninterp spec fn unicode_whitespace(c: char) -> bool;

/// Whether `char::is_alphabetic` holds of `c` (the Unicode `Alphabetic` property).
pub uninterp spec fn unicode_alphabetic(c: char) -> bool;

/// What `str::to_lowercase` returns for `s`.
pub uninterp spec fn unicode_lowercase(s: Seq<char>) -> Seq<char>;

/// `char::is_whitespace`: the result is the Unicode `White_Space` property of `c`,
/// which is named, not spelled out.
#[verifier::external_body]
pub(crate) fn char_is_whitespace(c: char) -> (r: bool)
    ensures
        r == unicode_whitespace(c),
{
    c.is_whitespace()
}

/// `char::is_alphabetic`: the result is the Unicode `Alphabetic` property of `c`,
/// which is named, not spelled out.
#[verifier::external_body]
pub(crate) fn char_is_alphabetic(c: char) -> (r: bool)
    ensures
        r == unicode_alphabetic(c),
{
    c.is_alphabetic()
}

/// `str::to_lowercase`: the result is the Unicode lowercase mapping of `s`, a
/// function of `s` alone, named and not spelled out.
#[verifier::external_body]
pub(crate) fn to_lowercase(s: &str) -> (r: String)
    ensures
        r@ == unicode_lowercase(s@),
{
    s.to_lowercase()
}

/// `String::push`: appends one character.
#[verifier::external_body]
pub(crate) fn push_char(s: &mut String, c: char)
    ensures
        final(s)@ == old(s)@.push(c),
{
    s.push(c);
}

// ------------------------------------------------------------------ digits

pub open spec fn is_ascii_digit(c: char) -> bool {
    '0' <= c && c <= '9'
}

pub open spec fn all_digits(s: Seq<char>) -> bool {
    forall|i: int| 0 <= i < s.len() ==> is_ascii_digit(#[trigger] s[i])
}

pub open spec fn digit_value(c: char) -> nat {
    (c as int - '0' as int) as nat
}

/// The number that a run of decimal digits spells, most significant first.
pub open spec fn digits_value(s: Seq<char>) -> nat
    decreases s.len(),
{
    if s.len() == 0 {
        0
    } else {
        digits_value(s.drop_last()) * 10 + digit_value(s.last())
    }
}

/// What `str::parse::<u32>` gives for a string made of ASCII digits only.
pub open spec fn parse_digits_u32(s: Seq<char>) -> Option<u32> {
    if s.len() > 0 && all_digits(s) && digits_value(s) <= u32::MAX {
        Some(digits_value(s) as u32)
    } else {
        None
    }
}

/// What `str::parse::<i64>` gives: an optional single sign, then at least
/// one ASCII digit, and a value that fits.
pub open spec fn parse_i64_text(s: Seq<char>) -> Option<i64> {
    if s.len() > 0 && (s[0] == '+' || s[0] == '-') {
        let d = s.subrange(1, s.len() as int);
        let v: int = if s[0] == '-' {
            -(digits_value(d) as int)
        } else {
            digits_value(d) as int
        };
        if d.len() > 0 && all_digits(d) && i64::MIN <= v && v <= i64::MAX {
            Some(v as i64)
        } else {
            None
        }
    } else if s.len() > 0 && all_digits(s) && digits_value(s) <= i64::MAX {
        Some(digits_value(s) as i64)
    } else {
        None
    }
}

pub proof fn lemma_digits_value_push(s: Seq<char>, c: char)
    ensures
        digits_value(s.push(c)) == digits_value(s) * 10 + digit_value(c),
{
    assert(s.push(c).drop_last() =~= s);
}

/// Extending a run of digits never makes it spell a smaller number.
pub proof fn lemma_digits_value_grows(s: Seq<char>, k: int)
    requires
        0 <= k <= s.len(),
        all_digits(s),
    ensures
        digits_value(s.take(k)) <= digits_value(s),
    decreases s.len() - k,
{
    if k < s.len() {
        lemma_digits_value_grows(s, k + 1);
        assert(s.take(k + 1).drop_last() =~= s.take(k));
        assert(digits_value(s.take(k + 1)) == digits_value(s.take(k)) * 10 + digit_value(
            s.take(k + 1).last(),
        ));
    } else {
        assert(s.take(k) =~= s);
    }
}

fn digit_of(c: char) -> (d: u64)
    requires
        is_ascii_digit(c),
    ensures
        d == digit_value(c),
        d < 10,
{
    (c as u64) - ('0' as u64)
}

/// Parses a run of ASCII digits as a `u32`, as `str::parse::<u32>` does for
/// such a string: `None` when it is empty, holds anything but a digit, or
/// does not fit.
pub fn parse_u32_digits(s: &Vec<char>) -> (r: Option<u32>)
    ensures
        r == parse_digits_u32(s@),
{
    if s.len() == 0 {
        return None;
    }
    let mut acc: u64 = 0;
    let mut i: usize = 0;
    while i < s.len()
        invariant
            0 <= i <= s.len(),
            all_digits(s@.take(i as int)),
            acc == digits_value(s@.take(i as int)),
            acc <= u32::MAX,
        decreases s.len() - i,
    {
        let c = s[i];
        if !('0' <= c && c <= '9') {
            assert(!all_digits(s@));
            return None;
        }
        proof {
            lemma_digits_value_push(s@.take(i as int), c);
            assert(s@.take(i as int).push(c) =~= s@.take(i + 1));
        }
        let next = acc * 10 + digit_of(c);
        if next > 0xffff_ffff {
            proof {
                assert(all_digits(s@.take(i + 1)));
                if all_digits(s@) {
                    lemma_digits_value_grows(s@, i + 1);
                }
            }
            return None;
        }
        acc = next;
        i = i + 1;
    }
    assert(s@.take(s.len() as int) =~= s@);
    Some(acc as u32)
}

/// Collects the characters of `s`.
pub fn chars_of(s: &str) -> (v: Vec<char>)
    ensures
        v@ == s@,
{
    let n = s.unicode_len();
    let mut v: Vec<char> = Vec::new();
    let mut i: usize = 0;
    while i < n
        invariant
            n == s@.len(),
            0 <= i <= n,
            v@ =~= s@.take(i as int),
        decreases n - i,
    {
        v.push(s.get_char(i));
        i = i + 1;
    }
    assert(v@ =~= s@);
    v
}

/// Parses `s` as `str::parse::<i64>` does.
pub fn parse_i64(s: &str) -> (r: Option<i64>)
    ensures
        r == parse_i64_text(s@),
{
    let cs = chars_of(s);
    let n = cs.len();
    if n == 0 {
        return None;
    }
    let negative = cs[0] == '-';
    let start: usize = if cs[0] == '+' || cs[0] == '-' { 1 } else { 0 };
    if start == n {
        return None;
    }
    let ghost d = cs@.subrange(start as int, n as int);
    // The magnitude may reach 2^63 on the negative side.
    let limit: u64 = if negative { 0x8000_0000_0000_0000 } else { 0x7fff_ffff_ffff_ffff };
    let mut acc: u64 = 0;
    let mut i: usize = start;
    while i < n
        invariant
            n == cs@.len(),
            cs@ == s@,
            n > 0,
            negative == (cs@[0] == '-'),
            start == (if cs@[0] == '+' || cs@[0] == '-' { 1usize } else { 0usize }),
            start < n,
            limit == (if negative { 0x8000_0000_0000_0000u64 } else { 0x7fff_ffff_ffff_ffffu64 }),
            start <= i <= n,
            d == cs@.subrange(start as int, n as int),
            all_digits(d.take(i - start)),
            acc == digits_value(d.take(i - start)),
            acc <= limit,
            limit <= 0x8000_0000_0000_0000,
        decreases n - i,
    {
        let c = cs[i];
        if !('0' <= c && c <= '9') {
            assert(d[i - start] == c);
            assert(!all_digits(d));
            proof {
                if start == 0 {
                    assert(d =~= cs@);
                }
            }
            return None;
        }
        proof {
            lemma_digits_value_push(d.take(i - start), c);
            assert(d.take(i - start).push(c) =~= d.take(i - start + 1));
        }
        let digit = digit_of(c);
        if acc > (limit - digit) / 10 {
            proof {
                assert(acc * 10 + digit > limit) by (nonlinear_arith)
                    requires
                        acc > (limit - digit) / 10,
                        digit < 10,
                        limit >= 0x7fff_ffff_ffff_ffff,
                ;
                assert(all_digits(d.take(i - start + 1)));
                if all_digits(d) {
                    lemma_digits_value_grows(d, i - start + 1);
                }
                if start == 0 {
                    assert(d =~= cs@);
                }
            }
            return None;
        }
        proof {
            assert(acc * 10 + digit <= limit) by (nonlinear_arith)
                requires
                    acc <= (limit - digit) / 10,
                    digit < 10,
                    limit >= 0x7fff_ffff_ffff_ffff,
            ;
        }
        acc = acc * 10 + digit;
        i = i + 1;
    }
    assert(d.take(n - start) =~= d);
    if start == 0 {
        assert(d =~= cs@);
    }
    if negative {
        if acc == 0x8000_0000_0000_0000 {
            Some(i64::MIN)
        } else {
            Some(-(acc as i64))
        }
    } else {
        Some(acc as i64)
    }
}

// ------------------------------------------------------------------ rendering

pub open spec fn digit_char(d: nat) -> char {
    if d == 0 {
        '0'
    } else if d == 1 {
        '1'
    } else if d == 2 {
        '2'
    } else if d == 3 {
        '3'
    } else if d == 4 {
        '4'
    } else if d == 5 {
        '5'
    } else if d == 6 {
        '6'
    } else if d == 7 {
        '7'
    } else if d == 8 {
        '8'
    } else {
        '9'
    }
}

/// The decimal rendering of `n`, as `{}` formats an unsigned integer.
pub open spec fn decimal(n: nat) -> Seq<char>
    decreases n,
{
    if n < 10 {
        seq![digit_char(n)]
    } else {
        decimal(n / 10).push(digit_char(n % 10))
    }
}

/// `{:02}`: at least two digits, zero-padded on the left.
pub open spec fn pad2(n: nat) -> Seq<char> {
    if n < 10 {
        seq!['0'].push(digit_char(n))
    } else {
        decimal(n)
    }
}

fn digit_char_of(d: u64) -> (c: char)
    requires
        d < 10,
    ensures
        c == digit_char(d as nat),
{
    if d == 0 {
        '0'
    } else if d == 1 {
        '1'
    } else if d == 2 {
        '2'
    } else if d == 3 {
        '3'
    } else if d == 4 {
        '4'
    } else if d == 5 {
        '5'
    } else if d == 6 {
        '6'
    } else if d == 7 {
        '7'
    } else if d == 8 {
        '8'
    } else {
        '9'
    }
}

/// Appends the decimal rendering of `n`.
pub fn push_decimal(out: &mut String, n: u64)
    ensures
        final(out)@ == old(out)@ + decimal(n as nat),
    decreases n,
{
    if n >= 10 {
        push_decimal(out, n / 10);
    }
    push_char(out, digit_char_of(n % 10));
    assert(old(out)@ + decimal(n as nat) =~= (if n >= 10 {
        old(out)@ + decimal((n / 10) as nat)
    } else {
        old(out)@
    }).push(digit_char((n % 10) as nat)));
}

/// Appends `n` zero-padded to two digits.
pub fn push_pad2(out: &mut String, n: u64)
    ensures
        final(out)@ == old(out)@ + pad2(n as nat),
{
    if n < 10 {
        push_char(out, '0');
        push_char(out, digit_char_of(n));
        assert(old(out)@ + pad2(n as nat) =~= old(out)@.push('0').push(digit_char(n as nat)));
    } else {
        push_decimal(out, n);
    }
}

// ------------------------------------------------------------------ tokens

/// `str::split_whitespace`: the maximal runs of non-whitespace characters,
/// in order.
pub open spec fn split_ws(s: Seq<char>) -> Seq<Seq<char>>
    decreases s.len(),
{
    if s.len() == 0 {
        Seq::empty()
    } else {
        let init = s.drop_last();
        let c = s.last();
        let prev = split_ws(init);
        if unicode_whitespace(c) {
            prev
        } else if init.len() > 0 && !unicode_whitespace(init.last()) {
            prev.drop_last().push(prev.last().push(c))
        } else {
            prev.push(seq![c])
        }
    }
}

pub open spec fn views_of(v: Seq<String>) -> Seq<Seq<char>> {
    v.map_values(|t: String| t@)
}

/// The tokens collected so far, with the one still being built appended.
pub open spec fn with_pending(done: Seq<Seq<char>>, cur: Seq<char>) -> Seq<Seq<char>> {
    if cur.len() > 0 {
        done.push(cur)
    } else {
        done
    }
}

/// Splits `s` at whitespace, as `str::split_whitespace` does.
pub fn split_whitespace(s: &str) -> (r: Vec<String>)
    ensures
        views_of(r@) == split_ws(s@),
{
    let cs = chars_of(s);
    let n = cs.len();
    let mut out: Vec<String> = Vec::new();
    let mut cur = String::new();
    let mut i: usize = 0;
    while i < n
        invariant
            n == cs@.len(),
            cs@ == s@,
            0 <= i <= n,
            with_pending(views_of(out@), cur@) =~= split_ws(cs@.take(i as int)),
            cur@.len() > 0 ==> i > 0 && !unicode_whitespace(cs@[i - 1]),
            cur@.len() > 0 ==> split_ws(cs@.take(i as int)).last() == cur@,
            i > 0 && !unicode_whitespace(cs@[i - 1]) ==> cur@.len() > 0,
        decreases n - i,
    {
        let c = cs[i];
        let ghost before = cs@.take(i as int);
        let ghost after = cs@.take(i + 1);
        assert(after.drop_last() =~= before);
        assert(after.last() == c);
        if char_is_whitespace(c) {
            if cur.unicode_len() > 0 {
                let done = cur;
                cur = String::new();
                out.push(done);
                assert(views_of(out@) =~= views_of(out@.drop_last()).push(done@));
            }
        } else {
            let ghost old_cur = cur@;
            let ghost old_out = views_of(out@);
            push_char(&mut cur, c);
            proof {
                if old_cur.len() > 0 {
                    assert(before.len() > 0 && before.last() == cs@[i - 1]);
                    assert(split_ws(after) =~= split_ws(before).drop_last().push(old_cur.push(c)));
                    assert(split_ws(before) =~= old_out.push(old_cur));
                    assert(split_ws(before).drop_last() =~= old_out);
                } else {
                    if i > 0 {
                        assert(before.last() == cs@[i - 1]);
                    }
                    assert(split_ws(after) =~= split_ws(before).push(seq![c]));
                    assert(old_cur.push(c) =~= seq![c]);
                }
            }
        }
        i = i + 1;
    }
    assert(cs@.take(n as int) =~= cs@);
    if cur.unicode_len() > 0 {
        out.push(cur);
        assert(views_of(out@) =~= views_of(out@.drop_last()).push(out@.last()@));
    }
    assert(views_of(out@) =~= split_ws(s@));
    out
}

// ------------------------------------------------------------------ searching

/// `str::starts_with` for a string prefix.
pub fn starts_with(s: &str, prefix: &str) -> (r: bool)
    ensures
        r == prefix@.is_prefix_of(s@),
{
    let n = s.unicode_len();
    let m = prefix.unicode_len();
    if m > n {
        return false;
    }
    let mut i: usize = 0;
    while i < m
        invariant
            n == s@.len(),
            m == prefix@.len(),
            m <= n,
            0 <= i <= m,
            forall|j: int| 0 <= j < i ==> s@[j] == prefix@[j],
        decreases m - i,
    {
        if s.get_char(i) != prefix.get_char(i) {
            assert(s@.subrange(0, m as int)[i as int] != prefix@[i as int]);
            return false;
        }
        i = i + 1;
    }
    assert(prefix@ =~= s@.subrange(0, m as int));
    true
}

/// Whether `needle` occurs in `hay` starting at position `at`.
pub open spec fn occurs_at(hay: Seq<char>, needle: Seq<char>, at: int) -> bool {
    0 <= at && at + needle.len() <= hay.len() && hay.subrange(at, at + needle.len()) =~= needle
}

/// `str::contains` for a string pattern.
pub open spec fn has_substring(hay: Seq<char>, needle: Seq<char>) -> bool {
    exists|at: int| occurs_at(hay, needle, at)
}

/// `str::contains` for a string pattern.
pub fn contains(hay: &str, needle: &str) -> (r: bool)
    ensures
        r == has_substring(hay@, needle@),
{
    let h = chars_of(hay);
    let nd = chars_of(needle);
    let n = h.len();
    let m = nd.len();
    if m > n {
        assert forall|at: int| !occurs_at(hay@, needle@, at) by {}
        return false;
    }
    let mut at: usize = 0;
    while at <= n - m
        invariant
            h@ == hay@,
            nd@ == needle@,
            n == h@.len(),
            m == nd@.len(),
            m <= n,
            0 <= at <= n - m + 1,
            forall|k: int| 0 <= k < at ==> !occurs_at(hay@, needle@, k),
        decreases n - m + 1 - at,
    {
        let mut j: usize = 0;
        let mut same = true;
        while j < m
            invariant
                h@ == hay@,
                nd@ == needle@,
                n == h@.len(),
                m == nd@.len(),
                at + m <= n,
                0 <= j <= m,
                same == (forall|k: int| 0 <= k < j ==> h@[at + k] == nd@[k]),
            decreases m - j,
        {
            if h[at + j] != nd[j] {
                same = false;
            }
            j = j + 1;
        }
        if same {
            assert(hay@.subrange(at as int, at + m) =~= needle@);
            assert(occurs_at(hay@, needle@, at as int));
            return true;
        }
        proof {
            assert(!occurs_at(hay@, needle@, at as int)) by {
                if occurs_at(hay@, needle@, at as int) {
                    assert forall|k: int| 0 <= k < m implies h@[at + k] == nd@[k] by {
                        assert(hay@.subrange(at as int, at + m)[k] == needle@[k]);
                    }
                }
            }
        }
        at = at + 1;
    }
    assert forall|k: int| !occurs_at(hay@, needle@, k) by {
        if 0 <= k && k + m <= n {
            assert(k < at);
        }
    }
    false
}

/// String equality.
pub fn same_text(a: &str, b: &str) -> (r: bool)
    ensures
        r == (a@ == b@),
{
    let n = a.unicode_len();
    if n != b.unicode_len() {
        return false;
    }
    let mut i: usize = 0;
    while i < n
        invariant
            n == a@.len(),
            n == b@.len(),
            0 <= i <= n,
            forall|j: int| 0 <= j < i ==> a@[j] == b@[j],
        decreases n - i,
    {
        if a.get_char(i) != b.get_char(i) {
            return false;
        }
        i = i + 1;
    }
    assert(a@ =~= b@);
    true
}

/// Whether every character of `s` is whitespace, so that `str::trim` leaves
/// nothing of it.
pub open spec fn blank(s: Seq<char>) -> bool {
    forall|i: int| 0 <= i < s.len() ==> unicode_whitespace(#[trigger] s[i])
}

/// `s.trim().is_empty()`.
pub fn is_blank(s: &str) -> (r: bool)
    ensures
        r == blank(s@),
{
    let n = s.unicode_len();
    let mut i: usize = 0;
    while i < n
        invariant
            n == s@.len(),
            0 <= i <= n,
            forall|j: int| 0 <= j < i ==> unicode_whitespace(#[trigger] s@[j]),
        decreases n - i,
    {
        if !char_is_whitespace(s.get_char(i)) {
            return false;
        }
        i = i + 1;
    }
    true
}

} // verus!
