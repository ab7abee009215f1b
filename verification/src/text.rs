use vstd::prelude::*;
use vstd::string::StrSliceExecFns;
use vstd::string::StringSliceAdditionalSpecFns;
use vstd::utf8::{encode_utf8, is_ascii_chars};

verus! {

/// The character of decimal digit `d`.
pub open spec fn digit_char(d: nat) -> char {
    (48 + d) as char
}

/// The decimal representation of `n`, without leading zeros ("0" for zero).
pub open spec fn decimal(n: nat) -> Seq<char>
    decreases n,
{
    if n < 10 {
        seq![digit_char(n)]
    } else {
        decimal(n / 10).push(digit_char(n % 10))
    }
}

/// The decimal representation of `n`, padded with a leading zero to at least two digits.
pub open spec fn decimal2(n: nat) -> Seq<char> {
    if n < 10 {
        seq!['0'].add(decimal(n))
    } else {
        decimal(n)
    }
}

/// The views of a list of strings.
pub open spec fn string_views(v: Seq<String>) -> Seq<Seq<char>> {
    v.map_values(|s: String| s@)
}

/// Appends `c` to `s`.
#[verifier::external_body]
pub(crate) fn push_char(s: &mut String, c: char)
    ensures
        final(s)@ == old(s)@.push(c),
{
    s.push(c);
}

/// Appends `t` to `s`.
pub fn push_str(s: &mut String, t: &str)
    ensures
        final(s)@ == old(s)@ + t@,
{
    s.append(t);
}

/// Appends the decimal representation of `n` to `s`.
pub fn push_decimal(s: &mut String, n: u64)
    ensures
        final(s)@ == old(s)@ + decimal(n as nat),
    decreases n,
{
    if n >= 10 {
        push_decimal(s, n / 10);
    }
    let d: u8 = (n % 10) as u8;
    let c: char = (48u8 + d) as char;
    push_char(s, c);
    assert(final(s)@ =~= old(s)@ + decimal(n as nat));
}

/// The UTF-8 encoding length of a character sequence, in bytes.
pub open spec fn byte_len(s: Seq<char>) -> nat {
    encode_utf8(s).len()
}

/// `s` with every occurrence of `a` and of `b` removed.
pub open spec fn without_chars(s: Seq<char>, a: char, b: char) -> Seq<char>
    decreases s.len(),
{
    if s.len() == 0 {
        s
    } else {
        let rest = without_chars(s.drop_last(), a, b);
        if s.last() == a || s.last() == b {
            rest
        } else {
            rest.push(s.last())
        }
    }
}

/// Whether `c` is an ASCII decimal digit.
pub open spec fn is_ascii_digit(c: char) -> bool {
    '0' <= c <= '9'
}

/// A copy of `s` with every occurrence of `a` and of `b` removed.
pub fn remove_chars(s: &str, a: char, b: char) -> (r: String)
    ensures
        r@ == without_chars(s@, a, b),
{
    let n = s.unicode_len();
    let mut r = String::new();
    let mut i: usize = 0;
    while i < n
        invariant
            n == s@.len(),
            i <= n,
            r@ == without_chars(s@.take(i as int), a, b),
        decreases n - i,
    {
        let c = s.get_char(i);
        assert(s@.take(i + 1).drop_last() =~= s@.take(i as int));
        if c != a && c != b {
            push_char(&mut r, c);
        }
        i = i + 1;
    }
    assert(s@.take(n as int) =~= s@);
    r
}

/// The length of `s` in bytes.
pub fn str_byte_len(s: &str) -> (n: usize)
    ensures
        n == byte_len(s@),
{
    s.as_bytes().len()
}

/// What `str::to_uppercase` gives for a string: its Unicode uppercase mapping.
pub uninterp spec fn spec_to_uppercase(s: Seq<char>) -> Seq<char>;

/// `c` in uppercase where it is an ASCII lowercase letter, else `c`.
pub open spec fn ascii_upper(c: char) -> char {
    if 'a' <= c <= 'z' {
        ((c as u32) - 32) as char
    } else {
        c
    }
}

/// `c` in lowercase where it is an ASCII uppercase letter, else `c`.
pub open spec fn ascii_lower(c: char) -> char {
    if 'A' <= c <= 'Z' {
        ((c as u32) + 32) as char
    } else {
        c
    }
}

/// Calls `str::to_uppercase`. The result is the uppercase mapping that
/// `spec_to_uppercase` names; for ASCII text, whose Unicode uppercase mapping is
/// the ASCII one (`'a'..='z'` to `'A'..='Z'`, everything else kept), that is
/// stated. How other characters map is not stated.
#[verifier::external_body]
pub(crate) fn to_uppercase(s: &str) -> (r: String)
    ensures
        r@ == spec_to_uppercase(s@),
        is_ascii_chars(s@) ==> r@ == s@.map_values(|c: char| ascii_upper(c)),
{
    s.to_uppercase()
}

/// What `str::to_lowercase` gives for a string: its Unicode lowercase mapping.
pub uninterp spec fn spec_to_lowercase(s: Seq<char>) -> Seq<char>;

/// Calls `str::to_lowercase`. The result is the lowercase mapping that
/// `spec_to_lowercase` names; for ASCII text, whose Unicode lowercase mapping is
/// the ASCII one (`'A'..='Z'` to `'a'..='z'`, everything else kept), that is
/// stated. How other characters map is not stated.
#[verifier::external_body]
pub(crate) fn to_lowercase(s: &str) -> (r: String)
    ensures
        r@ == spec_to_lowercase(s@),
        is_ascii_chars(s@) ==> r@ == s@.map_values(|c: char| ascii_lower(c)),
{
    s.to_lowercase()
}

/// What `char::is_alphanumeric` answers: whether `c` is alphabetic or numeric in Unicode.
pub uninterp spec fn spec_is_alphanumeric(c: char) -> bool;

/// Whether `c` is an ASCII letter or digit.
pub open spec fn is_ascii_alphanumeric(c: char) -> bool {
    ('a' <= c <= 'z') || ('A' <= c <= 'Z') || ('0' <= c <= '9')
}

/// Calls `char::is_alphanumeric`. The answer is taken to be the one that
/// `spec_is_alphanumeric` names; for an ASCII character, the alphabetic ones are
/// the letters and the numeric ones the digits, and that is stated. Which other
/// characters qualify is not stated.
#[verifier::external_body]
pub(crate) fn is_alphanumeric(c: char) -> (b: bool)
    ensures
        b == spec_is_alphanumeric(c),
        (c as u32) < 128 ==> b == is_ascii_alphanumeric(c),
{
    c.is_alphanumeric()
}

/// Whether `c` has the Unicode White_Space property, which is what
/// `char::is_whitespace` answers: the controls U+0009 to U+000D, the space,
/// U+0085, the no-break space U+00A0, U+1680, the spaces U+2000 to U+200A, the
/// line and paragraph separators U+2028 and U+2029, U+202F, U+205F and U+3000.
pub open spec fn spec_is_whitespace(c: char) -> bool {
    let u = c as u32;
    ||| 0x09 <= u <= 0x0d
    ||| u == 0x20
    ||| u == 0x85
    ||| u == 0xa0
    ||| u == 0x1680
    ||| 0x2000 <= u <= 0x200a
    ||| u == 0x2028
    ||| u == 0x2029
    ||| u == 0x202f
    ||| u == 0x205f
    ||| u == 0x3000
}

/// Whether `c` is whitespace, as `char::is_whitespace` answers: whether it has
/// the Unicode White_Space property.
pub fn is_whitespace(c: char) -> (b: bool)
    ensures
        b == spec_is_whitespace(c),
{
    let u = c as u32;
    (0x09 <= u && u <= 0x0d) || u == 0x20 || u == 0x85 || u == 0xa0 || u == 0x1680 || (0x2000 <= u
        && u <= 0x200a) || u == 0x2028 || u == 0x2029 || u == 0x202f || u == 0x205f || u == 0x3000
}

/// `s` without its leading whitespace.
pub open spec fn trim_start(s: Seq<char>) -> Seq<char>
    decreases s.len(),
{
    if s.len() > 0 && spec_is_whitespace(s[0]) {
        trim_start(s.drop_first())
    } else {
        s
    }
}

/// `s` without its trailing whitespace.
pub open spec fn trim_end(s: Seq<char>) -> Seq<char>
    decreases s.len(),
{
    if s.len() > 0 && spec_is_whitespace(s.last()) {
        trim_end(s.drop_last())
    } else {
        s
    }
}

/// `s` without leading and trailing whitespace, as `str::trim` gives it.
pub open spec fn trim(s: Seq<char>) -> Seq<char> {
    trim_end(trim_start(s))
}

/// A copy of `s` without leading and trailing whitespace.
pub fn trimmed(s: &str) -> (r: String)
    ensures
        r@ == trim(s@),
{
    let n = s.unicode_len();
    let mut i: usize = 0;
    assert(s@.skip(0) =~= s@);
    while i < n && is_whitespace(s.get_char(i))
        invariant
            n == s@.len(),
            i <= n,
            trim_start(s@) == trim_start(s@.skip(i as int)),
        decreases n - i,
    {
        assert(s@.skip(i as int).drop_first() =~= s@.skip(i + 1));
        i = i + 1;
    }
    assert(trim_start(s@.skip(i as int)) == s@.skip(i as int)) by {
        if i < n {
            assert(s@.skip(i as int)[0] == s@[i as int]);
        }
    }
    let ghost t = s@.skip(i as int);
    let mut j: usize = n;
    assert(t.take(n - i) =~= t);
    while j > i && is_whitespace(s.get_char(j - 1))
        invariant
            n == s@.len(),
            i <= j <= n,
            t == s@.skip(i as int),
            trim_end(t) == trim_end(t.take(j - i)),
        decreases j,
    {
        assert(t.take(j - i).drop_last() =~= t.take(j - i - 1));
        assert(t.take(j - i).last() == s@[j - 1]);
        j = j - 1;
    }
    assert(trim_end(t.take(j - i)) == t.take(j - i)) by {
        if j > i {
            assert(t.take(j - i).last() == s@[j - 1]);
        }
    }
    let mut r = String::new();
    let mut k = i;
    while k < j
        invariant
            n == s@.len(),
            i <= k <= j <= n,
            t == s@.skip(i as int),
            r@ == t.take(k - i),
        decreases j - k,
    {
        push_char(&mut r, s.get_char(k));
        assert(t.take(k + 1 - i) =~= t.take(k - i).push(s@[k as int]));
        k = k + 1;
    }
    assert(t.take(j - i) == r@);
    r
}

/// The value of a string of decimal digits.
pub open spec fn digits_value(s: Seq<char>) -> nat
    decreases s.len(),
{
    if s.len() == 0 {
        0
    } else {
        digits_value(s.drop_last()) * 10 + (s.last() as nat - 48) as nat
    }
}

/// Whether every character of `s` is an ASCII decimal digit.
pub open spec fn all_digits(s: Seq<char>) -> bool {
    forall|i: int| 0 <= i < s.len() ==> is_ascii_digit(#[trigger] s[i])
}

/// The digits of an unsigned number in text: `s` without one leading `+`.
pub open spec fn unsigned_digits(s: Seq<char>) -> Seq<char> {
    if s.len() > 0 && s[0] == '+' {
        s.drop_first()
    } else {
        s
    }
}

/// The number `s` writes, as `str::parse` reads an unsigned integer: one
/// optional `+`, then one or more decimal digits; `None` for anything else.
pub open spec fn unsigned_value(s: Seq<char>) -> Option<nat> {
    let d = unsigned_digits(s);
    if d.len() > 0 && all_digits(d) {
        Some(digits_value(d))
    } else {
        None
    }
}

/// The number `s` writes, where it fits in a `u64`, as `s.parse::<u64>()` gives it.
pub fn parse_u64(s: &str) -> (r: Option<u64>)
    ensures
        r == match unsigned_value(s@) {
            Some(v) => if v <= u64::MAX {
                Some(v as u64)
            } else {
                None::<u64>
            },
            None => None::<u64>,
        },
{
    let n = s.unicode_len();
    let mut i: usize = 0;
    if n > 0 && s.get_char(0) == '+' {
        i = 1;
    }
    let ghost d = unsigned_digits(s@);
    assert(d =~= s@.skip(i as int));
    if i == n {
        return None;
    }
    let mut v: u64 = 0;
    let mut overflow = false;
    let mut k: usize = i;
    while k < n
        invariant
            n == s@.len(),
            i < n,
            i <= k <= n,
            d == s@.skip(i as int),
            d == unsigned_digits(s@),
            all_digits(d.take(k - i)),
            !overflow ==> v == digits_value(d.take(k - i)),
            overflow ==> digits_value(d.take(k - i)) > u64::MAX,
        decreases n - k,
    {
        let c = s.get_char(k);
        assert(d.take(k + 1 - i).drop_last() =~= d.take(k - i));
        assert(d.take(k + 1 - i).last() == c);
        if !('0' <= c && c <= '9') {
            assert(!all_digits(d)) by {
                assert(d[k - i] == c);
            }
            return None;
        }
        let digit: u64 = (c as u8 - 48u8) as u64;
        assert(digit == c as nat - 48);
        assert(all_digits(d.take(k + 1 - i))) by {
            assert forall|j: int| 0 <= j < d.take(k + 1 - i).len() implies is_ascii_digit(
                #[trigger] d.take(k + 1 - i)[j],
            ) by {
                if j < k - i {
                    assert(d.take(k + 1 - i)[j] == d.take(k - i)[j]);
                }
            }
        }
        if !overflow {
            if v > (u64::MAX - digit) / 10 {
                overflow = true;
                assert(digits_value(d.take(k + 1 - i)) > u64::MAX) by (nonlinear_arith)
                    requires
                        digits_value(d.take(k + 1 - i)) == v * 10 + digit,
                        v > (u64::MAX - digit) / 10,
                        digit <= 9,
                ;
            } else {
                assert(v * 10 + digit <= u64::MAX) by (nonlinear_arith)
                    requires
                        v <= (u64::MAX - digit) / 10,
                        digit <= 9,
                ;
                v = v * 10 + digit;
            }
        } else {
            assert(digits_value(d.take(k + 1 - i)) >= digits_value(d.take(k - i))) by (nonlinear_arith)
                requires
                    digits_value(d.take(k + 1 - i)) == digits_value(d.take(k - i)) * 10 + digit,
            ;
        }
        k = k + 1;
    }
    assert(d.take(n - i) =~= d);
    if overflow {
        None
    } else {
        Some(v)
    }
}

/// The part of `s` before its first `.`, or all of `s` where it has none.
pub open spec fn before_first_dot(s: Seq<char>) -> Seq<char> {
    if exists|i: int| 0 <= i < s.len() && s[i] == '.' {
        s.take(choose|i: int| 0 <= i < s.len() && s[i] == '.' && forall|j: int| 0 <= j < i ==> s[j] != '.')
    } else {
        s
    }
}

/// The number a menu entry such as "3. Title" starts with: the text before the
/// first `.`, trimmed, read as an unsigned number that fits a `u64`.
pub fn menu_number(label: &str) -> (r: Option<u64>)
    ensures
        r == match unsigned_value(trim(before_first_dot(label@))) {
            Some(v) => if v <= u64::MAX {
                Some(v as u64)
            } else {
                None::<u64>
            },
            None => None::<u64>,
        },
{
    let n = label.unicode_len();
    let mut head = String::new();
    let mut i: usize = 0;
    while i < n && label.get_char(i) != '.'
        invariant
            n == label@.len(),
            i <= n,
            head@ == label@.take(i as int),
            forall|j: int| 0 <= j < i ==> label@[j] != '.',
        decreases n - i,
    {
        push_char(&mut head, label.get_char(i));
        assert(label@.take(i + 1) =~= label@.take(i as int).push(label@[i as int]));
        i = i + 1;
    }
    assert(head@ == before_first_dot(label@)) by {
        if i < n {
            assert(label@[i as int] == '.');
            let k = choose|k: int| 0 <= k < label@.len() && label@[k] == '.' && forall|j: int|
                0 <= j < k ==> label@[j] != '.';
            assert(0 <= k < label@.len() && label@[k] == '.' && forall|j: int| 0 <= j < k ==> label@[j] != '.');
            if k < i {
                assert(label@[k] != '.');
            }
            if i < k {
                assert(label@[i as int] != '.');
            }
        } else {
            assert(label@.take(n as int) =~= label@);
            assert(!exists|k: int| 0 <= k < label@.len() && label@[k] == '.');
        }
    }
    let t = trimmed(head.as_str());
    parse_u64(t.as_str())
}

/// The part of `s` before its first `->`, or all of `s` where it has none.
pub open spec fn before_arrow(s: Seq<char>) -> Seq<char>
    decreases s.len(),
{
    if s.len() == 0 {
        s
    } else if s.len() >= 2 && s[0] == '-' && s[1] == '>' {
        Seq::empty()
    } else {
        seq![s[0]] + before_arrow(s.drop_first())
    }
}

/// The word that starts a transition label's track: `Track` and a space.
pub open spec fn track_word() -> Seq<char> {
    seq!['T', 'r', 'a', 'c', 'k', ' ']
}

/// The track number a transition label such as "Track 3 -> Track 4 (A -> B)"
/// starts with: the text before the first `->`, trimmed, must start with
/// `Track `; what follows, trimmed, is read as an unsigned number that fits a
/// `u64`.
pub open spec fn transition_start(label: Seq<char>) -> Option<u64> {
    let t = trim(before_arrow(label));
    if t.len() >= 6 && t.take(6) == track_word() {
        match unsigned_value(trim(t.skip(6))) {
            Some(v) => if v <= u64::MAX {
                Some(v as u64)
            } else {
                None::<u64>
            },
            None => None::<u64>,
        }
    } else {
        None::<u64>
    }
}

/// A copy of the characters of `s` from `lo` on.
fn suffix_from(s: &str, lo: usize) -> (r: String)
    requires
        lo <= s@.len(),
    ensures
        r@ == s@.skip(lo as int),
{
    let n = s.unicode_len();
    let mut r = String::new();
    let mut k = lo;
    while k < n
        invariant
            n == s@.len(),
            lo <= k <= n,
            r@ == s@.subrange(lo as int, k as int),
        decreases n - k,
    {
        push_char(&mut r, s.get_char(k));
        assert(s@.subrange(lo as int, k + 1) =~= s@.subrange(lo as int, k as int).push(s@[k as int]));
        k = k + 1;
    }
    assert(s@.subrange(lo as int, n as int) =~= s@.skip(lo as int));
    r
}

/// The number of the track a transition label such as "Track 3 -> Track 4 (A -> B)"
/// starts from.
pub fn transition_track_number(label: &str) -> (r: Option<u64>)
    ensures
        r == transition_start(label@),
{
    let n = label.unicode_len();
    let mut head = String::new();
    let mut i: usize = 0;
    assert(label@.skip(0) =~= label@);
    while i < n && !(i + 1 < n && label.get_char(i) == '-' && label.get_char(i + 1) == '>')
        invariant
            n == label@.len(),
            i <= n,
            head@ == label@.take(i as int),
            before_arrow(label@) == label@.take(i as int) + before_arrow(label@.skip(i as int)),
        decreases n - i,
    {
        let ghost rest = label@.skip(i as int);
        assert(rest[0] == label@[i as int]);
        assert(rest.drop_first() =~= label@.skip(i + 1));
        if i + 1 < n {
            assert(rest[1] == label@[i + 1]);
        }
        assert(label@.take(i as int) + before_arrow(rest) =~= label@.take(i + 1) + before_arrow(
            label@.skip(i + 1),
        ));
        push_char(&mut head, label.get_char(i));
        assert(label@.take(i + 1) =~= label@.take(i as int).push(label@[i as int]));
        i = i + 1;
    }
    proof {
        let rest = label@.skip(i as int);
        if i < n {
            assert(rest[0] == '-' && rest[1] == '>');
            assert(before_arrow(rest) =~= Seq::<char>::empty());
        } else {
            assert(rest =~= Seq::<char>::empty());
        }
        assert(head@ =~= before_arrow(label@));
    }
    let t = trimmed(head.as_str());
    let m = t.unicode_len();
    if m < 6 {
        return None;
    }
    let tt = t.as_str();
    let starts = tt.get_char(0) == 'T' && tt.get_char(1) == 'r' && tt.get_char(2) == 'a'
        && tt.get_char(3) == 'c' && tt.get_char(4) == 'k' && tt.get_char(5) == ' ';
    if !starts {
        assert(t@.take(6) != track_word()) by {
            if t@.take(6) == track_word() {
                assert(t@.take(6)[0] == t@[0]);
                assert(t@.take(6)[1] == t@[1]);
                assert(t@.take(6)[2] == t@[2]);
                assert(t@.take(6)[3] == t@[3]);
                assert(t@.take(6)[4] == t@[4]);
                assert(t@.take(6)[5] == t@[5]);
            }
        }
        return None;
    }
    assert(t@.take(6) =~= track_word());
    let rest = suffix_from(tt, 6);
    let number = trimmed(rest.as_str());
    parse_u64(number.as_str())
}

/// A string holds at least as many bytes as characters.
pub proof fn lemma_byte_len_at_least_len(s: Seq<char>)
    ensures
        byte_len(s) >= s.len(),
    decreases s.len(),
{
    if s.len() > 0 {
        lemma_byte_len_at_least_len(s.drop_first());
    }
}

} // verus!
