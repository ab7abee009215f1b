use vstd::prelude::*;
use vstd::string::{StrSliceExecFns, StringSliceAdditionalSpecFns};
use vstd::utf8::{decode_utf8, encode_utf8, is_char_boundary};

use crate::text::{
    ascii_upper, byte_len, decimal, is_ascii_digit, lemma_byte_len_at_least_len, push_char, push_decimal,
    push_str, remove_chars, spec_to_uppercase, str_byte_len, to_uppercase, without_chars,
};

verus! {

broadcast use vstd::utf8::encode_utf8_valid_utf8, vstd::utf8::encode_utf8_decode_utf8;

/// CD-TEXT metadata for the album or a track.
#[derive(Debug, Clone)]
pub struct CdText {
    /// Title of the album or track
    pub title: Option<String>,
    /// Performer/artist
    pub performer: Option<String>,
    /// Songwriter
    pub songwriter: Option<String>,
    /// Composer
    pub composer: Option<String>,
    /// Arranger
    pub arranger: Option<String>,
    /// Message (additional text)
    pub message: Option<String>,
    /// Genre
    pub genre: Option<String>,
    /// Disc identification info
    pub disc_id: Option<String>,
}

impl CdText {
    /// Whether no field holds a value.
    pub open spec fn spec_is_empty(&self) -> bool {
        &&& self.title is None
        &&& self.performer is None
        &&& self.songwriter is None
        &&& self.composer is None
        &&& self.arranger is None
        &&& self.message is None
        &&& self.genre is None
        &&& self.disc_id is None
    }

    /// CD-TEXT with every field unset.
    pub fn new() -> (t: CdText)
        ensures
            t.spec_is_empty(),
    {
        CdText {
            title: None,
            performer: None,
            songwriter: None,
            composer: None,
            arranger: None,
            message: None,
            genre: None,
            disc_id: None,
        }
    }

    /// Check if any CD-TEXT data is present.
    pub fn is_empty(&self) -> (b: bool)
        ensures
            b == self.spec_is_empty(),
    {
        self.title.is_none() && self.performer.is_none() && self.songwriter.is_none()
            && self.composer.is_none() && self.arranger.is_none() && self.message.is_none()
            && self.genre.is_none() && self.disc_id.is_none()
    }
}

impl Default for CdText {
    fn default() -> (t: CdText)
        ensures
            t.spec_is_empty(),
    {
        CdText::new()
    }
}

// ---------------------------------------------------------------------------
// MCN
// ---------------------------------------------------------------------------

/// The EAN-13 weighted digit sum of the first `k` characters of `s`:
/// digits at even positions count once, those at odd positions three times.
pub open spec fn ean_sum(s: Seq<char>, k: int) -> int
    decreases k,
{
    if k <= 0 {
        0
    } else {
        let d = s[k - 1] as int - '0' as int;
        ean_sum(s, k - 1) + if (k - 1) % 2 == 0 {
            d
        } else {
            3 * d
        }
    }
}

/// Every character of `s` is an ASCII digit.
pub open spec fn all_ascii_digits(s: Seq<char>) -> bool {
    forall|i: int| 0 <= i < s.len() ==> #[trigger] is_ascii_digit(s[i])
}

/// What validating the media catalog number `s` gives: `Ok` for a 13-digit code
/// whose EAN-13 check digit is right, or the message of the first failed check.
pub open spec fn mcn_check(s: Seq<char>) -> Result<(), Seq<char>> {
    if byte_len(s) != 13 {
        Err("MCN must be 13 digits, got "@ + decimal(byte_len(s)))
    } else if !all_ascii_digits(s) {
        Err("MCN must contain only digits"@)
    } else if ean_sum(s, s.len() as int) % 10 != 0 {
        Err("Invalid MCN check digit"@)
    } else {
        Ok(())
    }
}

/// The catalog number that `code` stands for: `code` without dashes and spaces.
pub open spec fn mcn_normalize(code: Seq<char>) -> Seq<char> {
    without_chars(code, '-', ' ')
}

/// MCN (Media Catalog Number) / UPC/EAN: 13 digits.
#[derive(Debug, Clone, PartialEq)]
pub struct Mcn(String);

impl View for Mcn {
    type V = Seq<char>;

    closed spec fn view(&self) -> Seq<char> {
        self.0@
    }
}

impl Mcn {
    /// Create a new MCN, checking its format.
    pub fn new(code: &str) -> (r: Result<Mcn, String>)
        ensures
            match mcn_check(mcn_normalize(code@)) {
                Ok(_) => r is Ok && r->Ok_0@ == mcn_normalize(code@),
                Err(m) => r is Err && r->Err_0@ == m,
            },
    {
        let mcn = Mcn(remove_chars(code, '-', ' '));
        match mcn.validate() {
            Ok(()) => Ok(mcn),
            Err(e) => Err(e),
        }
    }

    /// Create an MCN from a raw string without validation.
    pub fn from_raw(code: String) -> (m: Mcn)
        ensures
            m@ == mcn_normalize(code@),
    {
        Mcn(remove_chars(code.as_str(), '-', ' '))
    }

    /// Validate the MCN format and its EAN-13 check digit.
    pub fn validate(&self) -> (r: Result<(), String>)
        ensures
            match mcn_check(self@) {
                Ok(_) => r is Ok,
                Err(m) => r is Err && r->Err_0@ == m,
            },
    {
        let s = self.0.as_str();
        let len = str_byte_len(s);
        if len != 13 {
            let mut m = String::from_str("MCN must be 13 digits, got ");
            push_decimal(&mut m, len as u64);
            return Err(m);
        }
        let n = s.unicode_len();
        proof {
            lemma_byte_len_at_least_len(s@);
        }
        let mut i: usize = 0;
        while i < n
            invariant
                n == s@.len(),
                s@ == self@,
                byte_len(s@) == 13,
                n <= 13,
                i <= n,
                forall|j: int| 0 <= j < i ==> #[trigger] is_ascii_digit(s@[j]),
            decreases n - i,
        {
            let c = s.get_char(i);
            if !('0' <= c && c <= '9') {
                assert(!is_ascii_digit(s@[i as int]));
                return Err(String::from_str("MCN must contain only digits"));
            }
            i = i + 1;
        }
        let mut sum: u32 = 0;
        let mut k: usize = 0;
        while k < n
            invariant
                n == s@.len(),
                s@ == self@,
                n <= 13,
                k <= n,
                all_ascii_digits(s@),
                sum == ean_sum(s@, k as int),
                sum <= 27 * k,
            decreases n - k,
        {
            let c = s.get_char(k);
            assert(is_ascii_digit(s@[k as int]));
            let d: u32 = (c as u32) - 48;
            if k % 2 == 0 {
                sum = sum + d;
            } else {
                sum = sum + 3 * d;
            }
            k = k + 1;
        }
        if sum % 10 != 0 {
            return Err(String::from_str("Invalid MCN check digit"));
        }
        Ok(())
    }

    /// Get the MCN as a string.
    pub fn as_str(&self) -> (s: &str)
        ensures
            s@ == self@,
    {
        self.0.as_str()
    }

    /// The MCN as shown to users: the digits as stored.
    pub fn to_display_string(&self) -> (s: String)
        ensures
            s@ == self@,
    {
        self.0.clone()
    }
}

} // verus!

verus! {

// ---------------------------------------------------------------------------
// ISRC
// ---------------------------------------------------------------------------

/// The kinds of ASCII byte that the ISRC fields allow.
#[derive(Debug, Clone, Copy, PartialEq, Eq, Structural)]
pub enum ByteClass {
    /// `A`-`Z` or `a`-`z`
    Letter,
    /// A letter or a digit
    LetterOrDigit,
    /// `0`-`9`
    Digit,
}

/// Whether byte `x` is of class `c`.
pub open spec fn in_class(x: u8, c: ByteClass) -> bool {
    let letter = (65 <= x <= 90) || (97 <= x <= 122);
    let digit = 48 <= x <= 57;
    match c {
        ByteClass::Letter => letter,
        ByteClass::LetterOrDigit => letter || digit,
        ByteClass::Digit => digit,
    }
}

/// Whether every byte of `b` in `lo..hi` is of class `c`.
pub open spec fn all_in_class(b: Seq<u8>, lo: int, hi: int, c: ByteClass) -> bool {
    forall|i: int| lo <= i < hi ==> #[trigger] in_class(b[i], c)
}

/// What validating the ISRC `s` gives. The fields are checked on the UTF-8 bytes
/// of `s`; on whole characters this is the same as checking each character,
/// since a non-ASCII character encodes to bytes that belong to no class.
pub open spec fn isrc_check(s: Seq<char>) -> Result<(), Seq<char>> {
    let b = encode_utf8(s);
    if b.len() != 12 {
        Err("ISRC must be 12 characters, got "@ + decimal(b.len()))
    } else if !all_in_class(b, 0, 2, ByteClass::Letter) {
        Err("Country code must be 2 letters"@)
    } else if !all_in_class(b, 2, 5, ByteClass::LetterOrDigit) {
        Err("Registrant code must be 3 alphanumeric characters"@)
    } else if !all_in_class(b, 5, 7, ByteClass::Digit) {
        Err("Year must be 2 digits"@)
    } else if !all_in_class(b, 7, 12, ByteClass::Digit) {
        Err("Designation code must be 5 digits"@)
    } else {
        Ok(())
    }
}

/// Whether validating `s` stays on character boundaries: a 12-byte code is cut at
/// bytes 2, 5 and 7 as far as its earlier fields passed.
pub open spec fn isrc_checkable(s: Seq<char>) -> bool {
    let b = encode_utf8(s);
    b.len() != 12 || (is_char_boundary(b, 2) && (all_in_class(b, 0, 2, ByteClass::Letter) ==> (
    is_char_boundary(b, 5) && (all_in_class(b, 2, 5, ByteClass::LetterOrDigit)
        ==> is_char_boundary(b, 7)))))
}

/// Whether `s` can be cut into its four fields: it holds at least 12 bytes and
/// bytes 2, 5, 7 and 12 start characters (or end the string).
pub open spec fn isrc_sliceable(s: Seq<char>) -> bool {
    let b = encode_utf8(s);
    &&& b.len() >= 12
    &&& is_char_boundary(b, 2)
    &&& is_char_boundary(b, 5)
    &&& is_char_boundary(b, 7)
    &&& is_char_boundary(b, 12)
}

/// The characters of `s` whose encoding lies in bytes `lo..hi`.
pub open spec fn isrc_part(s: Seq<char>, lo: int, hi: int) -> Seq<char> {
    decode_utf8(encode_utf8(s).subrange(lo, hi))
}

/// The ISRC that an ASCII `code` stands for: its ASCII letters in uppercase,
/// without dashes.
pub open spec fn isrc_normalize_ascii(code: Seq<char>) -> Seq<char> {
    without_chars(code.map_values(|c: char| ascii_upper(c)), '-', '-')
}

/// The ISRC `s` with dashes between its fields: CC-XXX-YY-NNNNN.
pub open spec fn isrc_formatted(s: Seq<char>) -> Seq<char> {
    isrc_part(s, 0, 2) + seq!['-'] + isrc_part(s, 2, 5) + seq!['-'] + isrc_part(s, 5, 7) + seq!['-']
        + isrc_part(s, 7, 12)
}

/// The ISRC that `code` stands for: `code` in uppercase, without dashes.
pub open spec fn isrc_normalize(code: Seq<char>) -> Seq<char> {
    without_chars(spec_to_uppercase(code), '-', '-')
}

/// A boundary before `hi` in a valid encoding stays a boundary in the prefix up to `hi`.
proof fn lemma_prefix_boundary(b: Seq<u8>, hi: int, i: int)
    requires
        vstd::utf8::valid_utf8(b),
        vstd::utf8::valid_utf8(b.subrange(0, hi)),
        0 <= i < hi <= b.len(),
        is_char_boundary(b, i),
    ensures
        is_char_boundary(b.subrange(0, hi), i),
{
    vstd::utf8::is_char_boundary_iff_not_is_continuation_byte(b, i);
    vstd::utf8::is_char_boundary_iff_not_is_continuation_byte(b.subrange(0, hi), i);
}

/// Whether every byte of `b` in `lo..hi` is of class `c`.
fn bytes_in_class(b: &[u8], lo: usize, hi: usize, c: ByteClass) -> (r: bool)
    requires
        lo <= hi <= b@.len(),
    ensures
        r == all_in_class(b@, lo as int, hi as int, c),
{
    let mut i = lo;
    while i < hi
        invariant
            lo <= i <= hi <= b@.len(),
            all_in_class(b@, lo as int, i as int, c),
        decreases hi - i,
    {
        let x = b[i];
        let letter = (65 <= x && x <= 90) || (97 <= x && x <= 122);
        let digit = 48 <= x && x <= 57;
        let ok = match c {
            ByteClass::Letter => letter,
            ByteClass::LetterOrDigit => letter || digit,
            ByteClass::Digit => digit,
        };
        if !ok {
            assert(!in_class(b@[i as int], c));
            return false;
        }
        i = i + 1;
    }
    true
}

/// ISRC (International Standard Recording Code), format CC-XXX-YY-NNNNN:
/// country code (2 letters), registrant code (3 alphanumeric), year (2 digits)
/// and designation code (5 digits). Stored without dashes.
#[derive(Debug, Clone, PartialEq)]
pub struct Isrc(String);

impl View for Isrc {
    type V = Seq<char>;

    closed spec fn view(&self) -> Seq<char> {
        self.0@
    }
}

impl Isrc {
    /// Create a new ISRC code, checking its format.
    pub fn new(code: &str) -> (r: Result<Isrc, String>)
        requires
            vstd::utf8::is_ascii_chars(code@) || isrc_checkable(isrc_normalize(code@)),
        ensures
            match isrc_check(isrc_normalize(code@)) {
                Ok(_) => r is Ok && r->Ok_0@ == isrc_normalize(code@),
                Err(m) => r is Err && r->Err_0@ == m,
            },
            vstd::utf8::is_ascii_chars(code@) ==> match isrc_check(isrc_normalize_ascii(code@)) {
                Ok(_) => r is Ok && r->Ok_0@ == isrc_normalize_ascii(code@),
                Err(m) => r is Err && r->Err_0@ == m,
            },
    {
        let isrc = Isrc::from_raw_str(code);
        proof {
            if vstd::utf8::is_ascii_chars(code@) {
                lemma_ascii_boundaries(isrc@);
            }
        }
        match isrc.validate() {
            Ok(()) => Ok(isrc),
            Err(e) => Err(e),
        }
    }

    /// Like `new`, for any input: `None` where checking the code would cut a
    /// character in two, else what `new` gives.
    pub fn try_new(code: &str) -> (r: Option<Result<Isrc, String>>)
        ensures
            r is Some <==> isrc_checkable(isrc_normalize(code@)),
            r is Some ==> match isrc_check(isrc_normalize(code@)) {
                Ok(_) => r->Some_0 is Ok && r->Some_0->Ok_0@ == isrc_normalize(code@),
                Err(m) => r->Some_0 is Err && r->Some_0->Err_0@ == m,
            },
            vstd::utf8::is_ascii_chars(code@) ==> r is Some && match isrc_check(
                isrc_normalize_ascii(code@),
            ) {
                Ok(_) => r->Some_0 is Ok && r->Some_0->Ok_0@ == isrc_normalize_ascii(code@),
                Err(m) => r->Some_0 is Err && r->Some_0->Err_0@ == m,
            },
    {
        let isrc = Isrc::from_raw_str(code);
        proof {
            if vstd::utf8::is_ascii_chars(code@) {
                lemma_ascii_boundaries(isrc@);
            }
        }
        if isrc.is_checkable() {
            match isrc.validate() {
                Ok(()) => Some(Ok(isrc)),
                Err(e) => Some(Err(e)),
            }
        } else {
            None
        }
    }

    fn from_raw_str(code: &str) -> (i: Isrc)
        ensures
            i@ == isrc_normalize(code@),
            vstd::utf8::is_ascii_chars(code@) ==> i@ == isrc_normalize_ascii(code@)
                && vstd::utf8::is_ascii_chars(i@),
    {
        let upper = to_uppercase(code);
        proof {
            if vstd::utf8::is_ascii_chars(code@) {
                let u = code@.map_values(|c: char| ascii_upper(c));
                assert(vstd::utf8::is_ascii_chars(u)) by {
                    assert forall|k: int| 0 <= k < u.len() implies '\0' <= #[trigger] u[k] <= '\u{7f}' by {
                        let c = code@[k];
                        if 'a' <= c <= 'z' {
                            assert(u[k] == ((c as u32) - 32) as char);
                        }
                    }
                }
                lemma_without_ascii(u, '-', '-');
            }
        }
        Isrc(remove_chars(upper.as_str(), '-', '-'))
    }

    /// Whether the code can be cut into its four fields (as `formatted` and
    /// the field getters need).
    pub fn is_sliceable(&self) -> (r: bool)
        ensures
            r == isrc_sliceable(self@),
    {
        let s = self.0.as_str();
        let b = s.as_bytes();
        b.len() >= 12 && s.is_char_boundary(2) && s.is_char_boundary(5) && s.is_char_boundary(7)
            && s.is_char_boundary(12)
    }

    /// Whether validating this code stays on character boundaries.
    pub fn is_checkable(&self) -> (r: bool)
        ensures
            r == isrc_checkable(self@),
    {
        let s = self.0.as_str();
        let b = s.as_bytes();
        if b.len() != 12 {
            return true;
        }
        if !s.is_char_boundary(2) {
            return false;
        }
        if !bytes_in_class(b, 0, 2, ByteClass::Letter) {
            return true;
        }
        if !s.is_char_boundary(5) {
            return false;
        }
        if !bytes_in_class(b, 2, 5, ByteClass::LetterOrDigit) {
            return true;
        }
        s.is_char_boundary(7)
    }

    /// Create an ISRC from a raw string without validation.
    pub fn from_raw(code: String) -> (i: Isrc)
        ensures
            i@ == isrc_normalize(code@),
            vstd::utf8::is_ascii_chars(code@) ==> i@ == isrc_normalize_ascii(code@),
    {
        Isrc::from_raw_str(code.as_str())
    }

    /// Validate the ISRC format.
    pub fn validate(&self) -> (r: Result<(), String>)
        requires
            isrc_checkable(self@),
        ensures
            match isrc_check(self@) {
                Ok(_) => r is Ok,
                Err(m) => r is Err && r->Err_0@ == m,
            },
    {
        let b = self.0.as_str().as_bytes();
        let len = b.len();
        if len != 12 {
            let mut m = String::from_str("ISRC must be 12 characters, got ");
            push_decimal(&mut m, len as u64);
            return Err(m);
        }
        if !bytes_in_class(b, 0, 2, ByteClass::Letter) {
            return Err(String::from_str("Country code must be 2 letters"));
        }
        if !bytes_in_class(b, 2, 5, ByteClass::LetterOrDigit) {
            return Err(String::from_str("Registrant code must be 3 alphanumeric characters"));
        }
        if !bytes_in_class(b, 5, 7, ByteClass::Digit) {
            return Err(String::from_str("Year must be 2 digits"));
        }
        if !bytes_in_class(b, 7, 12, ByteClass::Digit) {
            return Err(String::from_str("Designation code must be 5 digits"));
        }
        Ok(())
    }

    /// Get the ISRC as a string (no dashes).
    pub fn as_str(&self) -> (s: &str)
        ensures
            s@ == self@,
    {
        self.0.as_str()
    }

    /// The characters of this code in bytes `lo..hi`, for field boundaries
    /// `lo < hi` among 0, 2, 5, 7 and 12.
    fn part(&self, lo: usize, hi: usize) -> (r: &str)
        requires
            isrc_sliceable(self@),
            lo < hi,
            lo == 0 || lo == 2 || lo == 5 || lo == 7,
            hi == 2 || hi == 5 || hi == 7 || hi == 12,
        ensures
            r@ == isrc_part(self@, lo as int, hi as int),
    {
        let s = self.0.as_str();
        let ghost b = encode_utf8(s@);
        proof {
            vstd::utf8::is_char_boundary_start_end_of_seq(b);
        }
        let (prefix, _) = s.split_at(hi);
        proof {
            assert(prefix.spec_bytes() == encode_utf8(prefix@));
            if lo > 0 {
                lemma_prefix_boundary(b, hi as int, lo as int);
            }
            vstd::utf8::is_char_boundary_start_end_of_seq(prefix.spec_bytes());
        }
        let (_, r) = prefix.split_at(lo);
        proof {
            assert(r.spec_bytes() =~= b.subrange(lo as int, hi as int));
            assert(r.spec_bytes() == encode_utf8(r@));
        }
        r
    }

    /// Get the ISRC formatted with dashes: CC-XXX-YY-NNNNN.
    pub fn formatted(&self) -> (s: String)
        requires
            isrc_sliceable(self@),
        ensures
            s@ == isrc_formatted(self@),
    {
        let mut s = String::new();
        push_str(&mut s, self.part(0, 2));
        push_char(&mut s, '-');
        push_str(&mut s, self.part(2, 5));
        push_char(&mut s, '-');
        push_str(&mut s, self.part(5, 7));
        push_char(&mut s, '-');
        push_str(&mut s, self.part(7, 12));
        s
    }

    /// Get the country code.
    pub fn country(&self) -> (s: &str)
        requires
            isrc_sliceable(self@),
        ensures
            s@ == isrc_part(self@, 0, 2),
    {
        self.part(0, 2)
    }

    /// Get the registrant code.
    pub fn registrant(&self) -> (s: &str)
        requires
            isrc_sliceable(self@),
        ensures
            s@ == isrc_part(self@, 2, 5),
    {
        self.part(2, 5)
    }

    /// Get the year.
    pub fn year(&self) -> (s: &str)
        requires
            isrc_sliceable(self@),
        ensures
            s@ == isrc_part(self@, 5, 7),
    {
        self.part(5, 7)
    }

    /// Get the designation code.
    pub fn designation(&self) -> (s: &str)
        requires
            isrc_sliceable(self@),
        ensures
            s@ == isrc_part(self@, 7, 12),
    {
        self.part(7, 12)
    }

    /// The ISRC as shown to users: the dashed form.
    pub fn to_display_string(&self) -> (s: String)
        requires
            isrc_sliceable(self@),
        ensures
            s@ == isrc_part(self@, 0, 2) + seq!['-'] + isrc_part(self@, 2, 5) + seq!['-']
                + isrc_part(self@, 5, 7) + seq!['-'] + isrc_part(self@, 7, 12),
    {
        self.formatted()
    }
}

} // verus!

verus! {

/// Characters with the same code are the same.
proof fn lemma_char_code_eq(c1: char, c2: char)
    requires
        c1 as u32 == c2 as u32,
    ensures
        c1 == c2,
{
    vstd::utf8::char_u32_cast(c1, c1 as u32);
    vstd::utf8::char_u32_cast(c2, c2 as u32);
}

/// A character with a code below 128 is ASCII.
proof fn lemma_char_code_ascii(c: char)
    requires
        (c as u32) < 128,
    ensures
        '\0' <= c <= '\u{7f}',
{
}

/// Bytes below 128 are valid UTF-8 and decode one character per byte.
proof fn lemma_ascii_bytes_decode(b: Seq<u8>)
    requires
        forall|i: int| 0 <= i < b.len() ==> #[trigger] b[i] < 128,
    ensures
        vstd::utf8::valid_utf8(b),
        decode_utf8(b).len() == b.len(),
        forall|i: int| 0 <= i < b.len() ==> (#[trigger] decode_utf8(b)[i]) as u32 == b[i] as u32,
    decreases b.len(),
{
    if b.len() > 0 {
        let b0 = b[0];
        assert((b0 & 0x7f) as u32 == b0 as u32) by (bit_vector)
            requires
                b0 < 128,
        ;
        let rest = b.subrange(1, b.len() as int);
        assert(vstd::utf8::pop_first_scalar(b) =~= rest);
        lemma_ascii_bytes_decode(rest);
        assert forall|i: int| 0 <= i < b.len() implies (#[trigger] decode_utf8(b)[i]) as u32
            == b[i] as u32 by {
            if i > 0 {
                assert(decode_utf8(b)[i] == decode_utf8(rest)[i - 1]);
                assert(rest[i - 1] == b[i]);
            }
        }
    }
}

/// A code that passes validation is twelve ASCII characters, one per byte, and
/// its fields are the characters at the field positions.
proof fn lemma_valid_isrc_ascii(s: Seq<char>)
    requires
        isrc_check(s) is Ok,
    ensures
        s.len() == 12,
        vstd::utf8::is_ascii_chars(s),
        forall|i: int| 0 <= i < 12 ==> (#[trigger] s[i]) as u32 == encode_utf8(s)[i] as u32,
        forall|i: int| 0 <= i < 12 ==> !(#[trigger] s[i] == '-'),
        forall|lo: int, hi: int| 0 <= lo <= hi <= 12 ==> #[trigger] isrc_part(s, lo, hi) == s.subrange(lo, hi),
{
    let b = encode_utf8(s);
    assert forall|i: int| 0 <= i < b.len() implies #[trigger] b[i] < 128 by {
        if i < 2 {
            assert(in_class(b[i], ByteClass::Letter));
        } else if i < 5 {
            assert(in_class(b[i], ByteClass::LetterOrDigit));
        } else if i < 7 {
            assert(in_class(b[i], ByteClass::Digit));
        } else {
            assert(in_class(b[i], ByteClass::Digit));
        }
    }
    lemma_ascii_bytes_decode(b);
    assert(decode_utf8(b) == s);
    assert forall|i: int| 0 <= i < s.len() implies '\0' <= #[trigger] s[i] <= '\u{7f}' by {
        assert(decode_utf8(b)[i] as u32 == b[i] as u32);
        lemma_char_code_ascii(s[i]);
    }
    assert forall|i: int| 0 <= i < 12 implies !(#[trigger] s[i] == '-') by {
        assert(decode_utf8(b)[i] as u32 == b[i] as u32);
        if i < 2 {
            assert(in_class(b[i], ByteClass::Letter));
        } else if i < 5 {
            assert(in_class(b[i], ByteClass::LetterOrDigit));
        } else if i < 7 {
            assert(in_class(b[i], ByteClass::Digit));
        } else {
            assert(in_class(b[i], ByteClass::Digit));
        }
    }
    assert forall|lo: int, hi: int| 0 <= lo <= hi <= 12 implies #[trigger] isrc_part(s, lo, hi)
        == s.subrange(lo, hi) by {
        let sub = b.subrange(lo, hi);
        lemma_ascii_bytes_decode(sub);
        assert forall|k: int| 0 <= k < hi - lo implies decode_utf8(sub)[k] == s.subrange(lo, hi)[k] by {
            assert(decode_utf8(sub)[k] as u32 == sub[k] as u32);
            assert(sub[k] == b[lo + k]);
            assert(decode_utf8(b)[lo + k] as u32 == b[lo + k] as u32);
            lemma_char_code_eq(decode_utf8(sub)[k], s[lo + k]);
        }
        assert(decode_utf8(sub) =~= s.subrange(lo, hi));
    }
}

/// Every position of an ASCII text's encoding is a character boundary.
proof fn lemma_ascii_boundaries(t: Seq<char>)
    requires
        vstd::utf8::is_ascii_chars(t),
    ensures
        encode_utf8(t).len() == t.len(),
        forall|i: int| 0 <= i <= t.len() ==> #[trigger] is_char_boundary(encode_utf8(t), i),
{
    let b = encode_utf8(t);
    vstd::utf8::is_ascii_chars_encode_utf8(t);
    vstd::utf8::is_ascii_chars_nat_bound(t);
    vstd::utf8::is_char_boundary_start_end_of_seq(b);
    assert forall|i: int| 0 <= i <= t.len() implies #[trigger] is_char_boundary(b, i) by {
        if i < t.len() {
            assert((t[i] as nat) < 128);
            assert(b[i] == t[i] as u8);
            vstd::utf8::is_char_boundary_iff_not_is_continuation_byte(b, i);
        }
    }
}


/// Text of ASCII digits takes one byte per character.
proof fn lemma_digits_byte_len(s: Seq<char>)
    requires
        all_ascii_digits(s),
    ensures
        byte_len(s) == s.len(),
    decreases s.len(),
{
    if s.len() > 0 {
        assert(is_ascii_digit(s[0]));
        assert(all_ascii_digits(s.drop_first())) by {
            assert forall|i: int| 0 <= i < s.drop_first().len() implies #[trigger] is_ascii_digit(
                s.drop_first()[i],
            ) by {
                assert(is_ascii_digit(s[i + 1]));
            }
        }
        lemma_digits_byte_len(s.drop_first());
    }
}

/// A character among `x` and `y` vanishes from any text it is put into.
proof fn lemma_without_inserted(a: Seq<char>, b: Seq<char>, c: char, x: char, y: char)
    requires
        c == x || c == y,
    ensures
        without_chars(a + seq![c] + b, x, y) == without_chars(a + b, x, y),
{
    lemma_without_concat(a + seq![c], b, x, y);
    lemma_without_concat(a, seq![c], x, y);
    lemma_without_concat(a, b, x, y);
    let e = Seq::<char>::empty();
    assert(seq![c].drop_last() =~= e);
    assert(without_chars(e, x, y) == e);
    assert(seq![c].last() == c);
    assert(without_chars(seq![c], x, y) == without_chars(seq![c].drop_last(), x, y));
    assert(without_chars(seq![c], x, y) == e);
    assert(without_chars(a, x, y) + Seq::<char>::empty() =~= without_chars(a, x, y));
}

/// No character among `x` and `y` is left after removing them.
proof fn lemma_without_removes(t: Seq<char>, x: char, y: char)
    ensures
        forall|i: int| 0 <= i < without_chars(t, x, y).len() ==> #[trigger] without_chars(t, x, y)[i] != x
            && without_chars(t, x, y)[i] != y,
    decreases t.len(),
{
    if t.len() > 0 {
        lemma_without_removes(t.drop_last(), x, y);
        let rest = without_chars(t.drop_last(), x, y);
        if t.last() == x || t.last() == y {
            assert(without_chars(t, x, y) == rest);
        } else {
            assert(without_chars(t, x, y) == rest.push(t.last()));
            assert forall|i: int| 0 <= i < rest.push(t.last()).len() implies #[trigger] rest.push(
                t.last(),
            )[i] != x && rest.push(t.last())[i] != y by {
                if i < rest.len() {
                    assert(rest.push(t.last())[i] == rest[i]);
                }
            }
        }
    }
}

/// Spaces and dashes are no part of a catalog number: putting a space or a dash
/// anywhere into a code changes neither the catalog number it stands for (what
/// `Mcn::new` keeps and `Mcn::from_raw` gives) nor whether `Mcn::new` accepts it
/// and with which message; the catalog number holds no space and no dash; and a
/// code without either stands for itself. So `Mcn::new` succeeds exactly when
/// the code without spaces and dashes is 13 ASCII digits whose EAN-13 weighted
/// sum (1, 3, 1, ... from the left) is a multiple of 10.
pub proof fn law_mcn_ignores_spaces_and_dashes(a: Seq<char>, b: Seq<char>)
    ensures
        mcn_normalize(a + seq![' '] + b) == mcn_normalize(a + b),
        mcn_normalize(a + seq!['-'] + b) == mcn_normalize(a + b),
        mcn_check(mcn_normalize(a + seq![' '] + b)) == mcn_check(mcn_normalize(a + b)),
        mcn_check(mcn_normalize(a + seq!['-'] + b)) == mcn_check(mcn_normalize(a + b)),
        forall|i: int|
            0 <= i < mcn_normalize(a).len() ==> #[trigger] mcn_normalize(a)[i] != ' '
                && mcn_normalize(a)[i] != '-',
        (forall|i: int| 0 <= i < a.len() ==> #[trigger] a[i] != ' ' && a[i] != '-') ==> mcn_normalize(a) == a,
        mcn_check(mcn_normalize(a)) is Ok <==> {
            let m = mcn_normalize(a);
            &&& m.len() == 13
            &&& forall|i: int| 0 <= i < 13 ==> '0' <= #[trigger] m[i] <= '9'
            &&& ean_sum(m, 13) % 10 == 0
        },
{
    lemma_without_inserted(a, b, ' ', '-', ' ');
    lemma_without_inserted(a, b, '-', '-', ' ');
    lemma_without_removes(a, '-', ' ');
    if forall|i: int| 0 <= i < a.len() ==> #[trigger] a[i] != ' ' && a[i] != '-' {
        lemma_without_none(a, '-', ' ');
    }
    let m = mcn_normalize(a);
    if mcn_check(m) is Ok {
        assert(byte_len(m) == 13);
        assert(all_ascii_digits(m));
        lemma_digits_byte_len(m);
        assert(m.len() == 13);
        assert forall|i: int| 0 <= i < 13 implies '0' <= #[trigger] m[i] <= '9' by {
            assert(is_ascii_digit(m[i]));
        }
    } else if m.len() == 13 && (forall|i: int| 0 <= i < 13 ==> '0' <= #[trigger] m[i] <= '9') {
        assert forall|i: int| 0 <= i < m.len() implies #[trigger] is_ascii_digit(m[i]) by {
            assert('0' <= m[i] <= '9');
        }
        assert(all_ascii_digits(m));
        lemma_digits_byte_len(m);
    }
}

/// Removing characters from a concatenation removes them from each part.
proof fn lemma_without_concat(a: Seq<char>, b: Seq<char>, x: char, y: char)
    ensures
        without_chars(a + b, x, y) == without_chars(a, x, y) + without_chars(b, x, y),
    decreases b.len(),
{
    if b.len() == 0 {
        assert(a + b =~= a);
        assert(without_chars(a, x, y) + without_chars(b, x, y) =~= without_chars(a, x, y));
    } else {
        assert((a + b).drop_last() =~= a + b.drop_last());
        assert((a + b).last() == b.last());
        lemma_without_concat(a, b.drop_last(), x, y);
        if b.last() == x || b.last() == y {
        } else {
            assert(without_chars(a, x, y) + without_chars(b.drop_last(), x, y).push(b.last())
                =~= (without_chars(a, x, y) + without_chars(b.drop_last(), x, y)).push(b.last()));
        }
    }
}

/// Text without `x` and `y` is left as it is by removing them.
proof fn lemma_without_none(t: Seq<char>, x: char, y: char)
    requires
        forall|i: int| 0 <= i < t.len() ==> #[trigger] t[i] != x && t[i] != y,
    ensures
        without_chars(t, x, y) == t,
    decreases t.len(),
{
    if t.len() > 0 {
        lemma_without_none(t.drop_last(), x, y);
        assert(t.drop_last().push(t.last()) =~= t);
    }
}

/// Whether `t` holds no ASCII lowercase letter.
pub open spec fn no_ascii_lower(t: Seq<char>) -> bool {
    forall|i: int| 0 <= i < t.len() ==> !('a' <= #[trigger] t[i] <= 'z')
}

/// Removing characters keeps text free of ASCII lowercase letters.
proof fn lemma_without_no_lower(t: Seq<char>, x: char, y: char)
    requires
        no_ascii_lower(t),
    ensures
        no_ascii_lower(without_chars(t, x, y)),
    decreases t.len(),
{
    if t.len() > 0 {
        lemma_without_no_lower(t.drop_last(), x, y);
        assert(!('a' <= t.last() <= 'z'));
    }
}

/// Removing characters keeps ASCII text ASCII.
proof fn lemma_without_ascii(t: Seq<char>, x: char, y: char)
    requires
        vstd::utf8::is_ascii_chars(t),
    ensures
        vstd::utf8::is_ascii_chars(without_chars(t, x, y)),
    decreases t.len(),
{
    if t.len() > 0 {
        lemma_without_ascii(t.drop_last(), x, y);
        assert('\0' <= t.last() <= '\u{7f}');
    }
}

/// An ISRC that passes validation formats to 15 ASCII bytes with dashes at
/// bytes 2, 6 and 9, and taking the dashes out gives the code back.
pub proof fn law_formatted_shape(s: Seq<char>)
    requires
        isrc_check(s) is Ok,
    ensures
        isrc_sliceable(s),
        vstd::utf8::is_ascii_chars(isrc_formatted(s)),
        encode_utf8(isrc_formatted(s)).len() == 15,
        encode_utf8(isrc_formatted(s))[2] == 45,
        encode_utf8(isrc_formatted(s))[6] == 45,
        encode_utf8(isrc_formatted(s))[9] == 45,
        without_chars(isrc_formatted(s), '-', '-') == s,
{
    lemma_valid_isrc_ascii(s);
    lemma_ascii_boundaries(s);
    assert(isrc_part(s, 0, 2) == s.subrange(0, 2));
    assert(isrc_part(s, 2, 5) == s.subrange(2, 5));
    assert(isrc_part(s, 5, 7) == s.subrange(5, 7));
    assert(isrc_part(s, 7, 12) == s.subrange(7, 12));
    let d = seq!['-'];
    let f = isrc_formatted(s);
    assert(f =~= s.subrange(0, 2) + d + s.subrange(2, 5) + d + s.subrange(5, 7) + d + s.subrange(7, 12));
    assert(vstd::utf8::is_ascii_chars(f)) by {
        assert forall|i: int| 0 <= i < f.len() implies '\0' <= #[trigger] f[i] <= '\u{7f}' by {
            if i < 2 {
                assert(f[i] == s[i]);
            } else if i == 2 || i == 6 || i == 9 {
            } else if i < 6 {
                assert(f[i] == s[i - 1]);
            } else if i < 9 {
                assert(f[i] == s[i - 2]);
            } else {
                assert(f[i] == s[i - 3]);
            }
        }
    }
    vstd::utf8::is_ascii_chars_encode_utf8(f);
    assert(f[2] == '-' && f[6] == '-' && f[9] == '-');
    assert(f.len() == 15);
    assert(encode_utf8(f)[2] == f[2] as u8);
    assert(encode_utf8(f)[6] == f[6] as u8);
    assert(encode_utf8(f)[9] == f[9] as u8);
    // Taking the dashes out part by part.
    let p1 = s.subrange(0, 2);
    let p2 = s.subrange(2, 5);
    let p3 = s.subrange(5, 7);
    let p4 = s.subrange(7, 12);
    lemma_without_none(p1, '-', '-');
    lemma_without_none(p2, '-', '-');
    lemma_without_none(p3, '-', '-');
    lemma_without_none(p4, '-', '-');
    assert(without_chars(d, '-', '-') =~= Seq::<char>::empty()) by {
        assert(d.drop_last() =~= Seq::<char>::empty());
        assert(d.last() == '-');
        assert(without_chars(d.drop_last(), '-', '-') =~= Seq::<char>::empty());
    }
    lemma_without_concat(p1, d, '-', '-');
    lemma_without_concat(p1 + d, p2, '-', '-');
    lemma_without_concat(p1 + d + p2, d, '-', '-');
    lemma_without_concat(p1 + d + p2 + d, p3, '-', '-');
    lemma_without_concat(p1 + d + p2 + d + p3, d, '-', '-');
    lemma_without_concat(p1 + d + p2 + d + p3 + d, p4, '-', '-');
    assert(p1 + p2 + p3 + p4 =~= s);
}

/// For an ASCII code that normalizes to a valid ISRC, formatting the result and
/// normalizing the formatted text again gives the same code: `Isrc::new` of what
/// `formatted` gives is the ISRC that `formatted` was called on.
pub proof fn law_formatted_round_trip(code: Seq<char>)
    requires
        vstd::utf8::is_ascii_chars(code),
        isrc_check(isrc_normalize_ascii(code)) is Ok,
    ensures
        ({
            let s = isrc_normalize_ascii(code);
            let f = isrc_formatted(s);
            &&& vstd::utf8::is_ascii_chars(f)
            &&& isrc_normalize_ascii(f) == s
            &&& isrc_check(isrc_normalize_ascii(f)) is Ok
        }),
{
    let u = code.map_values(|c: char| ascii_upper(c));
    assert(no_ascii_lower(u)) by {
        assert forall|i: int| 0 <= i < u.len() implies !('a' <= #[trigger] u[i] <= 'z') by {
            let c = code[i];
            if 'a' <= c <= 'z' {
                assert(u[i] == ((c as u32) - 32) as char);
            }
        }
    }
    let s = without_chars(u, '-', '-');
    lemma_without_no_lower(u, '-', '-');
    law_formatted_shape(s);
    let f = isrc_formatted(s);
    lemma_valid_isrc_ascii(s);
    assert(no_ascii_lower(f)) by {
        assert forall|i: int| 0 <= i < f.len() implies !('a' <= #[trigger] f[i] <= 'z') by {
            if i < 2 {
                assert(f[i] == s[i]);
            } else if i == 2 || i == 6 || i == 9 {
            } else if i < 6 {
                assert(f[i] == s[i - 1]);
            } else if i < 9 {
                assert(f[i] == s[i - 2]);
            } else {
                assert(f[i] == s[i - 3]);
            }
        }
    }
    assert(f.map_values(|c: char| ascii_upper(c)) =~= f);
}

} // verus!
