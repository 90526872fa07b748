//! Character and string helpers that the query parser, the configuration
//! reader and the list searches share. Text is modelled as `Seq<char>`.
use vstd::prelude::*;

verus! {

/// The Unicode `White_Space` property, which `char::is_whitespace` and
/// `str::trim` go by.
pub open spec fn is_white_space(c: char) -> bool {
    ||| '\t' <= c <= '\r'
    ||| c == ' '
    ||| c == '\u{85}'
    ||| c == '\u{A0}'
    ||| c == '\u{1680}'
    ||| '\u{2000}' <= c <= '\u{200A}'
    ||| c == '\u{2028}'
    ||| c == '\u{2029}'
    ||| c == '\u{202F}'
    ||| c == '\u{205F}'
    ||| c == '\u{3000}'
}

/// Whether `c` has the Unicode `White_Space` property.
pub fn is_whitespace(c: char) -> (r: bool)
    ensures
        r == is_white_space(c),
{
    ('\t' <= c && c <= '\r') || c == ' ' || c == '\u{85}' || c == '\u{A0}' || c == '\u{1680}'
        || ('\u{2000}' <= c && c <= '\u{200A}') || c == '\u{2028}' || c == '\u{2029}'
        || c == '\u{202F}' || c == '\u{205F}' || c == '\u{3000}'
}

pub open spec fn ascii_lower(c: char) -> char {
    if 'A' <= c <= 'Z' {
        ((c as u32) + 32) as char
    } else {
        c
    }
}

pub open spec fn ascii_lower_seq(s: Seq<char>) -> Seq<char> {
    s.map_values(|c: char| ascii_lower(c))
}

/// Two texts are equal when ASCII letters are compared without case.
pub open spec fn eq_ignore_ascii_case(a: Seq<char>, b: Seq<char>) -> bool {
    ascii_lower_seq(a) == ascii_lower_seq(b)
}

pub open spec fn is_ascii_digit(c: char) -> bool {
    '0' <= c <= '9'
}

pub open spec fn digit_value(c: char) -> nat {
    ((c as u32) - ('0' as u32)) as nat
}

pub open spec fn all_ascii_digits(s: Seq<char>) -> bool {
    forall|i: int| 0 <= i < s.len() ==> is_ascii_digit(#[trigger] s[i])
}

/// The number that a run of decimal digits stands for.
pub open spec fn decimal_value(s: Seq<char>) -> nat
    decreases s.len(),
{
    if s.len() == 0 {
        0
    } else {
        decimal_value(s.drop_last()) * 10 + digit_value(s.last())
    }
}

/// What `str::parse::<u8>` gives: an optional leading `+`, then one or more
/// decimal digits whose value fits in a byte.
pub open spec fn parse_u8_spec(s: Seq<char>) -> Option<u8> {
    let digits = if s.len() > 0 && s[0] == '+' {
        s.drop_first()
    } else {
        s
    };
    if digits.len() > 0 && all_ascii_digits(digits) && decimal_value(digits) <= 255 {
        Some(decimal_value(digits) as u8)
    } else {
        None
    }
}

pub open spec fn trim_start_spec(s: Seq<char>) -> Seq<char>
    decreases s.len(),
{
    if s.len() > 0 && is_white_space(s[0]) {
        trim_start_spec(s.drop_first())
    } else {
        s
    }
}

pub open spec fn trim_end_spec(s: Seq<char>) -> Seq<char>
    decreases s.len(),
{
    if s.len() > 0 && is_white_space(s.last()) {
        trim_end_spec(s.drop_last())
    } else {
        s
    }
}

/// The text without leading and trailing white space, as `str::trim` gives it.
pub open spec fn trim_spec(s: Seq<char>) -> Seq<char> {
    trim_end_spec(trim_start_spec(s))
}

/// `needle` occurs in `haystack` as a contiguous run.
pub open spec fn contains_spec(haystack: Seq<char>, needle: Seq<char>) -> bool {
    exists|i: int|
        0 <= i && i + needle.len() <= haystack.len() && #[trigger] haystack.subrange(
            i,
            i + needle.len(),
        ) == needle
}

/// What `str::to_lowercase` gives for a text.
pub uninterp spec fn lowercase(s: Seq<char>) -> Seq<char>;

/// What `char::to_lowercase` yields for one character.
pub uninterp spec fn char_lowercase(c: char) -> Seq<char>;

/// Every character of a text lowered one by one, as
/// `chars().flat_map(char::to_lowercase)` yields them.
pub open spec fn chars_lowercase(s: Seq<char>) -> Seq<char>
    decreases s.len(),
{
    if s.len() == 0 {
        Seq::empty()
    } else {
        chars_lowercase(s.drop_last()) + char_lowercase(s.last())
    }
}

/// The decimal notation of a number, without sign or leading zeros.
pub open spec fn decimal_digits(n: nat) -> Seq<char>
    decreases n,
{
    if n < 10 {
        seq![digit_char(n)]
    } else {
        decimal_digits(n / 10).push(digit_char(n % 10))
    }
}

pub open spec fn digit_char(d: nat) -> char {
    ((d + ('0' as u32)) as u32) as char
}

/// The characters of a string slice.
pub fn chars_of(s: &str) -> (r: Vec<char>)
    ensures
        r@ == s@,
{
    broadcast use vstd::string::group_string_axioms;

    let mut r: Vec<char> = Vec::new();
    for c in it: s.chars()
        invariant
            r@ == it.seq().take(it.index() as int),
    {
        r.push(c);
    }
    r
}

/// Whether two texts hold the same characters.
pub fn chars_eq(a: &[char], b: &[char]) -> (r: bool)
    ensures
        r == (a@ == b@),
{
    if a.len() != b.len() {
        return false;
    }
    let mut i: usize = 0;
    while i < a.len()
        invariant
            a.len() == b.len(),
            i <= a.len(),
            forall|j: int| 0 <= j < i ==> a@[j] == b@[j],
        decreases a.len() - i,
    {
        if a[i] != b[i] {
            return false;
        }
        i += 1;
    }
    assert(a@ =~= b@);
    true
}

/// Whether two string slices hold the same characters: `==` on `&str`.
pub fn str_eq(a: &str, b: &str) -> (r: bool)
    ensures
        r == (a@ == b@),
{
    let ac = chars_of(a);
    let bc = chars_of(b);
    chars_eq(ac.as_slice(), bc.as_slice())
}

/// Appends one character to a string: `String::push`.
#[verifier::external_body]
pub(crate) fn push_char(s: &mut String, c: char)
    ensures
        final(s)@ == old(s)@.push(c),
{
    s.push(c);
}

/// A string made of the given characters.
pub fn string_from(chars: &[char]) -> (r: String)
    ensures
        r@ == chars@,
{
    let mut r = String::new();
    let mut i: usize = 0;
    while i < chars.len()
        invariant
            i <= chars.len(),
            r@ == chars@.take(i as int),
        decreases chars.len() - i,
    {
        push_char(&mut r, chars[i]);
        assert(chars@.take(i + 1) == chars@.take(i as int).push(chars@[i as int]));
        i += 1;
    }
    assert(chars@.take(chars.len() as int) == chars@);
    r
}

/// A string made of the characters of a literal.
pub fn string_of(s: &str) -> (r: String)
    ensures
        r@ == s@,
{
    let chars = chars_of(s);
    string_from(chars.as_slice())
}

/// A string made of the characters of two pieces, one after the other.
pub fn concat_chars(a: &[char], b: &[char]) -> (r: Vec<char>)
    ensures
        r@ == a@ + b@,
{
    let mut r: Vec<char> = Vec::new();
    let mut i: usize = 0;
    while i < a.len()
        invariant
            i <= a.len(),
            r@ == a@.take(i as int),
        decreases a.len() - i,
    {
        r.push(a[i]);
        assert(a@.take(i + 1) == a@.take(i as int).push(a@[i as int]));
        i += 1;
    }
    let mut j: usize = 0;
    while j < b.len()
        invariant
            i == a.len(),
            j <= b.len(),
            r@ == a@ + b@.take(j as int),
        decreases b.len() - j,
    {
        r.push(b[j]);
        assert(b@.take(j + 1) == b@.take(j as int).push(b@[j as int]));
        j += 1;
    }
    assert(a@.take(a.len() as int) == a@);
    assert(b@.take(b.len() as int) == b@);
    r
}

/// The characters `s[start..end]`.
pub fn slice_chars(s: &[char], start: usize, end: usize) -> (r: Vec<char>)
    requires
        start <= end <= s.len(),
    ensures
        r@ == s@.subrange(start as int, end as int),
{
    let mut r: Vec<char> = Vec::new();
    let mut i: usize = start;
    while i < end
        invariant
            start <= i <= end <= s.len(),
            r@ == s@.subrange(start as int, i as int),
        decreases end - i,
    {
        r.push(s[i]);
        assert(s@.subrange(start as int, i + 1) == s@.subrange(start as int, i as int).push(
            s@[i as int],
        ));
        i += 1;
    }
    r
}

/// ASCII lower case of one character: `char::to_ascii_lowercase`.
pub fn to_ascii_lower(c: char) -> (r: char)
    ensures
        r == ascii_lower(c),
{
    if 'A' <= c && c <= 'Z' {
        let b: u8 = c as u8;
        (b + 32) as char
    } else {
        c
    }
}

/// ASCII lower case of a text: `str::to_ascii_lowercase`.
pub fn to_ascii_lower_chars(s: &[char]) -> (r: Vec<char>)
    ensures
        r@ == ascii_lower_seq(s@),
{
    let mut r: Vec<char> = Vec::new();
    let mut i: usize = 0;
    while i < s.len()
        invariant
            i <= s.len(),
            r@ == ascii_lower_seq(s@.take(i as int)),
        decreases s.len() - i,
    {
        r.push(to_ascii_lower(s[i]));
        assert(ascii_lower_seq(s@.take(i + 1)) == ascii_lower_seq(s@.take(i as int)).push(
            ascii_lower(s@[i as int]),
        ));
        i += 1;
    }
    assert(s@.take(s.len() as int) == s@);
    r
}

/// Compares two texts with ASCII letters folded: `str::eq_ignore_ascii_case`.
pub fn eq_ignore_case(a: &[char], b: &[char]) -> (r: bool)
    ensures
        r == eq_ignore_ascii_case(a@, b@),
{
    if a.len() != b.len() {
        assert(ascii_lower_seq(a@).len() != ascii_lower_seq(b@).len());
        return false;
    }
    let mut i: usize = 0;
    while i < a.len()
        invariant
            a.len() == b.len(),
            i <= a.len(),
            forall|j: int| 0 <= j < i ==> ascii_lower(a@[j]) == ascii_lower(b@[j]),
        decreases a.len() - i,
    {
        if to_ascii_lower(a[i]) != to_ascii_lower(b[i]) {
            assert(ascii_lower_seq(a@)[i as int] != ascii_lower_seq(b@)[i as int]);
            return false;
        }
        i += 1;
    }
    assert(ascii_lower_seq(a@) =~= ascii_lower_seq(b@));
    true
}

/// Compares a text with a literal, ASCII letters folded.
pub fn eq_ignore_case_str(a: &[char], b: &str) -> (r: bool)
    ensures
        r == eq_ignore_ascii_case(a@, b@),
{
    let bc = chars_of(b);
    eq_ignore_case(a, bc.as_slice())
}

pub proof fn lemma_trim_start_suffix(s: Seq<char>, i: int)
    requires
        0 <= i <= s.len(),
        forall|j: int| 0 <= j < i ==> is_white_space(#[trigger] s[j]),
    ensures
        trim_start_spec(s) == trim_start_spec(s.subrange(i, s.len() as int)),
    decreases i,
{
    if i > 0 {
        assert(s.drop_first().subrange(i - 1, s.drop_first().len() as int) == s.subrange(
            i,
            s.len() as int,
        ));
        lemma_trim_start_suffix(s.drop_first(), i - 1);
    } else {
        assert(s.subrange(0, s.len() as int) == s);
    }
}

proof fn lemma_trim_end_prefix(s: Seq<char>, k: int)
    requires
        0 <= k <= s.len(),
        forall|j: int| k <= j < s.len() ==> is_white_space(#[trigger] s[j]),
    ensures
        trim_end_spec(s) == trim_end_spec(s.subrange(0, k)),
    decreases s.len() - k,
{
    if k < s.len() {
        assert(s.drop_last().subrange(0, k) == s.subrange(0, k));
        lemma_trim_end_prefix(s.drop_last(), k);
    } else {
        assert(s.subrange(0, k) == s);
    }
}

/// A text that neither starts nor ends with white space is its own trim.
pub proof fn lemma_trim_of_solid(s: Seq<char>)
    requires
        s.len() > 0,
        !is_white_space(s[0]),
        !is_white_space(s.last()),
    ensures
        trim_spec(s) == s,
{
}

/// How many white space characters a text starts with: the text from
/// there on is what `str::trim_start` leaves.
pub fn leading_white(s: &[char]) -> (r: usize)
    ensures
        r <= s.len(),
        s@.subrange(r as int, s.len() as int) == trim_start_spec(s@),
        forall|j: int| 0 <= j < r ==> is_white_space(#[trigger] s@[j]),
        r < s.len() ==> !is_white_space(s@[r as int]),
{
    let mut start: usize = 0;
    while start < s.len() && is_whitespace(s[start])
        invariant
            start <= s.len(),
            forall|j: int| 0 <= j < start ==> is_white_space(#[trigger] s@[j]),
        decreases s.len() - start,
    {
        start += 1;
    }
    proof {
        lemma_trim_start_suffix(s@, start as int);
        let rest = s@.subrange(start as int, s.len() as int);
        assert(rest.len() == 0 || !is_white_space(rest[0]));
        assert(trim_start_spec(rest) == rest);
    }
    start
}

/// What `str::trim` leaves starts with no white space, so trimming its
/// start again changes nothing.
pub proof fn lemma_trim_start_of_trim(s: Seq<char>)
    ensures
        trim_start_spec(trim_spec(s)) == trim_spec(s),
        trim_spec(s).len() > 0 ==> !is_white_space(trim_spec(s)[0]),
{
    let t = trim_start_spec(s);
    lemma_trim_start_solid(s);
    lemma_trim_end_is_prefix(t);
    let u = trim_end_spec(t);
    if u.len() > 0 {
        assert(u[0] == t[0]);
    }
}

proof fn lemma_trim_start_solid(s: Seq<char>)
    ensures
        trim_start_spec(s).len() > 0 ==> !is_white_space(trim_start_spec(s)[0]),
    decreases s.len(),
{
    if s.len() > 0 && is_white_space(s[0]) {
        lemma_trim_start_solid(s.drop_first());
    }
}

/// Trimming the start twice is trimming it once.
pub proof fn lemma_trim_start_idempotent(s: Seq<char>)
    ensures
        trim_start_spec(trim_start_spec(s)) == trim_start_spec(s),
{
    lemma_trim_start_solid(s);
}

proof fn lemma_trim_end_solid(s: Seq<char>)
    ensures
        trim_end_spec(s).len() > 0 ==> !is_white_space(trim_end_spec(s).last()),
        trim_end_spec(trim_end_spec(s)) == trim_end_spec(s),
    decreases s.len(),
{
    if s.len() > 0 && is_white_space(s.last()) {
        lemma_trim_end_solid(s.drop_last());
    }
}

/// Trimming twice is trimming once.
pub proof fn lemma_trim_idempotent(s: Seq<char>)
    ensures
        trim_spec(trim_spec(s)) == trim_spec(s),
{
    lemma_trim_start_of_trim(s);
    lemma_trim_end_solid(trim_start_spec(s));
}

/// `str::trim_end` leaves a beginning of the text.
pub proof fn lemma_trim_end_is_prefix(s: Seq<char>)
    ensures
        trim_end_spec(s).len() <= s.len(),
        trim_end_spec(s) == s.take(trim_end_spec(s).len() as int),
    decreases s.len(),
{
    if s.len() > 0 && is_white_space(s.last()) {
        lemma_trim_end_is_prefix(s.drop_last());
        assert(s.drop_last().take(trim_end_spec(s).len() as int) =~= s.take(trim_end_spec(s).len() as int));
    } else {
        assert(s.take(s.len() as int) =~= s);
    }
}

/// `str::trim_start` leaves an end of the text.
pub proof fn lemma_trim_start_is_suffix(s: Seq<char>)
    ensures
        trim_start_spec(s).len() <= s.len(),
        trim_start_spec(s) == s.skip(s.len() - trim_start_spec(s).len()),
    decreases s.len(),
{
    if s.len() > 0 && is_white_space(s[0]) {
        lemma_trim_start_is_suffix(s.drop_first());
        assert(s.drop_first().skip(s.len() - 1 - trim_start_spec(s).len()) =~= s.skip(
            s.len() - trim_start_spec(s).len(),
        ));
    } else {
        assert(s.skip(0) =~= s);
    }
}

/// The bounds of the text left by `str::trim`: `s[start..end]`.
pub fn trim_bounds(s: &[char]) -> (r: (usize, usize))
    ensures
        r.0 <= r.1 <= s.len(),
        s@.subrange(r.0 as int, r.1 as int) == trim_spec(s@),
{
    let mut start: usize = 0;
    while start < s.len() && is_whitespace(s[start])
        invariant
            start <= s.len(),
            forall|j: int| 0 <= j < start ==> is_white_space(#[trigger] s@[j]),
        decreases s.len() - start,
    {
        start += 1;
    }
    let ghost rest = s@.subrange(start as int, s.len() as int);
    proof {
        lemma_trim_start_suffix(s@, start as int);
    }
    let mut end: usize = s.len();
    while end > start && is_whitespace(s[end - 1])
        invariant
            start <= end <= s.len(),
            rest == s@.subrange(start as int, s.len() as int),
            forall|j: int| end <= j < s.len() ==> is_white_space(#[trigger] s@[j]),
        decreases end - start,
    {
        end -= 1;
    }
    proof {
        assert(start == s.len() || !is_white_space(s@[start as int]));
        assert(trim_start_spec(rest) == rest);
        lemma_trim_end_prefix(rest, end - start);
        assert(rest.subrange(0, end - start) == s@.subrange(start as int, end as int));
        let t = rest.subrange(0, end - start);
        assert(t.len() == 0 || !is_white_space(t.last()));
        assert(trim_end_spec(t) == t);
    }
    (start, end)
}

/// The text without trailing white space: `str::trim_end`.
pub fn trim_end_chars(s: &[char]) -> (r: Vec<char>)
    ensures
        r@ == trim_end_spec(s@),
{
    let mut end: usize = s.len();
    while end > 0 && is_whitespace(s[end - 1])
        invariant
            end <= s.len(),
            forall|j: int| end <= j < s.len() ==> is_white_space(#[trigger] s@[j]),
        decreases end,
    {
        end -= 1;
    }
    proof {
        lemma_trim_end_prefix(s@, end as int);
        let t = s@.subrange(0, end as int);
        assert(t.len() == 0 || !is_white_space(t.last()));
        assert(trim_end_spec(t) == t);
    }
    slice_chars(s, 0, end)
}

/// The text without leading white space: `str::trim_start`.
pub fn trim_start_chars(s: &[char]) -> (r: Vec<char>)
    ensures
        r@ == trim_start_spec(s@),
{
    let k = leading_white(s);
    slice_chars(s, k, s.len())
}

/// The text without leading and trailing white space: `str::trim`.
pub fn trim_chars(s: &[char]) -> (r: Vec<char>)
    ensures
        r@ == trim_spec(s@),
{
    let (start, end) = trim_bounds(s);
    slice_chars(s, start, end)
}

/// Whether a text is empty once trimmed: `s.trim().is_empty()`.
pub fn is_blank(s: &[char]) -> (r: bool)
    ensures
        r == (trim_spec(s@).len() == 0),
{
    let (start, end) = trim_bounds(s);
    start == end
}

/// Whether `needle` occurs in `haystack`: `str::contains` with a text pattern.
pub fn contains_chars(haystack: &[char], needle: &[char]) -> (r: bool)
    ensures
        r == contains_spec(haystack@, needle@),
{
    if needle.len() == 0 {
        assert(haystack@.subrange(0, 0 + needle.len()) =~= needle@);
        return true;
    }
    if needle.len() > haystack.len() {
        return false;
    }
    let last = haystack.len() - needle.len();
    let mut i: usize = 0;
    while i <= last
        invariant
            last + needle.len() == haystack.len(),
            needle.len() > 0,
            i <= last + 1,
            forall|k: int|
                0 <= k < i ==> #[trigger] haystack@.subrange(k, k + needle.len()) != needle@,
        decreases last + 1 - i,
    {
        let mut j: usize = 0;
        let mut same = true;
        while j < needle.len()
            invariant
                i <= last,
                last + needle.len() == haystack.len(),
                j <= needle.len(),
                same ==> forall|m: int| 0 <= m < j ==> haystack@[i + m] == needle@[m],
                !same ==> haystack@.subrange(i as int, i + needle.len()) != needle@,
            decreases needle.len() - j,
        {
            if haystack[i + j] != needle[j] {
                same = false;
                assert(haystack@.subrange(i as int, i + needle.len())[j as int] != needle@[j as int]);
            }
            j += 1;
        }
        if same {
            assert(haystack@.subrange(i as int, i + needle.len()) =~= needle@);
            return true;
        }
        i += 1;
    }
    proof {
        assert forall|k: int|
            0 <= k && k + needle.len() <= haystack.len() implies #[trigger] haystack@.subrange(
            k,
            k + needle.len(),
        ) != needle@ by {}
    }
    false
}

proof fn lemma_decimal_value_bound(s: Seq<char>)
    requires
        all_ascii_digits(s),
    ensures
        decimal_value(s) < pow10(s.len()),
    decreases s.len(),
{
    if s.len() > 0 {
        assert(all_ascii_digits(s.drop_last()));
        lemma_decimal_value_bound(s.drop_last());
    }
}

pub open spec fn pow10(n: nat) -> nat
    decreases n,
{
    if n == 0 {
        1
    } else {
        10 * pow10((n - 1) as nat)
    }
}

/// The value of a run of decimal digits, or `None` where it exceeds `limit`.
fn decimal_value_upto(s: &[char], limit: u64) -> (r: Option<u64>)
    requires
        all_ascii_digits(s@),
        limit >= 9,
    ensures
        match r {
            Some(v) => v == decimal_value(s@) && v <= limit,
            None => decimal_value(s@) > limit,
        },
{
    let mut acc: u64 = 0;
    let mut i: usize = 0;
    while i < s.len()
        invariant
            i <= s.len(),
            all_ascii_digits(s@),
            acc == decimal_value(s@.take(i as int)),
            acc <= limit,
            limit >= 9,
        decreases s.len() - i,
    {
        assert(is_ascii_digit(s@[i as int]));
        let d: u64 = ((s[i] as u32) - ('0' as u32)) as u64;
        assert(d <= 9 && d == digit_value(s@[i as int]));
        assert(s@.take(i + 1).drop_last() == s@.take(i as int));
        if acc > (limit - d) / 10 {
            proof {
                let prefix = s@.take(i + 1);
                lemma_decimal_value_prefix_grows(s@, i + 1);
                assert(decimal_value(prefix) == acc * 10 + d) by (nonlinear_arith)
                    requires
                        decimal_value(prefix) == decimal_value(prefix.drop_last()) * 10 + digit_value(prefix.last()),
                        decimal_value(prefix.drop_last()) == acc,
                        digit_value(prefix.last()) == d;
                assert(acc * 10 + d > limit) by (nonlinear_arith)
                    requires
                        acc > (limit - d) / 10,
                        d <= 9,
                        d <= limit || acc > 0;
            }
            return None;
        }
        proof {
            assert(acc * 10 + d <= limit) by (nonlinear_arith)
                requires
                    acc <= (limit - d) / 10,
                    d <= limit;
        }
        acc = acc * 10 + d;
        i += 1;
    }
    assert(s@.take(s.len() as int) == s@);
    Some(acc)
}

proof fn lemma_decimal_value_prefix_grows(s: Seq<char>, k: int)
    requires
        all_ascii_digits(s),
        0 <= k <= s.len(),
    ensures
        decimal_value(s.take(k)) <= decimal_value(s),
    decreases s.len() - k,
{
    if k < s.len() {
        lemma_decimal_value_prefix_grows(s.drop_last(), k);
        assert(s.drop_last().take(k) == s.take(k));
        assert(all_ascii_digits(s.drop_last()));
    } else {
        assert(s.take(k) == s);
    }
}

/// `str::parse::<u8>`: an optional `+`, then decimal digits that fit a byte.
pub fn parse_u8(s: &[char]) -> (r: Option<u8>)
    ensures
        r == parse_u8_spec(s@),
{
    let start: usize = if s.len() > 0 && s[0] == '+' {
        1
    } else {
        0
    };
    let digits = slice_chars(s, start, s.len());
    proof {
        if start == 1 {
            assert(digits@ == s@.drop_first());
        } else {
            assert(digits@ == s@);
        }
    }
    if digits.len() == 0 {
        return None;
    }
    let mut i: usize = 0;
    while i < digits.len()
        invariant
            i <= digits.len(),
            digits@ == (if s@.len() > 0 && s@[0] == '+' {
                s@.drop_first()
            } else {
                s@
            }),
            forall|j: int| 0 <= j < i ==> is_ascii_digit(#[trigger] digits@[j]),
        decreases digits.len() - i,
    {
        if !('0' <= digits[i] && digits[i] <= '9') {
            assert(!is_ascii_digit(digits@[i as int]));
            return None;
        }
        i += 1;
    }
    match decimal_value_upto(digits.as_slice(), 255) {
        Some(v) => Some(v as u8),
        None => None,
    }
}

/// `str::parse::<u64>` on a text made of decimal digits only.
pub fn parse_digits_u64(s: &[char]) -> (r: Option<u64>)
    requires
        all_ascii_digits(s@),
    ensures
        match r {
            Some(v) => v == decimal_value(s@),
            None => decimal_value(s@) > u64::MAX,
        },
{
    decimal_value_upto(s, u64::MAX)
}

/// The decimal notation of a number.
pub fn decimal_string(n: u64) -> (r: Vec<char>)
    ensures
        r@ == decimal_digits(n as nat),
    decreases n,
{
    let d: u64 = n % 10;
    let c: char = ((d as u8) + 48) as char;
    assert(c == digit_char(d as nat));
    if n < 10 {
        let mut r: Vec<char> = Vec::new();
        r.push(c);
        r
    } else {
        let mut r = decimal_string(n / 10);
        r.push(c);
        r
    }
}

proof fn lemma_decimal_digits_are_digits(n: nat)
    ensures
        all_ascii_digits(decimal_digits(n)),
        decimal_digits(n).len() > 0,
    decreases n,
{
    if n >= 10 {
        lemma_decimal_digits_are_digits(n / 10);
        assert forall|i: int| 0 <= i < decimal_digits(n).len() implies is_ascii_digit(
            #[trigger] decimal_digits(n)[i],
        ) by {
            if i < decimal_digits(n / 10).len() {
                assert(decimal_digits(n)[i] == decimal_digits(n / 10)[i]);
            }
        }
    }
}

proof fn lemma_digit_char_value(d: nat)
    requires
        d < 10,
    ensures
        digit_value(digit_char(d)) == d,
        is_ascii_digit(digit_char(d)),
{
    let c = digit_char(d);
    assert(c as u32 == d + 48);
}

/// Reading back the decimal notation of a number gives the number.
pub proof fn lemma_decimal_round_trip(n: nat)
    ensures
        all_ascii_digits(decimal_digits(n)),
        decimal_digits(n).len() > 0,
        decimal_value(decimal_digits(n)) == n,
    decreases n,
{
    lemma_decimal_digits_are_digits(n);
    lemma_digit_char_value(n % 10);
    if n < 10 {
        let s = decimal_digits(n);
        assert(s.drop_last().len() == 0);
        assert(decimal_value(s.drop_last()) == 0);
        assert(n % 10 == n);
        assert(s.last() == digit_char(n));
        assert(decimal_value(s) == decimal_value(s.drop_last()) * 10 + digit_value(s.last()));
    } else {
        lemma_decimal_round_trip(n / 10);
        let s = decimal_digits(n);
        assert(s.drop_last() == decimal_digits(n / 10));
        assert(s.last() == digit_char(n % 10));
        assert(n == (n / 10) * 10 + n % 10);
        assert(decimal_value(s) == decimal_value(s.drop_last()) * 10 + digit_value(s.last()));
    }
}

/// The characters of `s` lower-cased: `str::to_lowercase`.
#[verifier::external_body]
pub(crate) fn to_lowercase(s: &str) -> (r: String)
    ensures
        r@ == lowercase(s@),
{
    s.to_lowercase()
}

/// The characters that `char::to_lowercase` yields for `c`.
#[verifier::external_body]
pub(crate) fn char_to_lowercase(c: char) -> (r: Vec<char>)
    ensures
        r@ == char_lowercase(c),
{
    c.to_lowercase().collect()
}

} // verus!
