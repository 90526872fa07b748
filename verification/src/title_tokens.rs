//! Priorities written into task titles: a word such as `p2` (or `P3`, or
//! `2`) names a priority; the last such word wins, and such words are taken
//! out of the title.
use vstd::prelude::*;

use crate::config::joined_with;
use crate::domain::TaskPriority;
use crate::app::{fuzzy_match_spec, fuzzy_matches};
use crate::filters::{priority_numbered, strs_view};
use crate::text::{
    ascii_lower_seq, chars_of, is_white_space, is_whitespace, parse_u8, parse_u8_spec,
    slice_chars, string_from, to_ascii_lower_chars, trim_chars, trim_spec,
};

verus! {

pub open spec fn is_ascii_alnum(c: char) -> bool {
    ('0' <= c <= '9') || ('a' <= c <= 'z') || ('A' <= c <= 'Z')
}

pub open spec fn strip_start_non_alnum(s: Seq<char>) -> Seq<char>
    decreases s.len(),
{
    if s.len() > 0 && !is_ascii_alnum(s[0]) {
        strip_start_non_alnum(s.drop_first())
    } else {
        s
    }
}

pub open spec fn strip_end_non_alnum(s: Seq<char>) -> Seq<char>
    decreases s.len(),
{
    if s.len() > 0 && !is_ascii_alnum(s.last()) {
        strip_end_non_alnum(s.drop_last())
    } else {
        s
    }
}

/// The text without the characters other than ASCII letters and digits at
/// either end: `trim_matches(|c| !c.is_ascii_alphanumeric())`.
pub open spec fn trim_non_alnum(s: Seq<char>) -> Seq<char> {
    strip_end_non_alnum(strip_start_non_alnum(s))
}

/// The priority a word names: with its ends trimmed of everything but
/// ASCII letters and digits and its letters lowered, an optional `p` and
/// then the number 1, 2, 3 or 4 as `str::parse::<u8>` reads it.
pub open spec fn priority_input_spec(value: Seq<char>) -> Option<TaskPriority> {
    let n = ascii_lower_seq(trim_non_alnum(trim_spec(value)));
    if n.len() == 0 {
        None
    } else {
        let numeric = if n[0] == 'p' {
            n.drop_first()
        } else {
            n
        };
        match parse_u8_spec(numeric) {
            Some(v) => priority_numbered(v),
            None => None,
        }
    }
}

proof fn lemma_strip_start_from(s: Seq<char>, i: int)
    requires
        0 <= i <= s.len(),
        forall|j: int| 0 <= j < i ==> !is_ascii_alnum(#[trigger] s[j]),
    ensures
        strip_start_non_alnum(s) == strip_start_non_alnum(s.skip(i)),
    decreases i,
{
    if i > 0 {
        lemma_strip_start_from(s.drop_first(), i - 1);
        assert(s.drop_first().skip(i - 1) =~= s.skip(i));
    } else {
        assert(s.skip(0) =~= s);
    }
}

proof fn lemma_strip_end_to(s: Seq<char>, k: int)
    requires
        0 <= k <= s.len(),
        forall|j: int| k <= j < s.len() ==> !is_ascii_alnum(#[trigger] s[j]),
    ensures
        strip_end_non_alnum(s) == strip_end_non_alnum(s.take(k)),
    decreases s.len() - k,
{
    if k < s.len() {
        assert(s.drop_last().take(k) =~= s.take(k));
        lemma_strip_end_to(s.drop_last(), k);
    } else {
        assert(s.take(k) =~= s);
    }
}

fn is_ascii_alphanumeric(c: char) -> (r: bool)
    ensures
        r == is_ascii_alnum(c),
{
    ('0' <= c && c <= '9') || ('a' <= c && c <= 'z') || ('A' <= c && c <= 'Z')
}

/// The text with anything but ASCII letters and digits trimmed from its
/// ends.
fn trim_non_alnum_chars(s: &[char]) -> (r: Vec<char>)
    ensures
        r@ == trim_non_alnum(s@),
{
    let mut start: usize = 0;
    while start < s.len() && !is_ascii_alphanumeric(s[start])
        invariant
            start <= s.len(),
            forall|j: int| 0 <= j < start ==> !is_ascii_alnum(#[trigger] s@[j]),
        decreases s.len() - start,
    {
        start += 1;
    }
    proof {
        lemma_strip_start_from(s@, start as int);
    }
    let rest = slice_chars(s, start, s.len());
    assert(rest@ == s@.skip(start as int));
    assert(strip_start_non_alnum(rest@) == rest@);
    let mut end: usize = rest.len();
    while end > 0 && !is_ascii_alphanumeric(rest[end - 1])
        invariant
            end <= rest.len(),
            forall|j: int| end <= j < rest.len() ==> !is_ascii_alnum(#[trigger] rest@[j]),
        decreases end,
    {
        end -= 1;
    }
    proof {
        lemma_strip_end_to(rest@, end as int);
    }
    let r = slice_chars(rest.as_slice(), 0, end);
    assert(r@ =~= rest@.take(end as int));
    r
}

/// The priority a word of a title names, if any.
pub fn parse_priority_input(value: &str) -> (r: Option<TaskPriority>)
    ensures
        r == priority_input_spec(value@),
{
    let chars = chars_of(value);
    let trimmed = trim_chars(chars.as_slice());
    let core = trim_non_alnum_chars(trimmed.as_slice());
    let n = to_ascii_lower_chars(core.as_slice());
    if n.len() == 0 {
        return None;
    }
    let numeric = if n[0] == 'p' {
        slice_chars(n.as_slice(), 1, n.len())
    } else {
        slice_chars(n.as_slice(), 0, n.len())
    };
    assert(n[0] == 'p' ==> numeric@ =~= n@.drop_first());
    assert(n[0] != 'p' ==> numeric@ =~= n@);
    match parse_u8(numeric.as_slice()) {
        Some(1) => Some(TaskPriority::P1),
        Some(2) => Some(TaskPriority::P2),
        Some(3) => Some(TaskPriority::P3),
        Some(4) => Some(TaskPriority::P4),
        _ => None,
    }
}

/// Where the run of white space from `i` ends.
pub open spec fn skip_white(s: Seq<char>, i: int) -> int
    decreases s.len() - i,
{
    if 0 <= i < s.len() && is_white_space(s[i]) {
        skip_white(s, i + 1)
    } else {
        i
    }
}

/// Where the word from `i` ends.
pub open spec fn word_end_at(s: Seq<char>, i: int) -> int
    decreases s.len() - i,
{
    if 0 <= i < s.len() && !is_white_space(s[i]) {
        word_end_at(s, i + 1)
    } else {
        i
    }
}

pub proof fn lemma_skip_white_bounds(s: Seq<char>, i: int)
    requires
        0 <= i <= s.len(),
    ensures
        i <= skip_white(s, i) <= s.len(),
        skip_white(s, i) < s.len() ==> !is_white_space(s[skip_white(s, i)]),
    decreases s.len() - i,
{
    if i < s.len() && is_white_space(s[i]) {
        lemma_skip_white_bounds(s, i + 1);
    }
}

pub proof fn lemma_word_end_bounds(s: Seq<char>, i: int)
    requires
        0 <= i <= s.len(),
    ensures
        i <= word_end_at(s, i) <= s.len(),
        0 <= i < s.len() && !is_white_space(s[i]) ==> i < word_end_at(s, i),
    decreases s.len() - i,
{
    if i < s.len() && !is_white_space(s[i]) {
        lemma_word_end_bounds(s, i + 1);
    }
}

/// The words of a text from position `i`: the runs of characters between
/// white space, as `str::split_whitespace` yields them.
pub open spec fn words_from(s: Seq<char>, i: int) -> Seq<Seq<char>>
    decreases s.len() - i,
    when 0 <= i <= s.len()
{
    let b = skip_white(s, i);
    proof {
        lemma_skip_white_bounds(s, i);
    }
    if b >= s.len() {
        Seq::empty()
    } else {
        let e = word_end_at(s, b);
        proof {
            lemma_word_end_bounds(s, b);
        }
        seq![s.subrange(b, e)] + words_from(s, e)
    }
}

/// The words of a text, as `str::split_whitespace` yields them.
pub open spec fn words(s: Seq<char>) -> Seq<Seq<char>> {
    words_from(s, 0)
}

/// The views of a list of character vectors.
pub open spec fn char_vecs_view(v: Seq<Vec<char>>) -> Seq<Seq<char>> {
    v.map_values(|w: Vec<char>| w@)
}

/// The words of a text.
pub fn split_whitespace(s: &[char]) -> (r: Vec<Vec<char>>)
    ensures
        char_vecs_view(r@) == words(s@),
{
    let mut r: Vec<Vec<char>> = Vec::new();
    let mut i: usize = 0;
    while i < s.len()
        invariant
            i <= s.len(),
            char_vecs_view(r@) + words_from(s@, i as int) == words(s@),
        decreases s.len() - i,
    {
        let ghost i0 = i as int;
        let mut b = i;
        while b < s.len() && is_whitespace(s[b])
            invariant
                i0 <= b <= s.len(),
                skip_white(s@, i0) == skip_white(s@, b as int),
            decreases s.len() - b,
        {
            b += 1;
        }
        if b >= s.len() {
            proof {
                assert(words_from(s@, i0) =~= Seq::<Seq<char>>::empty());
                assert(words_from(s@, b as int) =~= Seq::<Seq<char>>::empty());
            }
            i = b;
        } else {
            let mut e = b;
            while e < s.len() && !is_whitespace(s[e])
                invariant
                    b <= e <= s.len(),
                    word_end_at(s@, b as int) == word_end_at(s@, e as int),
                decreases s.len() - e,
            {
                e += 1;
            }
            proof {
                lemma_word_end_bounds(s@, b as int);
            }
            let word = slice_chars(s, b, e);
            let ghost before = r@;
            r.push(word);
            proof {
                assert(words_from(s@, i0) == seq![s@.subrange(b as int, e as int)] + words_from(
                    s@,
                    e as int,
                ));
                assert(char_vecs_view(r@) =~= char_vecs_view(before).push(
                    s@.subrange(b as int, e as int),
                ));
                assert(char_vecs_view(r@) + words_from(s@, e as int) =~= char_vecs_view(before)
                    + words_from(s@, i0));
            }
            i = e;
        }
    }
    proof {
        if i >= s.len() {
            assert(words_from(s@, i as int) =~= Seq::<Seq<char>>::empty());
        }
    }
    assert(char_vecs_view(r@) =~= words(s@));
    r
}

/// The priority the last priority word names, if any word names one.
pub open spec fn last_priority(ws: Seq<Seq<char>>) -> Option<TaskPriority>
    decreases ws.len(),
{
    if ws.len() == 0 {
        None
    } else {
        match priority_input_spec(ws.last()) {
            Some(p) => Some(p),
            None => last_priority(ws.drop_last()),
        }
    }
}

/// The words that name no priority, in order.
pub open spec fn non_priority_words(ws: Seq<Seq<char>>) -> Seq<Seq<char>>
    decreases ws.len(),
{
    if ws.len() == 0 {
        Seq::empty()
    } else if priority_input_spec(ws.last()) is Some {
        non_priority_words(ws.drop_last())
    } else {
        non_priority_words(ws.drop_last()).push(ws.last())
    }
}

/// The priority that the last priority word of a text names, if any.
pub fn last_priority_token(value: &str) -> (r: Option<TaskPriority>)
    ensures
        r == last_priority(words(value@)),
{
    let chars = chars_of(value);
    let ws = split_whitespace(chars.as_slice());
    let mut matched: Option<TaskPriority> = None;
    let mut i: usize = 0;
    while i < ws.len()
        invariant
            i <= ws.len(),
            chars@ == value@,
            char_vecs_view(ws@) == words(value@),
            matched == last_priority(char_vecs_view(ws@).take(i as int)),
        decreases ws.len() - i,
    {
        let word = string_from(ws[i].as_slice());
        proof {
            let vs = char_vecs_view(ws@);
            assert(vs.take(i + 1).drop_last() =~= vs.take(i as int));
            assert(vs.take(i + 1).last() == ws@[i as int]@);
        }
        match parse_priority_input(word.as_str()) {
            Some(priority) => {
                matched = Some(priority);
            },
            None => {},
        }
        i += 1;
    }
    assert(char_vecs_view(ws@).take(ws.len() as int) =~= char_vecs_view(ws@));
    matched
}

/// A title with its priority words taken out, the other words joined by
/// single spaces, and the priority that the last priority word names, P4
/// where none does.
pub fn extract_priority_reference(raw: &str) -> (r: (String, TaskPriority))
    ensures
        r.0@ == joined_with(non_priority_words(words(raw@)), seq![' ']),
        r.1 == match last_priority(words(raw@)) {
            Some(p) => p,
            None => TaskPriority::P4,
        },
{
    let chars = chars_of(raw);
    let ws = split_whitespace(chars.as_slice());
    let mut cleaned: Vec<char> = Vec::new();
    let mut kept_any = false;
    let mut priority = TaskPriority::P4;
    let mut i: usize = 0;
    let ghost vs = char_vecs_view(ws@);
    while i < ws.len()
        invariant
            i <= ws.len(),
            vs == char_vecs_view(ws@),
            vs == words(raw@),
            kept_any == (non_priority_words(vs.take(i as int)).len() > 0),
            cleaned@ == joined_with(non_priority_words(vs.take(i as int)), seq![' ']),
            priority == match last_priority(vs.take(i as int)) {
                Some(p) => p,
                None => TaskPriority::P4,
            },
        decreases ws.len() - i,
    {
        let word = string_from(ws[i].as_slice());
        proof {
            assert(vs.take(i + 1).drop_last() =~= vs.take(i as int));
            assert(vs.take(i + 1).last() == ws@[i as int]@);
        }
        match parse_priority_input(word.as_str()) {
            Some(parsed) => {
                priority = parsed;
            },
            None => {
                let ghost before = cleaned@;
                let ghost prev = non_priority_words(vs.take(i as int));
                if kept_any {
                    cleaned.push(' ');
                }
                let mut j: usize = 0;
                let ghost mid = cleaned@;
                while j < ws[i].len()
                    invariant
                        j <= ws@[i as int]@.len(),
                        i < ws@.len(),
                        cleaned@ == mid + ws@[i as int]@.take(j as int),
                    decreases ws@[i as int]@.len() - j,
                {
                    cleaned.push(ws[i][j]);
                    assert(ws@[i as int]@.take(j + 1) =~= ws@[i as int]@.take(j as int).push(
                        ws@[i as int]@[j as int],
                    ));
                    j += 1;
                }
                proof {
                    assert(ws@[i as int]@.take(ws@[i as int]@.len() as int) =~= ws@[i as int]@);
                    let next = prev.push(ws@[i as int]@);
                    assert(non_priority_words(vs.take(i + 1)) == next);
                    assert(next.drop_last() =~= prev);
                    if prev.len() == 0 {
                        assert(cleaned@ =~= ws@[i as int]@);
                    } else {
                        assert(cleaned@ =~= before + seq![' '] + ws@[i as int]@);
                    }
                }
                kept_any = true;
            },
        }
        i += 1;
    }
    assert(vs.take(ws.len() as int) =~= vs);
    (string_from(cleaned.as_slice()), priority)
}

/// The words of a text joined by single spaces.
pub fn join_words(s: &[char]) -> (r: Vec<char>)
    ensures
        r@ == joined_with(words(s@), seq![' ']),
{
    let ws = split_whitespace(s);
    let ghost vs = char_vecs_view(ws@);
    let mut out: Vec<char> = Vec::new();
    let mut i: usize = 0;
    assert(vs.take(0) =~= Seq::<Seq<char>>::empty());
    while i < ws.len()
        invariant
            i <= ws.len(),
            vs == char_vecs_view(ws@),
            vs == words(s@),
            out@ == joined_with(vs.take(i as int), seq![' ']),
        decreases ws.len() - i,
    {
        let ghost before = out@;
        if i > 0 {
            out.push(' ');
        }
        let joined = crate::text::concat_chars(out.as_slice(), ws[i].as_slice());
        out = joined;
        proof {
            let next = vs.take(i + 1);
            assert(next.drop_last() =~= vs.take(i as int));
            assert(next.last() == ws@[i as int]@);
            if i == 0 {
                assert(out@ =~= ws@[0]@);
            } else {
                assert(out@ =~= before + seq![' '] + ws@[i as int]@);
            }
        }
        i += 1;
    }
    assert(vs.take(ws.len() as int) =~= vs);
    out
}

/// The priority words offered as suggestions.
pub open spec fn priority_options() -> Seq<Seq<char>> {
    seq!["p1"@, "p2"@, "p3"@, "p4"@]
}

/// The options that begin with `prefix`, in order.
pub open spec fn options_with_prefix(options: Seq<Seq<char>>, prefix: Seq<char>) -> Seq<Seq<char>>
    decreases options.len(),
{
    if options.len() == 0 {
        Seq::empty()
    } else {
        let rest = options_with_prefix(options.drop_last(), prefix);
        if prefix.len() <= options.last().len() && options.last().take(prefix.len() as int) == prefix {
            rest.push(options.last())
        } else {
            rest
        }
    }
}

/// The options that `query` fuzzily matches, in order.
pub open spec fn options_matching(options: Seq<Seq<char>>, query: Seq<char>) -> Seq<Seq<char>>
    decreases options.len(),
{
    if options.len() == 0 {
        Seq::empty()
    } else {
        let rest = options_matching(options.drop_last(), query);
        if fuzzy_match_spec(query, options.last()) {
            rest.push(options.last())
        } else {
            rest
        }
    }
}

/// The priority suggestions for what is typed: all four for nothing; else
/// those that begin with the typed text, trimmed and lowered; else those it
/// fuzzily matches.
pub open spec fn priority_suggestions_spec(query: Seq<char>) -> Seq<Seq<char>> {
    let n = ascii_lower_seq(trim_spec(query));
    if n.len() == 0 {
        priority_options()
    } else if options_with_prefix(priority_options(), n).len() > 0 {
        options_with_prefix(priority_options(), n)
    } else {
        options_matching(priority_options(), n)
    }
}

fn starts_with_chars(s: &[char], prefix: &[char]) -> (r: bool)
    ensures
        r == (prefix@.len() <= s@.len() && s@.take(prefix@.len() as int) == prefix@),
{
    if prefix.len() > s.len() {
        return false;
    }
    let mut i: usize = 0;
    while i < prefix.len()
        invariant
            i <= prefix.len() <= s.len(),
            forall|j: int| 0 <= j < i ==> s@[j] == prefix@[j],
        decreases prefix.len() - i,
    {
        if s[i] != prefix[i] {
            assert(s@.take(prefix@.len() as int)[i as int] != prefix@[i as int]);
            return false;
        }
        i += 1;
    }
    assert(s@.take(prefix@.len() as int) =~= prefix@);
    true
}

/// The priority words to suggest for what is typed.
pub fn priority_suggestions(query: &str) -> (r: Vec<&'static str>)
    ensures
        strs_view(r@) == priority_suggestions_spec(query@),
{
    let options: Vec<&'static str> = vec!["p1", "p2", "p3", "p4"];
    assert(strs_view(options@) =~= priority_options());
    let q = chars_of(query);
    let t = trim_chars(q.as_slice());
    let n = to_ascii_lower_chars(t.as_slice());
    if n.len() == 0 {
        return options;
    }
    let normalized = string_from(n.as_slice());
    let mut by_prefix: Vec<&'static str> = Vec::new();
    let mut i: usize = 0;
    while i < options.len()
        invariant
            i <= options.len(),
            strs_view(options@) == priority_options(),
            strs_view(by_prefix@) == options_with_prefix(priority_options().take(i as int), n@),
        decreases options.len() - i,
    {
        let option = chars_of(options[i]);
        proof {
            assert(priority_options().take(i + 1).drop_last() =~= priority_options().take(i as int));
            assert(priority_options().take(i + 1).last() == options@[i as int]@);
        }
        if starts_with_chars(option.as_slice(), n.as_slice()) {
            let ghost before = by_prefix@;
            by_prefix.push(options[i]);
            assert(strs_view(by_prefix@) =~= strs_view(before).push(options@[i as int]@));
        }
        i += 1;
    }
    assert(priority_options().take(4) =~= priority_options());
    if by_prefix.len() > 0 {
        return by_prefix;
    }
    let mut matching: Vec<&'static str> = Vec::new();
    let mut k: usize = 0;
    while k < options.len()
        invariant
            k <= options.len(),
            normalized@ == n@,
            strs_view(options@) == priority_options(),
            strs_view(matching@) == options_matching(priority_options().take(k as int), n@),
        decreases options.len() - k,
    {
        proof {
            assert(priority_options().take(k + 1).drop_last() =~= priority_options().take(k as int));
            assert(priority_options().take(k + 1).last() == options@[k as int]@);
        }
        if fuzzy_matches(normalized.as_str(), options[k]) {
            let ghost before = matching@;
            matching.push(options[k]);
            assert(strs_view(matching@) =~= strs_view(before).push(options@[k as int]@));
        }
        k += 1;
    }
    matching
}

/// What is left of a title once its priority words are taken out names no
/// priority, and taking them out again changes nothing.
pub proof fn cleaned_words_name_no_priority(ws: Seq<Seq<char>>)
    ensures
        last_priority(non_priority_words(ws)) is None,
        non_priority_words(non_priority_words(ws)) == non_priority_words(ws),
    decreases ws.len(),
{
    if ws.len() > 0 {
        cleaned_words_name_no_priority(ws.drop_last());
        let rest = non_priority_words(ws.drop_last());
        if priority_input_spec(ws.last()) is None {
            let all = rest.push(ws.last());
            assert(all.drop_last() =~= rest);
            assert(all.last() == ws.last());
        }
    }
}

} // verus!
