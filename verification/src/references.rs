//! Inline references in the text of a task: `@tag` and `#project` words
//! that a title or a field carries, the query that the word under the
//! cursor spells, and the cleaned text once the references are taken out.
//! Positions in a text are counted in characters.
use vstd::prelude::*;

use crate::app::ScreenData;
use crate::config::joined_with;
use crate::app::{fuzzy_match_spec, fuzzy_matches};
use crate::domain::{Project, ProjectId, Tag, TagId, Task, TaskId};
use crate::listing::{task_active, task_is_active};
use crate::sorting::{keys_view, pick, stable_order_spec};
use crate::task_order::{arrange, push_int, push_text, push_title, text_key, title_key};
use crate::title_tokens::{join_words, words};
use crate::text::{
    chars_of, eq_ignore_ascii_case, eq_ignore_case, is_white_space, is_whitespace, leading_white,
    lemma_trim_end_is_prefix, lemma_trim_start_idempotent, lemma_trim_start_is_suffix,
    lemma_trim_start_of_trim, lowercase, slice_chars, str_eq, to_lowercase,
    string_from, trim_chars, trim_end_chars, trim_end_spec, trim_spec, trim_start_chars,
    trim_start_spec,
};

verus! {

/// An `@` at `i` may open a tag reference: it starts the text or follows
/// white space or a comma.
pub open spec fn tag_may_start(v: Seq<char>, i: int) -> bool {
    &&& v[i] == '@'
    &&& (i == 0 || is_white_space(v[i - 1]) || v[i - 1] == ',')
}

/// The character at `i` closes the reference before it: a line break, or
/// an `@` or `#` that follows white space.
pub open spec fn ends_reference(v: Seq<char>, i: int) -> bool {
    ||| v[i] == '\n'
    ||| (v[i] == '@' || v[i] == '#') && is_white_space(v[i - 1])
}

/// The first place at or after `i` that closes a reference, or the end of
/// the text.
pub open spec fn reference_end(v: Seq<char>, i: int) -> int
    decreases v.len() - i,
{
    if i >= v.len() {
        v.len() as int
    } else if ends_reference(v, i) {
        i
    } else {
        reference_end(v, i + 1)
    }
}

/// The words after the `@` at `start`, up to where the reference ends,
/// trimmed.
pub open spec fn tag_query_at(v: Seq<char>, start: int) -> Seq<char> {
    trim_spec(v.subrange(start + 1, reference_end(v, start + 1)))
}

/// The first tag reference at or after `from` whose words are not blank:
/// where its `@` stands, where it ends, and its words.
pub open spec fn next_tag_reference_spec(v: Seq<char>, from: int) -> Option<(int, int, Seq<char>)>
    decreases v.len() - from,
{
    if from >= v.len() {
        None
    } else if tag_may_start(v, from) && tag_query_at(v, from).len() > 0 {
        Some((from, reference_end(v, from + 1), tag_query_at(v, from)))
    } else {
        next_tag_reference_spec(v, from + 1)
    }
}

pub proof fn lemma_reference_end_bounds(v: Seq<char>, i: int)
    requires
        0 <= i <= v.len(),
    ensures
        i <= reference_end(v, i) <= v.len(),
    decreases v.len() - i,
{
    if i < v.len() && !ends_reference(v, i) {
        lemma_reference_end_bounds(v, i + 1);
    }
}

/// A reference found at or after `from` starts there or later and ends
/// after its `@`, within the text.
pub proof fn lemma_next_tag_reference_bounds(v: Seq<char>, from: int)
    requires
        0 <= from,
    ensures
        next_tag_reference_spec(v, from) matches Some((s, e, q)) ==> from <= s && s + 1 <= e
            <= v.len(),
    decreases v.len() - from,
{
    if from < v.len() {
        lemma_reference_end_bounds(v, from + 1);
        if !(tag_may_start(v, from) && tag_query_at(v, from).len() > 0) {
            lemma_next_tag_reference_bounds(v, from + 1);
        }
    }
}

fn reference_end_at(v: &[char], start: usize) -> (r: usize)
    requires
        1 <= start <= v.len(),
    ensures
        r == reference_end(v@, start as int),
        start <= r <= v.len(),
{
    proof {
        lemma_reference_end_bounds(v@, start as int);
    }
    let mut j: usize = start;
    while j < v.len()
        invariant
            1 <= start <= j <= v.len(),
            reference_end(v@, j as int) == reference_end(v@, start as int),
        decreases v.len() - j,
    {
        if v[j] == '\n' || ((v[j] == '@' || v[j] == '#') && is_whitespace(v[j - 1])) {
            return j;
        }
        j += 1;
    }
    j
}

fn next_tag_reference_chars(v: &[char], from: usize) -> (r: Option<(usize, usize, Vec<char>)>)
    ensures
        match (r, next_tag_reference_spec(v@, from as int)) {
            (None, None) => true,
            (Some((s, e, q)), Some((s2, e2, q2))) => s == s2 && e == e2 && q@ == q2,
            _ => false,
        },
{
    let mut i: usize = from;
    while i < v.len()
        invariant
            from <= i,
            next_tag_reference_spec(v@, i as int) == next_tag_reference_spec(v@, from as int),
        decreases v.len() - i,
    {
        if v[i] == '@' && (i == 0 || is_whitespace(v[i - 1]) || v[i - 1] == ',') {
            let end = reference_end_at(v, i + 1);
            let words = slice_chars(v, i + 1, end);
            let query = trim_chars(words.as_slice());
            if query.len() > 0 {
                return Some((i, end, query));
            }
        }
        i += 1;
    }
    None
}

/// The first `@tag` reference at or after `search_from` whose words are
/// not blank: where its `@` stands, where the reference ends (a line break,
/// an `@` or `#` after white space, or the end of the text) and its words,
/// trimmed. An `@` counts only at the start or after white space or a comma.
pub fn next_tag_reference(value: &str, search_from: usize) -> (r: Option<(usize, usize, String)>)
    ensures
        match (r, next_tag_reference_spec(value@, search_from as int)) {
            (None, None) => true,
            (Some((s, e, q)), Some((s2, e2, q2))) => s == s2 && e == e2 && q@ == q2,
            _ => false,
        },
{
    let v = chars_of(value);
    match next_tag_reference_chars(v.as_slice(), search_from) {
        Some((s, e, q)) => Some((s, e, string_from(q.as_slice()))),
        None => None,
    }
}

/// `acc` with `q` added at the end unless it holds it already.
pub open spec fn push_new<T>(acc: Seq<T>, q: T) -> Seq<T> {
    if acc.contains(q) {
        acc
    } else {
        acc.push(q)
    }
}

/// The words of each tag reference from `cursor` on, each once, in the
/// order they first appear, after those of `acc`.
pub open spec fn field_queries_from(v: Seq<char>, cursor: nat, acc: Seq<Seq<char>>) -> Seq<Seq<char>>
    decreases v.len() - cursor,
{
    match next_tag_reference_spec(v, cursor as int) {
        None => acc,
        Some((s, e, q)) => {
            proof {
                lemma_next_tag_reference_bounds(v, cursor as int);
            }
            field_queries_from(v, e as nat, push_new(acc, q))
        },
    }
}

pub open spec fn strings_view(s: Seq<String>) -> Seq<Seq<char>> {
    s.map_values(|x: String| x@)
}

pub(crate) fn contains_string(items: &Vec<String>, q: &Vec<char>) -> (r: bool)
    ensures
        r == strings_view(items@).contains(q@),
{
    let mut i: usize = 0;
    while i < items.len()
        invariant
            i <= items.len(),
            forall|j: int| 0 <= j < i ==> #[trigger] items@[j]@ != q@,
        decreases items.len() - i,
    {
        let item = chars_of(items[i].as_str());
        if crate::text::chars_eq(item.as_slice(), q.as_slice()) {
            assert(strings_view(items@)[i as int] == q@);
            return true;
        }
        i += 1;
    }
    proof {
        if strings_view(items@).contains(q@) {
            let j = choose|j: int| 0 <= j < items@.len() && strings_view(items@)[j] == q@;
            assert(items@[j]@ == q@);
        }
    }
    false
}

/// The words of every tag reference in a tags field, each once, in the
/// order they first appear.
pub fn parse_tags_field_queries(value: &str) -> (r: Vec<String>)
    ensures
        strings_view(r@) == field_queries_from(value@, 0, Seq::empty()),
{
    let v = chars_of(value);
    let mut result: Vec<String> = Vec::new();
    let mut cursor: usize = 0;
    assert(strings_view(result@) =~= Seq::<Seq<char>>::empty());
    loop
        invariant
            v@ == value@,
            cursor <= v.len(),
            field_queries_from(v@, cursor as nat, strings_view(result@)) == field_queries_from(
                value@,
                0,
                Seq::empty(),
            ),
        decreases v.len() - cursor,
    {
        proof {
            lemma_next_tag_reference_bounds(v@, cursor as int);
        }
        match next_tag_reference_chars(v.as_slice(), cursor) {
            None => {
                return result;
            },
            Some((_s, e, q)) => {
                if !contains_string(&result, &q) {
                    let ghost before = strings_view(result@);
                    result.push(string_from(q.as_slice()));
                    assert(strings_view(result@) =~= before.push(q@));
                }
                cursor = e;
            },
        }
    }
}

/// `name` begins `nq`, ASCII letters compared without case, and is
/// followed there by white space or the end of `nq`.
pub open spec fn name_begins(nq: Seq<char>, name: Seq<char>) -> bool {
    &&& name.len() <= nq.len()
    &&& eq_ignore_ascii_case(nq.take(name.len() as int), name)
    &&& (name.len() == nq.len() || is_white_space(nq[name.len() as int]))
}

/// A tag, not deleted, whose name begins `q` once its leading white space
/// is dropped.
pub open spec fn tag_begins(t: Tag, q: Seq<char>) -> bool {
    t.deleted_at is None && name_begins(trim_start_spec(q), t.name@)
}

/// The length of the longest tag name that begins `q`.
pub open spec fn matched_tag_prefix_spec(tags: Seq<Tag>, q: Seq<char>) -> Option<nat>
    decreases tags.len(),
{
    if tags.len() == 0 {
        None
    } else {
        let rest = matched_tag_prefix_spec(tags.drop_last(), q);
        let n = tags.last().name@.len();
        if tag_begins(tags.last(), q) && !(rest matches Some(m) && m >= n) {
            Some(n)
        } else {
            rest
        }
    }
}

/// The longest matching name is the length of a tag that begins the query,
/// and no tag that begins it has a longer name; there is none exactly when
/// no tag begins it.
pub proof fn lemma_matched_tag_prefix(tags: Seq<Tag>, q: Seq<char>)
    ensures
        matched_tag_prefix_spec(tags, q) is None <==> forall|i: int|
            0 <= i < tags.len() ==> !#[trigger] tag_begins(tags[i], q),
        matched_tag_prefix_spec(tags, q) matches Some(m) ==> (exists|i: int|
            0 <= i < tags.len() && #[trigger] tag_begins(tags[i], q) && tags[i].name@.len() == m),
        matched_tag_prefix_spec(tags, q) matches Some(m) ==> (forall|i: int|
            0 <= i < tags.len() && #[trigger] tag_begins(tags[i], q) ==> tags[i].name@.len() <= m),
    decreases tags.len(),
{
    if tags.len() > 0 {
        let init = tags.drop_last();
        lemma_matched_tag_prefix(init, q);
        assert forall|i: int| 0 <= i < init.len() implies init[i] == tags[i] by {}
        let last = tags.len() - 1;
        if matched_tag_prefix_spec(init, q) is None && !tag_begins(tags[last], q) {
            assert forall|i: int| 0 <= i < tags.len() implies !#[trigger] tag_begins(tags[i], q) by {
                if i < last {
                    assert(!tag_begins(init[i], q));
                }
            }
        }
        if matched_tag_prefix_spec(tags, q) is Some {
            let m = matched_tag_prefix_spec(tags, q)->0;
            if matched_tag_prefix_spec(tags, q) == matched_tag_prefix_spec(init, q) {
                let i = choose|i: int| 0 <= i < init.len() && #[trigger] tag_begins(init[i], q) && init[i].name@.len() == m;
                assert(tag_begins(tags[i], q));
            } else {
                assert(tag_begins(tags[last], q));
            }
            assert forall|i: int| 0 <= i < tags.len() && #[trigger] tag_begins(tags[i], q) implies tags[i].name@.len() <= m by {
                if i < last {
                    assert(tag_begins(init[i], q));
                }
            }
        }
    }
}

fn name_begins_chars(nq: &[char], name: &str) -> (r: bool)
    ensures
        r == name_begins(nq@, name@),
{
    let nc = chars_of(name);
    if nc.len() > nq.len() {
        return false;
    }
    let head = slice_chars(nq, 0, nc.len());
    assert(head@ == nq@.take(nc.len() as int));
    if !eq_ignore_case(head.as_slice(), nc.as_slice()) {
        return false;
    }
    nc.len() == nq.len() || is_whitespace(nq[nc.len()])
}

fn matched_tag_prefix_chars(tags: &[Tag], q: &[char]) -> (r: Option<usize>)
    ensures
        match r {
            Some(m) => matched_tag_prefix_spec(tags@, q@) == Some(m as nat),
            None => matched_tag_prefix_spec(tags@, q@) is None,
        },
{
    let nq = trim_start_chars(q);
    let mut best: Option<usize> = None;
    let mut i: usize = 0;
    while i < tags.len()
        invariant
            i <= tags.len(),
            nq@ == trim_start_spec(q@),
            match best {
                Some(m) => matched_tag_prefix_spec(tags@.take(i as int), q@) == Some(m as nat),
                None => matched_tag_prefix_spec(tags@.take(i as int), q@) is None,
            },
        decreases tags.len() - i,
    {
        proof {
            assert(tags@.take(i + 1).drop_last() =~= tags@.take(i as int));
        }
        let tag = &tags[i];
        if tag.deleted_at.is_none() && name_begins_chars(nq.as_slice(), tag.name.as_str()) {
            let n = tag.name.as_str().unicode_len();
            match best {
                Some(m) => {
                    if m < n {
                        best = Some(n);
                    }
                },
                None => {
                    best = Some(n);
                },
            }
        }
        i += 1;
    }
    assert(tags@.take(tags.len() as int) =~= tags@);
    best
}

/// The length of the longest name of a tag, not deleted, that begins the
/// query (its leading white space dropped), ASCII letters compared without
/// case, and is followed there by white space or the end; none where no
/// tag name does.
pub fn matched_tag_prefix(data: &ScreenData, query: &str) -> (r: Option<usize>)
    ensures
        match r {
            Some(m) => matched_tag_prefix_spec(data.tags@, query@) == Some(m as nat),
            None => matched_tag_prefix_spec(data.tags@, query@) is None,
        },
        r is None <==> forall|i: int|
            0 <= i < data.tags@.len() ==> !#[trigger] tag_begins(data.tags@[i], query@),
        r matches Some(m) ==> (exists|i: int|
            0 <= i < data.tags@.len() && #[trigger] tag_begins(data.tags@[i], query@)
                && data.tags@[i].name@.len() == m),
        r matches Some(m) ==> (forall|i: int|
            0 <= i < data.tags@.len() && #[trigger] tag_begins(data.tags@[i], query@)
                ==> data.tags@[i].name@.len() <= m),
{
    proof {
        lemma_matched_tag_prefix(data.tags@, query@);
    }
    let q = chars_of(query);
    matched_tag_prefix_chars(data.tags.as_slice(), q.as_slice())
}

/// What the tag reference whose `@` stands at `start` and which ends at
/// `end` names, and where reading goes on. Where the longest tag name that
/// begins its words leaves more words after it, the reference names that
/// tag only and reading goes on right after the name; otherwise it names
/// all its words.
pub open spec fn tag_reference_take(tags: Seq<Tag>, v: Seq<char>, start: int, end: int) -> (Seq<char>, int) {
    let segment = v.subrange(start + 1, end);
    let lead = segment.len() - trim_start_spec(segment).len();
    let trimmed = trim_spec(segment);
    match matched_tag_prefix_spec(tags, trimmed) {
        Some(m) => if trim_start_spec(trimmed.skip(m as int)).len() == 0 {
            (trimmed, end)
        } else {
            (trim_spec(trimmed.take(m as int)), start + 1 + lead + m)
        },
        None => (trimmed, end),
    }
}

pub proof fn lemma_tag_reference_take_bounds(tags: Seq<Tag>, v: Seq<char>, start: int, end: int)
    requires
        0 <= start,
        start + 1 <= end <= v.len(),
    ensures
        start + 1 <= tag_reference_take(tags, v, start, end).1 <= end,
{
    let segment = v.subrange(start + 1, end);
    let trimmed = trim_spec(segment);
    lemma_trim_start_is_suffix(segment);
    lemma_trim_end_is_prefix(trim_start_spec(segment));
    lemma_trim_start_of_trim(segment);
    lemma_matched_tag_prefix(tags, trimmed);
    if matched_tag_prefix_spec(tags, trimmed) is Some {
        let m = matched_tag_prefix_spec(tags, trimmed)->0;
        let i = choose|i: int| 0 <= i < tags.len() && #[trigger] tag_begins(tags[i], trimmed) && tags[i].name@.len() == m;
        assert(m <= trimmed.len());
    }
}

/// The text outside the tag references from `cursor` on, after `cleaned`,
/// and the tag names the references carry, each once, after `names`.
pub open spec fn tag_extraction_from(
    tags: Seq<Tag>,
    v: Seq<char>,
    cursor: nat,
    cleaned: Seq<char>,
    names: Seq<Seq<char>>,
) -> (Seq<char>, Seq<Seq<char>>)
    decreases v.len() - cursor,
{
    match next_tag_reference_spec(v, cursor as int) {
        None => (cleaned + v.subrange(cursor as int, v.len() as int), names),
        Some((s, e, _q)) => {
            proof {
                lemma_next_tag_reference_bounds(v, cursor as int);
                lemma_tag_reference_take_bounds(tags, v, s, e);
            }
            let (name, next) = tag_reference_take(tags, v, s, e);
            tag_extraction_from(
                tags,
                v,
                next as nat,
                cleaned + v.subrange(cursor as int, s),
                if name.len() > 0 {
                    push_new(names, name)
                } else {
                    names
                },
            )
        },
    }
}

/// A title with its tag references taken out: the rest of its words
/// joined by single spaces, and the tag names the references carry, each
/// once, in order.
pub open spec fn tag_extraction(tags: Seq<Tag>, v: Seq<char>) -> (Seq<char>, Seq<Seq<char>>) {
    let (rest, names) = tag_extraction_from(tags, v, 0, Seq::empty(), Seq::empty());
    (trim_spec(joined_with(words(rest), seq![' '])), names)
}

fn append_chars(out: &mut Vec<char>, s: &[char])
    ensures
        final(out)@ == old(out)@ + s@,
{
    let joined = crate::text::concat_chars(out.as_slice(), s);
    *out = joined;
}

/// Takes the tag references out of a title: the other words joined by
/// single spaces, and the tag names that the references carry, each once,
/// in order. A reference whose words begin with the name of a known tag and
/// go on names that tag only, and its other words stay in the title.
pub fn extract_tag_references(data: &ScreenData, raw: &str) -> (r: (String, Vec<String>))
    ensures
        r.0@ == tag_extraction(data.tags@, raw@).0,
        strings_view(r.1@) == tag_extraction(data.tags@, raw@).1,
{
    let v = chars_of(raw);
    let tags = data.tags.as_slice();
    let mut cleaned: Vec<char> = Vec::new();
    let mut names: Vec<String> = Vec::new();
    let mut cursor: usize = 0;
    assert(strings_view(names@) =~= Seq::<Seq<char>>::empty());
    loop
        invariant_except_break
            cursor <= v.len(),
            tag_extraction_from(tags@, v@, cursor as nat, cleaned@, strings_view(names@))
                == tag_extraction_from(tags@, v@, 0, Seq::empty(), Seq::empty()),
        invariant
            v@ == raw@,
            tags@ == data.tags@,
        ensures
            (cleaned@, strings_view(names@)) == tag_extraction_from(
                tags@,
                v@,
                0,
                Seq::empty(),
                Seq::empty(),
            ),
        decreases v.len() - cursor,
    {
        proof {
            lemma_next_tag_reference_bounds(v@, cursor as int);
        }
        match next_tag_reference_chars(v.as_slice(), cursor) {
            None => {
                let tail = slice_chars(v.as_slice(), cursor, v.len());
                append_chars(&mut cleaned, tail.as_slice());
                break ;
            },
            Some((start, end, _q)) => {
                proof {
                    lemma_tag_reference_take_bounds(tags@, v@, start as int, end as int);
                }
                let before = slice_chars(v.as_slice(), cursor, start);
                append_chars(&mut cleaned, before.as_slice());
                let segment = slice_chars(v.as_slice(), start + 1, end);
                let lead = leading_white(segment.as_slice());
                let trimmed = trim_chars(segment.as_slice());
                proof {
                    lemma_trim_start_is_suffix(segment@);
                    lemma_trim_end_is_prefix(trim_start_spec(segment@));
                    lemma_trim_start_of_trim(segment@);
                    lemma_matched_tag_prefix(tags@, trimmed@);
                    assert(lead == segment@.len() - trim_start_spec(segment@).len());
                }
                let (name, next) = match matched_tag_prefix_chars(tags, trimmed.as_slice()) {
                    Some(m) => {
                        proof {
                            let i = choose|i: int|
                                0 <= i < tags@.len() && #[trigger] tag_begins(tags@[i], trimmed@)
                                    && tags@[i].name@.len() == m;
                        }
                        let rest = slice_chars(trimmed.as_slice(), m, trimmed.len());
                        assert(rest@ == trimmed@.skip(m as int));
                        let gap = leading_white(rest.as_slice());
                        if gap == rest.len() {
                            (trimmed, end)
                        } else {
                            let head = slice_chars(trimmed.as_slice(), 0, m);
                            assert(head@ == trimmed@.take(m as int));
                            (trim_chars(head.as_slice()), start + 1 + lead + m)
                        }
                    },
                    None => (trimmed, end),
                };
                assert(name@ == tag_reference_take(tags@, v@, start as int, end as int).0);
                assert(next == tag_reference_take(tags@, v@, start as int, end as int).1);
                if name.len() > 0 && !contains_string(&names, &name) {
                    let ghost old_names = strings_view(names@);
                    names.push(string_from(name.as_slice()));
                    assert(strings_view(names@) =~= old_names.push(name@));
                }
                cursor = next;
            },
        }
    }
    let joined = join_words(cleaned.as_slice());
    let result = trim_chars(joined.as_slice());
    (string_from(result.as_slice()), names)
}

/// Where `c` last occurs in `v`.
pub open spec fn last_index_of(v: Seq<char>, c: char) -> Option<int>
    decreases v.len(),
{
    if v.len() == 0 {
        None
    } else if v.last() == c {
        Some(v.len() - 1)
    } else {
        last_index_of(v.drop_last(), c)
    }
}

pub proof fn lemma_last_index_of(v: Seq<char>, c: char)
    ensures
        last_index_of(v, c) matches Some(i) ==> 0 <= i < v.len() && v[i] == c && forall|j: int|
            i < j < v.len() ==> v[j] != c,
        last_index_of(v, c) is None ==> forall|j: int| 0 <= j < v.len() ==> v[j] != c,
    decreases v.len(),
{
    if v.len() > 0 && v.last() != c {
        lemma_last_index_of(v.drop_last(), c);
        assert forall|j: int| 0 <= j < v.len() - 1 implies v.drop_last()[j] == v[j] by {}
    }
}

fn last_index_in(v: &[char], end: usize, c: char) -> (r: Option<usize>)
    requires
        end <= v.len(),
    ensures
        match r {
            Some(i) => last_index_of(v@.take(end as int), c) == Some(i as int),
            None => last_index_of(v@.take(end as int), c) is None,
        },
{
    let mut k: usize = end;
    while k > 0
        invariant
            k <= end <= v.len(),
            last_index_of(v@.take(end as int), c) == last_index_of(v@.take(k as int), c),
        decreases k,
    {
        assert(v@.take(k as int).drop_last() =~= v@.take(k - 1));
        if v[k - 1] == c {
            return Some(k - 1);
        }
        k -= 1;
    }
    None
}

fn chars_contain(v: &[char], c: char) -> (r: bool)
    ensures
        r == v@.contains(c),
{
    let mut i: usize = 0;
    while i < v.len()
        invariant
            i <= v.len(),
            forall|j: int| 0 <= j < i ==> v@[j] != c,
        decreases v.len() - i,
    {
        if v[i] == c {
            assert(v@[i as int] == c);
            return true;
        }
        i += 1;
    }
    false
}

/// The tag word the cursor is typing: the last `@` before the cursor, at
/// the start or after white space (or, in a tags field, after a comma), and
/// the words from it to the cursor with leading white space dropped; none
/// where those are empty or hold a line break or a `#`.
pub open spec fn active_tag_query_spec(v: Seq<char>, cursor: int, after_comma: bool) -> Option<(int, int, Seq<char>)> {
    let safe = if cursor < v.len() {
        cursor
    } else {
        v.len() as int
    };
    match last_index_of(v.take(safe), '@') {
        None => None,
        Some(s) => if s > 0 && !is_white_space(v[s - 1]) && !(after_comma && v[s - 1] == ',') {
            None
        } else {
            let q = trim_start_spec(v.subrange(s + 1, safe));
            if q.len() == 0 || q.contains('\n') || q.contains('#') {
                None
            } else {
                Some((s, safe, q))
            }
        },
    }
}

fn active_tag_query_chars(v: &[char], cursor: usize, after_comma: bool) -> (r: Option<(usize, usize, Vec<char>)>)
    ensures
        match (r, active_tag_query_spec(v@, cursor as int, after_comma)) {
            (None, None) => true,
            (Some((s, e, q)), Some((s2, e2, q2))) => s == s2 && e == e2 && q@ == q2,
            _ => false,
        },
{
    let safe = if cursor < v.len() {
        cursor
    } else {
        v.len()
    };
    proof {
        lemma_last_index_of(v@.take(safe as int), '@');
    }
    let start = match last_index_in(v, safe, '@') {
        Some(s) => s,
        None => {
            return None;
        },
    };
    if start > 0 && !is_whitespace(v[start - 1]) && !(after_comma && v[start - 1] == ',') {
        return None;
    }
    let words = slice_chars(v, start + 1, safe);
    let q = trim_start_chars(words.as_slice());
    if q.len() == 0 || chars_contain(q.as_slice(), '\n') || chars_contain(q.as_slice(), '#') {
        return None;
    }
    Some((start, safe, q))
}

/// The tag word the cursor is typing in a title: where its `@` stands,
/// where the cursor is (at most the end of the text), and the words from
/// the `@` to the cursor with leading white space dropped.
pub fn active_tag_query(value: &str, cursor: usize) -> (r: Option<(usize, usize, String)>)
    ensures
        match (r, active_tag_query_spec(value@, cursor as int, false)) {
            (None, None) => true,
            (Some((s, e, q)), Some((s2, e2, q2))) => s == s2 && e == e2 && q@ == q2,
            _ => false,
        },
{
    let v = chars_of(value);
    match active_tag_query_chars(v.as_slice(), cursor, false) {
        Some((s, e, q)) => Some((s, e, string_from(q.as_slice()))),
        None => None,
    }
}

/// The tag word the cursor is typing in a tags field, where an `@` may also
/// follow a comma.
pub fn active_tag_field_query(value: &str, cursor: usize) -> (r: Option<(usize, usize, String)>)
    ensures
        match (r, active_tag_query_spec(value@, cursor as int, true)) {
            (None, None) => true,
            (Some((s, e, q)), Some((s2, e2, q2))) => s == s2 && e == e2 && q@ == q2,
            _ => false,
        },
{
    let v = chars_of(value);
    match active_tag_query_chars(v.as_slice(), cursor, true) {
        Some((s, e, q)) => Some((s, e, string_from(q.as_slice()))),
        None => None,
    }
}

/// Where the word that ends `v` begins: just after its last white space,
/// or the start.
pub open spec fn word_start(v: Seq<char>) -> int
    decreases v.len(),
{
    if v.len() == 0 {
        0
    } else if is_white_space(v.last()) {
        v.len() as int
    } else {
        word_start(v.drop_last())
    }
}

pub proof fn lemma_word_start_bounds(v: Seq<char>)
    ensures
        0 <= word_start(v) <= v.len(),
    decreases v.len(),
{
    if v.len() > 0 && !is_white_space(v.last()) {
        lemma_word_start_bounds(v.drop_last());
    }
}

/// The priority word the cursor is typing: the word before the cursor,
/// where it begins with `p` or `P`.
pub open spec fn active_priority_query_spec(v: Seq<char>, cursor: int) -> Option<(int, int, Seq<char>)> {
    let safe = if cursor < v.len() {
        cursor
    } else {
        v.len() as int
    };
    let start = word_start(v.take(safe));
    let q = trim_start_spec(v.subrange(start, safe));
    if q.len() == 0 || q.contains('\n') || !(q[0] == 'p' || q[0] == 'P') {
        None
    } else {
        Some((start, safe, q))
    }
}

/// The priority word the cursor is typing: where the word before the
/// cursor begins, where the cursor is, and the word, where it begins with
/// `p` or `P`.
pub fn active_priority_query(value: &str, cursor: usize) -> (r: Option<(usize, usize, String)>)
    ensures
        match (r, active_priority_query_spec(value@, cursor as int)) {
            (None, None) => true,
            (Some((s, e, q)), Some((s2, e2, q2))) => s == s2 && e == e2 && q@ == q2,
            _ => false,
        },
{
    let v = chars_of(value);
    let safe = if cursor < v.len() {
        cursor
    } else {
        v.len()
    };
    let mut start: usize = safe;
    while start > 0 && !is_whitespace(v[start - 1])
        invariant
            start <= safe <= v.len(),
            word_start(v@.take(safe as int)) == word_start(v@.take(start as int)),
        decreases start,
    {
        assert(v@.take(start as int).drop_last() =~= v@.take(start - 1));
        start -= 1;
    }
    proof {
        lemma_word_start_bounds(v@.take(safe as int));
        if start > 0 {
            assert(v@.take(start as int).last() == v@[start - 1]);
        }
    }
    let words = slice_chars(v.as_slice(), start, safe);
    let q = trim_start_chars(words.as_slice());
    if q.len() == 0 || chars_contain(q.as_slice(), '\n') || !(q[0] == 'p' || q[0] == 'P') {
        return None;
    }
    Some((start, safe, string_from(q.as_slice())))
}

/// `s` with every leading `c` taken off: `str::trim_start_matches`.
pub open spec fn strip_leading(s: Seq<char>, c: char) -> Seq<char>
    decreases s.len(),
{
    if s.len() > 0 && s[0] == c {
        strip_leading(s.drop_first(), c)
    } else {
        s
    }
}

fn strip_leading_chars(s: &[char], c: char) -> (r: Vec<char>)
    ensures
        r@ == strip_leading(s@, c),
{
    let mut k: usize = 0;
    assert(s@.skip(0) =~= s@);
    while k < s.len() && s[k] == c
        invariant
            k <= s.len(),
            strip_leading(s@, c) == strip_leading(s@.skip(k as int), c),
        decreases s.len() - k,
    {
        assert(s@.skip(k as int).drop_first() =~= s@.skip(k + 1));
        k += 1;
    }
    let r = slice_chars(s, k, s.len());
    assert(r@ =~= s@.skip(k as int));
    r
}

/// The name a tag query asks for: trimmed, leading `@` signs dropped.
pub open spec fn tag_query_name(q: Seq<char>) -> Seq<char> {
    strip_leading(trim_spec(q), '@')
}

/// The name a tag query asks for.
pub(crate) fn tag_query_name_of(query: &str) -> (r: Vec<char>)
    ensures
        r@ == tag_query_name(query@),
{
    let q = chars_of(query);
    let trimmed = trim_chars(q.as_slice());
    strip_leading_chars(trimmed.as_slice(), '@')
}

/// Whether a tag, not deleted, has exactly the name a tag query asks for,
/// ASCII letters compared without case; never for a blank query.
pub fn has_exact_tag_name(data: &ScreenData, query: &str) -> (r: bool)
    ensures
        r == (tag_query_name(query@).len() > 0 && exists|i: int|
            0 <= i < data.tags@.len() && data.tags@[i].deleted_at is None && #[trigger] eq_ignore_ascii_case(
                data.tags@[i].name@,
                tag_query_name(query@),
            )),
{
    let q = chars_of(query);
    let trimmed = trim_chars(q.as_slice());
    let normalized = strip_leading_chars(trimmed.as_slice(), '@');
    if normalized.len() == 0 {
        return false;
    }
    let mut i: usize = 0;
    while i < data.tags.len()
        invariant
            i <= data.tags.len(),
            normalized@ == tag_query_name(query@),
            normalized.len() > 0,
            forall|j: int|
                0 <= j < i ==> !(data.tags@[j].deleted_at is None && #[trigger] eq_ignore_ascii_case(
                    data.tags@[j].name@,
                    normalized@,
                )),
        decreases data.tags.len() - i,
    {
        let name = chars_of(data.tags[i].name.as_str());
        if data.tags[i].deleted_at.is_none() && eq_ignore_case(name.as_slice(), normalized.as_slice()) {
            assert(eq_ignore_ascii_case(data.tags@[i as int].name@, tag_query_name(query@)));
            return true;
        }
        i += 1;
    }
    false
}

/// A title with a trailing `#project` reference split off: the `#` must be
/// the last one, at the start or after white space, with words after it.
pub open spec fn project_reference_split(v: Seq<char>) -> (Seq<char>, Option<Seq<char>>) {
    match last_index_of(v, '#') {
        None => (trim_spec(v), None),
        Some(s) => if s > 0 && !is_white_space(v[s - 1]) {
            (trim_spec(v), None)
        } else if trim_spec(v.subrange(s + 1, v.len() as int)).len() == 0 {
            (trim_spec(v), None)
        } else {
            (trim_end_spec(v.take(s)), Some(trim_spec(v.subrange(s + 1, v.len() as int))))
        },
    }
}

/// Splits a trailing `#project` reference off a title: the text before it
/// with trailing white space dropped, and the words after it, trimmed; the
/// trimmed title and none where there is no such reference.
pub fn extract_project_reference_for_title_cleanup(raw: &str) -> (r: (String, Option<String>))
    ensures
        r.0@ == project_reference_split(raw@).0,
        match (r.1, project_reference_split(raw@).1) {
            (None, None) => true,
            (Some(q), Some(q2)) => q@ == q2,
            _ => false,
        },
{
    let v = chars_of(raw);
    proof {
        lemma_last_index_of(v@, '#');
    }
    assert(v@.take(v.len() as int) =~= v@);
    let whole = trim_chars(v.as_slice());
    let start = match last_index_in(v.as_slice(), v.len(), '#') {
        Some(s) => s,
        None => {
            return (string_from(whole.as_slice()), None);
        },
    };
    if start > 0 && !is_whitespace(v[start - 1]) {
        return (string_from(whole.as_slice()), None);
    }
    let after = slice_chars(v.as_slice(), start + 1, v.len());
    let query = trim_chars(after.as_slice());
    if query.len() == 0 {
        return (string_from(whole.as_slice()), None);
    }
    let before = slice_chars(v.as_slice(), 0, start);
    assert(before@ == v@.take(start as int));
    let cleaned = trim_end_chars(before.as_slice());
    (string_from(cleaned.as_slice()), Some(string_from(query.as_slice())))
}

/// A project, not deleted and not the excluded one, whose name begins `q`
/// once its leading white space is dropped.
pub open spec fn project_begins(p: Project, q: Seq<char>, excluded: Option<ProjectId>) -> bool {
    &&& p.deleted_at is None
    &&& Some(p.id) != excluded
    &&& name_begins(trim_start_spec(q), p.name@)
}

/// The project with the longest name that begins `q` (the last of them
/// where several tie) and the length of its name.
pub open spec fn matched_project_prefix_spec(
    projects: Seq<Project>,
    q: Seq<char>,
    excluded: Option<ProjectId>,
) -> Option<(int, nat)>
    decreases projects.len(),
{
    if projects.len() == 0 {
        None
    } else {
        let rest = matched_project_prefix_spec(projects.drop_last(), q, excluded);
        let n = projects.last().name@.len();
        if project_begins(projects.last(), q, excluded) && !(rest matches Some((_, m)) && m > n) {
            Some((projects.len() - 1, n))
        } else {
            rest
        }
    }
}

/// The project found begins the query with a name of the length given, no
/// project that begins it has a longer name, and none after it as long a
/// name; there is none exactly when no project begins the query.
pub proof fn lemma_matched_project_prefix(projects: Seq<Project>, q: Seq<char>, excluded: Option<ProjectId>)
    ensures
        matched_project_prefix_spec(projects, q, excluded) is None <==> forall|i: int|
            0 <= i < projects.len() ==> !#[trigger] project_begins(projects[i], q, excluded),
        matched_project_prefix_spec(projects, q, excluded) matches Some((i, m)) ==> {
            &&& 0 <= i < projects.len()
            &&& project_begins(projects[i], q, excluded)
            &&& projects[i].name@.len() == m
            &&& forall|j: int|
                0 <= j < projects.len() && #[trigger] project_begins(projects[j], q, excluded) ==> projects[j].name@.len() <= m
            &&& forall|j: int|
                i < j < projects.len() && #[trigger] project_begins(projects[j], q, excluded) ==> projects[j].name@.len() < m
        },
    decreases projects.len(),
{
    if projects.len() > 0 {
        let init = projects.drop_last();
        lemma_matched_project_prefix(init, q, excluded);
        assert forall|i: int| 0 <= i < init.len() implies init[i] == projects[i] by {}
        let last = projects.len() - 1;
        if matched_project_prefix_spec(init, q, excluded) is None && !project_begins(projects[last], q, excluded) {
            assert forall|i: int| 0 <= i < projects.len() implies !#[trigger] project_begins(projects[i], q, excluded) by {
                if i < last {
                    assert(!project_begins(init[i], q, excluded));
                }
            }
        }
        if matched_project_prefix_spec(projects, q, excluded) is Some {
            let (i, m) = matched_project_prefix_spec(projects, q, excluded)->0;
            assert forall|j: int| 0 <= j < projects.len() && #[trigger] project_begins(projects[j], q, excluded) implies projects[j].name@.len() <= m by {
                if j < last {
                    assert(project_begins(init[j], q, excluded));
                }
            }
            assert forall|j: int| i < j < projects.len() && #[trigger] project_begins(projects[j], q, excluded) implies projects[j].name@.len() < m by {
                if j < last {
                    assert(project_begins(init[j], q, excluded));
                }
            }
        }
    }
}

fn matched_project_prefix_chars(projects: &[Project], q: &[char], excluded: Option<ProjectId>) -> (r: Option<(usize, usize)>)
    ensures
        match r {
            Some((i, m)) => matched_project_prefix_spec(projects@, q@, excluded) == Some((i as int, m as nat)),
            None => matched_project_prefix_spec(projects@, q@, excluded) is None,
        },
{
    let nq = trim_start_chars(q);
    let mut best: Option<(usize, usize)> = None;
    let mut i: usize = 0;
    while i < projects.len()
        invariant
            i <= projects.len(),
            nq@ == trim_start_spec(q@),
            match best {
                Some((k, m)) => matched_project_prefix_spec(projects@.take(i as int), q@, excluded) == Some((k as int, m as nat)),
                None => matched_project_prefix_spec(projects@.take(i as int), q@, excluded) is None,
            },
        decreases projects.len() - i,
    {
        proof {
            assert(projects@.take(i + 1).drop_last() =~= projects@.take(i as int));
        }
        let project = &projects[i];
        let not_excluded = match excluded {
            Some(id) => project.id != id,
            None => true,
        };
        if project.deleted_at.is_none() && not_excluded && name_begins_chars(nq.as_slice(), project.name.as_str()) {
            let n = project.name.as_str().unicode_len();
            match best {
                Some((_, m)) => {
                    if m <= n {
                        best = Some((i, n));
                    }
                },
                None => {
                    best = Some((i, n));
                },
            }
        }
        i += 1;
    }
    assert(projects@.take(projects.len() as int) =~= projects@);
    best
}

/// The project, not deleted and not `excluded_project_id`, whose name is
/// the longest to begin the query (its leading white space dropped), ASCII
/// letters compared without case, followed there by white space or the end:
/// its place among the projects and the length of its name. Of several
/// names as long, the last project's.
pub fn matched_project_prefix(data: &ScreenData, query: &str, excluded_project_id: Option<ProjectId>) -> (r: Option<(usize, usize)>)
    ensures
        match r {
            Some((i, m)) => matched_project_prefix_spec(data.projects@, query@, excluded_project_id) == Some((i as int, m as nat)),
            None => matched_project_prefix_spec(data.projects@, query@, excluded_project_id) is None,
        },
        r is None <==> forall|i: int|
            0 <= i < data.projects@.len() ==> !#[trigger] project_begins(data.projects@[i], query@, excluded_project_id),
        r matches Some((i, m)) ==> {
            &&& i < data.projects@.len()
            &&& project_begins(data.projects@[i as int], query@, excluded_project_id)
            &&& data.projects@[i as int].name@.len() == m
            &&& forall|j: int|
                0 <= j < data.projects@.len() && #[trigger] project_begins(data.projects@[j], query@, excluded_project_id)
                    ==> data.projects@[j].name@.len() <= m
            &&& forall|j: int|
                i < j < data.projects@.len() && #[trigger] project_begins(data.projects@[j], query@, excluded_project_id)
                    ==> data.projects@[j].name@.len() < m
        },
{
    proof {
        lemma_matched_project_prefix(data.projects@, query@, excluded_project_id);
    }
    let q = chars_of(query);
    matched_project_prefix_chars(data.projects.as_slice(), q.as_slice(), excluded_project_id)
}

/// The first place at or after `i` of a project, not deleted, whose name
/// lowered is `n` (where `exact`) or fuzzily matches `n`.
pub open spec fn find_project_from(projects: Seq<Project>, n: Seq<char>, exact: bool, i: int) -> Option<int>
    decreases projects.len() - i,
{
    if i < 0 || i >= projects.len() {
        None
    } else if projects[i].deleted_at is None && (if exact {
        lowercase(projects[i].name@) == n
    } else {
        fuzzy_match_spec(n, projects[i].name@)
    }) {
        Some(i)
    } else {
        find_project_from(projects, n, exact, i + 1)
    }
}

pub proof fn lemma_find_project_from(projects: Seq<Project>, n: Seq<char>, exact: bool, i: int)
    requires
        0 <= i,
    ensures
        find_project_from(projects, n, exact, i) matches Some(k) ==> i <= k < projects.len(),
    decreases projects.len() - i,
{
    if i < projects.len() {
        lemma_find_project_from(projects, n, exact, i + 1);
    }
}

/// The first project marked as the inbox.
pub open spec fn inbox_position(projects: Seq<Project>, i: int) -> Option<int>
    decreases projects.len() - i,
{
    if i < 0 || i >= projects.len() {
        None
    } else if projects[i].is_inbox {
        Some(i)
    } else {
        inbox_position(projects, i + 1)
    }
}

pub proof fn lemma_inbox_position(projects: Seq<Project>, i: int)
    requires
        0 <= i,
    ensures
        inbox_position(projects, i) matches Some(k) ==> i <= k < projects.len(),
    decreases projects.len() - i,
{
    if i < projects.len() {
        lemma_inbox_position(projects, i + 1);
    }
}

/// The identifier of the first project marked as the inbox.
pub fn inbox_project_id(data: &ScreenData) -> (r: ProjectId)
    requires
        inbox_position(data.projects@, 0) is Some,
    ensures
        r == data.projects@[inbox_position(data.projects@, 0)->0].id,
{
    proof {
        lemma_inbox_position(data.projects@, 0);
    }
    let mut i: usize = 0;
    while i < data.projects.len()
        invariant
            i <= data.projects.len(),
            inbox_position(data.projects@, i as int) == inbox_position(data.projects@, 0),
            inbox_position(data.projects@, 0) is Some,
        decreases data.projects.len() - i,
    {
        if data.projects[i].is_inbox {
            return data.projects[i].id;
        }
        i += 1;
    }
    data.projects[0].id
}

/// The project a project query names: the first project, not deleted,
/// whose lowered name is the lowered query, else the first whose name the
/// query fuzzily matches, else the fallback, or else the inbox. None where
/// it would fall to an inbox that does not exist.
pub open spec fn project_resolution(projects: Seq<Project>, query: Seq<char>, fallback: Option<ProjectId>) -> Option<ProjectId> {
    let n = lowercase(trim_spec(query));
    let otherwise = match fallback {
        Some(id) => Some(id),
        None => match inbox_position(projects, 0) {
            Some(i) => Some(projects[i].id),
            None => None,
        },
    };
    if n.len() == 0 {
        otherwise
    } else {
        match find_project_from(projects, n, true, 0) {
            Some(i) => Some(projects[i].id),
            None => match find_project_from(projects, n, false, 0) {
                Some(i) => Some(projects[i].id),
                None => otherwise,
            },
        }
    }
}

fn find_project(projects: &[Project], n: &str, exact: bool) -> (r: Option<usize>)
    ensures
        match r {
            Some(i) => find_project_from(projects@, n@, exact, 0) == Some(i as int),
            None => find_project_from(projects@, n@, exact, 0) is None,
        },
{
    let mut i: usize = 0;
    while i < projects.len()
        invariant
            i <= projects.len(),
            find_project_from(projects@, n@, exact, i as int) == find_project_from(projects@, n@, exact, 0),
        decreases projects.len() - i,
    {
        if projects[i].deleted_at.is_none() {
            let fits = if exact {
                let lowered = to_lowercase(projects[i].name.as_str());
                str_eq(lowered.as_str(), n)
            } else {
                fuzzy_matches(n, projects[i].name.as_str())
            };
            if fits {
                return Some(i);
            }
        }
        i += 1;
    }
    None
}

/// The project a project query names (see `project_resolution`).
pub fn resolve_project_input(data: &ScreenData, query: &str, fallback_project_id: Option<ProjectId>) -> (r: ProjectId)
    requires
        project_resolution(data.projects@, query@, fallback_project_id) is Some,
    ensures
        project_resolution(data.projects@, query@, fallback_project_id) == Some(r),
{
    proof {
        lemma_find_project_from(data.projects@, lowercase(trim_spec(query@)), true, 0);
        lemma_find_project_from(data.projects@, lowercase(trim_spec(query@)), false, 0);
    }
    let q = chars_of(query);
    let trimmed = string_from(trim_chars(q.as_slice()).as_slice());
    let normalized = to_lowercase(trimmed.as_str());
    if normalized.as_str().unicode_len() > 0 {
        match find_project(data.projects.as_slice(), normalized.as_str(), true) {
            Some(i) => {
                return data.projects[i].id;
            },
            None => {},
        }
        match find_project(data.projects.as_slice(), normalized.as_str(), false) {
            Some(i) => {
                return data.projects[i].id;
            },
            None => {},
        }
    }
    match fallback_project_id {
        Some(id) => id,
        None => inbox_project_id(data),
    }
}

/// A title with a trailing `#project` reference taken out, and the project
/// it names. Where the longest project name that begins the reference's
/// words leaves words after it, those stay in the title; where no name
/// begins them, the words name the project as a project query does, with
/// `fallback` where they name none.
pub open spec fn project_reference_take(projects: Seq<Project>, v: Seq<char>, fallback: ProjectId) -> (Seq<char>, ProjectId) {
    match last_index_of(v, '#') {
        None => (trim_spec(v), fallback),
        Some(s) => if s > 0 && !is_white_space(v[s - 1]) {
            (trim_spec(v), fallback)
        } else {
            let q = trim_spec(v.subrange(s + 1, v.len() as int));
            if q.len() == 0 {
                (trim_spec(v), fallback)
            } else {
                match matched_project_prefix_spec(projects, q, None) {
                    Some((i, m)) => {
                        let remainder = trim_start_spec(q.skip(m as int));
                        let head = v.take(s);
                        let cleaned = if trim_spec(head).len() == 0 {
                            remainder
                        } else if remainder.len() == 0 {
                            trim_end_spec(head)
                        } else {
                            trim_end_spec(head) + seq![' '] + remainder
                        };
                        (trim_spec(cleaned), projects[i].id)
                    },
                    None => (trim_end_spec(v.take(s)), project_resolution(projects, q, Some(fallback))->0),
                }
            }
        },
    }
}

/// Takes a trailing `#project` reference out of a title: the cleaned title
/// and the project it names, `fallback_project_id` where there is no
/// reference or it names no project.
pub fn extract_project_reference(data: &ScreenData, raw: &str, fallback_project_id: ProjectId) -> (r: (String, ProjectId))
    ensures
        r.0@ == project_reference_take(data.projects@, raw@, fallback_project_id).0,
        r.1 == project_reference_take(data.projects@, raw@, fallback_project_id).1,
{
    let v = chars_of(raw);
    proof {
        lemma_last_index_of(v@, '#');
    }
    assert(v@.take(v.len() as int) =~= v@);
    let whole = trim_chars(v.as_slice());
    let start = match last_index_in(v.as_slice(), v.len(), '#') {
        Some(s) => s,
        None => {
            return (string_from(whole.as_slice()), fallback_project_id);
        },
    };
    if start > 0 && !is_whitespace(v[start - 1]) {
        return (string_from(whole.as_slice()), fallback_project_id);
    }
    let after = slice_chars(v.as_slice(), start + 1, v.len());
    let query = trim_chars(after.as_slice());
    if query.len() == 0 {
        return (string_from(whole.as_slice()), fallback_project_id);
    }
    let head = slice_chars(v.as_slice(), 0, start);
    assert(head@ == v@.take(start as int));
    proof {
        lemma_trim_start_of_trim(after@);
        lemma_matched_project_prefix(data.projects@, query@, None);
    }
    match matched_project_prefix_chars(data.projects.as_slice(), query.as_slice(), None) {
        Some((i, m)) => {
            let tail = slice_chars(query.as_slice(), m, query.len());
            assert(tail@ == query@.skip(m as int));
            let remainder = trim_start_chars(tail.as_slice());
            let head_end = trim_end_chars(head.as_slice());
            let cleaned = if crate::text::is_blank(head.as_slice()) {
                remainder
            } else if remainder.len() == 0 {
                head_end
            } else {
                let mut joined = head_end;
                let ghost head_part = joined@;
                joined.push(' ');
                append_chars(&mut joined, remainder.as_slice());
                assert(joined@ =~= head_part + seq![' '] + remainder@);
                joined
            };
            let result = trim_chars(cleaned.as_slice());
            (string_from(result.as_slice()), data.projects[i].id)
        },
        None => {
            let query_text = string_from(query.as_slice());
            proof {
                crate::text::lemma_trim_idempotent(after@);
            }
            let project_id = resolve_project_input(data, query_text.as_str(), Some(fallback_project_id));
            let cleaned = trim_end_chars(head.as_slice());
            (string_from(cleaned.as_slice()), project_id)
        },
    }
}

/// The project word the cursor is typing: the last `#` before the cursor,
/// at the start or after white space, and the words from it to the cursor
/// with leading white space dropped; none where those are empty, hold a
/// line break, or are a project name followed only by white space.
pub open spec fn active_project_query_spec(projects: Seq<Project>, v: Seq<char>, cursor: int) -> Option<(int, int, Seq<char>)> {
    let safe = if cursor < v.len() {
        cursor
    } else {
        v.len() as int
    };
    match last_index_of(v.take(safe), '#') {
        None => None,
        Some(s) => if s > 0 && !is_white_space(v[s - 1]) {
            None
        } else {
            let q = trim_start_spec(v.subrange(s + 1, safe));
            if q.len() == 0 || q.contains('\n') {
                None
            } else if matched_project_prefix_spec(projects, q, None) matches Some((_, m)) && trim_start_spec(
                q.skip(m as int),
            ).len() == 0 {
                None
            } else {
                Some((s, safe, q))
            }
        },
    }
}

/// The project word the cursor is typing in a title: where its `#`
/// stands, where the cursor is, and the words typed so far.
pub fn active_project_query(data: &ScreenData, value: &str, cursor: usize) -> (r: Option<(usize, usize, String)>)
    ensures
        match (r, active_project_query_spec(data.projects@, value@, cursor as int)) {
            (None, None) => true,
            (Some((s, e, q)), Some((s2, e2, q2))) => s == s2 && e == e2 && q@ == q2,
            _ => false,
        },
{
    let v = chars_of(value);
    let safe = if cursor < v.len() {
        cursor
    } else {
        v.len()
    };
    proof {
        lemma_last_index_of(v@.take(safe as int), '#');
    }
    let start = match last_index_in(v.as_slice(), safe, '#') {
        Some(s) => s,
        None => {
            return None;
        },
    };
    if start > 0 && !is_whitespace(v[start - 1]) {
        return None;
    }
    let words = slice_chars(v.as_slice(), start + 1, safe);
    let q = trim_start_chars(words.as_slice());
    if q.len() == 0 || chars_contain(q.as_slice(), '\n') {
        return None;
    }
    proof {
        lemma_trim_start_idempotent(words@);
        lemma_matched_project_prefix(data.projects@, q@, None);
    }
    match matched_project_prefix_chars(data.projects.as_slice(), q.as_slice(), None) {
        Some((_i, m)) => {
            let tail = slice_chars(q.as_slice(), m, q.len());
            assert(tail@ == q@.skip(m as int));
            if leading_white(tail.as_slice()) == tail.len() {
                return None;
            }
        },
        None => {},
    }
    Some((start, safe, string_from(q.as_slice())))
}

/// Suggestions whose lowered name starts with the lowered query come
/// first.
pub open spec fn prefix_rank(name: Seq<char>, prefix_lower: Seq<char>) -> int {
    let l = lowercase(name);
    if prefix_lower.len() <= l.len() && l.take(prefix_lower.len() as int) == prefix_lower {
        0
    } else {
        1
    }
}

/// Suggestions are ordered by whether their lowered name starts with the
/// lowered query, then by the lowered name.
pub open spec fn suggestion_key(name: Seq<char>, prefix_lower: Seq<char>) -> Seq<int> {
    seq![prefix_rank(name, prefix_lower)] + text_key(lowercase(name))
}

/// The places of the tags, not deleted, whose names the query fuzzily
/// matches, in order.
pub open spec fn tag_candidates(tags: Seq<Tag>, n: Seq<char>) -> Seq<usize>
    decreases tags.len(),
{
    if tags.len() == 0 {
        Seq::empty()
    } else {
        let rest = tag_candidates(tags.drop_last(), n);
        if tags.last().deleted_at is None && fuzzy_match_spec(n, tags.last().name@) {
            rest.push((tags.len() - 1) as usize)
        } else {
            rest
        }
    }
}

pub open spec fn tag_suggestion_keys(tags: Seq<Tag>, places: Seq<usize>, prefix_lower: Seq<char>) -> Seq<Seq<int>> {
    Seq::new(places.len(), |k: int| suggestion_key(tags[places[k] as int].name@, prefix_lower))
}

/// The tags a tag query suggests: those, not deleted, whose names the query
/// (trimmed, leading `@` signs dropped) fuzzily matches, names that start
/// with it first, then by lowered name; none for a blank query.
pub open spec fn tag_suggestions_spec(tags: Seq<Tag>, query: Seq<char>) -> Seq<usize> {
    let n = tag_query_name(query);
    if n.len() == 0 {
        Seq::empty()
    } else {
        let places = tag_candidates(tags, n);
        pick(places, stable_order_spec(tag_suggestion_keys(tags, places, lowercase(n)), places.len()))
    }
}

fn starts_with_chars(s: &[char], prefix: &[char]) -> (r: bool)
    ensures
        r == (prefix@.len() <= s@.len() && s@.take(prefix@.len() as int) == prefix@),
{
    if prefix.len() > s.len() {
        return false;
    }
    let head = slice_chars(s, 0, prefix.len());
    assert(head@ == s@.take(prefix@.len() as int));
    crate::text::chars_eq(head.as_slice(), prefix)
}

fn suggestion_key_of(name: &str, prefix_lower: &[char]) -> (r: Vec<i128>)
    ensures
        crate::sorting::key_view(r@) == suggestion_key(name@, prefix_lower@),
{
    let lowered = to_lowercase(name);
    let lc = chars_of(lowered.as_str());
    let mut key: Vec<i128> = Vec::new();
    assert(crate::sorting::key_view(key@) =~= Seq::<int>::empty());
    let rank: i128 = if starts_with_chars(lc.as_slice(), prefix_lower) {
        0
    } else {
        1
    };
    push_int(&mut key, rank);
    push_text(&mut key, lowered.as_str(), false);
    assert(crate::sorting::key_view(key@) =~= suggestion_key(name@, prefix_lower@));
    key
}

/// The tags a tag query suggests, as places among the tags (see
/// `tag_suggestions_spec`).
pub fn tag_suggestions(data: &ScreenData, query: &str) -> (r: Vec<usize>)
    ensures
        r@ == tag_suggestions_spec(data.tags@, query@),
        forall|k: int| 0 <= k < r@.len() ==> #[trigger] r@[k] < data.tags@.len(),
{
    let q = chars_of(query);
    let trimmed = trim_chars(q.as_slice());
    let normalized = strip_leading_chars(trimmed.as_slice(), '@');
    if normalized.len() == 0 {
        return Vec::new();
    }
    let n = string_from(normalized.as_slice());
    let lowered = to_lowercase(n.as_str());
    let pl = chars_of(lowered.as_str());
    let tags = &data.tags;
    let mut places: Vec<usize> = Vec::new();
    let mut keys: Vec<Vec<i128>> = Vec::new();
    let mut i: usize = 0;
    while i < tags.len()
        invariant
            i <= tags.len(),
            n@ == tag_query_name(query@),
            pl@ == lowercase(n@),
            places@ == tag_candidates(tags@.take(i as int), n@),
            keys_view(keys@) == tag_suggestion_keys(tags@, places@, pl@),
            forall|k: int| 0 <= k < places@.len() ==> #[trigger] places@[k] < i,
        decreases tags.len() - i,
    {
        proof {
            assert(tags@.take(i + 1).drop_last() =~= tags@.take(i as int));
        }
        if tags[i].deleted_at.is_none() && fuzzy_matches(n.as_str(), tags[i].name.as_str()) {
            let key = suggestion_key_of(tags[i].name.as_str(), pl.as_slice());
            let ghost before_keys = keys_view(keys@);
            let ghost before_places = places@;
            places.push(i);
            keys.push(key);
            proof {
                assert(keys_view(keys@) =~= before_keys.push(crate::sorting::key_view(key@)));
                assert forall|k: int| 0 <= k < before_places.len() implies places@[k] == before_places[k] by {}
                assert(keys_view(keys@) =~= tag_suggestion_keys(tags@, places@, pl@));
            }
        }
        i += 1;
    }
    assert(tags@.take(tags.len() as int) =~= tags@);
    let r = arrange(&places, &keys);
    proof {
        let order = stable_order_spec(keys_view(keys@), keys.len() as nat);
        assert forall|k: int| 0 <= k < r@.len() implies #[trigger] r@[k] < data.tags@.len() by {
            assert(order[k] < keys.len());
        }
    }
    r
}

/// The places of the projects, not deleted, not the inbox where
/// `skip_inbox`, not `excluded`, whose names the query fuzzily matches, in
/// order.
pub open spec fn project_candidates(
    projects: Seq<Project>,
    n: Seq<char>,
    skip_inbox: bool,
    excluded: Option<ProjectId>,
) -> Seq<usize>
    decreases projects.len(),
{
    if projects.len() == 0 {
        Seq::empty()
    } else {
        let rest = project_candidates(projects.drop_last(), n, skip_inbox, excluded);
        let p = projects.last();
        if p.deleted_at is None && !(skip_inbox && p.is_inbox) && Some(p.id) != excluded && fuzzy_match_spec(n, p.name@) {
            rest.push((projects.len() - 1) as usize)
        } else {
            rest
        }
    }
}

pub open spec fn project_suggestion_keys(projects: Seq<Project>, places: Seq<usize>, prefix_lower: Seq<char>) -> Seq<Seq<int>> {
    Seq::new(places.len(), |k: int| suggestion_key(projects[places[k] as int].name@, prefix_lower))
}

/// The projects that the words `n` suggest, ordered as suggestions are.
pub open spec fn ranked_projects(
    projects: Seq<Project>,
    n: Seq<char>,
    skip_inbox: bool,
    excluded: Option<ProjectId>,
) -> Seq<usize> {
    let places = project_candidates(projects, n, skip_inbox, excluded);
    pick(places, stable_order_spec(project_suggestion_keys(projects, places, lowercase(n)), places.len()))
}

fn ranked_projects_of(data: &ScreenData, n: &str, skip_inbox: bool, excluded: Option<ProjectId>) -> (r: Vec<usize>)
    ensures
        r@ == ranked_projects(data.projects@, n@, skip_inbox, excluded),
        forall|k: int| 0 <= k < r@.len() ==> #[trigger] r@[k] < data.projects@.len(),
{
    let lowered = to_lowercase(n);
    let pl = chars_of(lowered.as_str());
    let projects = &data.projects;
    let mut places: Vec<usize> = Vec::new();
    let mut keys: Vec<Vec<i128>> = Vec::new();
    let mut i: usize = 0;
    while i < projects.len()
        invariant
            i <= projects.len(),
            pl@ == lowercase(n@),
            places@ == project_candidates(projects@.take(i as int), n@, skip_inbox, excluded),
            keys_view(keys@) == project_suggestion_keys(projects@, places@, pl@),
            forall|k: int| 0 <= k < places@.len() ==> #[trigger] places@[k] < i,
        decreases projects.len() - i,
    {
        proof {
            assert(projects@.take(i + 1).drop_last() =~= projects@.take(i as int));
        }
        let p = &projects[i];
        let not_excluded = match excluded {
            Some(id) => p.id != id,
            None => true,
        };
        if p.deleted_at.is_none() && !(skip_inbox && p.is_inbox) && not_excluded && fuzzy_matches(n, p.name.as_str()) {
            let key = suggestion_key_of(p.name.as_str(), pl.as_slice());
            let ghost before_keys = keys_view(keys@);
            let ghost before_places = places@;
            places.push(i);
            keys.push(key);
            proof {
                assert(keys_view(keys@) =~= before_keys.push(crate::sorting::key_view(key@)));
                assert forall|k: int| 0 <= k < before_places.len() implies places@[k] == before_places[k] by {}
                assert(keys_view(keys@) =~= project_suggestion_keys(projects@, places@, pl@));
            }
        }
        i += 1;
    }
    assert(projects@.take(projects.len() as int) =~= projects@);
    let r = arrange(&places, &keys);
    proof {
        let order = stable_order_spec(keys_view(keys@), keys.len() as nat);
        assert forall|k: int| 0 <= k < r@.len() implies #[trigger] r@[k] < data.projects@.len() by {
            assert(order[k] < keys.len());
        }
    }
    r
}

/// The projects a project query suggests, as places among the projects:
/// those, not deleted, whose names the trimmed query fuzzily matches, names
/// that start with it first, then by lowered name; none for a blank query.
pub fn project_suggestions(data: &ScreenData, query: &str) -> (r: Vec<usize>)
    ensures
        r@ == (if trim_spec(query@).len() == 0 {
            Seq::empty()
        } else {
            ranked_projects(data.projects@, trim_spec(query@), false, None)
        }),
        forall|k: int| 0 <= k < r@.len() ==> #[trigger] r@[k] < data.projects@.len(),
{
    let q = chars_of(query);
    let trimmed = trim_chars(q.as_slice());
    if trimmed.len() == 0 {
        return Vec::new();
    }
    let n = string_from(trimmed.as_slice());
    ranked_projects_of(data, n.as_str(), false, None)
}

/// The name a parent project query asks for: trimmed, leading `#` signs
/// dropped.
pub open spec fn parent_query_name(q: Seq<char>) -> Seq<char> {
    strip_leading(trim_spec(q), '#')
}

/// The projects a parent project query suggests for the project
/// `project_id`: as `project_suggestions`, without the inbox and the project
/// itself, the query's leading `#` signs dropped.
pub fn project_parent_suggestions(data: &ScreenData, query: &str, project_id: Option<ProjectId>) -> (r: Vec<usize>)
    ensures
        r@ == (if parent_query_name(query@).len() == 0 {
            Seq::empty()
        } else {
            ranked_projects(data.projects@, parent_query_name(query@), true, project_id)
        }),
        forall|k: int| 0 <= k < r@.len() ==> #[trigger] r@[k] < data.projects@.len(),
{
    let q = chars_of(query);
    let trimmed = trim_chars(q.as_slice());
    let normalized = strip_leading_chars(trimmed.as_slice(), '#');
    if normalized.len() == 0 {
        return Vec::new();
    }
    let n = string_from(normalized.as_slice());
    ranked_projects_of(data, n.as_str(), true, project_id)
}

/// The parent project a parent field names: the first suggestion, none for
/// a blank field.
/// The parent project a parent field names: the first project it
/// suggests; none for a blank field or where nothing is suggested.
pub open spec fn parent_input_resolution(projects: Seq<Project>, query: Seq<char>, project_id: Option<ProjectId>) -> Option<ProjectId> {
    if trim_spec(query).len() == 0 || parent_query_name(query).len() == 0 || ranked_projects(
        projects,
        parent_query_name(query),
        true,
        project_id,
    ).len() == 0 {
        None
    } else {
        Some(projects[ranked_projects(projects, parent_query_name(query), true, project_id)[0] as int].id)
    }
}

pub fn resolve_project_parent_input(data: &ScreenData, query: &str, project_id: Option<ProjectId>) -> (r: Option<ProjectId>)
    ensures
        r == parent_input_resolution(data.projects@, query@, project_id),
{
    let q = chars_of(query);
    let trimmed = trim_chars(q.as_slice());
    if trimmed.len() == 0 {
        return None;
    }
    let normalized_text = string_from(trimmed.as_slice());
    proof {
        crate::text::lemma_trim_idempotent(query@);
    }
    let suggestions = project_parent_suggestions(data, normalized_text.as_str(), project_id);
    if suggestions.len() == 0 {
        return None;
    }
    Some(data.projects[suggestions[0]].id)
}

/// The first place at or after `i` of a tag, not deleted, whose name
/// lowered is `n` (where `exact`) or fuzzily matches `n`.
pub open spec fn find_tag_from(tags: Seq<Tag>, n: Seq<char>, exact: bool, i: int) -> Option<int>
    decreases tags.len() - i,
{
    if i < 0 || i >= tags.len() {
        None
    } else if tags[i].deleted_at is None && (if exact {
        lowercase(tags[i].name@) == n
    } else {
        fuzzy_match_spec(n, tags[i].name@)
    }) {
        Some(i)
    } else {
        find_tag_from(tags, n, exact, i + 1)
    }
}

pub proof fn lemma_find_tag_from(tags: Seq<Tag>, n: Seq<char>, exact: bool, i: int)
    requires
        0 <= i,
    ensures
        find_tag_from(tags, n, exact, i) matches Some(k) ==> i <= k < tags.len(),
    decreases tags.len() - i,
{
    if i < tags.len() {
        lemma_find_tag_from(tags, n, exact, i + 1);
    }
}

fn find_tag(tags: &[Tag], n: &str, exact: bool) -> (r: Option<usize>)
    ensures
        match r {
            Some(i) => find_tag_from(tags@, n@, exact, 0) == Some(i as int),
            None => find_tag_from(tags@, n@, exact, 0) is None,
        },
{
    let mut i: usize = 0;
    while i < tags.len()
        invariant
            i <= tags.len(),
            find_tag_from(tags@, n@, exact, i as int) == find_tag_from(tags@, n@, exact, 0),
        decreases tags.len() - i,
    {
        if tags[i].deleted_at.is_none() {
            let fits = if exact {
                let lowered = to_lowercase(tags[i].name.as_str());
                str_eq(lowered.as_str(), n)
            } else {
                fuzzy_matches(n, tags[i].name.as_str())
            };
            if fits {
                return Some(i);
            }
        }
        i += 1;
    }
    None
}

/// The tag a tag query names: the first tag, not deleted, whose lowered
/// name is the lowered query (trimmed, leading `@` signs dropped), else the
/// first whose name it fuzzily matches; none for a blank query.
pub open spec fn tag_resolution(tags: Seq<Tag>, query: Seq<char>) -> Option<TagId> {
    let n = lowercase(tag_query_name(query));
    if n.len() == 0 {
        None
    } else {
        match find_tag_from(tags, n, true, 0) {
            Some(i) => Some(tags[i].id),
            None => match find_tag_from(tags, n, false, 0) {
                Some(i) => Some(tags[i].id),
                None => None,
            },
        }
    }
}

/// The tag a tag query names (see `tag_resolution`).
pub fn resolve_tag_input(data: &ScreenData, query: &str) -> (r: Option<TagId>)
    ensures
        r == tag_resolution(data.tags@, query@),
{
    proof {
        lemma_find_tag_from(data.tags@, lowercase(tag_query_name(query@)), true, 0);
        lemma_find_tag_from(data.tags@, lowercase(tag_query_name(query@)), false, 0);
    }
    let q = chars_of(query);
    let trimmed = trim_chars(q.as_slice());
    let stripped = strip_leading_chars(trimmed.as_slice(), '@');
    let text = string_from(stripped.as_slice());
    let normalized = to_lowercase(text.as_str());
    if normalized.as_str().unicode_len() == 0 {
        return None;
    }
    match find_tag(data.tags.as_slice(), normalized.as_str(), true) {
        Some(i) => Some(data.tags[i].id),
        None => match find_tag(data.tags.as_slice(), normalized.as_str(), false) {
            Some(i) => Some(data.tags[i].id),
            None => None,
        },
    }
}

/// The first task with the given identifier.
pub open spec fn task_with_id(tasks: Seq<Task>, id: TaskId) -> Option<Task>
    decreases tasks.len(),
{
    if tasks.len() == 0 {
        None
    } else if tasks[0].id == id {
        Some(tasks[0])
    } else {
        task_with_id(tasks.drop_first(), id)
    }
}

pub(crate) fn task_by_id(tasks: &[Task], id: TaskId) -> (r: Option<&Task>)
    ensures
        match r {
            Some(t) => task_with_id(tasks@, id) == Some(*t),
            None => task_with_id(tasks@, id) is None,
        },
{
    let mut i: usize = 0;
    assert(tasks@.skip(0) =~= tasks@);
    while i < tasks.len()
        invariant
            i <= tasks.len(),
            task_with_id(tasks@, id) == task_with_id(tasks@.skip(i as int), id),
        decreases tasks.len() - i,
    {
        assert(tasks@.skip(i as int).drop_first() =~= tasks@.skip(i + 1));
        if tasks[i].id == id {
            return Some(&tasks[i]);
        }
        i += 1;
    }
    None
}

/// The parent of the task with the given identifier.
pub open spec fn task_parent_of(tasks: Seq<Task>, id: TaskId) -> Option<TaskId> {
    match task_with_id(tasks, id) {
        Some(t) => t.parent_task_id,
        None => None,
    }
}

/// The task `k` steps up the chain of parents from `id`.
pub open spec fn task_ancestor_at(tasks: Seq<Task>, id: TaskId, k: nat) -> Option<TaskId>
    decreases k,
{
    if k == 0 {
        Some(id)
    } else {
        match task_ancestor_at(tasks, id, (k - 1) as nat) {
            Some(a) => task_parent_of(tasks, a),
            None => None,
        }
    }
}

/// The chain of parents from `id` ends.
pub open spec fn task_chain_ends(tasks: Seq<Task>, id: TaskId) -> bool {
    exists|k: nat| #[trigger] task_ancestor_at(tasks, id, k) is None
}

/// `ancestor` lies on the chain of parents above `id`.
pub open spec fn is_task_descendant(tasks: Seq<Task>, id: TaskId, ancestor: TaskId) -> bool {
    exists|k: nat| 1 <= k && #[trigger] task_ancestor_at(tasks, id, k) == Some(ancestor)
}

proof fn lemma_task_chain_stays_ended(tasks: Seq<Task>, id: TaskId, k: nat, m: nat)
    requires
        task_ancestor_at(tasks, id, k) is None,
        k <= m,
    ensures
        task_ancestor_at(tasks, id, m) is None,
    decreases m - k,
{
    if k < m {
        lemma_task_chain_stays_ended(tasks, id, k, (m - 1) as nat);
    }
}

/// Whether `potential_ancestor` is a parent, grandparent or further
/// ancestor of the task `task_id`.
pub fn task_is_descendant_of(tasks: &[Task], task_id: TaskId, potential_ancestor: TaskId) -> (r: bool)
    requires
        task_chain_ends(tasks@, task_id),
    ensures
        r == is_task_descendant(tasks@, task_id, potential_ancestor),
{
    let ghost end: nat = choose|k: nat| #[trigger] task_ancestor_at(tasks@, task_id, k) is None;
    let mut current = match task_by_id(tasks, task_id) {
        Some(task) => task.parent_task_id,
        None => None,
    };
    let ghost mut steps: nat = 1;
    assert(task_ancestor_at(tasks@, task_id, 0) == Some(task_id));
    assert(end >= 1);
    loop
        invariant
            current == task_ancestor_at(tasks@, task_id, steps),
            task_ancestor_at(tasks@, task_id, end) is None,
            1 <= steps <= end,
            forall|k: nat|
                1 <= k < steps ==> #[trigger] task_ancestor_at(tasks@, task_id, k) != Some(potential_ancestor),
        decreases end - steps,
    {
        match current {
            None => {
                proof {
                    assert forall|k: nat|
                        1 <= k implies #[trigger] task_ancestor_at(tasks@, task_id, k) != Some(potential_ancestor) by {
                        if k >= steps {
                            lemma_task_chain_stays_ended(tasks@, task_id, steps, k);
                        }
                    }
                }
                return false;
            },
            Some(parent_id) => {
                if parent_id == potential_ancestor {
                    return true;
                }
                current = match task_by_id(tasks, parent_id) {
                    Some(task) => task.parent_task_id,
                    None => None,
                };
                proof {
                    steps = steps + 1;
                }
            },
        }
    }
}

/// A task may be offered as a parent before the check on descendants: it
/// counts, belongs to the project, and is not the task being edited.
pub open spec fn parent_task_base(t: Task, projects: Seq<Project>, editing: Option<TaskId>, project_id: ProjectId) -> bool {
    &&& task_active(t, projects)
    &&& t.project_id == project_id
    &&& Some(t.id) != editing
}

/// A task may be offered as a parent of the task being edited: as above,
/// and not one of its descendants.
pub open spec fn parent_task_fits(tasks: Seq<Task>, t: Task, projects: Seq<Project>, editing: Option<TaskId>, project_id: ProjectId) -> bool {
    &&& parent_task_base(t, projects, editing, project_id)
    &&& match editing {
        Some(e) => !is_task_descendant(tasks, t.id, e),
        None => true,
    }
}

/// The places of the tasks that may be parents and whose titles `n`
/// fuzzily matches, in order, among the first `upto` tasks.
pub open spec fn parent_candidates(
    tasks: Seq<Task>,
    upto: int,
    projects: Seq<Project>,
    n: Seq<char>,
    editing: Option<TaskId>,
    project_id: ProjectId,
) -> Seq<usize>
    decreases upto,
{
    if upto <= 0 {
        Seq::empty()
    } else {
        let rest = parent_candidates(tasks, upto - 1, projects, n, editing, project_id);
        let t = tasks[upto - 1];
        if parent_task_fits(tasks, t, projects, editing, project_id) && fuzzy_match_spec(n, t.title@) {
            rest.push((upto - 1) as usize)
        } else {
            rest
        }
    }
}

pub open spec fn parent_task_keys(tasks: Seq<Task>, places: Seq<usize>) -> Seq<Seq<int>> {
    Seq::new(places.len(), |k: int| title_key(tasks[places[k] as int].title@, false))
}

/// The tasks a parent task query suggests: tasks that count, of the
/// project, neither the task being edited nor one of its descendants,
/// whose titles the trimmed query fuzzily matches, ordered by lowered title
/// and then title; none for a blank query.
pub open spec fn parent_task_suggestions_spec(
    data: ScreenData,
    query: Seq<char>,
    editing: Option<TaskId>,
    project_id: ProjectId,
) -> Seq<usize> {
    let n = trim_spec(query);
    if n.len() == 0 {
        Seq::empty()
    } else {
        let places = parent_candidates(data.tasks@, data.tasks@.len() as int, data.projects@, n, editing, project_id);
        pick(places, stable_order_spec(parent_task_keys(data.tasks@, places), places.len()))
    }
}

/// The tasks a parent task query suggests, as places among the tasks (see
/// `parent_task_suggestions_spec`).
pub fn parent_task_suggestions(
    data: &ScreenData,
    query: &str,
    editing_task_id: Option<TaskId>,
    project_id: ProjectId,
) -> (r: Vec<usize>)
    requires
        forall|i: int|
            0 <= i < data.tasks@.len() && editing_task_id is Some && #[trigger] parent_task_base(
                data.tasks@[i],
                data.projects@,
                editing_task_id,
                project_id,
            ) ==> task_chain_ends(data.tasks@, data.tasks@[i].id),
    ensures
        r@ == parent_task_suggestions_spec(*data, query@, editing_task_id, project_id),
        forall|k: int| 0 <= k < r@.len() ==> #[trigger] r@[k] < data.tasks@.len(),
{
    let q = chars_of(query);
    let trimmed = trim_chars(q.as_slice());
    if trimmed.len() == 0 {
        return Vec::new();
    }
    let n = string_from(trimmed.as_slice());
    let tasks = &data.tasks;
    let mut places: Vec<usize> = Vec::new();
    let mut keys: Vec<Vec<i128>> = Vec::new();
    let mut i: usize = 0;
    while i < tasks.len()
        invariant
            i <= tasks.len(),
            tasks@ == data.tasks@,
            n@ == trim_spec(query@),
            forall|j: int|
                0 <= j < data.tasks@.len() && editing_task_id is Some && #[trigger] parent_task_base(
                    data.tasks@[j],
                    data.projects@,
                    editing_task_id,
                    project_id,
                ) ==> task_chain_ends(data.tasks@, data.tasks@[j].id),
            places@ == parent_candidates(tasks@, i as int, data.projects@, n@, editing_task_id, project_id),
            keys_view(keys@) == parent_task_keys(tasks@, places@),
            forall|k: int| 0 <= k < places@.len() ==> #[trigger] places@[k] < i,
        decreases tasks.len() - i,
    {
        let task = &tasks[i];
        let base = task_is_active(data.projects.as_slice(), task) && task.project_id == project_id && match editing_task_id {
            Some(e) => task.id != e,
            None => true,
        };
        let fits = base && match editing_task_id {
            Some(e) => {
                assert(parent_task_base(data.tasks@[i as int], data.projects@, editing_task_id, project_id));
                !task_is_descendant_of(tasks.as_slice(), task.id, e)
            },
            None => true,
        };
        if fits && fuzzy_matches(n.as_str(), task.title.as_str()) {
            let mut key: Vec<i128> = Vec::new();
            assert(crate::sorting::key_view(key@) =~= Seq::<int>::empty());
            push_title(&mut key, task.title.as_str(), false);
            assert(crate::sorting::key_view(key@) =~= title_key(task.title@, false));
            let ghost before_keys = keys_view(keys@);
            let ghost before_places = places@;
            places.push(i);
            keys.push(key);
            proof {
                assert(keys_view(keys@) =~= before_keys.push(crate::sorting::key_view(key@)));
                assert forall|k: int| 0 <= k < before_places.len() implies places@[k] == before_places[k] by {}
                assert(keys_view(keys@) =~= parent_task_keys(tasks@, places@));
            }
        }
        i += 1;
    }
    let r = arrange(&places, &keys);
    proof {
        let order = stable_order_spec(keys_view(keys@), keys.len() as nat);
        assert forall|k: int| 0 <= k < r@.len() implies #[trigger] r@[k] < data.tasks@.len() by {
            assert(order[k] < keys.len());
        }
    }
    r
}

/// The first place in `places` of a task whose title equals `n`, ASCII
/// letters compared without case.
pub open spec fn first_title_match(tasks: Seq<Task>, places: Seq<usize>, n: Seq<char>, k: int) -> Option<int>
    decreases places.len() - k,
{
    if k < 0 || k >= places.len() {
        None
    } else if eq_ignore_ascii_case(tasks[places[k] as int].title@, n) {
        Some(k)
    } else {
        first_title_match(tasks, places, n, k + 1)
    }
}

/// The parent task a parent field names: among the suggestions, the first
/// whose title is the trimmed field (ASCII letters compared without case),
/// else the first suggestion; none for a blank field.
pub open spec fn parent_task_resolution(
    data: ScreenData,
    value: Seq<char>,
    editing: Option<TaskId>,
    project_id: ProjectId,
) -> Option<TaskId> {
    let n = trim_spec(value);
    let suggestions = parent_task_suggestions_spec(data, n, editing, project_id);
    if n.len() == 0 || suggestions.len() == 0 {
        None
    } else {
        match first_title_match(data.tasks@, suggestions, n, 0) {
            Some(k) => Some(data.tasks@[suggestions[k] as int].id),
            None => Some(data.tasks@[suggestions[0] as int].id),
        }
    }
}

/// The parent task a parent field names (see `parent_task_resolution`).
pub fn resolve_parent_task_input(
    data: &ScreenData,
    value: &str,
    editing_task_id: Option<TaskId>,
    project_id: ProjectId,
) -> (r: Option<TaskId>)
    requires
        forall|i: int|
            0 <= i < data.tasks@.len() && editing_task_id is Some && #[trigger] parent_task_base(
                data.tasks@[i],
                data.projects@,
                editing_task_id,
                project_id,
            ) ==> task_chain_ends(data.tasks@, data.tasks@[i].id),
    ensures
        r == parent_task_resolution(*data, value@, editing_task_id, project_id),
{
    let v = chars_of(value);
    let trimmed = trim_chars(v.as_slice());
    if trimmed.len() == 0 {
        return None;
    }
    let n = string_from(trimmed.as_slice());
    let suggestions = parent_task_suggestions(data, n.as_str(), editing_task_id, project_id);
    if suggestions.len() == 0 {
        return None;
    }
    let mut k: usize = 0;
    while k < suggestions.len()
        invariant
            k <= suggestions.len(),
            n@ == trim_spec(value@),
            trimmed@ == n@,
            suggestions@ == parent_task_suggestions_spec(*data, n@, editing_task_id, project_id),
            suggestions.len() > 0,
            forall|j: int| 0 <= j < suggestions@.len() ==> #[trigger] suggestions@[j] < data.tasks@.len(),
            first_title_match(data.tasks@, suggestions@, n@, k as int) == first_title_match(
                data.tasks@,
                suggestions@,
                n@,
                0,
            ),
        decreases suggestions.len() - k,
    {
        let title = chars_of(data.tasks[suggestions[k]].title.as_str());
        if eq_ignore_case(title.as_slice(), trimmed.as_slice()) {
            return Some(data.tasks[suggestions[k]].id);
        }
        k += 1;
    }
    Some(data.tasks[suggestions[0]].id)
}

/// No item occurs twice.
pub open spec fn no_duplicates<T>(s: Seq<T>) -> bool {
    forall|i: int, j: int| 0 <= i < j < s.len() ==> s[i] != s[j]
}

/// Every name in the list is non-empty and none occurs twice.
pub open spec fn distinct_names(s: Seq<Seq<char>>) -> bool {
    no_duplicates(s) && forall|k: int| 0 <= k < s.len() ==> #[trigger] s[k].len() > 0
}

proof fn lemma_push_new_distinct(acc: Seq<Seq<char>>, q: Seq<char>)
    requires
        distinct_names(acc),
        q.len() > 0,
    ensures
        distinct_names(push_new(acc, q)),
{
    if !acc.contains(q) {
        let r = acc.push(q);
        assert forall|i: int, j: int| 0 <= i < j < r.len() implies r[i] != r[j] by {
            if j == acc.len() {
                assert(acc[i] == r[i]);
            }
        }
    }
}

proof fn lemma_field_queries_distinct(v: Seq<char>, cursor: nat, acc: Seq<Seq<char>>)
    requires
        distinct_names(acc),
    ensures
        distinct_names(field_queries_from(v, cursor, acc)),
    decreases v.len() - cursor,
{
    lemma_next_tag_reference_bounds(v, cursor as int);
    match next_tag_reference_spec(v, cursor as int) {
        None => {},
        Some((s, e, q)) => {
            lemma_next_tag_is_nonblank(v, cursor as int);
            lemma_push_new_distinct(acc, q);
            lemma_field_queries_distinct(v, e as nat, push_new(acc, q));
        },
    }
}

proof fn lemma_next_tag_is_nonblank(v: Seq<char>, from: int)
    ensures
        next_tag_reference_spec(v, from) matches Some((s, e, q)) ==> q.len() > 0,
    decreases v.len() - from,
{
    if from < v.len() && !(tag_may_start(v, from) && tag_query_at(v, from).len() > 0) {
        lemma_next_tag_is_nonblank(v, from + 1);
    }
}

/// The queries of a tags field are non-empty and none occurs twice.
pub proof fn tag_field_queries_are_distinct(v: Seq<char>)
    ensures
        distinct_names(field_queries_from(v, 0, Seq::empty())),
{
    lemma_field_queries_distinct(v, 0, Seq::empty());
}

proof fn lemma_tag_extraction_distinct(
    tags: Seq<Tag>,
    v: Seq<char>,
    cursor: nat,
    cleaned: Seq<char>,
    names: Seq<Seq<char>>,
)
    requires
        distinct_names(names),
    ensures
        distinct_names(tag_extraction_from(tags, v, cursor, cleaned, names).1),
    decreases v.len() - cursor,
{
    lemma_next_tag_reference_bounds(v, cursor as int);
    match next_tag_reference_spec(v, cursor as int) {
        None => {},
        Some((s, e, _q)) => {
            lemma_tag_reference_take_bounds(tags, v, s, e);
            let (name, next) = tag_reference_take(tags, v, s, e);
            let names2 = if name.len() > 0 {
                push_new(names, name)
            } else {
                names
            };
            if name.len() > 0 {
                lemma_push_new_distinct(names, name);
            }
            lemma_tag_extraction_distinct(tags, v, next as nat, cleaned + v.subrange(cursor as int, s), names2);
        },
    }
}

/// The tag names taken out of a title are non-empty and none occurs twice.
pub proof fn extracted_tag_names_are_distinct(tags: Seq<Tag>, v: Seq<char>)
    ensures
        distinct_names(tag_extraction(tags, v).1),
{
    lemma_tag_extraction_distinct(tags, v, 0, Seq::empty(), Seq::empty());
}

/// The word a query under the cursor reads starts at or before the cursor,
/// which is kept within the text.
pub proof fn lemma_active_query_bounds(v: Seq<char>, cursor: int, projects: Seq<Project>, after_comma: bool)
    requires
        0 <= cursor,
    ensures
        active_tag_query_spec(v, cursor, after_comma) matches Some((s, e, q)) ==> 0 <= s < e <= v.len(),
        active_project_query_spec(projects, v, cursor) matches Some((s, e, q)) ==> 0 <= s < e <= v.len(),
        active_priority_query_spec(v, cursor) matches Some((s, e, q)) ==> 0 <= s <= e <= v.len(),
{
    let safe = if cursor < v.len() {
        cursor
    } else {
        v.len() as int
    };
    lemma_last_index_of(v.take(safe), '@');
    lemma_last_index_of(v.take(safe), '#');
    lemma_word_start_bounds(v.take(safe));
}

} // verus!
