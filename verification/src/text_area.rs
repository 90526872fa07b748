//! Text of several lines being typed, with a cursor and a scroll offset:
//! the note editor of a session, and the description field of the task
//! editor. The view shows a fixed number of lines, and every edit scrolls
//! it so that the line of the cursor stays in view. Positions are counted
//! in characters.
use vstd::prelude::*;

use crate::references::{lemma_last_index_of, last_index_of};

verus! {

/// Lines that the description field of the task editor shows at once.
pub const DESCRIPTION_VIEWPORT_LINES: usize = 3;

/// Lines that the note editor of a session shows at once.
pub const SESSION_NOTE_VIEWPORT_LINES: usize = 4;

/// The cursor, kept within the text.
pub open spec fn clamped_cursor(v: Seq<char>, cursor: int) -> int {
    if cursor < v.len() {
        cursor
    } else {
        v.len() as int
    }
}

/// Where the line holding the cursor starts: after the last line break
/// before it, or at the start.
pub open spec fn line_start_spec(v: Seq<char>, cursor: int) -> int {
    match last_index_of(v.take(clamped_cursor(v, cursor)), '\n') {
        Some(i) => i + 1,
        None => 0,
    }
}

/// The first place at or after `i` that holds `c`.
pub open spec fn first_index_from(v: Seq<char>, c: char, i: int) -> Option<int>
    decreases v.len() - i,
{
    if i < 0 || i >= v.len() {
        None
    } else if v[i] == c {
        Some(i)
    } else {
        first_index_from(v, c, i + 1)
    }
}

/// Where the line holding the cursor ends: at the next line break, or the
/// end of the text.
pub open spec fn line_end_spec(v: Seq<char>, cursor: int) -> int {
    match first_index_from(v, '\n', clamped_cursor(v, cursor)) {
        Some(i) => i,
        None => v.len() as int,
    }
}

/// How many line breaks a text holds.
pub open spec fn count_newlines(s: Seq<char>) -> nat
    decreases s.len(),
{
    if s.len() == 0 {
        0
    } else {
        count_newlines(s.drop_last()) + if s.last() == '\n' {
            1nat
        } else {
            0nat
        }
    }
}

/// The line of the cursor, counted from zero.
pub open spec fn cursor_line_spec(v: Seq<char>, cursor: int) -> nat {
    count_newlines(v.take(clamped_cursor(v, cursor)))
}

/// The scroll offset that keeps `line` in a view of `viewport` lines:
/// unchanged while the line is in view, else just enough to bring it in.
pub open spec fn scroll_for(line: int, scroll: int, viewport: int) -> int {
    if line < scroll {
        line
    } else {
        let bottom = if scroll + viewport - 1 <= usize::MAX {
            scroll + viewport - 1
        } else {
            usize::MAX as int
        };
        if line > bottom {
            if line >= viewport - 1 {
                line - (viewport - 1)
            } else {
                0
            }
        } else {
            scroll
        }
    }
}

/// Where the cursor goes on a move to the line above (`up`) or below: the
/// same column on that line, or the end of the line where it is shorter.
/// Above the first line and below the last, the cursor stays on its line
/// at that column.
pub open spec fn vertical_target(v: Seq<char>, cursor: int, up: bool) -> int {
    let c = clamped_cursor(v, cursor);
    let start = line_start_spec(v, c);
    let column = c - start;
    let target_start = if up {
        if start == 0 {
            0
        } else {
            line_start_spec(v, start - 1)
        }
    } else {
        let end = line_end_spec(v, c);
        if end >= v.len() {
            start
        } else {
            end + 1
        }
    };
    let target_end = match first_index_from(v, '\n', target_start) {
        Some(i) => i,
        None => v.len() as int,
    };
    if target_start + column < target_end {
        target_start + column
    } else {
        target_end
    }
}

pub proof fn lemma_first_index_from(v: Seq<char>, c: char, i: int)
    requires
        0 <= i,
    ensures
        first_index_from(v, c, i) matches Some(k) ==> i <= k < v.len() && v[k] == c && forall|j: int|
            i <= j < k ==> v[j] != c,
        first_index_from(v, c, i) is None ==> forall|j: int| i <= j < v.len() ==> v[j] != c,
    decreases v.len() - i,
{
    if i < v.len() && v[i] != c {
        lemma_first_index_from(v, c, i + 1);
    }
}

pub proof fn lemma_line_bounds(v: Seq<char>, cursor: int)
    requires
        0 <= cursor,
    ensures
        0 <= line_start_spec(v, cursor) <= clamped_cursor(v, cursor) <= line_end_spec(v, cursor) <= v.len(),
{
    let c = clamped_cursor(v, cursor);
    lemma_last_index_of(v.take(c), '\n');
    lemma_first_index_from(v, '\n', c);
}

/// Where the line holding the cursor starts.
pub fn description_line_start(value: &[char], cursor: usize) -> (r: usize)
    ensures
        r == line_start_spec(value@, cursor as int),
        r <= value.len(),
{
    proof {
        lemma_line_bounds(value@, cursor as int);
    }
    let clamped = if cursor < value.len() {
        cursor
    } else {
        value.len()
    };
    let mut k: usize = clamped;
    while k > 0
        invariant
            k <= clamped <= value.len(),
            clamped == clamped_cursor(value@, cursor as int),
            last_index_of(value@.take(clamped as int), '\n') == last_index_of(value@.take(k as int), '\n'),
        decreases k,
    {
        assert(value@.take(k as int).drop_last() =~= value@.take(k - 1));
        assert(value@.take(k as int).last() == value@[k - 1]);
        if value[k - 1] == '\n' {
            assert(last_index_of(value@.take(k as int), '\n') == Some(k - 1));
            return k;
        }
        k -= 1;
    }
    0
}

/// The first place at or after `from` that holds a line break, or the end
/// of the text.
fn next_line_break(value: &[char], from: usize) -> (r: usize)
    requires
        from <= value.len(),
    ensures
        r == match first_index_from(value@, '\n', from as int) {
            Some(i) => i,
            None => value.len() as int,
        },
        from <= r <= value.len(),
{
    proof {
        lemma_first_index_from(value@, '\n', from as int);
    }
    let mut k: usize = from;
    while k < value.len()
        invariant
            from <= k <= value.len(),
            first_index_from(value@, '\n', k as int) == first_index_from(value@, '\n', from as int),
        decreases value.len() - k,
    {
        if value[k] == '\n' {
            return k;
        }
        k += 1;
    }
    value.len()
}

/// Where the line holding the cursor ends.
pub fn description_line_end(value: &[char], cursor: usize) -> (r: usize)
    ensures
        r == line_end_spec(value@, cursor as int),
        r <= value.len(),
{
    let clamped = if cursor < value.len() {
        cursor
    } else {
        value.len()
    };
    next_line_break(value, clamped)
}

/// The column of the cursor on its line.
pub fn description_column(value: &[char], cursor: usize) -> (r: usize)
    ensures
        r == clamped_cursor(value@, cursor as int) - line_start_spec(value@, cursor as int),
{
    proof {
        lemma_line_bounds(value@, cursor as int);
    }
    let clamped = if cursor < value.len() {
        cursor
    } else {
        value.len()
    };
    clamped - description_line_start(value, cursor)
}

/// The line of the cursor, counted from zero: the line breaks before it.
pub fn description_cursor_line(value: &[char], cursor: usize) -> (r: usize)
    ensures
        r == cursor_line_spec(value@, cursor as int),
{
    let clamped = if cursor < value.len() {
        cursor
    } else {
        value.len()
    };
    let mut count: usize = 0;
    let mut i: usize = 0;
    while i < clamped
        invariant
            i <= clamped <= value.len(),
            count == count_newlines(value@.take(i as int)),
            count <= i,
        decreases clamped - i,
    {
        assert(value@.take(i + 1).drop_last() =~= value@.take(i as int));
        if value[i] == '\n' {
            count += 1;
        }
        i += 1;
    }
    count
}

/// The scroll offset that keeps the line of the cursor in a view of
/// `viewport` lines.
pub fn scroll_to_line(line: usize, scroll: usize, viewport: usize) -> (r: usize)
    requires
        viewport >= 1,
    ensures
        r == scroll_for(line as int, scroll as int, viewport as int),
{
    if line < scroll {
        return line;
    }
    let bottom = scroll.saturating_add(viewport - 1);
    if line > bottom {
        line.saturating_sub(viewport - 1)
    } else {
        scroll
    }
}

/// Where the cursor goes on a move one line up (`direction` below zero) or
/// down.
pub fn vertical_cursor_target(value: &[char], cursor: usize, direction: isize) -> (r: usize)
    ensures
        r == vertical_target(value@, cursor as int, direction < 0),
        r <= value.len(),
{
    proof {
        lemma_line_bounds(value@, cursor as int);
    }
    let c = if cursor < value.len() {
        cursor
    } else {
        value.len()
    };
    let start = description_line_start(value, c);
    let column = c - start;
    let target_start = if direction < 0 {
        if start == 0 {
            0
        } else {
            description_line_start(value, start - 1)
        }
    } else {
        let end = description_line_end(value, c);
        if end >= value.len() {
            start
        } else {
            end + 1
        }
    };
    let target_end = next_line_break(value, target_start);
    if column < target_end - target_start {
        target_start + column
    } else {
        target_end
    }
}

/// A text of several lines, the place of the cursor in it, and the first
/// line in view.
#[derive(Debug, Clone, PartialEq, Eq)]
pub struct TextArea {
    pub value: Vec<char>,
    pub cursor: usize,
    pub scroll: usize,
}

/// The text, the cursor and the first line in view.
pub struct TextAreaModel {
    pub value: Seq<char>,
    pub cursor: nat,
    pub scroll: nat,
}

impl View for TextArea {
    type V = TextAreaModel;

    open spec fn view(&self) -> TextAreaModel {
        TextAreaModel { value: self.value@, cursor: self.cursor as nat, scroll: self.scroll as nat }
    }
}

/// The cursor stands within the text or at its end.
pub open spec fn area_wf(m: TextAreaModel) -> bool {
    m.cursor <= m.value.len()
}

/// The text and cursor given, scrolled so that the cursor's line is in a
/// view of `viewport` lines.
pub open spec fn scrolled(value: Seq<char>, cursor: nat, scroll: nat, viewport: nat) -> TextAreaModel {
    TextAreaModel {
        value,
        cursor,
        scroll: scroll_for(cursor_line_spec(value, cursor as int) as int, scroll as int, viewport as int) as nat,
    }
}

fn sync_scroll(area: &mut TextArea, viewport: usize)
    requires
        viewport >= 1,
    ensures
        final(area)@ == scrolled(old(area)@.value, old(area)@.cursor, old(area)@.scroll, viewport as nat),
{
    let line = description_cursor_line(area.value.as_slice(), area.cursor);
    area.scroll = scroll_to_line(line, area.scroll, viewport);
}

/// Scrolls the view so that the line of the cursor is in it.
pub fn sync_session_note_scroll(area: &mut TextArea, viewport: usize)
    requires
        viewport >= 1,
    ensures
        final(area)@ == scrolled(old(area)@.value, old(area)@.cursor, old(area)@.scroll, viewport as nat),
{
    sync_scroll(area, viewport);
}

/// Moves the cursor to the start of its line.
pub fn move_session_note_cursor_home(area: &mut TextArea, viewport: usize)
    requires
        viewport >= 1,
    ensures
        final(area)@ == scrolled(
            old(area)@.value,
            line_start_spec(old(area)@.value, old(area)@.cursor as int) as nat,
            old(area)@.scroll,
            viewport as nat,
        ),
{
    area.cursor = description_line_start(area.value.as_slice(), area.cursor);
    sync_scroll(area, viewport);
}

/// Moves the cursor to the end of its line.
pub fn move_session_note_cursor_end(area: &mut TextArea, viewport: usize)
    requires
        viewport >= 1,
    ensures
        final(area)@ == scrolled(
            old(area)@.value,
            line_end_spec(old(area)@.value, old(area)@.cursor as int) as nat,
            old(area)@.scroll,
            viewport as nat,
        ),
{
    area.cursor = description_line_end(area.value.as_slice(), area.cursor);
    sync_scroll(area, viewport);
}

/// Moves the cursor one character back, unless it is at the start.
pub fn move_session_note_cursor_left(area: &mut TextArea, viewport: usize)
    requires
        viewport >= 1,
        area_wf(old(area)@),
    ensures
        old(area)@.cursor == 0 ==> final(area)@ == old(area)@,
        old(area)@.cursor > 0 ==> final(area)@ == scrolled(
            old(area)@.value,
            (old(area)@.cursor - 1) as nat,
            old(area)@.scroll,
            viewport as nat,
        ),
{
    if area.cursor == 0 {
        return;
    }
    area.cursor = area.cursor - 1;
    sync_scroll(area, viewport);
}

/// Moves the cursor one character on, unless it is at the end.
pub fn move_session_note_cursor_right(area: &mut TextArea, viewport: usize)
    requires
        viewport >= 1,
    ensures
        old(area)@.cursor >= old(area)@.value.len() ==> final(area)@ == old(area)@,
        old(area)@.cursor < old(area)@.value.len() ==> final(area)@ == scrolled(
            old(area)@.value,
            old(area)@.cursor + 1,
            old(area)@.scroll,
            viewport as nat,
        ),
{
    if area.cursor >= area.value.len() {
        return;
    }
    area.cursor = area.cursor + 1;
    sync_scroll(area, viewport);
}

/// Moves the cursor a line up (`direction` below zero) or down.
pub fn move_session_note_cursor_vertical(area: &mut TextArea, direction: isize, viewport: usize)
    requires
        viewport >= 1,
    ensures
        final(area)@ == scrolled(
            old(area)@.value,
            vertical_target(old(area)@.value, old(area)@.cursor as int, direction < 0) as nat,
            old(area)@.scroll,
            viewport as nat,
        ),
{
    area.cursor = vertical_cursor_target(area.value.as_slice(), area.cursor, direction);
    sync_scroll(area, viewport);
}

/// Types a character at the cursor, which then stands after it.
pub fn insert_session_note_char(area: &mut TextArea, character: char, viewport: usize)
    requires
        viewport >= 1,
        area_wf(old(area)@),
        old(area)@.value.len() < usize::MAX,
    ensures
        final(area)@ == scrolled(
            old(area)@.value.insert(old(area)@.cursor as int, character),
            old(area)@.cursor + 1,
            old(area)@.scroll,
            viewport as nat,
        ),
{
    area.value.insert(area.cursor, character);
    area.cursor = area.cursor + 1;
    sync_scroll(area, viewport);
}

/// Starts a new line at the cursor.
pub fn insert_session_note_newline(area: &mut TextArea, viewport: usize)
    requires
        viewport >= 1,
        area_wf(old(area)@),
        old(area)@.value.len() < usize::MAX,
    ensures
        final(area)@ == scrolled(
            old(area)@.value.insert(old(area)@.cursor as int, '\n'),
            old(area)@.cursor + 1,
            old(area)@.scroll,
            viewport as nat,
        ),
{
    insert_session_note_char(area, '\n', viewport);
}

/// Deletes the character before the cursor, unless the cursor is at the
/// start.
pub fn delete_session_note_char_before_cursor(area: &mut TextArea, viewport: usize)
    requires
        viewport >= 1,
        area_wf(old(area)@),
    ensures
        old(area)@.cursor == 0 ==> final(area)@ == old(area)@,
        old(area)@.cursor > 0 ==> final(area)@ == scrolled(
            old(area)@.value.remove(old(area)@.cursor - 1),
            (old(area)@.cursor - 1) as nat,
            old(area)@.scroll,
            viewport as nat,
        ),
{
    if area.cursor == 0 {
        return;
    }
    let previous = area.cursor - 1;
    area.value.remove(previous);
    area.cursor = previous;
    sync_scroll(area, viewport);
}

/// Deletes the character at the cursor, unless the cursor is at the end.
pub fn delete_session_note_char_at_cursor(area: &mut TextArea, viewport: usize)
    requires
        viewport >= 1,
    ensures
        old(area)@.cursor >= old(area)@.value.len() ==> final(area)@ == old(area)@,
        old(area)@.cursor < old(area)@.value.len() ==> final(area)@ == scrolled(
            old(area)@.value.remove(old(area)@.cursor as int),
            old(area)@.cursor,
            old(area)@.scroll,
            viewport as nat,
        ),
{
    if area.cursor >= area.value.len() {
        return;
    }
    area.value.remove(area.cursor);
    sync_scroll(area, viewport);
}

/// After a scroll to the cursor's line, that line is in view: at or below
/// the first line in view and at most `viewport - 1` lines further down.
pub proof fn scrolling_keeps_cursor_line_in_view(line: nat, scroll: nat, viewport: nat)
    requires
        viewport >= 1,
        line <= usize::MAX,
        scroll <= usize::MAX,
    ensures
        scroll_for(line as int, scroll as int, viewport as int) <= line,
        line <= scroll_for(line as int, scroll as int, viewport as int) + viewport - 1,
        scroll <= line <= scroll + viewport - 1 ==> scroll_for(line as int, scroll as int, viewport as int) == scroll,
{
}

/// A vertical move keeps the cursor within the text.
pub proof fn vertical_move_stays_in_text(v: Seq<char>, cursor: int, up: bool)
    requires
        0 <= cursor,
    ensures
        0 <= vertical_target(v, cursor, up) <= v.len(),
{
    let c = clamped_cursor(v, cursor);
    lemma_line_bounds(v, cursor);
    lemma_line_bounds(v, c);
    let start = line_start_spec(v, c);
    if start > 0 {
        lemma_line_bounds(v, start - 1);
    }
    let end = line_end_spec(v, c);
    let target_start = if up {
        if start == 0 {
            0
        } else {
            line_start_spec(v, start - 1)
        }
    } else {
        if end >= v.len() {
            start
        } else {
            end + 1
        }
    };
    lemma_first_index_from(v, '\n', target_start);
}

proof fn lemma_count_split(v: Seq<char>, a: int, b: int)
    requires
        0 <= a <= b <= v.len(),
    ensures
        count_newlines(v.take(b)) == count_newlines(v.take(a)) + count_newlines(v.subrange(a, b)),
    decreases b - a,
{
    if b > a {
        lemma_count_split(v, a, b - 1);
        assert(v.take(b).drop_last() =~= v.take(b - 1));
        assert(v.subrange(a, b).drop_last() =~= v.subrange(a, b - 1));
    } else {
        assert(v.subrange(a, b).len() == 0);
    }
}

proof fn lemma_count_none(s: Seq<char>)
    requires
        forall|j: int| 0 <= j < s.len() ==> s[j] != '\n',
    ensures
        count_newlines(s) == 0,
    decreases s.len(),
{
    if s.len() > 0 {
        lemma_count_none(s.drop_last());
    }
}

proof fn lemma_count_same(v: Seq<char>, a: int, b: int)
    requires
        0 <= a <= b <= v.len(),
        forall|j: int| a <= j < b ==> v[j] != '\n',
    ensures
        count_newlines(v.take(b)) == count_newlines(v.take(a)),
{
    lemma_count_split(v, a, b);
    lemma_count_none(v.subrange(a, b));
}

proof fn lemma_count_step(v: Seq<char>, a: int)
    requires
        0 <= a < v.len(),
        v[a] == '\n',
    ensures
        count_newlines(v.take(a + 1)) == count_newlines(v.take(a)) + 1,
{
    assert(v.take(a + 1).drop_last() =~= v.take(a));
}

/// No line break stands between the start of the cursor's line and the
/// cursor, and one stands just before the start unless it is the start of
/// the text; none stands before the start of the text's first line.
proof fn lemma_line_start_facts(v: Seq<char>, c: int)
    requires
        0 <= c <= v.len(),
    ensures
        forall|j: int| line_start_spec(v, c) <= j < c ==> v[j] != '\n',
        line_start_spec(v, c) > 0 ==> v[line_start_spec(v, c) - 1] == '\n',
        count_newlines(v.take(c)) == count_newlines(v.take(line_start_spec(v, c))),
        line_start_spec(v, c) == 0 <==> count_newlines(v.take(c)) == 0,
{
    lemma_last_index_of(v.take(c), '\n');
    lemma_line_bounds(v, c);
    let st = line_start_spec(v, c);
    assert forall|j: int| st <= j < c implies v[j] != '\n' by {
        assert(v.take(c)[j] == v[j]);
    }
    lemma_count_same(v, st, c);
    if st > 0 {
        assert(v.take(c)[st - 1] == v[st - 1]);
        lemma_count_step(v, st - 1);
        lemma_count_split(v, 0, st - 1);
    } else {
        assert forall|j: int| 0 <= j < c implies v[j] != '\n' by {
            assert(v.take(c)[j] == v[j]);
        }
    }
}

/// A move up takes the cursor to the line above, and a move down to the
/// line below, except on the first line and on the last, where it stays on
/// its line.
pub proof fn vertical_moves_change_line_by_one(v: Seq<char>, cursor: int)
    requires
        0 <= cursor,
    ensures
        cursor_line_spec(v, cursor) > 0 ==> cursor_line_spec(v, vertical_target(v, cursor, true))
            == cursor_line_spec(v, cursor) - 1,
        cursor_line_spec(v, cursor) == 0 ==> cursor_line_spec(v, vertical_target(v, cursor, true)) == 0,
        line_end_spec(v, cursor) < v.len() ==> cursor_line_spec(v, vertical_target(v, cursor, false))
            == cursor_line_spec(v, cursor) + 1,
        line_end_spec(v, cursor) >= v.len() ==> cursor_line_spec(v, vertical_target(v, cursor, false))
            == cursor_line_spec(v, cursor),
{
    let c = clamped_cursor(v, cursor);
    lemma_line_bounds(v, cursor);
    lemma_line_start_facts(v, c);
    let start = line_start_spec(v, c);
    let end = line_end_spec(v, c);
    assert(line_start_spec(v, cursor) == start);
    lemma_first_index_from(v, '\n', c);
    vertical_move_stays_in_text(v, cursor, true);
    vertical_move_stays_in_text(v, cursor, false);
    // moving up
    let up = vertical_target(v, cursor, true);
    if start == 0 {
        lemma_first_index_from(v, '\n', 0);
        let te = match first_index_from(v, '\n', 0) {
            Some(i) => i,
            None => v.len() as int,
        };
        assert forall|j: int| 0 <= j < up implies v[j] != '\n' by {}
        lemma_count_same(v, 0, up);
        assert(v.take(0).len() == 0);
    } else {
        lemma_line_bounds(v, start - 1);
        lemma_line_start_facts(v, start - 1);
        let ts = line_start_spec(v, start - 1);
        lemma_first_index_from(v, '\n', ts);
        assert(first_index_from(v, '\n', ts) == Some(start - 1)) by {
            assert forall|j: int| ts <= j < start - 1 implies v[j] != '\n' by {}
            lemma_first_index_unique(v, ts, start - 1);
        }
        assert forall|j: int| ts <= j < up implies v[j] != '\n' by {}
        lemma_count_same(v, ts, up);
        lemma_count_step(v, start - 1);
    }
    // moving down
    let down = vertical_target(v, cursor, false);
    if end < v.len() {
        assert(v[end] == '\n');
        lemma_count_same(v, c, end);
        lemma_count_step(v, end);
        lemma_first_index_from(v, '\n', end + 1);
        assert forall|j: int| end + 1 <= j < down implies v[j] != '\n' by {}
        lemma_count_same(v, end + 1, down);
    } else {
        lemma_first_index_from(v, '\n', start);
        assert forall|j: int| start <= j < down implies v[j] != '\n' by {
            if j >= c {
                assert(v[j] != '\n');
            }
        }
        lemma_count_same(v, start, down);
    }
}

proof fn lemma_first_index_unique(v: Seq<char>, i: int, k: int)
    requires
        0 <= i <= k < v.len(),
        v[k] == '\n',
        forall|j: int| i <= j < k ==> v[j] != '\n',
    ensures
        first_index_from(v, '\n', i) == Some(k),
    decreases k - i,
{
    if i < k {
        lemma_first_index_unique(v, i + 1, k);
    }
}

} // verus!
