//! A line of text being typed, with a cursor between characters: the
//! editing that the input popup and the editors share.
use vstd::prelude::*;

use crate::text::string_from;

verus! {

/// Text being typed and the place of the cursor, counted in characters
/// from the start.
#[derive(Debug, Clone, PartialEq, Eq)]
pub struct TextInput {
    pub value: Vec<char>,
    pub cursor: usize,
}

/// The text and the cursor.
pub struct TextInputModel {
    pub value: Seq<char>,
    pub cursor: nat,
}

impl View for TextInput {
    type V = TextInputModel;

    open spec fn view(&self) -> TextInputModel {
        TextInputModel { value: self.value@, cursor: self.cursor as nat }
    }
}

/// The cursor stands within the text or at its end.
pub open spec fn input_wf(m: TextInputModel) -> bool {
    m.cursor <= m.value.len()
}

impl TextInput {
    /// Empty text with the cursor at the start.
    pub fn new() -> (r: Self)
        ensures
            r@.value == Seq::<char>::empty(),
            r@.cursor == 0,
    {
        TextInput { value: Vec::new(), cursor: 0 }
    }

    /// The given text with the cursor at its end.
    pub fn with_text(text: &[char]) -> (r: Self)
        ensures
            r@.value == text@,
            r@.cursor == text@.len(),
    {
        let mut value: Vec<char> = Vec::new();
        let mut i: usize = 0;
        while i < text.len()
            invariant
                i <= text.len(),
                value@ == text@.take(i as int),
            decreases text.len() - i,
        {
            value.push(text[i]);
            assert(text@.take(i + 1) =~= text@.take(i as int).push(text@[i as int]));
            i += 1;
        }
        assert(text@.take(text.len() as int) =~= text@);
        TextInput { value, cursor: text.len() }
    }

    /// The text as a string.
    pub fn text(&self) -> (r: String)
        ensures
            r@ == self@.value,
    {
        string_from(self.value.as_slice())
    }
}

/// Moves the cursor to the start of the text.
pub fn move_input_cursor_home(input: &mut TextInput)
    ensures
        final(input)@.value == old(input)@.value,
        final(input)@.cursor == 0,
{
    input.cursor = 0;
}

/// Moves the cursor one character back, unless it is at the start.
pub fn move_input_cursor_left(input: &mut TextInput)
    requires
        input_wf(old(input)@),
    ensures
        final(input)@.value == old(input)@.value,
        final(input)@.cursor == if old(input)@.cursor == 0 {
            0
        } else {
            (old(input)@.cursor - 1) as nat
        },
{
    if input.cursor == 0 {
        return;
    }
    input.cursor = input.cursor - 1;
}

/// Moves the cursor one character on, unless it is at the end.
pub fn move_input_cursor_right(input: &mut TextInput)
    requires
        input_wf(old(input)@),
    ensures
        final(input)@.value == old(input)@.value,
        final(input)@.cursor == if old(input)@.cursor >= old(input)@.value.len() {
            old(input)@.cursor
        } else {
            old(input)@.cursor + 1
        },
{
    if input.cursor >= input.value.len() {
        return;
    }
    input.cursor = input.cursor + 1;
}

/// Moves the cursor to the end of the text.
pub fn move_input_cursor_end(input: &mut TextInput)
    ensures
        final(input)@.value == old(input)@.value,
        final(input)@.cursor == old(input)@.value.len(),
{
    input.cursor = input.value.len();
}

/// Types a character at the cursor, which then stands after it.
pub fn insert_input_char(input: &mut TextInput, character: char)
    requires
        input_wf(old(input)@),
        old(input)@.value.len() < usize::MAX,
    ensures
        final(input)@.value == old(input)@.value.insert(old(input)@.cursor as int, character),
        final(input)@.cursor == old(input)@.cursor + 1,
{
    input.value.insert(input.cursor, character);
    input.cursor = input.cursor + 1;
}

/// Deletes the character before the cursor, unless the cursor is at the
/// start; the cursor moves back over it.
pub fn delete_input_char_before_cursor(input: &mut TextInput)
    requires
        input_wf(old(input)@),
    ensures
        old(input)@.cursor == 0 ==> final(input)@ == old(input)@,
        old(input)@.cursor > 0 ==> final(input)@.value == old(input)@.value.remove(
            old(input)@.cursor - 1,
        ) && final(input)@.cursor == old(input)@.cursor - 1,
{
    if input.cursor == 0 {
        return;
    }
    let previous = input.cursor - 1;
    input.value.remove(previous);
    input.cursor = previous;
}

/// Deletes the character at the cursor, unless the cursor is at the end.
pub fn delete_input_char_at_cursor(input: &mut TextInput)
    requires
        input_wf(old(input)@),
    ensures
        old(input)@.cursor >= old(input)@.value.len() ==> final(input)@ == old(input)@,
        old(input)@.cursor < old(input)@.value.len() ==> final(input)@.value == old(
            input,
        )@.value.remove(old(input)@.cursor as int) && final(input)@.cursor == old(input)@.cursor,
{
    if input.cursor >= input.value.len() {
        return;
    }
    input.value.remove(input.cursor);
}

/// Every edit keeps the cursor within the text; typing a character and then
/// deleting the one before the cursor gives the text and cursor back; and
/// deleting at the cursor after stepping back over a character is deleting
/// the character before it.
pub proof fn editing_laws(m: TextInputModel, c: char)
    requires
        input_wf(m),
    ensures
        m.value.insert(m.cursor as int, c).remove(m.cursor as int) == m.value,
        input_wf(TextInputModel { value: m.value.insert(m.cursor as int, c), cursor: m.cursor + 1 }),
        m.cursor > 0 ==> input_wf(
            TextInputModel { value: m.value.remove(m.cursor - 1), cursor: (m.cursor - 1) as nat },
        ),
        m.cursor < m.value.len() ==> input_wf(
            TextInputModel { value: m.value.remove(m.cursor as int), cursor: m.cursor },
        ),
{
    assert(m.value.insert(m.cursor as int, c).remove(m.cursor as int) =~= m.value);
}

} // verus!
