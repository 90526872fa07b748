//! Saved filter queries: their syntax, how a query text is read into an
//! expression, and how an expression decides whether a task matches.
//!
//! A query is a boolean combination of terms. `&` (or the word `and`, or
//! nothing at all between two operands) joins terms that must all hold, `|`,
//! `,` (or the word `or`) joins alternatives, `!` negates, and parentheses
//! group. `&` binds tighter than `|`, and `!` tighter than both.
use vstd::prelude::*;

use crate::domain::{priority_level, CalendarDate, Task, TaskPriority, TaskStatus};
use crate::text::{
    all_ascii_digits, ascii_lower_seq, chars_of, concat_chars, contains_chars, contains_spec,
    chars_eq, eq_ignore_ascii_case, eq_ignore_case, eq_ignore_case_str, is_blank, is_white_space, is_whitespace,
    lowercase, parse_u8, parse_u8_spec, slice_chars, string_from, string_of, to_ascii_lower_chars, to_lowercase,
    trim_chars, trim_spec, lemma_trim_idempotent,
};

verus! {

/// One condition on a task.
#[derive(Debug, Clone, PartialEq, Eq)]
pub enum FilterTerm {
    Tag(String),
    Project(String),
    Priority(TaskPriority),
    DueToday,
    Overdue,
    NoDue,
    StatusDone,
    StatusTodo,
    Search(String),
}

/// A filter query read into a tree.
#[derive(Debug, PartialEq, Eq)]
pub enum FilterExpr {
    Term(FilterTerm),
    Not(Box<FilterExpr>),
    And(Box<FilterExpr>, Box<FilterExpr>),
    Or(Box<FilterExpr>, Box<FilterExpr>),
}

/// Why a query text was refused.
#[derive(Debug, Clone, PartialEq, Eq)]
pub struct FilterValidationError {
    pub message: String,
}

/// A term with its texts as character sequences.
pub enum TermModel {
    Tag(Seq<char>),
    Project(Seq<char>),
    Priority(TaskPriority),
    DueToday,
    Overdue,
    NoDue,
    StatusDone,
    StatusTodo,
    Search(Seq<char>),
}

/// An expression with its texts as character sequences.
pub enum ExprModel {
    Term(TermModel),
    Not(Box<ExprModel>),
    And(Box<ExprModel>, Box<ExprModel>),
    Or(Box<ExprModel>, Box<ExprModel>),
}

impl View for FilterTerm {
    type V = TermModel;

    open spec fn view(&self) -> TermModel {
        match self {
            FilterTerm::Tag(s) => TermModel::Tag(s@),
            FilterTerm::Project(s) => TermModel::Project(s@),
            FilterTerm::Priority(p) => TermModel::Priority(*p),
            FilterTerm::DueToday => TermModel::DueToday,
            FilterTerm::Overdue => TermModel::Overdue,
            FilterTerm::NoDue => TermModel::NoDue,
            FilterTerm::StatusDone => TermModel::StatusDone,
            FilterTerm::StatusTodo => TermModel::StatusTodo,
            FilterTerm::Search(s) => TermModel::Search(s@),
        }
    }
}

pub open spec fn expr_model(e: FilterExpr) -> ExprModel
    decreases e,
{
    match e {
        FilterExpr::Term(t) => ExprModel::Term(t@),
        FilterExpr::Not(inner) => ExprModel::Not(Box::new(expr_model(*inner))),
        FilterExpr::And(l, r) => ExprModel::And(Box::new(expr_model(*l)), Box::new(expr_model(*r))),
        FilterExpr::Or(l, r) => ExprModel::Or(Box::new(expr_model(*l)), Box::new(expr_model(*r))),
    }
}

impl View for FilterExpr {
    type V = ExprModel;

    open spec fn view(&self) -> ExprModel {
        expr_model(*self)
    }
}

/// Whether one of the tag names equals `name`, ASCII letters folded.
pub open spec fn has_tag_named(tag_names: Seq<Seq<char>>, name: Seq<char>) -> bool {
    exists|i: int| 0 <= i < tag_names.len() && eq_ignore_ascii_case(#[trigger] tag_names[i], name)
}

/// The text of an optional string slice.
pub open spec fn opt_str_view(o: Option<&str>) -> Option<Seq<char>> {
    match o {
        Some(s) => Some(s@),
        None => None,
    }
}

/// The texts of string slices, in order.
pub open spec fn strs_view(s: Seq<&str>) -> Seq<Seq<char>> {
    s.map_values(|x: &str| x@)
}

/// Whether a term holds of a task, given the day it is today, the name of the
/// task's project and the names of its tags.
pub open spec fn term_holds(
    term: TermModel,
    task: Task,
    today: CalendarDate,
    project_name: Option<Seq<char>>,
    tag_names: Seq<Seq<char>>,
) -> bool {
    match term {
        TermModel::Tag(name) => has_tag_named(tag_names, name),
        TermModel::Project(name) => match project_name {
            Some(p) => eq_ignore_ascii_case(p, name),
            None => false,
        },
        TermModel::Priority(p) => task.priority == p,
        TermModel::DueToday => match task.due {
            Some(due) => due.date.day_number == today.day_number,
            None => false,
        },
        TermModel::Overdue => match task.due {
            Some(due) => due.date.day_number < today.day_number,
            None => false,
        },
        TermModel::NoDue => task.due is None,
        TermModel::StatusDone => task.status == TaskStatus::Done,
        TermModel::StatusTodo => task.status == TaskStatus::Todo,
        TermModel::Search(query) => contains_spec(lowercase(task.title@), lowercase(query)),
    }
}

/// The due terms split a task's due day against today: a task with a due
/// date is overdue when its day is before today, due today when it is
/// today, and neither when it is later, so a task due today is never
/// overdue; an overdue task stays overdue on every later day; and a task
/// without a due date is neither, only undated.
pub proof fn due_terms_split_the_days(
    task: Task,
    today: CalendarDate,
    later: CalendarDate,
    project_name: Option<Seq<char>>,
    tag_names: Seq<Seq<char>>,
)
    ensures
        term_holds(TermModel::Overdue, task, today, project_name, tag_names) <==> (task.due matches Some(d)
            && d.date.day_number < today.day_number),
        !(term_holds(TermModel::Overdue, task, today, project_name, tag_names) && term_holds(
            TermModel::DueToday,
            task,
            today,
            project_name,
            tag_names,
        )),
        (task.due matches Some(d) && d.date.day_number > today.day_number) ==> !term_holds(
            TermModel::Overdue,
            task,
            today,
            project_name,
            tag_names,
        ) && !term_holds(TermModel::DueToday, task, today, project_name, tag_names),
        (task.due matches Some(d) && d.date.day_number == today.day_number) ==> term_holds(
            TermModel::DueToday,
            task,
            today,
            project_name,
            tag_names,
        ),
        term_holds(TermModel::NoDue, task, today, project_name, tag_names) <==> task.due is None,
        (term_holds(TermModel::Overdue, task, today, project_name, tag_names) && later.day_number
            >= today.day_number) ==> term_holds(TermModel::Overdue, task, later, project_name, tag_names),
        term_holds(TermModel::NoDue, task, today, project_name, tag_names) ==> !term_holds(
            TermModel::Overdue,
            task,
            today,
            project_name,
            tag_names,
        ) && !term_holds(TermModel::DueToday, task, today, project_name, tag_names),
{
}

/// A tag term holds of a task that carries a tag of exactly that name; a
/// project term of a task in a project of exactly that name; a priority term
/// exactly of tasks of that priority; the status terms split the tasks that
/// are done from those still to do; a search holds of a task whose title is
/// the query itself.
pub proof fn terms_name_what_they_match(
    task: Task,
    today: CalendarDate,
    project_name: Option<Seq<char>>,
    tag_names: Seq<Seq<char>>,
    name: Seq<char>,
    p: TaskPriority,
)
    ensures
        tag_names.contains(name) ==> term_holds(TermModel::Tag(name), task, today, project_name, tag_names),
        tag_names.len() == 0 ==> !term_holds(TermModel::Tag(name), task, today, project_name, tag_names),
        project_name == Some(name) ==> term_holds(TermModel::Project(name), task, today, project_name, tag_names),
        project_name is None ==> !term_holds(TermModel::Project(name), task, today, project_name, tag_names),
        term_holds(TermModel::Priority(p), task, today, project_name, tag_names) <==> task.priority == p,
        !(term_holds(TermModel::StatusDone, task, today, project_name, tag_names) && term_holds(
            TermModel::StatusTodo,
            task,
            today,
            project_name,
            tag_names,
        )),
        task.status == TaskStatus::Done ==> term_holds(TermModel::StatusDone, task, today, project_name, tag_names),
        task.status == TaskStatus::Todo ==> term_holds(TermModel::StatusTodo, task, today, project_name, tag_names),
        term_holds(TermModel::Search(task.title@), task, today, project_name, tag_names),
{
    if tag_names.contains(name) {
        let i = choose|i: int| 0 <= i < tag_names.len() && tag_names[i] == name;
        assert(eq_ignore_ascii_case(tag_names[i], name));
    }
    let lt = lowercase(task.title@);
    assert(lt.subrange(0, 0 + lt.len() as int) =~= lt);
}

/// The connectives mean what they say: `!` holds where its operand does
/// not, `&` where both operands do, `|` where either does.
pub proof fn connectives_combine_their_operands(
    l: ExprModel,
    r: ExprModel,
    task: Task,
    today: CalendarDate,
    project_name: Option<Seq<char>>,
    tag_names: Seq<Seq<char>>,
)
    ensures
        expr_holds(ExprModel::Not(Box::new(l)), task, today, project_name, tag_names) != expr_holds(
            l,
            task,
            today,
            project_name,
            tag_names,
        ),
        expr_holds(ExprModel::And(Box::new(l), Box::new(r)), task, today, project_name, tag_names) == (
        expr_holds(l, task, today, project_name, tag_names) && expr_holds(r, task, today, project_name, tag_names)),
        expr_holds(ExprModel::Or(Box::new(l), Box::new(r)), task, today, project_name, tag_names) == (
        expr_holds(l, task, today, project_name, tag_names) || expr_holds(r, task, today, project_name, tag_names)),
{
}

/// `p1` to `p4` name the priorities of those levels, and no other number
/// names one.
pub proof fn priority_numbers_name_levels(p: TaskPriority, v: u8)
    ensures
        priority_numbered(priority_level(p)) == Some(p),
        (v < 1 || v > 4) ==> priority_numbered(v) is None,
{
}

/// Whether an expression holds of a task.
pub open spec fn expr_holds(
    expr: ExprModel,
    task: Task,
    today: CalendarDate,
    project_name: Option<Seq<char>>,
    tag_names: Seq<Seq<char>>,
) -> bool
    decreases expr,
{
    match expr {
        ExprModel::Term(t) => term_holds(t, task, today, project_name, tag_names),
        ExprModel::Not(inner) => !expr_holds(*inner, task, today, project_name, tag_names),
        ExprModel::And(l, r) => expr_holds(*l, task, today, project_name, tag_names) && expr_holds(
            *r,
            task,
            today,
            project_name,
            tag_names,
        ),
        ExprModel::Or(l, r) => expr_holds(*l, task, today, project_name, tag_names) || expr_holds(
            *r,
            task,
            today,
            project_name,
            tag_names,
        ),
    }
}

/// Whether `expr` holds of `task` on the day `today`, where the task's project
/// is called `project_name` and its tags `tag_names`.
pub fn evaluate(
    expr: &FilterExpr,
    task: &Task,
    today: CalendarDate,
    project_name: Option<&str>,
    tag_names: &[&str],
) -> (r: bool)
    ensures
        r == expr_holds(expr@, *task, today, opt_str_view(project_name), strs_view(tag_names@)),
    decreases expr,
{
    match expr {
        FilterExpr::Term(term) => evaluate_term(term, task, today, project_name, tag_names),
        FilterExpr::Not(inner) => !evaluate(inner, task, today, project_name, tag_names),
        FilterExpr::And(left, right) => {
            evaluate(left, task, today, project_name, tag_names) && evaluate(
                right,
                task,
                today,
                project_name,
                tag_names,
            )
        },
        FilterExpr::Or(left, right) => {
            evaluate(left, task, today, project_name, tag_names) || evaluate(
                right,
                task,
                today,
                project_name,
                tag_names,
            )
        },
    }
}

#[verifier::loop_isolation(false)]
fn evaluate_term(
    term: &FilterTerm,
    task: &Task,
    today: CalendarDate,
    project_name: Option<&str>,
    tag_names: &[&str],
) -> (r: bool)
    ensures
        r == term_holds(term@, *task, today, opt_str_view(project_name), strs_view(tag_names@)),
{
    match term {
        FilterTerm::Tag(name) => {
            let wanted = chars_of(name.as_str());
            let mut i: usize = 0;
            while i < tag_names.len()
                invariant
                    i <= tag_names.len(),
                    wanted@ == name@,
                    forall|j: int|
                        0 <= j < i ==> !eq_ignore_ascii_case(
                            #[trigger] strs_view(tag_names@)[j],
                            name@,
                        ),
                decreases tag_names.len() - i,
            {
                let tag = chars_of(tag_names[i]);
                assert(strs_view(tag_names@)[i as int] == tag_names@[i as int]@);
                if eq_ignore_case(tag.as_slice(), wanted.as_slice()) {
                    assert(eq_ignore_ascii_case(strs_view(tag_names@)[i as int], name@));
                    return true;
                }
                i += 1;
            }
            assert(strs_view(tag_names@).len() == tag_names@.len());
            false
        },
        FilterTerm::Project(name) => match project_name {
            Some(project) => {
                let have = chars_of(project);
                let wanted = chars_of(name.as_str());
                eq_ignore_case(have.as_slice(), wanted.as_slice())
            },
            None => false,
        },
        FilterTerm::Priority(priority) => task.priority == *priority,
        FilterTerm::DueToday => match &task.due {
            Some(due) => due.date.day_number == today.day_number,
            None => false,
        },
        FilterTerm::Overdue => match &task.due {
            Some(due) => due.date.is_before(today),
            None => false,
        },
        FilterTerm::NoDue => task.due.is_none(),
        FilterTerm::StatusDone => task.status == TaskStatus::Done,
        FilterTerm::StatusTodo => task.status == TaskStatus::Todo,
        FilterTerm::Search(query) => {
            let title = to_lowercase(task.title.as_str());
            let wanted = to_lowercase(query.as_str());
            let title_chars = chars_of(title.as_str());
            let wanted_chars = chars_of(wanted.as_str());
            contains_chars(title_chars.as_slice(), wanted_chars.as_slice())
        },
    }
}


impl FilterValidationError {
    fn new(message: String) -> (r: Self)
        ensures
            r.message@ == message@,
    {
        Self { message }
    }

    /// An error whose message is `prefix` followed by `detail`.
    fn with_detail(prefix: &str, detail: &[char]) -> (r: Self)
        ensures
            r.message@ == prefix@ + detail@,
    {
        let head = chars_of(prefix);
        let all = concat_chars(head.as_slice(), detail);
        Self { message: string_from(all.as_slice()) }
    }

    fn of(message: &str) -> (r: Self)
        ensures
            r.message@ == message@,
    {
        Self { message: string_of(message) }
    }
}

/// A lexical unit of a query.
enum Token {
    And,
    Or,
    Not,
    LParen,
    RParen,
    Term(Vec<char>),
}

/// A lexical unit of a query, its text as a character sequence.
pub enum TokenModel {
    And,
    Or,
    Not,
    LParen,
    RParen,
    Term(Seq<char>),
}

impl View for Token {
    type V = TokenModel;

    closed spec fn view(&self) -> TokenModel {
        match self {
            Token::And => TokenModel::And,
            Token::Or => TokenModel::Or,
            Token::Not => TokenModel::Not,
            Token::LParen => TokenModel::LParen,
            Token::RParen => TokenModel::RParen,
            Token::Term(v) => TokenModel::Term(v@),
        }
    }
}

spec fn tokens_model(ts: Seq<Token>) -> Seq<TokenModel> {
    ts.map_values(|t: Token| t@)
}

/// The characters that end a bare word besides white space.
pub open spec fn is_operator_char(c: char) -> bool {
    c == '&' || c == ',' || c == '|' || c == '!' || c == '(' || c == ')'
}

/// Where the bare word that starts at `i` ends.
pub open spec fn word_end(chars: Seq<char>, i: int) -> int
    decreases chars.len() - i,
{
    if i < 0 || i >= chars.len() {
        chars.len() as int
    } else if is_white_space(chars[i]) || is_operator_char(chars[i]) {
        i
    } else {
        word_end(chars, i + 1)
    }
}

/// Where the next `"` at or after `i` stands, or the length where none does.
pub open spec fn quote_end(chars: Seq<char>, i: int) -> int
    decreases chars.len() - i,
{
    if i < 0 || i >= chars.len() {
        chars.len() as int
    } else if chars[i] == '"' {
        i
    } else {
        quote_end(chars, i + 1)
    }
}

/// A token read from a word or a quoted text: the words `and` and `or` in any
/// ASCII case are operators, a blank text is refused, anything else is a term.
pub open spec fn token_from_text(v: Seq<char>) -> Result<TokenModel, Seq<char>> {
    if eq_ignore_ascii_case(v, "and"@) {
        Ok(TokenModel::And)
    } else if eq_ignore_ascii_case(v, "or"@) {
        Ok(TokenModel::Or)
    } else if trim_spec(v).len() == 0 {
        Err("empty term in query"@)
    } else {
        Ok(TokenModel::Term(v))
    }
}

/// `prefix` in front of the tokens of `rest`, or the error of `rest`.
pub open spec fn then_tokens(
    prefix: Seq<TokenModel>,
    rest: Result<Seq<TokenModel>, Seq<char>>,
) -> Result<Seq<TokenModel>, Seq<char>> {
    match rest {
        Ok(t) => Ok(prefix + t),
        Err(e) => Err(e),
    }
}

/// The tokens of `chars` from position `i` on, or the first error met
/// reading from left to right.
pub open spec fn tokenize_from(chars: Seq<char>, i: int) -> Result<Seq<TokenModel>, Seq<char>>
    decreases chars.len() - i,
{
    if i < 0 || i >= chars.len() {
        Ok(Seq::empty())
    } else {
        let c = chars[i];
        if c == ' ' || c == '\t' || c == '\n' || c == '\r' {
            tokenize_from(chars, i + 1)
        } else if c == '&' {
            then_tokens(seq![TokenModel::And], tokenize_from(chars, i + 1))
        } else if c == ',' || c == '|' {
            then_tokens(seq![TokenModel::Or], tokenize_from(chars, i + 1))
        } else if c == '!' {
            then_tokens(seq![TokenModel::Not], tokenize_from(chars, i + 1))
        } else if c == '(' {
            then_tokens(seq![TokenModel::LParen], tokenize_from(chars, i + 1))
        } else if c == ')' {
            then_tokens(seq![TokenModel::RParen], tokenize_from(chars, i + 1))
        } else if c == '"' {
            let j = quote_end(chars, i + 1);
            if !(i + 1 <= j < chars.len()) {
                Err("unterminated string in query"@)
            } else {
                let v = chars.subrange(i + 1, j);
                if trim_spec(v).len() == 0 {
                    Err("empty quoted term in query"@)
                } else {
                    match token_from_text(v) {
                        Err(e) => Err(e),
                        Ok(t) => then_tokens(seq![t], tokenize_from(chars, j + 1)),
                    }
                }
            }
        } else {
            let j = word_end(chars, i);
            match token_from_text(chars.subrange(i, j)) {
                Err(e) => Err(e),
                Ok(t) => if i < j <= chars.len() {
                    then_tokens(seq![t], tokenize_from(chars, j))
                } else {
                    Err("empty term in query"@)
                },
            }
        }
    }
}

spec fn token_result_model(r: Result<Token, FilterValidationError>) -> Result<
    TokenModel,
    Seq<char>,
> {
    match r {
        Ok(t) => Ok(t@),
        Err(e) => Err(e.message@),
    }
}

spec fn tokens_result_model(r: Result<Vec<Token>, FilterValidationError>) -> Result<
    Seq<TokenModel>,
    Seq<char>,
> {
    match r {
        Ok(t) => Ok(tokens_model(t@)),
        Err(e) => Err(e.message@),
    }
}

proof fn lemma_then_tokens_assoc(
    a: Seq<TokenModel>,
    b: Seq<TokenModel>,
    r: Result<Seq<TokenModel>, Seq<char>>,
)
    ensures
        then_tokens(a, then_tokens(b, r)) == then_tokens(a + b, r),
{
    match r {
        Ok(t) => {
            assert(a + (b + t) =~= (a + b) + t);
        },
        Err(e) => {},
    }
}

proof fn lemma_empty_text_is_no_token()
    ensures
        token_from_text(Seq::<char>::empty()) is Err,
{
    reveal_strlit("and");
    reveal_strlit("or");
    assert("and"@.len() == 3);
    assert("or"@.len() == 2);
    assert(ascii_lower_seq(Seq::<char>::empty()).len() == 0);
    assert(trim_spec(Seq::<char>::empty()) == Seq::<char>::empty());
}

fn token_from_term(value: Vec<char>) -> (r: Result<Token, FilterValidationError>)
    ensures
        token_result_model(r) == token_from_text(value@),
{
    if eq_ignore_case_str(value.as_slice(), "and") {
        return Ok(Token::And);
    }
    if eq_ignore_case_str(value.as_slice(), "or") {
        return Ok(Token::Or);
    }
    if is_blank(value.as_slice()) {
        return Err(FilterValidationError::of("empty term in query"));
    }
    Ok(Token::Term(value))
}

/// Pushes a token read at `i` and moves the reading on to `next`.
proof fn lemma_tokenize_step(
    chars: Seq<char>,
    done: Seq<TokenModel>,
    t: TokenModel,
    i: int,
    next: int,
)
    requires
        tokenize_from(chars, i) == then_tokens(seq![t], tokenize_from(chars, next)),
    ensures
        then_tokens(done, tokenize_from(chars, i)) == then_tokens(
            done.push(t),
            tokenize_from(chars, next),
        ),
{
    lemma_then_tokens_assoc(done, seq![t], tokenize_from(chars, next));
    assert(done + seq![t] =~= done.push(t));
}

proof fn lemma_tokens_model_push(ts: Seq<Token>, t: Token)
    ensures
        tokens_model(ts.push(t)) == tokens_model(ts).push(t@),
{
    assert(tokens_model(ts.push(t)) =~= tokens_model(ts).push(t@));
}

fn tokenize(query: &str) -> (r: Result<Vec<Token>, FilterValidationError>)
    ensures
        tokens_result_model(r) == tokenize_from(query@, 0),
{
    let chars = chars_of(query);
    let mut tokens: Vec<Token> = Vec::new();
    let mut i: usize = 0;
    proof {
        assert(tokens_model(tokens@) =~= Seq::<TokenModel>::empty());
        assert(Seq::<TokenModel>::empty() + Seq::<TokenModel>::empty() =~= Seq::<TokenModel>::empty());
        match tokenize_from(chars@, 0) {
            Ok(t) => {
                assert(Seq::<TokenModel>::empty() + t =~= t);
            },
            Err(e) => {},
        }
    }
    while i < chars.len()
        invariant
            i <= chars.len(),
            chars@ == query@,
            tokenize_from(chars@, 0) == then_tokens(
                tokens_model(tokens@),
                tokenize_from(chars@, i as int),
            ),
        decreases chars.len() - i,
    {
        let c = chars[i];
        let ghost before = tokens@;
        if c == ' ' || c == '\t' || c == '\n' || c == '\r' {
            i += 1;
        } else if c == '&' || c == ',' || c == '|' || c == '!' || c == '(' || c == ')' {
            let t = if c == '&' {
                Token::And
            } else if c == ',' || c == '|' {
                Token::Or
            } else if c == '!' {
                Token::Not
            } else if c == '(' {
                Token::LParen
            } else {
                Token::RParen
            };
            proof {
                lemma_tokenize_step(chars@, tokens_model(before), t@, i as int, i + 1);
                lemma_tokens_model_push(before, t);
            }
            tokens.push(t);
            i += 1;
        } else if c == '"' {
            let start = i + 1;
            let mut j: usize = start;
            while j < chars.len() && chars[j] != '"'
                invariant
                    start <= j <= chars.len(),
                    quote_end(chars@, start as int) == quote_end(chars@, j as int),
                decreases chars.len() - j,
            {
                j += 1;
            }
            if j >= chars.len() {
                return Err(FilterValidationError::of("unterminated string in query"));
            }
            let value = slice_chars(chars.as_slice(), start, j);
            if is_blank(value.as_slice()) {
                return Err(FilterValidationError::of("empty quoted term in query"));
            }
            let t = match token_from_term(value) {
                Ok(t) => t,
                Err(e) => {
                    return Err(e);
                },
            };
            proof {
                lemma_tokenize_step(chars@, tokens_model(before), t@, i as int, j + 1);
                lemma_tokens_model_push(before, t);
            }
            tokens.push(t);
            i = j + 1;
        } else {
            let start = i;
            let mut j: usize = i;
            while j < chars.len() && !is_whitespace(chars[j]) && !(chars[j] == '&' || chars[j]
                == ',' || chars[j] == '|' || chars[j] == '!' || chars[j] == '(' || chars[j] == ')')
                invariant
                    start <= j <= chars.len(),
                    word_end(chars@, start as int) == word_end(chars@, j as int),
                decreases chars.len() - j,
            {
                j += 1;
            }
            let value = slice_chars(chars.as_slice(), start, j);
            let t = match token_from_term(value) {
                Ok(t) => t,
                Err(e) => {
                    return Err(e);
                },
            };
            proof {
                if j == start {
                    assert(value@ =~= Seq::<char>::empty());
                    lemma_empty_text_is_no_token();
                }
                lemma_tokenize_step(chars@, tokens_model(before), t@, i as int, j as int);
                lemma_tokens_model_push(before, t);
            }
            tokens.push(t);
            i = j;
        }
    }
    proof {
        assert(tokens_model(tokens@) + Seq::<TokenModel>::empty() =~= tokens_model(tokens@));
    }
    Ok(tokens)
}


/// The priority with a number from 1 to 4.
pub open spec fn priority_numbered(v: u8) -> Option<TaskPriority> {
    if v == 1 {
        Some(TaskPriority::P1)
    } else if v == 2 {
        Some(TaskPriority::P2)
    } else if v == 3 {
        Some(TaskPriority::P3)
    } else if v == 4 {
        Some(TaskPriority::P4)
    } else {
        None
    }
}

/// Where the first `c` in `s` at or after `i` stands, or the length where none
/// does.
pub open spec fn find_char(s: Seq<char>, c: char, i: int) -> int
    decreases s.len() - i,
{
    if i < 0 || i >= s.len() {
        s.len() as int
    } else if s[i] == c {
        i
    } else {
        find_char(s, c, i + 1)
    }
}

/// The term written `key:value`, with `normalized` the whole trimmed text.
pub open spec fn keyed_term(normalized: Seq<char>, key: Seq<char>, value: Seq<char>) -> Result<
    TermModel,
    Seq<char>,
> {
    if value.len() == 0 {
        Err("missing value for term: "@ + normalized)
    } else if key == "tag"@ {
        Ok(TermModel::Tag(value))
    } else if key == "project"@ {
        Ok(TermModel::Project(value))
    } else if key == "status"@ {
        if eq_ignore_ascii_case(value, "done"@) || eq_ignore_ascii_case(value, "completed"@) {
            Ok(TermModel::StatusDone)
        } else if eq_ignore_ascii_case(value, "todo"@) || eq_ignore_ascii_case(value, "active"@) {
            Ok(TermModel::StatusTodo)
        } else {
            Err("unsupported status value: "@ + value)
        }
    } else if key == "due"@ {
        if eq_ignore_ascii_case(value, "today"@) {
            Ok(TermModel::DueToday)
        } else if eq_ignore_ascii_case(value, "overdue"@) {
            Ok(TermModel::Overdue)
        } else if eq_ignore_ascii_case(value, "none"@) || eq_ignore_ascii_case(value, "no_date"@)
            || eq_ignore_ascii_case(value, "no-date"@) {
            Ok(TermModel::NoDue)
        } else {
            Err("unsupported due value: "@ + value)
        }
    } else if key == "priority"@ {
        match parse_u8_spec(value) {
            Some(v) => match priority_numbered(v) {
                Some(p) => Ok(TermModel::Priority(p)),
                None => Err("unsupported priority value: "@ + value),
            },
            None => Err("unsupported priority value: "@ + value),
        }
    } else {
        Err("unsupported term: "@ + normalized)
    }
}

/// The term that a word or quoted text of a query stands for.
///
/// After trimming: `@name` is a tag, `#name` a project; `today`, `overdue`,
/// `no_date` (also `no-date`, `nodate`), `completed` and `active` are the due
/// and status terms; `p` and a number 1 to 4 is a priority; `search:text`
/// searches titles; and `tag:`, `project:`, `status:`, `due:` and
/// `priority:` with a value spell the same terms out.
pub open spec fn term_from_text(raw: Seq<char>) -> Result<TermModel, Seq<char>> {
    let n = trim_spec(raw);
    let lower = ascii_lower_seq(n);
    if n.len() == 0 {
        Err("empty term in query"@)
    } else if n[0] == '@' {
        if trim_spec(n.drop_first()).len() == 0 {
            Err("tag term cannot be empty"@)
        } else {
            Ok(TermModel::Tag(trim_spec(n.drop_first())))
        }
    } else if n[0] == '#' {
        if trim_spec(n.drop_first()).len() == 0 {
            Err("project term cannot be empty"@)
        } else {
            Ok(TermModel::Project(trim_spec(n.drop_first())))
        }
    } else if eq_ignore_ascii_case(n, "today"@) {
        Ok(TermModel::DueToday)
    } else if eq_ignore_ascii_case(n, "overdue"@) {
        Ok(TermModel::Overdue)
    } else if eq_ignore_ascii_case(n, "no_date"@) || eq_ignore_ascii_case(n, "no-date"@)
        || eq_ignore_ascii_case(n, "nodate"@) {
        Ok(TermModel::NoDue)
    } else if eq_ignore_ascii_case(n, "completed"@) {
        Ok(TermModel::StatusDone)
    } else if eq_ignore_ascii_case(n, "active"@) {
        Ok(TermModel::StatusTodo)
    } else if lower[0] == 'p' && parse_u8_spec(lower.drop_first()) is Some {
        match priority_numbered(parse_u8_spec(lower.drop_first())->0) {
            Some(p) => Ok(TermModel::Priority(p)),
            None => Err("unsupported priority term: "@ + n),
        }
    } else if n.len() >= 7 && n.subrange(0, 7) == "search:"@ {
        if trim_spec(n.skip(7)).len() == 0 {
            Err("search term cannot be empty"@)
        } else {
            Ok(TermModel::Search(trim_spec(n.skip(7))))
        }
    } else if find_char(n, ':', 0) < n.len() {
        let k = find_char(n, ':', 0);
        keyed_term(
            n,
            ascii_lower_seq(trim_spec(n.subrange(0, k))),
            trim_spec(n.subrange(k + 1, n.len() as int)),
        )
    } else {
        Err("unsupported term: "@ + n)
    }
}

spec fn term_result_model(r: Result<FilterTerm, FilterValidationError>) -> Result<
    TermModel,
    Seq<char>,
> {
    match r {
        Ok(t) => Ok(t@),
        Err(e) => Err(e.message@),
    }
}

fn priority_from_number(v: u8) -> (r: Option<TaskPriority>)
    ensures
        r == priority_numbered(v),
{
    match v {
        1 => Some(TaskPriority::P1),
        2 => Some(TaskPriority::P2),
        3 => Some(TaskPriority::P3),
        4 => Some(TaskPriority::P4),
        _ => None,
    }
}

fn keyed(normalized: &[char], key: &[char], value: &[char]) -> (r: Result<
    FilterTerm,
    FilterValidationError,
>)
    ensures
        term_result_model(r) == keyed_term(normalized@, key@, value@),
{
    if value.len() == 0 {
        return Err(FilterValidationError::with_detail("missing value for term: ", normalized));
    }
    let tag_key = chars_of("tag");
    let project_key = chars_of("project");
    let status_key = chars_of("status");
    let due_key = chars_of("due");
    let priority_key = chars_of("priority");
    if chars_eq(key, tag_key.as_slice()) {
        Ok(FilterTerm::Tag(string_from(value)))
    } else if chars_eq(key, project_key.as_slice()) {
        Ok(FilterTerm::Project(string_from(value)))
    } else if chars_eq(key, status_key.as_slice()) {
        if eq_ignore_case_str(value, "done") || eq_ignore_case_str(value, "completed") {
            Ok(FilterTerm::StatusDone)
        } else if eq_ignore_case_str(value, "todo") || eq_ignore_case_str(value, "active") {
            Ok(FilterTerm::StatusTodo)
        } else {
            Err(FilterValidationError::with_detail("unsupported status value: ", value))
        }
    } else if chars_eq(key, due_key.as_slice()) {
        if eq_ignore_case_str(value, "today") {
            Ok(FilterTerm::DueToday)
        } else if eq_ignore_case_str(value, "overdue") {
            Ok(FilterTerm::Overdue)
        } else if eq_ignore_case_str(value, "none") || eq_ignore_case_str(value, "no_date")
            || eq_ignore_case_str(value, "no-date") {
            Ok(FilterTerm::NoDue)
        } else {
            Err(FilterValidationError::with_detail("unsupported due value: ", value))
        }
    } else if chars_eq(key, priority_key.as_slice()) {
        match parse_u8(value) {
            Some(v) => match priority_from_number(v) {
                Some(p) => Ok(FilterTerm::Priority(p)),
                None => Err(FilterValidationError::with_detail("unsupported priority value: ", value)),
            },
            None => Err(FilterValidationError::with_detail("unsupported priority value: ", value)),
        }
    } else {
        Err(FilterValidationError::with_detail("unsupported term: ", normalized))
    }
}

/// The text after a one-character prefix, trimmed.
fn trimmed_rest(n: &[char], from: usize) -> (r: Vec<char>)
    requires
        from <= n.len(),
    ensures
        r@ == trim_spec(n@.skip(from as int)),
{
    let rest = slice_chars(n, from, n.len());
    assert(rest@ == n@.skip(from as int));
    trim_chars(rest.as_slice())
}

fn parse_term(raw: &[char]) -> (r: Result<FilterTerm, FilterValidationError>)
    ensures
        term_result_model(r) == term_from_text(raw@),
{
    let normalized = trim_chars(raw);
    let n = normalized.as_slice();
    if n.len() == 0 {
        return Err(FilterValidationError::of("empty term in query"));
    }
    if n[0] == '@' {
        let tag = trimmed_rest(n, 1);
        assert(n@.skip(1) == n@.drop_first());
        if tag.len() == 0 {
            return Err(FilterValidationError::of("tag term cannot be empty"));
        }
        return Ok(FilterTerm::Tag(string_from(tag.as_slice())));
    }
    if n[0] == '#' {
        let project = trimmed_rest(n, 1);
        assert(n@.skip(1) == n@.drop_first());
        if project.len() == 0 {
            return Err(FilterValidationError::of("project term cannot be empty"));
        }
        return Ok(FilterTerm::Project(string_from(project.as_slice())));
    }
    if eq_ignore_case_str(n, "today") {
        return Ok(FilterTerm::DueToday);
    }
    if eq_ignore_case_str(n, "overdue") {
        return Ok(FilterTerm::Overdue);
    }
    if eq_ignore_case_str(n, "no_date") || eq_ignore_case_str(n, "no-date") || eq_ignore_case_str(
        n,
        "nodate",
    ) {
        return Ok(FilterTerm::NoDue);
    }
    if eq_ignore_case_str(n, "completed") {
        return Ok(FilterTerm::StatusDone);
    }
    if eq_ignore_case_str(n, "active") {
        return Ok(FilterTerm::StatusTodo);
    }
    let lower = to_ascii_lower_chars(n);
    if lower[0] == 'p' {
        let number = slice_chars(lower.as_slice(), 1, lower.len());
        assert(number@ == ascii_lower_seq(n@).drop_first());
        if let Some(v) = parse_u8(number.as_slice()) {
            return match priority_from_number(v) {
                Some(p) => Ok(FilterTerm::Priority(p)),
                None => Err(FilterValidationError::with_detail("unsupported priority term: ", n)),
            };
        }
    }
    if n.len() >= 7 {
        let head = slice_chars(n, 0, 7);
        let search = chars_of("search:");
        if chars_eq(head.as_slice(), search.as_slice()) {
            let value = trimmed_rest(n, 7);
            if value.len() == 0 {
                return Err(FilterValidationError::of("search term cannot be empty"));
            }
            return Ok(FilterTerm::Search(string_from(value.as_slice())));
        }
    }
    let mut k: usize = 0;
    while k < n.len() && n[k] != ':'
        invariant
            k <= n.len(),
            find_char(n@, ':', 0) == find_char(n@, ':', k as int),
        decreases n.len() - k,
    {
        k += 1;
    }
    if k < n.len() {
        let key_raw = slice_chars(n, 0, k);
        let key_trimmed = trim_chars(key_raw.as_slice());
        let key = to_ascii_lower_chars(key_trimmed.as_slice());
        let value_raw = slice_chars(n, k + 1, n.len());
        let value = trim_chars(value_raw.as_slice());
        return keyed(n, key.as_slice(), value.as_slice());
    }
    Err(FilterValidationError::with_detail("unsupported term: ", n))
}


/// The outcome of reading an expression from position `pos`: the expression
/// and the position after it, or an error message.
pub type ParseStep = Result<(ExprModel, int), Seq<char>>;

pub open spec fn token_at(toks: Seq<TokenModel>, pos: int) -> Option<TokenModel> {
    if 0 <= pos < toks.len() {
        Some(toks[pos])
    } else {
        None
    }
}

pub open spec fn starts_operand(t: Option<TokenModel>) -> bool {
    match t {
        Some(TokenModel::Term(_)) | Some(TokenModel::Not) | Some(TokenModel::LParen) => true,
        _ => false,
    }
}

/// An alternation: conjunctions separated by `|`, grouped from the left.
pub open spec fn parse_or_at(toks: Seq<TokenModel>, pos: int) -> ParseStep
    decreases toks.len() - pos, 4nat,
{
    if pos < 0 || pos > toks.len() {
        Err("query ended unexpectedly"@)
    } else {
        match parse_and_at(toks, pos) {
            Err(e) => Err(e),
            Ok((lhs, p)) => if pos < p <= toks.len() {
                parse_or_rest(toks, p, lhs)
            } else {
                Err("query ended unexpectedly"@)
            },
        }
    }
}

/// The rest of an alternation whose operands so far make `acc`.
pub open spec fn parse_or_rest(toks: Seq<TokenModel>, pos: int, acc: ExprModel) -> ParseStep
    decreases toks.len() - pos, 4nat,
{
    if pos < 0 || pos > toks.len() {
        Err("query ended unexpectedly"@)
    } else if token_at(toks, pos) == Some(TokenModel::Or) {
        match parse_and_at(toks, pos + 1) {
            Err(e) => Err(e),
            Ok((rhs, p)) => if pos + 1 < p <= toks.len() {
                parse_or_rest(toks, p, ExprModel::Or(Box::new(acc), Box::new(rhs)))
            } else {
                Err("query ended unexpectedly"@)
            },
        }
    } else {
        Ok((acc, pos))
    }
}

/// A conjunction: operands joined by `&` or written side by side, grouped
/// from the left.
pub open spec fn parse_and_at(toks: Seq<TokenModel>, pos: int) -> ParseStep
    decreases toks.len() - pos, 3nat,
{
    if pos < 0 || pos > toks.len() {
        Err("query ended unexpectedly"@)
    } else {
        match parse_unary_at(toks, pos) {
            Err(e) => Err(e),
            Ok((lhs, p)) => if pos < p <= toks.len() {
                parse_and_rest(toks, p, lhs)
            } else {
                Err("query ended unexpectedly"@)
            },
        }
    }
}

/// The rest of a conjunction whose operands so far make `acc`.
pub open spec fn parse_and_rest(toks: Seq<TokenModel>, pos: int, acc: ExprModel) -> ParseStep
    decreases toks.len() - pos, 3nat,
{
    if pos < 0 || pos > toks.len() {
        Err("query ended unexpectedly"@)
    } else if token_at(toks, pos) == Some(TokenModel::And) {
        match parse_unary_at(toks, pos + 1) {
            Err(e) => Err(e),
            Ok((rhs, p)) => if pos + 1 < p <= toks.len() {
                parse_and_rest(toks, p, ExprModel::And(Box::new(acc), Box::new(rhs)))
            } else {
                Err("query ended unexpectedly"@)
            },
        }
    } else if starts_operand(token_at(toks, pos)) {
        match parse_unary_at(toks, pos) {
            Err(e) => Err(e),
            Ok((rhs, p)) => if pos < p <= toks.len() {
                parse_and_rest(toks, p, ExprModel::And(Box::new(acc), Box::new(rhs)))
            } else {
                Err("query ended unexpectedly"@)
            },
        }
    } else {
        Ok((acc, pos))
    }
}

/// An operand, negated by each `!` in front of it.
pub open spec fn parse_unary_at(toks: Seq<TokenModel>, pos: int) -> ParseStep
    decreases toks.len() - pos, 2nat,
{
    if pos < 0 || pos > toks.len() {
        Err("query ended unexpectedly"@)
    } else if token_at(toks, pos) == Some(TokenModel::Not) {
        match parse_unary_at(toks, pos + 1) {
            Err(e) => Err(e),
            Ok((inner, p)) => Ok((ExprModel::Not(Box::new(inner)), p)),
        }
    } else {
        parse_primary_at(toks, pos)
    }
}

/// A term, or an alternation in parentheses.
pub open spec fn parse_primary_at(toks: Seq<TokenModel>, pos: int) -> ParseStep
    decreases toks.len() - pos, 1nat,
{
    if pos < 0 || pos > toks.len() {
        Err("query ended unexpectedly"@)
    } else {
        match token_at(toks, pos) {
            Some(TokenModel::Term(v)) => match term_from_text(v) {
                Ok(t) => Ok((ExprModel::Term(t), pos + 1)),
                Err(e) => Err(e),
            },
            Some(TokenModel::LParen) => match parse_or_at(toks, pos + 1) {
                Err(e) => Err(e),
                Ok((inner, p)) => if token_at(toks, p) == Some(TokenModel::RParen) {
                    Ok((inner, p + 1))
                } else {
                    Err("missing closing ')' in query"@)
                },
            },
            Some(TokenModel::RParen) => Err("unexpected ')' in query"@),
            Some(TokenModel::And) | Some(TokenModel::Or) => Err("operator without left term"@),
            Some(TokenModel::Not) => Err("invalid negation in query"@),
            None => Err("query ended unexpectedly"@),
        }
    }
}

/// What reading a whole query gives: its expression, or why it is refused.
pub open spec fn parse_query(query: Seq<char>) -> Result<ExprModel, Seq<char>> {
    match tokenize_from(query, 0) {
        Err(e) => Err(e),
        Ok(toks) => if toks.len() == 0 {
            Err("query cannot be empty"@)
        } else {
            match parse_or_at(toks, 0) {
                Err(e) => Err(e),
                Ok((expr, p)) => if p < toks.len() {
                    Err("unexpected trailing tokens in query"@)
                } else {
                    Ok(expr)
                },
            }
        },
    }
}

/// A tag, project or search term names a text that is not empty and has no
/// white space at either end.
pub open spec fn term_text_ok(t: TermModel) -> bool {
    match t {
        TermModel::Tag(s) => s.len() > 0 && trim_spec(s) == s,
        TermModel::Project(s) => s.len() > 0 && trim_spec(s) == s,
        TermModel::Search(s) => s.len() > 0 && trim_spec(s) == s,
        _ => true,
    }
}

/// Every term of an expression passes `term_text_ok`.
pub open spec fn expr_texts_ok(e: ExprModel) -> bool
    decreases e,
{
    match e {
        ExprModel::Term(t) => term_text_ok(t),
        ExprModel::Not(inner) => expr_texts_ok(*inner),
        ExprModel::And(l, r) => expr_texts_ok(*l) && expr_texts_ok(*r),
        ExprModel::Or(l, r) => expr_texts_ok(*l) && expr_texts_ok(*r),
    }
}

/// How many terms an expression holds.
pub open spec fn term_count(e: ExprModel) -> nat
    decreases e,
{
    match e {
        ExprModel::Term(_) => 1,
        ExprModel::Not(inner) => term_count(*inner),
        ExprModel::And(l, r) => term_count(*l) + term_count(*r),
        ExprModel::Or(l, r) => term_count(*l) + term_count(*r),
    }
}

spec fn step_texts_ok(s: ParseStep) -> bool {
    match s {
        Ok((e, _)) => expr_texts_ok(e),
        Err(_) => true,
    }
}

proof fn lemma_term_count_positive(e: ExprModel)
    ensures
        term_count(e) >= 1,
    decreases e,
{
    match e {
        ExprModel::Term(_) => {},
        ExprModel::Not(inner) => lemma_term_count_positive(*inner),
        ExprModel::And(l, r) => {
            lemma_term_count_positive(*l);
        },
        ExprModel::Or(l, r) => {
            lemma_term_count_positive(*l);
        },
    }
}

proof fn lemma_keyed_texts_ok(normalized: Seq<char>, key: Seq<char>, value: Seq<char>)
    requires
        trim_spec(value) == value,
    ensures
        match keyed_term(normalized, key, value) {
            Ok(t) => term_text_ok(t),
            Err(_) => true,
        },
{
}

proof fn lemma_term_texts_ok(raw: Seq<char>)
    ensures
        match term_from_text(raw) {
            Ok(t) => term_text_ok(t),
            Err(_) => true,
        },
{
    let n = trim_spec(raw);
    if n.len() > 0 {
        lemma_trim_idempotent(n.drop_first());
        if n.len() >= 7 {
            lemma_trim_idempotent(n.skip(7));
        }
        let k = find_char(n, ':', 0);
        let key = ascii_lower_seq(trim_spec(n.subrange(0, k)));
        let value = trim_spec(n.subrange(k + 1, n.len() as int));
        lemma_trim_idempotent(n.subrange(k + 1, n.len() as int));
        lemma_keyed_texts_ok(n, key, value);
    }
}

proof fn lemma_or_at_ok(toks: Seq<TokenModel>, pos: int)
    ensures
        step_texts_ok(parse_or_at(toks, pos)),
    decreases toks.len() - pos, 4nat,
{
    if 0 <= pos <= toks.len() {
        lemma_and_at_ok(toks, pos);
        if let Ok((lhs, p)) = parse_and_at(toks, pos) {
            if pos < p <= toks.len() {
                lemma_or_rest_ok(toks, p, lhs);
            }
        }
    }
}

proof fn lemma_or_rest_ok(toks: Seq<TokenModel>, pos: int, acc: ExprModel)
    requires
        expr_texts_ok(acc),
    ensures
        step_texts_ok(parse_or_rest(toks, pos, acc)),
    decreases toks.len() - pos, 4nat,
{
    if 0 <= pos <= toks.len() && token_at(toks, pos) == Some(TokenModel::Or) {
        lemma_and_at_ok(toks, pos + 1);
        if let Ok((rhs, p)) = parse_and_at(toks, pos + 1) {
            if pos + 1 < p <= toks.len() {
                lemma_or_rest_ok(toks, p, ExprModel::Or(Box::new(acc), Box::new(rhs)));
            }
        }
    }
}

proof fn lemma_and_at_ok(toks: Seq<TokenModel>, pos: int)
    ensures
        step_texts_ok(parse_and_at(toks, pos)),
    decreases toks.len() - pos, 3nat,
{
    if 0 <= pos <= toks.len() {
        lemma_unary_ok(toks, pos);
        if let Ok((lhs, p)) = parse_unary_at(toks, pos) {
            if pos < p <= toks.len() {
                lemma_and_rest_ok(toks, p, lhs);
            }
        }
    }
}

proof fn lemma_and_rest_ok(toks: Seq<TokenModel>, pos: int, acc: ExprModel)
    requires
        expr_texts_ok(acc),
    ensures
        step_texts_ok(parse_and_rest(toks, pos, acc)),
    decreases toks.len() - pos, 3nat,
{
    if 0 <= pos <= toks.len() {
        if token_at(toks, pos) == Some(TokenModel::And) {
            lemma_unary_ok(toks, pos + 1);
            if let Ok((rhs, p)) = parse_unary_at(toks, pos + 1) {
                if pos + 1 < p <= toks.len() {
                    lemma_and_rest_ok(toks, p, ExprModel::And(Box::new(acc), Box::new(rhs)));
                }
            }
        } else if starts_operand(token_at(toks, pos)) {
            lemma_unary_ok(toks, pos);
            if let Ok((rhs, p)) = parse_unary_at(toks, pos) {
                if pos < p <= toks.len() {
                    lemma_and_rest_ok(toks, p, ExprModel::And(Box::new(acc), Box::new(rhs)));
                }
            }
        }
    }
}

proof fn lemma_unary_ok(toks: Seq<TokenModel>, pos: int)
    ensures
        step_texts_ok(parse_unary_at(toks, pos)),
    decreases toks.len() - pos, 2nat,
{
    if 0 <= pos <= toks.len() {
        if token_at(toks, pos) == Some(TokenModel::Not) {
            lemma_unary_ok(toks, pos + 1);
        } else {
            lemma_primary_ok(toks, pos);
        }
    }
}

proof fn lemma_primary_ok(toks: Seq<TokenModel>, pos: int)
    ensures
        step_texts_ok(parse_primary_at(toks, pos)),
    decreases toks.len() - pos, 1nat,
{
    if 0 <= pos <= toks.len() {
        match token_at(toks, pos) {
            Some(TokenModel::Term(v)) => lemma_term_texts_ok(v),
            Some(TokenModel::LParen) => lemma_or_at_ok(toks, pos + 1),
            _ => {},
        }
    }
}

/// A query that is accepted holds at least one term, and each of its tag,
/// project and search terms names a text that is not empty and has no
/// white space at either end.
pub proof fn accepted_query_has_clean_terms(query: Seq<char>)
    ensures
        match parse_query(query) {
            Ok(e) => expr_texts_ok(e) && term_count(e) >= 1,
            Err(_) => true,
        },
{
    if let Ok(toks) = tokenize_from(query, 0) {
        if toks.len() > 0 {
            lemma_or_at_ok(toks, 0);
            if let Ok((e, p)) = parse_or_at(toks, 0) {
                lemma_term_count_positive(e);
            }
        }
    }
}

struct Parser {
    tokens: Vec<Token>,
    index: usize,
}

spec fn step_model(r: Result<FilterExpr, FilterValidationError>, index: usize) -> ParseStep {
    match r {
        Ok(e) => Ok((e@, index as int)),
        Err(e) => Err(e.message@),
    }
}

impl Parser {
    spec fn toks(&self) -> Seq<TokenModel> {
        tokens_model(self.tokens@)
    }

    spec fn advanced(&self, old: &Parser, r: Result<FilterExpr, FilterValidationError>) -> bool {
        &&& self.tokens@ == old.tokens@
        &&& self.index <= self.tokens.len()
        &&& r is Ok ==> old.index < self.index
    }

    /// The token at the reading position, if any is left.
    fn peek(&self) -> (r: Option<&Token>)
        ensures
            match r {
                Some(t) => token_at(self.toks(), self.index as int) == Some(t@),
                None => token_at(self.toks(), self.index as int) is None,
            },
    {
        if self.index < self.tokens.len() {
            Some(&self.tokens[self.index])
        } else {
            None
        }
    }

    fn matches_and(&self) -> (r: bool)
        ensures
            r == (token_at(self.toks(), self.index as int) == Some(TokenModel::And)),
    {
        matches!(self.peek(), Some(Token::And))
    }

    fn matches_or(&self) -> (r: bool)
        ensures
            r == (token_at(self.toks(), self.index as int) == Some(TokenModel::Or)),
    {
        matches!(self.peek(), Some(Token::Or))
    }

    /// Whether another operand of a conjunction follows: after `&`, or
    /// written right next to the one before.
    fn matches_and_or_implicit(&self) -> (r: bool)
        ensures
            r == (token_at(self.toks(), self.index as int) == Some(TokenModel::And)
                || starts_operand(token_at(self.toks(), self.index as int))),
    {
        matches!(self.peek(), Some(Token::And)) || matches!(self.peek(), Some(Token::Term(_)))
            || matches!(self.peek(), Some(Token::Not)) || matches!(self.peek(), Some(Token::LParen))
    }

    fn parse_expression(&mut self) -> (r: Result<FilterExpr, FilterValidationError>)
        requires
            old(self).index <= old(self).tokens.len(),
        ensures
            final(self).advanced(old(self), r),
            step_model(r, final(self).index) == parse_or_at(old(self).toks(), old(self).index as int),
        decreases old(self).tokens.len() - old(self).index, 5nat,
    {
        self.parse_or()
    }

    fn parse_or(&mut self) -> (r: Result<FilterExpr, FilterValidationError>)
        requires
            old(self).index <= old(self).tokens.len(),
        ensures
            final(self).advanced(old(self), r),
            step_model(r, final(self).index) == parse_or_at(old(self).toks(), old(self).index as int),
        decreases old(self).tokens.len() - old(self).index, 4nat,
    {
        let ghost toks = self.toks();
        let ghost start = self.index;
        let mut expr = match self.parse_and() {
            Ok(e) => e,
            Err(e) => {
                return Err(e);
            },
        };
        while self.matches_or()
            invariant
                toks == self.toks(),
                self.tokens@ == old(self).tokens@,
                start == old(self).index,
                start < self.index <= self.tokens.len(),
                parse_or_at(toks, start as int) == parse_or_rest(toks, self.index as int, expr@),
            decreases self.tokens.len() - self.index,
        {
            self.index += 1;
            let right = match self.parse_and() {
                Ok(e) => e,
                Err(e) => {
                    return Err(e);
                },
            };
            expr = FilterExpr::Or(Box::new(expr), Box::new(right));
        }
        Ok(expr)
    }

    fn parse_and(&mut self) -> (r: Result<FilterExpr, FilterValidationError>)
        requires
            old(self).index <= old(self).tokens.len(),
        ensures
            final(self).advanced(old(self), r),
            step_model(r, final(self).index) == parse_and_at(old(self).toks(), old(self).index as int),
        decreases old(self).tokens.len() - old(self).index, 3nat,
    {
        let ghost toks = self.toks();
        let ghost start = self.index;
        let mut expr = match self.parse_unary() {
            Ok(e) => e,
            Err(e) => {
                return Err(e);
            },
        };
        while self.matches_and_or_implicit()
            invariant
                toks == self.toks(),
                self.tokens@ == old(self).tokens@,
                start == old(self).index,
                start < self.index <= self.tokens.len(),
                parse_and_at(toks, start as int) == parse_and_rest(toks, self.index as int, expr@),
            decreases self.tokens.len() - self.index,
        {
            if self.matches_and() {
                self.index += 1;
            }
            let right = match self.parse_unary() {
                Ok(e) => e,
                Err(e) => {
                    return Err(e);
                },
            };
            expr = FilterExpr::And(Box::new(expr), Box::new(right));
        }
        Ok(expr)
    }

    fn parse_unary(&mut self) -> (r: Result<FilterExpr, FilterValidationError>)
        requires
            old(self).index <= old(self).tokens.len(),
        ensures
            final(self).advanced(old(self), r),
            step_model(r, final(self).index) == parse_unary_at(old(self).toks(), old(self).index as int),
        decreases old(self).tokens.len() - old(self).index, 2nat,
    {
        if matches!(self.peek(), Some(Token::Not)) {
            self.index += 1;
            return match self.parse_unary() {
                Ok(inner) => Ok(FilterExpr::Not(Box::new(inner))),
                Err(e) => Err(e),
            };
        }
        self.parse_primary()
    }

    fn parse_primary(&mut self) -> (r: Result<FilterExpr, FilterValidationError>)
        requires
            old(self).index <= old(self).tokens.len(),
        ensures
            final(self).advanced(old(self), r),
            step_model(r, final(self).index) == parse_primary_at(old(self).toks(), old(self).index as int),
        decreases old(self).tokens.len() - old(self).index, 1nat,
    {
        if self.index >= self.tokens.len() {
            return Err(FilterValidationError::of("query ended unexpectedly"));
        }
        let term = match &self.tokens[self.index] {
            Token::Term(value) => Some(parse_term(value.as_slice())),
            _ => None,
        };
        if let Some(parsed) = term {
            return match parsed {
                Ok(t) => {
                    self.index += 1;
                    Ok(FilterExpr::Term(t))
                },
                Err(e) => Err(e),
            };
        }
        if matches!(self.peek(), Some(Token::LParen)) {
            self.index += 1;
            let expr = match self.parse_expression() {
                Ok(e) => e,
                Err(e) => {
                    return Err(e);
                },
            };
            if !matches!(self.peek(), Some(Token::RParen)) {
                return Err(FilterValidationError::of("missing closing ')' in query"));
            }
            self.index += 1;
            return Ok(expr);
        }
        if matches!(self.peek(), Some(Token::RParen)) {
            Err(FilterValidationError::of("unexpected ')' in query"))
        } else if self.matches_and() || self.matches_or() {
            Err(FilterValidationError::of("operator without left term"))
        } else {
            Err(FilterValidationError::of("invalid negation in query"))
        }
    }

    fn has_remaining(&self) -> (r: bool)
        ensures
            r == (self.index < self.tokens.len()),
    {
        self.index < self.tokens.len()
    }
}

/// Reads a query text into an expression, or says why it is refused.
pub fn parse_and_validate(query: &str) -> (r: Result<FilterExpr, FilterValidationError>)
    ensures
        match r {
            Ok(e) => parse_query(query@) == Ok::<ExprModel, Seq<char>>(e@),
            Err(e) => parse_query(query@) == Err::<ExprModel, Seq<char>>(e.message@),
        },
{
    let tokens = match tokenize(query) {
        Ok(t) => t,
        Err(e) => {
            return Err(e);
        },
    };
    if tokens.len() == 0 {
        return Err(FilterValidationError::of("query cannot be empty"));
    }
    let mut parser = Parser { tokens, index: 0 };
    let expr = match parser.parse_expression() {
        Ok(e) => e,
        Err(e) => {
            return Err(e);
        },
    };
    if parser.has_remaining() {
        return Err(FilterValidationError::of("unexpected trailing tokens in query"));
    }
    Ok(expr)
}

} // verus!
