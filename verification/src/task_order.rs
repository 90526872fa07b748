//! The order of the task list: each sort order of the configuration is a
//! key per task, compared part by part, with the task's place in the list
//! breaking ties as a stable sort does.
use vstd::prelude::*;

use crate::app::{fuzzy_match_spec, fuzzy_matches, ScreenData, TaskListRowView};
use crate::config::TaskSortOrder;
use crate::domain::{priority_level, Task, TaskId};
use crate::listing::{
    projects_acyclic, task_active, task_is_active, task_is_visible, visible_in, TaskListScope,
};
use crate::sorting::{
    key_lt, key_view, keys_view, lemma_key_lt_at, pick, ranked_before, sorted_positions, stable_order,
    stable_order_spec,
};
use crate::text::{chars_of, lowercase, to_lowercase};

verus! {

/// The code points of a text, negated where `descending`.
pub open spec fn char_codes(s: Seq<char>, descending: bool) -> Seq<int>
    decreases s.len(),
{
    if s.len() == 0 {
        Seq::empty()
    } else {
        char_codes(s.drop_last(), descending).push(
            if descending {
                -((s.last() as u32) as int)
            } else {
                (s.last() as u32) as int
            },
        )
    }
}

/// A text as part of a key, in ascending order: its characters, then an end
/// mark below every character, so that a text comes before its extensions.
pub open spec fn text_key(s: Seq<char>) -> Seq<int> {
    char_codes(s, false).push(-1)
}

/// A text as part of a key, in descending order: its characters negated,
/// then an end mark above every negated character.
pub open spec fn text_key_desc(s: Seq<char>) -> Seq<int> {
    char_codes(s, true).push(1)
}

/// Titles compare lower-cased first and then as written.
pub open spec fn title_key(title: Seq<char>, descending: bool) -> Seq<int> {
    if descending {
        text_key_desc(lowercase(title)) + text_key_desc(title)
    } else {
        text_key(lowercase(title)) + text_key(title)
    }
}

/// Tasks with a due date come first, ordered by due day and then by due
/// time, a day without a time before the times of that day; the other way
/// round where `descending`, except that undated tasks still come last.
pub open spec fn due_key(task: Task, descending: bool) -> Seq<int> {
    match task.due {
        None => seq![1int],
        Some(due) => if descending {
            seq![0int, -(due.date.day_number as int)] + match due.datetime {
                None => seq![0int],
                Some(v) => seq![-1int, -(v as int)],
            }
        } else {
            seq![0int, due.date.day_number as int] + match due.datetime {
                None => seq![0int],
                Some(v) => seq![1int, v as int],
            }
        },
    }
}

/// Whether text `x` comes before text `y` in the order of code points: `x`
/// is a proper beginning of `y`, or at the first place where they differ
/// `x` holds the smaller character.
pub open spec fn text_before(x: Seq<char>, y: Seq<char>) -> bool {
    ||| (x.len() < y.len() && x == y.take(x.len() as int))
    ||| exists|i: int|
        0 <= i < x.len() && i < y.len() && x.take(i) == y.take(i) && (#[trigger] x[i] as u32) < (y[i] as u32)
}

proof fn lemma_char_codes(s: Seq<char>, descending: bool)
    ensures
        char_codes(s, descending).len() == s.len(),
        forall|i: int|
            0 <= i < s.len() ==> #[trigger] char_codes(s, descending)[i] == (if descending {
                -((s[i] as u32) as int)
            } else {
                (s[i] as u32) as int
            }),
    decreases s.len(),
{
    if s.len() > 0 {
        lemma_char_codes(s.drop_last(), descending);
        assert forall|i: int| 0 <= i < s.len() - 1 implies s.drop_last()[i] == s[i] by {}
    }
}

/// Title keys follow the lower-cased titles: a title whose lower-cased text
/// comes first has the smaller ascending key and the larger descending key,
/// whatever follows the title in the keys.
pub proof fn lemma_title_keys_follow_names(x: Seq<char>, y: Seq<char>, rx: Seq<int>, ry: Seq<int>)
    requires
        text_before(lowercase(x), lowercase(y)),
    ensures
        key_lt(title_key(x, false) + rx, title_key(y, false) + ry),
        key_lt(title_key(y, true) + ry, title_key(x, true) + rx),
{
    let lx = lowercase(x);
    let ly = lowercase(y);
    lemma_char_codes(lx, false);
    lemma_char_codes(ly, false);
    lemma_char_codes(lx, true);
    lemma_char_codes(ly, true);
    let ax = text_key(lx);
    let ay = text_key(ly);
    let dx = text_key_desc(lx);
    let dy = text_key_desc(ly);
    let a = title_key(x, false) + rx;
    let b = title_key(y, false) + ry;
    let c = title_key(y, true) + ry;
    let d = title_key(x, true) + rx;
    assert(a =~= ax + (text_key(x) + rx));
    assert(b =~= ay + (text_key(y) + ry));
    assert(c =~= dy + (text_key_desc(y) + ry));
    assert(d =~= dx + (text_key_desc(x) + rx));
    let i: int = if lx.len() < ly.len() && lx == ly.take(lx.len() as int) {
        lx.len() as int
    } else {
        choose|i: int|
            0 <= i < lx.len() && i < ly.len() && lx.take(i) == ly.take(i) && (#[trigger] lx[i] as u32) < (ly[i] as u32)
    };
    assert forall|j: int| 0 <= j < i implies lx[j] == ly[j] by {
        if lx.len() < ly.len() && lx == ly.take(lx.len() as int) {
            assert(ly.take(lx.len() as int)[j] == ly[j]);
        } else {
            assert(lx.take(i)[j] == lx[j]);
            assert(ly.take(i)[j] == ly[j]);
        }
    }
    assert(0 <= i <= lx.len() && i < ly.len());
    assert forall|j: int| 0 <= j < i implies a[j] == b[j] by {
        assert(a[j] == ax[j]);
        assert(b[j] == ay[j]);
    }
    assert(a[i] == ax[i] && b[i] == ay[i]);
    lemma_key_lt_at(a, b, i);
    assert forall|j: int| 0 <= j < i implies c[j] == d[j] by {
        assert(c[j] == dy[j]);
        assert(d[j] == dx[j]);
    }
    assert(c[i] == dy[i] && d[i] == dx[i]);
    lemma_key_lt_at(c, d, i);
}

/// The key of a task under a sort order. Ties after the named criteria go
/// to the newer task and then to the larger identifier, except that oldest
/// first breaks them by the smaller identifier.
pub open spec fn task_sort_key(order: TaskSortOrder, task: Task) -> Seq<int> {
    let newest_last = seq![-(task.created_at as int), -(task.id.0 as int)];
    match order {
        TaskSortOrder::DueAsc => due_key(task, false) + title_key(task.title@, false) + newest_last,
        TaskSortOrder::DueDesc => due_key(task, true) + title_key(task.title@, false) + newest_last,
        TaskSortOrder::TitleAsc => title_key(task.title@, false) + newest_last,
        TaskSortOrder::TitleDesc => title_key(task.title@, true) + newest_last,
        TaskSortOrder::CreatedNewest => seq![-(task.created_at as int)] + title_key(task.title@, false)
            + seq![-(task.id.0 as int)],
        TaskSortOrder::CreatedOldest => seq![task.created_at as int] + title_key(task.title@, false)
            + seq![task.id.0 as int],
        TaskSortOrder::PriorityHigh => seq![priority_level(task.priority) as int] + due_key(task, false)
            + title_key(task.title@, false) + newest_last,
        TaskSortOrder::PriorityLow => seq![-(priority_level(task.priority) as int)] + due_key(
            task,
            false,
        ) + title_key(task.title@, false) + newest_last,
    }
}

pub(crate) fn push_text(key: &mut Vec<i128>, text: &str, descending: bool)
    ensures
        key_view(final(key)@) == key_view(old(key)@) + if descending {
            text_key_desc(text@)
        } else {
            text_key(text@)
        },
{
    let chars = chars_of(text);
    let ghost start = key_view(key@);
    let mut i: usize = 0;
    while i < chars.len()
        invariant
            i <= chars.len(),
            chars@ == text@,
            key_view(key@) == start + char_codes(chars@.take(i as int), descending),
        decreases chars.len() - i,
    {
        let code = chars[i] as u32 as i128;
        let ghost before = key@;
        if descending {
            key.push(-code);
        } else {
            key.push(code);
        }
        proof {
            assert(chars@.take(i + 1).drop_last() =~= chars@.take(i as int));
            assert(chars@.take(i + 1).last() == chars@[i as int]);
            assert(key_view(key@) =~= key_view(before).push(key@[before.len() as int] as int));
        }
        i += 1;
    }
    let ghost before = key@;
    if descending {
        key.push(1);
    } else {
        key.push(-1);
    }
    proof {
        assert(chars@.take(chars.len() as int) =~= chars@);
        assert(key_view(key@) =~= key_view(before).push(key@[before.len() as int] as int));
    }
    assert(key_view(key@) =~= start + if descending {
        text_key_desc(text@)
    } else {
        text_key(text@)
    });
}

pub(crate) fn push_int(key: &mut Vec<i128>, v: i128)
    ensures
        key_view(final(key)@) == key_view(old(key)@).push(v as int),
{
    let ghost before = key@;
    key.push(v);
    assert(key_view(key@) =~= key_view(before).push(v as int));
}

pub(crate) fn push_title(key: &mut Vec<i128>, title: &str, descending: bool)
    ensures
        key_view(final(key)@) == key_view(old(key)@) + title_key(title@, descending),
{
    let lowered = to_lowercase(title);
    let ghost start = key_view(key@);
    push_text(key, lowered.as_str(), descending);
    push_text(key, title, descending);
    assert(key_view(key@) =~= start + title_key(title@, descending));
}

fn push_due(key: &mut Vec<i128>, task: &Task, descending: bool)
    ensures
        key_view(final(key)@) == key_view(old(key)@) + due_key(*task, descending),
{
    let ghost start = key_view(key@);
    match &task.due {
        None => {
            push_int(key, 1);
        },
        Some(due) => {
            let day = due.date.day_number as i128;
            push_int(key, 0);
            push_int(key, if descending { -day } else { day });
            match due.datetime {
                None => {
                    push_int(key, 0);
                },
                Some(v) => {
                    push_int(key, if descending { -1 } else { 1 });
                    push_int(key, if descending { -(v as i128) } else { v as i128 });
                },
            }
        },
    }
    assert(key_view(key@) =~= start + due_key(*task, descending));
}

/// The key of a task under a sort order.
pub fn task_sort_key_of(order: TaskSortOrder, task: &Task) -> (r: Vec<i128>)
    ensures
        key_view(r@) == task_sort_key(order, *task),
{
    let mut key: Vec<i128> = Vec::new();
    let created = task.created_at as i128;
    let id = task.id.0 as i128;
    let level = task.priority.level() as i128;
    let title = task.title.as_str();
    assert(key_view(key@) =~= Seq::<int>::empty());
    match order {
        TaskSortOrder::DueAsc | TaskSortOrder::DueDesc => {
            push_due(&mut key, task, order == TaskSortOrder::DueDesc);
            push_title(&mut key, title, false);
            push_int(&mut key, -created);
            push_int(&mut key, -id);
        },
        TaskSortOrder::TitleAsc | TaskSortOrder::TitleDesc => {
            push_title(&mut key, title, order == TaskSortOrder::TitleDesc);
            push_int(&mut key, -created);
            push_int(&mut key, -id);
        },
        TaskSortOrder::CreatedNewest => {
            push_int(&mut key, -created);
            push_title(&mut key, title, false);
            push_int(&mut key, -id);
        },
        TaskSortOrder::CreatedOldest => {
            push_int(&mut key, created);
            push_title(&mut key, title, false);
            push_int(&mut key, id);
        },
        TaskSortOrder::PriorityHigh | TaskSortOrder::PriorityLow => {
            push_int(&mut key, if order == TaskSortOrder::PriorityLow { -level } else { level });
            push_due(&mut key, task, false);
            push_title(&mut key, title, false);
            push_int(&mut key, -created);
            push_int(&mut key, -id);
        },
    }
    assert(key_view(key@) =~= task_sort_key(order, *task));
    key
}

/// Whether task `x` is placed before task `y` under a sort order: its key
/// comes first, or the keys are equal and it stands earlier in the tasks.
pub open spec fn task_ranked_before(tasks: Seq<Task>, order: TaskSortOrder, x: int, y: int) -> bool {
    key_lt(task_sort_key(order, tasks[x]), task_sort_key(order, tasks[y])) || (task_sort_key(
        order,
        tasks[x],
    ) == task_sort_key(order, tasks[y]) && x < y)
}

/// Whether the task list's top level shows a task: the list shows it, it
/// has no parent, and its title matches the search.
pub open spec fn listed_root(task: Task, scope: TaskListScope, data: ScreenData, query: Seq<char>) -> bool {
    visible_in(task, scope, data) && task.parent_task_id is None && fuzzy_match_spec(
        query,
        task.title@,
    )
}

/// The positions, in increasing order, of the first `n` tasks that the top
/// level shows.
pub open spec fn root_positions(data: ScreenData, scope: TaskListScope, query: Seq<char>, n: int) -> Seq<usize>
    decreases n,
{
    if n <= 0 {
        Seq::empty()
    } else {
        let rest = root_positions(data, scope, query, n - 1);
        if listed_root(data.tasks@[n - 1], scope, data, query) {
            rest.push((n - 1) as usize)
        } else {
            rest
        }
    }
}

proof fn lemma_root_positions_increasing(data: ScreenData, scope: TaskListScope, query: Seq<char>, n: int)
    requires
        0 <= n <= data.tasks@.len(),
        n <= usize::MAX,
    ensures
        forall|i: int, j: int|
            0 <= i < j < root_positions(data, scope, query, n).len() ==> #[trigger] root_positions(
                data,
                scope,
                query,
                n,
            )[i] < #[trigger] root_positions(data, scope, query, n)[j],
        forall|i: int|
            0 <= i < root_positions(data, scope, query, n).len() ==> #[trigger] root_positions(
                data,
                scope,
                query,
                n,
            )[i] < n,
    decreases n,
{
    if n > 0 {
        lemma_root_positions_increasing(data, scope, query, n - 1);
        let rest = root_positions(data, scope, query, n - 1);
        let all = root_positions(data, scope, query, n);
        if listed_root(data.tasks@[n - 1], scope, data, query) {
            assert(all == rest.push((n - 1) as usize));
            assert forall|i: int| 0 <= i < all.len() implies #[trigger] all[i] < n by {
                if i < rest.len() {
                    assert(all[i] == rest[i]);
                }
            }
            assert forall|i: int, j: int| 0 <= i < j < all.len() implies #[trigger] all[i] < #[trigger] all[j] by {
                assert(all[i] == rest[i]);
                if j < rest.len() {
                    assert(all[j] == rest[j]);
                }
            }
        } else {
            assert(all == rest);
        }
    }
}

/// The keys of the tasks at the given positions.
pub open spec fn sort_keys_at(tasks: Seq<Task>, order: TaskSortOrder, positions: Seq<usize>) -> Seq<Seq<int>> {
    Seq::new(positions.len(), |k: int| task_sort_key(order, tasks[positions[k] as int]))
}

/// The top level of the task list in order: the tasks `root_positions`
/// lists, arranged by a stable sort on their keys.
pub open spec fn visible_roots_spec(
    data: ScreenData,
    scope: TaskListScope,
    order: TaskSortOrder,
    query: Seq<char>,
) -> Seq<usize> {
    let roots = root_positions(data, scope, query, data.tasks@.len() as int);
    pick(roots, stable_order_spec(sort_keys_at(data.tasks@, order, roots), roots.len()))
}

/// Arranges items by their keys, stably.
pub(crate) fn arrange(items: &Vec<usize>, keys: &Vec<Vec<i128>>) -> (r: Vec<usize>)
    requires
        items.len() == keys.len(),
    ensures
        r@ == pick(items@, stable_order_spec(keys_view(keys@), keys.len() as nat)),
        sorted_positions(keys_view(keys@), stable_order_spec(keys_view(keys@), keys.len() as nat), keys.len() as nat),
{
    let positions = stable_order(keys);
    let mut r: Vec<usize> = Vec::new();
    let mut m: usize = 0;
    while m < positions.len()
        invariant
            m <= positions.len(),
            items.len() == keys.len(),
            positions@ == stable_order_spec(keys_view(keys@), keys.len() as nat),
            sorted_positions(keys_view(keys@), positions@, keys.len() as nat),
            r@ == pick(items@, positions@.take(m as int)),
        decreases positions.len() - m,
    {
        let ghost before = r@;
        r.push(items[positions[m]]);
        assert(r@ =~= pick(items@, positions@.take(m + 1)));
        m += 1;
    }
    assert(positions@.take(m as int) =~= positions@);
    r
}

/// The positions of the tasks on the top level of the task list, in the
/// order of the sort order: the tasks `root_positions` lists, each once,
/// ranked by their keys and then by their place among the tasks.
pub fn visible_task_roots(data: &ScreenData, scope: &TaskListScope, order: TaskSortOrder, query: &str) -> (r: Vec<usize>)
    requires
        projects_acyclic(data.projects@),
    ensures
        r@ == visible_roots_spec(*data, *scope, order, query@),
        ({
            let roots = root_positions(*data, *scope, query@, data.tasks@.len() as int);
            &&& r@.len() == roots.len()
            &&& forall|i: int| 0 <= i < r@.len() ==> roots.contains(#[trigger] r@[i])
            &&& forall|k: int| 0 <= k < roots.len() ==> r@.contains(#[trigger] roots[k])
            &&& forall|i: int, j: int|
                0 <= i < j < r@.len() ==> task_ranked_before(
                    data.tasks@,
                    order,
                    #[trigger] r@[i] as int,
                    #[trigger] r@[j] as int,
                )
        }),
{
    let ghost tasks = data.tasks@;
    let mut roots: Vec<usize> = Vec::new();
    let mut keys: Vec<Vec<i128>> = Vec::new();
    let mut i: usize = 0;
    while i < data.tasks.len()
        invariant
            i <= data.tasks.len(),
            tasks == data.tasks@,
            projects_acyclic(data.projects@),
            roots@ == root_positions(*data, *scope, query@, i as int),
            keys@.len() == roots@.len(),
            keys_view(keys@) == sort_keys_at(tasks, order, roots@),
        decreases data.tasks.len() - i,
    {
        let task = &data.tasks[i];
        if task_is_visible(data, task, scope) && task.parent_task_id.is_none() && fuzzy_matches(
            query,
            task.title.as_str(),
        ) {
            let ghost before_keys = keys@;
            let ghost before_roots = roots@;
            let key = task_sort_key_of(order, task);
            let ghost new_key = key_view(key@);
            roots.push(i);
            keys.push(key);
            proof {
                let kn = keys_view(keys@);
                let sk = sort_keys_at(tasks, order, roots@);
                assert(kn.len() == keys@.len() && sk.len() == roots@.len());
                assert forall|k: int| 0 <= k < kn.len() implies #[trigger] kn[k] == sk[k] by {
                    assert(kn[k] == key_view(keys@[k]@));
                    assert(sk[k] == task_sort_key(order, tasks[roots@[k] as int]));
                    if k < before_keys.len() {
                        assert(keys@[k] == before_keys[k]);
                        assert(roots@[k] == before_roots[k]);
                        assert(keys_view(before_keys)[k] == key_view(before_keys[k]@));
                        assert(sort_keys_at(tasks, order, before_roots)[k] == task_sort_key(
                            order,
                            tasks[before_roots[k] as int],
                        ));
                    } else {
                        assert(key_view(keys@[k]@) == new_key);
                        assert(roots@[k] == i);
                    }
                }
                assert(kn =~= sk);
            }
        }
        i += 1;
    }
    proof {
        lemma_root_positions_increasing(*data, *scope, query@, data.tasks@.len() as int);
    }
    let r = arrange(&roots, &keys);
    proof {
        let kv = keys_view(keys@);
        let positions = stable_order_spec(kv, keys.len() as nat);
        assert forall|a: int| 0 <= a < r@.len() implies roots@.contains(#[trigger] r@[a]) by {
            assert(roots@[positions[a] as int] == r@[a]);
        }
        assert forall|k: int| 0 <= k < roots@.len() implies r@.contains(#[trigger] roots@[k]) by {
            assert(crate::sorting::lists_position(positions, k));
            let a = choose|a: int| 0 <= a < positions.len() && #[trigger] positions[a] == k;
            assert(r@[a] == roots@[k]);
        }
        assert forall|a: int, b: int| 0 <= a < b < r@.len() implies task_ranked_before(
            tasks,
            order,
            #[trigger] r@[a] as int,
            #[trigger] r@[b] as int,
        ) by {
            let pa = positions[a] as int;
            let pb = positions[b] as int;
            assert(ranked_before(kv, pa, pb));
            if pa < pb {
                assert(roots@[pa] < roots@[pb]);
            }
        }
    }
    r
}

/// The key by which the children of a task are ordered: their place among
/// their siblings, then their creation, then their identifier.
pub open spec fn child_key(task: Task) -> Seq<int> {
    seq![task.child_order as int, task.created_at as int, task.id.0 as int]
}

/// The positions, in increasing order, of the first `n` tasks that count
/// and sit directly under the task `parent`.
pub open spec fn child_positions(data: ScreenData, parent: TaskId, n: int) -> Seq<usize>
    decreases n,
{
    if n <= 0 {
        Seq::empty()
    } else {
        let rest = child_positions(data, parent, n - 1);
        let t = data.tasks@[n - 1];
        if task_active(t, data.projects@) && t.parent_task_id == Some(parent) {
            rest.push((n - 1) as usize)
        } else {
            rest
        }
    }
}

proof fn lemma_child_positions_bounded(data: ScreenData, parent: TaskId, n: int)
    requires
        0 <= n <= data.tasks@.len(),
    ensures
        forall|i: int|
            0 <= i < child_positions(data, parent, n).len() ==> #[trigger] child_positions(
                data,
                parent,
                n,
            )[i] < n,
    decreases n,
{
    if n > 0 {
        lemma_child_positions_bounded(data, parent, n - 1);
        let rest = child_positions(data, parent, n - 1);
        let all = child_positions(data, parent, n);
        assert forall|i: int| 0 <= i < all.len() implies #[trigger] all[i] < n by {
            if i < rest.len() {
                assert(all[i] == rest[i]);
            }
        }
    }
}

/// The children of a task in the order the list shows them.
pub open spec fn children_spec(data: ScreenData, parent: TaskId) -> Seq<usize> {
    let kids = child_positions(data, parent, data.tasks@.len() as int);
    pick(kids, stable_order_spec(Seq::new(kids.len(), |k: int| child_key(data.tasks@[kids[k] as int])), kids.len()))
}

/// The children of a task that count, in the order the list shows them.
pub fn sorted_children(data: &ScreenData, parent: TaskId) -> (r: Vec<usize>)
    ensures
        r@ == children_spec(*data, parent),
        forall|k: int| 0 <= k < r@.len() ==> #[trigger] r@[k] < data.tasks.len(),
{
    let ghost tasks = data.tasks@;
    let mut kids: Vec<usize> = Vec::new();
    let mut keys: Vec<Vec<i128>> = Vec::new();
    let mut i: usize = 0;
    while i < data.tasks.len()
        invariant
            i <= data.tasks.len(),
            tasks == data.tasks@,
            kids@ == child_positions(*data, parent, i as int),
            keys@.len() == kids@.len(),
            keys_view(keys@) == Seq::new(kids@.len(), |k: int| child_key(tasks[kids@[k] as int])),
        decreases data.tasks.len() - i,
    {
        let task = &data.tasks[i];
        if task_is_active(data.projects.as_slice(), task) && task.parent_task_id == Some(parent) {
            let ghost before_keys = keys@;
            let ghost before_kids = kids@;
            kids.push(i);
            let mut key: Vec<i128> = Vec::new();
            key.push(task.child_order as i128);
            key.push(task.created_at as i128);
            key.push(task.id.0 as i128);
            assert(key_view(key@) =~= child_key(*task));
            let ghost new_key = key_view(key@);
            keys.push(key);
            proof {
                let kn = keys_view(keys@);
                let sk = Seq::new(kids@.len(), |k: int| child_key(tasks[kids@[k] as int]));
                assert(kn.len() == keys@.len() && sk.len() == kids@.len());
                assert forall|k: int| 0 <= k < kn.len() implies #[trigger] kn[k] == sk[k] by {
                    assert(kn[k] == key_view(keys@[k]@));
                    if k < before_keys.len() {
                        assert(keys@[k] == before_keys[k]);
                        assert(kids@[k] == before_kids[k]);
                        assert(keys_view(before_keys)[k] == key_view(before_keys[k]@));
                    } else {
                        assert(key_view(keys@[k]@) == new_key);
                        assert(kids@[k] == i);
                    }
                }
                assert(kn =~= sk);
            }
        }
        i += 1;
    }
    proof {
        lemma_child_positions_bounded(*data, parent, data.tasks@.len() as int);
    }
    let r = arrange(&kids, &keys);
    proof {
        let positions = stable_order_spec(keys_view(keys@), keys.len() as nat);
        assert forall|k: int| 0 <= k < r@.len() implies #[trigger] r@[k] < data.tasks.len() by {
            assert(r@[k] == kids@[positions[k] as int]);
        }
    }
    r
}

/// The rows under and including the task at `pos`, at `depth`: the task,
/// then, where it is expanded, the rows of each of its children in order.
/// The walk goes at most `fuel` levels down.
pub open spec fn rows_from(data: ScreenData, pos: int, depth: nat, expanded: Seq<TaskId>, fuel: nat) -> Seq<(usize, usize)>
    decreases fuel, 0nat,
{
    let here = seq![(depth as usize, pos as usize)];
    if 0 <= pos < data.tasks@.len() && expanded.contains(data.tasks@[pos].id) && fuel > 0 {
        here + rows_of_list(data, children_spec(data, data.tasks@[pos].id), depth + 1, expanded, (fuel - 1) as nat)
    } else {
        here
    }
}

/// The rows of each task of `list`, one after another.
pub open spec fn rows_of_list(data: ScreenData, list: Seq<usize>, depth: nat, expanded: Seq<TaskId>, fuel: nat) -> Seq<(usize, usize)>
    decreases fuel, list.len(),
{
    if list.len() == 0 {
        Seq::empty()
    } else {
        rows_of_list(data, list.drop_last(), depth, expanded, fuel) + rows_from(
            data,
            list.last() as int,
            depth,
            expanded,
            fuel,
        )
    }
}

fn contains_task_id(ids: &[TaskId], id: TaskId) -> (r: bool)
    ensures
        r == ids@.contains(id),
{
    let mut i: usize = 0;
    while i < ids.len()
        invariant
            i <= ids.len(),
            forall|j: int| 0 <= j < i ==> #[trigger] ids@[j] != id,
        decreases ids.len() - i,
    {
        if ids[i] == id {
            assert(ids@[i as int] == id);
            return true;
        }
        i += 1;
    }
    false
}

fn append_rows(
    data: &ScreenData,
    pos: usize,
    depth: usize,
    expanded: &[TaskId],
    fuel: usize,
    rows: &mut Vec<(usize, usize)>,
)
    requires
        pos < data.tasks.len(),
        depth + fuel < usize::MAX,
        forall|k: int| 0 <= k < old(rows)@.len() ==> #[trigger] old(rows)@[k].1 < data.tasks.len(),
    ensures
        final(rows)@ == old(rows)@ + rows_from(*data, pos as int, depth as nat, expanded@, fuel as nat),
        forall|k: int| 0 <= k < final(rows)@.len() ==> #[trigger] final(rows)@[k].1 < data.tasks.len(),
    decreases fuel, 0nat,
{
    rows.push((depth, pos));
    let ghost after_here = rows@;
    if contains_task_id(expanded, data.tasks[pos].id) && fuel > 0 {
        let children = sorted_children(data, data.tasks[pos].id);
        append_list_rows(data, &children, children.len(), depth + 1, expanded, fuel - 1, rows);
        assert(children@.take(children.len() as int) =~= children@);
    }
    assert(seq![(depth, pos)] =~= seq![((depth as nat) as usize, (pos as int) as usize)]);
}

fn append_list_rows(
    data: &ScreenData,
    list: &Vec<usize>,
    upto: usize,
    depth: usize,
    expanded: &[TaskId],
    fuel: usize,
    rows: &mut Vec<(usize, usize)>,
)
    requires
        upto <= list.len(),
        forall|k: int| 0 <= k < list@.len() ==> #[trigger] list@[k] < data.tasks.len(),
        depth + fuel < usize::MAX,
        forall|k: int| 0 <= k < old(rows)@.len() ==> #[trigger] old(rows)@[k].1 < data.tasks.len(),
    ensures
        final(rows)@ == old(rows)@ + rows_of_list(*data, list@.take(upto as int), depth as nat, expanded@, fuel as nat),
        forall|k: int| 0 <= k < final(rows)@.len() ==> #[trigger] final(rows)@[k].1 < data.tasks.len(),
    decreases fuel, upto,
{
    if upto == 0 {
        assert(rows_of_list(*data, list@.take(0), depth as nat, expanded@, fuel as nat) =~= Seq::empty());
        return;
    }
    append_list_rows(data, list, upto - 1, depth, expanded, fuel, rows);
    assert(list@.take(upto as int).drop_last() =~= list@.take(upto - 1));
    append_rows(data, list[upto - 1], depth, expanded, fuel, rows);
}

/// The rows of the task list, as pairs of depth and position among the
/// tasks: each top-level task in order, and under each expanded task the
/// rows of its children, depth first.
pub open spec fn task_rows_spec(
    data: ScreenData,
    scope: TaskListScope,
    order: TaskSortOrder,
    query: Seq<char>,
    expanded: Seq<TaskId>,
) -> Seq<(usize, usize)> {
    rows_of_list(
        data,
        visible_roots_spec(data, scope, order, query),
        0,
        expanded,
        data.tasks@.len() as nat,
    )
}

/// The rows of the task list, as pairs of depth and position among the
/// tasks. A chain of children deeper than the number of tasks can only come
/// from a cycle among parents; the walk goes no deeper than that.
pub fn visible_task_rows(
    data: &ScreenData,
    scope: &TaskListScope,
    order: TaskSortOrder,
    query: &str,
    expanded: &[TaskId],
) -> (r: Vec<(usize, usize)>)
    requires
        projects_acyclic(data.projects@),
        data.tasks.len() < usize::MAX,
    ensures
        r@ == task_rows_spec(*data, *scope, order, query@, expanded@),
        forall|k: int| 0 <= k < r@.len() ==> #[trigger] r@[k].1 < data.tasks.len(),
{
    let roots = visible_task_roots(data, scope, order, query);
    proof {
        let spec_roots = root_positions(*data, *scope, query@, data.tasks@.len() as int);
        lemma_root_positions_increasing(*data, *scope, query@, data.tasks@.len() as int);
        assert forall|k: int| 0 <= k < roots@.len() implies #[trigger] roots@[k] < data.tasks.len() by {
            assert(spec_roots.contains(roots@[k]));
        }
    }
    let mut rows: Vec<(usize, usize)> = Vec::new();
    append_list_rows(data, &roots, roots.len(), 0, expanded, data.tasks.len(), &mut rows);
    assert(roots@.take(roots.len() as int) =~= roots@);
    assert(rows@ =~= task_rows_spec(*data, *scope, order, query@, expanded@));
    rows
}

/// Whether a task has a child that counts.
pub open spec fn has_active_child(data: ScreenData, id: TaskId) -> bool {
    exists|j: int|
        0 <= j < data.tasks@.len() && task_active(#[trigger] data.tasks@[j], data.projects@)
            && data.tasks@[j].parent_task_id == Some(id)
}

/// What the screen draws for one row: the task at the row's position, the
/// row's depth, whether the task has children and whether it is expanded.
pub open spec fn row_drawn_as(
    data: ScreenData,
    expanded: Seq<TaskId>,
    row: (usize, usize),
    view: TaskListRowView,
) -> bool {
    let id = data.tasks@[row.1 as int].id;
    &&& view.task_id == id
    &&& view.depth == row.0
    &&& view.has_children == has_active_child(data, id)
    &&& view.is_expanded == expanded.contains(id)
}

/// The task list as the screen draws it: for each row, the task, its depth,
/// whether it has children and whether it is expanded.
pub fn task_list_rows(
    data: &ScreenData,
    scope: &TaskListScope,
    order: TaskSortOrder,
    query: &str,
    expanded: &[TaskId],
) -> (r: Vec<TaskListRowView>)
    requires
        projects_acyclic(data.projects@),
        data.tasks.len() < usize::MAX,
    ensures
        r@.len() == task_rows_spec(*data, *scope, order, query@, expanded@).len(),
        forall|k: int|
            0 <= k < r@.len() ==> row_drawn_as(
                *data,
                expanded@,
                task_rows_spec(*data, *scope, order, query@, expanded@)[k],
                #[trigger] r@[k],
            ),
{
    let rows = visible_task_rows(data, scope, order, query, expanded);
    let mut r: Vec<TaskListRowView> = Vec::new();
    let mut k: usize = 0;
    while k < rows.len()
        invariant
            k <= rows.len(),
            forall|t: int| 0 <= t < rows@.len() ==> #[trigger] rows@[t].1 < data.tasks.len(),
            r@.len() == k,
            forall|t: int| 0 <= t < k ==> row_drawn_as(*data, expanded@, rows@[t], #[trigger] r@[t]),
        decreases rows.len() - k,
    {
        let (depth, pos) = rows[k];
        let id = data.tasks[pos].id;
        let mut has_children = false;
        let mut j: usize = 0;
        while j < data.tasks.len()
            invariant
                j <= data.tasks.len(),
                has_children == exists|m: int|
                    0 <= m < j && task_active(#[trigger] data.tasks@[m], data.projects@)
                        && data.tasks@[m].parent_task_id == Some(id),
            decreases data.tasks.len() - j,
        {
            let candidate = &data.tasks[j];
            if task_is_active(data.projects.as_slice(), candidate) && candidate.parent_task_id == Some(
                id,
            ) {
                has_children = true;
            }
            j += 1;
        }
        let is_expanded = contains_task_id(expanded, id);
        r.push(TaskListRowView { task_id: id, depth, has_children, is_expanded });
        k += 1;
    }
    r
}

/// Sorting by due date, either way, puts every task with a due date before
/// every task without one; ascending, an earlier due day comes first and,
/// descending, a later one.
pub proof fn due_orders_put_dated_first(a: Task, b: Task)
    ensures
        a.due is Some && b.due is None ==> key_lt(task_sort_key(TaskSortOrder::DueAsc, a), task_sort_key(TaskSortOrder::DueAsc, b))
            && key_lt(task_sort_key(TaskSortOrder::DueDesc, a), task_sort_key(TaskSortOrder::DueDesc, b)),
        (a.due matches Some(da) && b.due matches Some(db) && da.date.day_number < db.date.day_number)
            ==> key_lt(task_sort_key(TaskSortOrder::DueAsc, a), task_sort_key(TaskSortOrder::DueAsc, b))
            && key_lt(task_sort_key(TaskSortOrder::DueDesc, b), task_sort_key(TaskSortOrder::DueDesc, a)),
{
    let ka = task_sort_key(TaskSortOrder::DueAsc, a);
    let kb = task_sort_key(TaskSortOrder::DueAsc, b);
    let da = task_sort_key(TaskSortOrder::DueDesc, a);
    let db = task_sort_key(TaskSortOrder::DueDesc, b);
    assert(ka[0] == due_key(a, false)[0]);
    assert(kb[0] == due_key(b, false)[0]);
    assert(da[0] == due_key(a, true)[0]);
    assert(db[0] == due_key(b, true)[0]);
    if a.due is Some && b.due is Some {
        assert(ka[1] == due_key(a, false)[1]);
        assert(kb[1] == due_key(b, false)[1]);
        assert(da[1] == due_key(a, true)[1]);
        assert(db[1] == due_key(b, true)[1]);
        assert(ka.drop_first()[0] == ka[1] && kb.drop_first()[0] == kb[1]);
        assert(da.drop_first()[0] == da[1] && db.drop_first()[0] == db[1]);
        if a.due->0.date.day_number < b.due->0.date.day_number {
            assert(key_lt(ka.drop_first(), kb.drop_first()));
            assert(key_lt(db.drop_first(), da.drop_first()));
        }
    }
}

/// Among tasks due on the same day, sorting by due date ascending puts the
/// earlier time of day first, and a day without a time before the times of
/// that day; descending puts them the other way round.
pub proof fn due_orders_follow_the_time_of_day(a: Task, b: Task)
    requires
        a.due matches Some(da) && b.due matches Some(db) && da.date.day_number == db.date.day_number,
    ensures
        (a.due->0.datetime matches Some(x) && b.due->0.datetime matches Some(y) && x < y) ==> key_lt(
            task_sort_key(TaskSortOrder::DueAsc, a),
            task_sort_key(TaskSortOrder::DueAsc, b),
        ) && key_lt(task_sort_key(TaskSortOrder::DueDesc, b), task_sort_key(TaskSortOrder::DueDesc, a)),
        (a.due->0.datetime is None && b.due->0.datetime is Some) ==> key_lt(
            task_sort_key(TaskSortOrder::DueAsc, a),
            task_sort_key(TaskSortOrder::DueAsc, b),
        ) && key_lt(task_sort_key(TaskSortOrder::DueDesc, b), task_sort_key(TaskSortOrder::DueDesc, a)),
{
    let ka = task_sort_key(TaskSortOrder::DueAsc, a);
    let kb = task_sort_key(TaskSortOrder::DueAsc, b);
    let qa = task_sort_key(TaskSortOrder::DueDesc, a);
    let qb = task_sort_key(TaskSortOrder::DueDesc, b);
    let ua = due_key(a, false);
    let ub = due_key(b, false);
    let va = due_key(a, true);
    let vb = due_key(b, true);
    assert forall|j: int| 0 <= j < ua.len() implies ka[j] == ua[j] by {}
    assert forall|j: int| 0 <= j < ub.len() implies kb[j] == ub[j] by {}
    assert forall|j: int| 0 <= j < va.len() implies qa[j] == va[j] by {}
    assert forall|j: int| 0 <= j < vb.len() implies qb[j] == vb[j] by {}
    if a.due->0.datetime is Some && b.due->0.datetime is Some {
        if a.due->0.datetime->0 < b.due->0.datetime->0 {
            assert(ka[0] == kb[0] && ka[1] == kb[1] && ka[2] == kb[2]);
            lemma_key_lt_at(ka, kb, 3);
            assert(qa[0] == qb[0] && qa[1] == qb[1] && qa[2] == qb[2]);
            lemma_key_lt_at(qb, qa, 3);
        }
    }
    if a.due->0.datetime is None && b.due->0.datetime is Some {
        assert(ka[0] == kb[0] && ka[1] == kb[1]);
        lemma_key_lt_at(ka, kb, 2);
        assert(qa[0] == qb[0] && qa[1] == qb[1]);
        lemma_key_lt_at(qb, qa, 2);
    }
}

/// Sorting by title ascending puts the task whose lower-cased title comes
/// first before the other, and descending after it.
pub proof fn title_orders_follow_titles(a: Task, b: Task)
    requires
        text_before(lowercase(a.title@), lowercase(b.title@)),
    ensures
        key_lt(task_sort_key(TaskSortOrder::TitleAsc, a), task_sort_key(TaskSortOrder::TitleAsc, b)),
        key_lt(task_sort_key(TaskSortOrder::TitleDesc, b), task_sort_key(TaskSortOrder::TitleDesc, a)),
{
    let ra = seq![-(a.created_at as int), -(a.id.0 as int)];
    let rb = seq![-(b.created_at as int), -(b.id.0 as int)];
    lemma_title_keys_follow_names(a.title@, b.title@, ra, rb);
}

/// Subtasks are laid out by their place among their siblings, then by
/// creation, the earlier first.
pub proof fn children_follow_places_then_creation(a: Task, b: Task)
    ensures
        a.child_order < b.child_order ==> key_lt(child_key(a), child_key(b)),
        (a.child_order == b.child_order && a.created_at < b.created_at) ==> key_lt(child_key(a), child_key(b)),
{
    if a.child_order == b.child_order && a.created_at < b.created_at {
        lemma_key_lt_at(child_key(a), child_key(b), 1);
    }
}

/// Sorting by priority from high to low puts a more urgent task first, and
/// from low to high a less urgent one; sorting by creation from newest puts
/// the newer task first.
pub proof fn priority_and_creation_orders(a: Task, b: Task)
    ensures
        priority_level(a.priority) < priority_level(b.priority) ==> key_lt(
            task_sort_key(TaskSortOrder::PriorityHigh, a),
            task_sort_key(TaskSortOrder::PriorityHigh, b),
        ) && key_lt(
            task_sort_key(TaskSortOrder::PriorityLow, b),
            task_sort_key(TaskSortOrder::PriorityLow, a),
        ),
        a.created_at > b.created_at ==> key_lt(
            task_sort_key(TaskSortOrder::CreatedNewest, a),
            task_sort_key(TaskSortOrder::CreatedNewest, b),
        ) && key_lt(
            task_sort_key(TaskSortOrder::CreatedOldest, b),
            task_sort_key(TaskSortOrder::CreatedOldest, a),
        ),
{
    assert(task_sort_key(TaskSortOrder::PriorityHigh, a)[0] == priority_level(a.priority) as int);
    assert(task_sort_key(TaskSortOrder::PriorityHigh, b)[0] == priority_level(b.priority) as int);
    assert(task_sort_key(TaskSortOrder::PriorityLow, a)[0] == -(priority_level(a.priority) as int));
    assert(task_sort_key(TaskSortOrder::PriorityLow, b)[0] == -(priority_level(b.priority) as int));
    assert(task_sort_key(TaskSortOrder::CreatedNewest, a)[0] == -(a.created_at as int));
    assert(task_sort_key(TaskSortOrder::CreatedNewest, b)[0] == -(b.created_at as int));
    assert(task_sort_key(TaskSortOrder::CreatedOldest, a)[0] == a.created_at as int);
    assert(task_sort_key(TaskSortOrder::CreatedOldest, b)[0] == b.created_at as int);
}

/// The tasks the list shows, in the order of its rows, as positions among
/// the tasks.
pub fn visible_tasks(
    data: &ScreenData,
    scope: &TaskListScope,
    order: TaskSortOrder,
    query: &str,
    expanded: &[TaskId],
) -> (r: Vec<usize>)
    requires
        projects_acyclic(data.projects@),
        data.tasks.len() < usize::MAX,
    ensures
        r@.len() == task_rows_spec(*data, *scope, order, query@, expanded@).len(),
        forall|k: int|
            0 <= k < r@.len() ==> #[trigger] r@[k] == task_rows_spec(
                *data,
                *scope,
                order,
                query@,
                expanded@,
            )[k].1,
        forall|k: int| 0 <= k < r@.len() ==> #[trigger] r@[k] < data.tasks.len(),
{
    let rows = visible_task_rows(data, scope, order, query, expanded);
    let mut r: Vec<usize> = Vec::new();
    let mut k: usize = 0;
    while k < rows.len()
        invariant
            k <= rows.len(),
            r@.len() == k,
            forall|t: int| 0 <= t < rows@.len() ==> #[trigger] rows@[t].1 < data.tasks.len(),
            forall|t: int| 0 <= t < k ==> #[trigger] r@[t] == rows@[t].1,
        decreases rows.len() - k,
    {
        r.push(rows[k].1);
        k += 1;
    }
    r
}

/// The selected task, where the list shows it: its position among the
/// tasks.
pub fn selected_task(
    data: &ScreenData,
    scope: &TaskListScope,
    order: TaskSortOrder,
    query: &str,
    expanded: &[TaskId],
    selected: Option<TaskId>,
) -> (r: Option<usize>)
    requires
        projects_acyclic(data.projects@),
        data.tasks.len() < usize::MAX,
    ensures
        ({
            let shown = task_rows_spec(*data, *scope, order, query@, expanded@);
            match r {
                Some(pos) => selected matches Some(id) && exists|k: int|
                    0 <= k < shown.len() && #[trigger] shown[k].1 == pos
                        && data.tasks@[pos as int].id == id && forall|j: int|
                        0 <= j < k ==> data.tasks@[#[trigger] shown[j].1 as int].id != id,
                None => selected is None || forall|k: int|
                    0 <= k < shown.len() ==> data.tasks@[#[trigger] shown[k].1 as int].id
                        != selected->0,
            }
        }),
{
    let id = match selected {
        Some(id) => id,
        None => {
            return None;
        },
    };
    let rows = visible_task_rows(data, scope, order, query, expanded);
    let mut k: usize = 0;
    while k < rows.len()
        invariant
            k <= rows.len(),
            selected == Some(id),
            forall|t: int| 0 <= t < rows@.len() ==> #[trigger] rows@[t].1 < data.tasks.len(),
            rows@ == task_rows_spec(*data, *scope, order, query@, expanded@),
            forall|j: int| 0 <= j < k ==> data.tasks@[#[trigger] rows@[j].1 as int].id != id,
        decreases rows.len() - k,
    {
        let pos = rows[k].1;
        if data.tasks[pos].id == id {
            return Some(pos);
        }
        k += 1;
    }
    None
}

} // verus!
