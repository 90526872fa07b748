//! The project panel: the inbox first, then the projects as a tree, the
//! children of each project in the order of the project sort order, each
//! row drawn with branch marks that show where its siblings continue.
use vstd::prelude::*;

use crate::app::{fuzzy_match_spec, fuzzy_matches, ProjectTreeRowView, ScreenData, TaskView};
use crate::config::ProjectSortOrder;
use crate::domain::{CalendarDate, Project, ProjectId};
use crate::listing::{project_count, projects_acyclic, tasks_for_project_filter};
use crate::sorting::{key_view, keys_view, pick, stable_order_spec};
use crate::task_order::{arrange, lemma_title_keys_follow_names, push_int, push_title, text_before, title_key};
use crate::sorting::key_lt;
use crate::text::lowercase;
use crate::text::{chars_of, string_from, string_of};

verus! {

/// What the project counts are taken over: the current task view, whether
/// completed tasks are hidden, and the day it is.
#[derive(Debug, Clone, Copy, PartialEq, Eq)]
pub struct ProjectCountScope {
    pub view: TaskView,
    pub today: CalendarDate,
    pub hide_completed: bool,
}

/// How many tasks the panel shows beside a project.
pub open spec fn count_of(data: ScreenData, id: Option<ProjectId>, scope: ProjectCountScope) -> nat {
    project_count(data, id, scope.view, scope.today, scope.hide_completed)
}

/// The key of a project among its siblings. Names compare lower-cased first
/// and then as written; the manual order is the place among the siblings;
/// ties go to the earlier place and then to the smaller identifier.
pub open spec fn project_sort_key(order: ProjectSortOrder, p: Project, count: nat) -> Seq<int> {
    let place = seq![p.child_order as int];
    let id = seq![p.id.0 as int];
    match order {
        ProjectSortOrder::Manual => place + title_key(p.name@, false) + id,
        ProjectSortOrder::NameAsc => title_key(p.name@, false) + place + id,
        ProjectSortOrder::NameDesc => title_key(p.name@, true) + place + id,
        ProjectSortOrder::TaskCountAsc => seq![count as int] + title_key(p.name@, false) + place + id,
        ProjectSortOrder::TaskCountDesc => seq![-(count as int)] + title_key(p.name@, false) + place
            + id,
    }
}

/// Sorting projects by name: the one whose lower-cased name comes first
/// goes first in ascending order and last in descending order. Sorting by
/// task count: the one with more tasks goes first in descending order and
/// last in ascending order.
pub proof fn project_orders_follow_names_and_counts(a: Project, b: Project, ca: nat, cb: nat)
    ensures
        text_before(lowercase(a.name@), lowercase(b.name@)) ==> key_lt(
            project_sort_key(ProjectSortOrder::NameAsc, a, ca),
            project_sort_key(ProjectSortOrder::NameAsc, b, cb),
        ) && key_lt(project_sort_key(ProjectSortOrder::NameDesc, b, cb), project_sort_key(ProjectSortOrder::NameDesc, a, ca)),
        ca > cb ==> key_lt(project_sort_key(ProjectSortOrder::TaskCountDesc, a, ca), project_sort_key(ProjectSortOrder::TaskCountDesc, b, cb))
            && key_lt(project_sort_key(ProjectSortOrder::TaskCountAsc, b, cb), project_sort_key(ProjectSortOrder::TaskCountAsc, a, ca)),
{
    let ra = seq![a.child_order as int] + seq![a.id.0 as int];
    let rb = seq![b.child_order as int] + seq![b.id.0 as int];
    assert(project_sort_key(ProjectSortOrder::NameAsc, a, ca) =~= title_key(a.name@, false) + ra);
    assert(project_sort_key(ProjectSortOrder::NameAsc, b, cb) =~= title_key(b.name@, false) + rb);
    assert(project_sort_key(ProjectSortOrder::NameDesc, a, ca) =~= title_key(a.name@, true) + ra);
    assert(project_sort_key(ProjectSortOrder::NameDesc, b, cb) =~= title_key(b.name@, true) + rb);
    if text_before(lowercase(a.name@), lowercase(b.name@)) {
        lemma_title_keys_follow_names(a.name@, b.name@, ra, rb);
    }
    assert(project_sort_key(ProjectSortOrder::TaskCountDesc, a, ca)[0] == -(ca as int));
    assert(project_sort_key(ProjectSortOrder::TaskCountDesc, b, cb)[0] == -(cb as int));
    assert(project_sort_key(ProjectSortOrder::TaskCountAsc, a, ca)[0] == ca as int);
    assert(project_sort_key(ProjectSortOrder::TaskCountAsc, b, cb)[0] == cb as int);
}

/// In the manual order the project placed earlier comes first.
pub proof fn project_manual_order_follows_places(a: Project, b: Project, ca: nat, cb: nat)
    requires
        a.child_order < b.child_order,
    ensures
        key_lt(project_sort_key(ProjectSortOrder::Manual, a, ca), project_sort_key(ProjectSortOrder::Manual, b, cb)),
{
    assert(project_sort_key(ProjectSortOrder::Manual, a, ca)[0] == a.child_order as int);
    assert(project_sort_key(ProjectSortOrder::Manual, b, cb)[0] == b.child_order as int);
}

/// Whether the project is a child of `parent` that the tree shows: not
/// deleted and not the inbox.
pub open spec fn is_tree_child(p: Project, parent: Option<ProjectId>) -> bool {
    p.deleted_at is None && p.parent_project_id == parent && !p.is_inbox
}

/// The positions, in increasing order, of the first `n` projects that are
/// children of `parent` in the tree.
pub open spec fn child_project_positions(data: ScreenData, parent: Option<ProjectId>, n: int) -> Seq<usize>
    decreases n,
{
    if n <= 0 {
        Seq::empty()
    } else {
        let rest = child_project_positions(data, parent, n - 1);
        if is_tree_child(data.projects@[n - 1], parent) {
            rest.push((n - 1) as usize)
        } else {
            rest
        }
    }
}

/// The position of the first inbox project that is not deleted, among the
/// first `n` projects.
pub open spec fn inbox_position(data: ScreenData, n: int) -> Option<usize>
    decreases n,
{
    if n <= 0 {
        None
    } else {
        match inbox_position(data, n - 1) {
            Some(i) => Some(i),
            None => if data.projects@[n - 1].is_inbox && data.projects@[n - 1].deleted_at is None {
                Some((n - 1) as usize)
            } else {
                None
            },
        }
    }
}

/// The keys of the projects at the given positions.
pub open spec fn project_keys_at(
    data: ScreenData,
    order: ProjectSortOrder,
    scope: ProjectCountScope,
    positions: Seq<usize>,
) -> Seq<Seq<int>> {
    Seq::new(
        positions.len(),
        |k: int|
            project_sort_key(
                order,
                data.projects@[positions[k] as int],
                count_of(data, Some(data.projects@[positions[k] as int].id), scope),
            ),
    )
}

/// The children of `parent` in the tree, in order; at the top, the inbox
/// comes first.
pub open spec fn project_children_spec(
    data: ScreenData,
    parent: Option<ProjectId>,
    order: ProjectSortOrder,
    scope: ProjectCountScope,
) -> Seq<usize> {
    let kids = child_project_positions(data, parent, data.projects@.len() as int);
    let sorted = pick(kids, stable_order_spec(project_keys_at(data, order, scope, kids), kids.len()));
    if parent is None {
        match inbox_position(data, data.projects@.len() as int) {
            Some(i) => seq![i] + sorted,
            None => sorted,
        }
    } else {
        sorted
    }
}

/// The marks in front of a row: for each ancestor below the top, a bar
/// where that ancestor has later siblings and blanks where not, then a
/// branch that ends here for a last child and goes on otherwise.
pub open spec fn tree_prefix_spec(depth: nat, ancestors: Seq<bool>, is_last: bool) -> Seq<char> {
    if depth == 0 {
        Seq::empty()
    } else {
        bars(ancestors) + if is_last {
            seq!['└', ' ']
        } else {
            seq!['├', ' ']
        }
    }
}

pub open spec fn bars(ancestors: Seq<bool>) -> Seq<char>
    decreases ancestors.len(),
{
    if ancestors.len() == 0 {
        Seq::empty()
    } else {
        bars(ancestors.drop_last()) + if ancestors.last() {
            seq!['│', ' ']
        } else {
            seq![' ', ' ']
        }
    }
}

/// A row of the tree: the project's position, its depth and its marks.
pub type TreeRow = (usize, usize, Seq<char>);

/// The rows of the first `upto` children in `list` and of their subtrees.
/// The walk goes at most `fuel` levels down.
pub open spec fn child_rows(
    data: ScreenData,
    list: Seq<usize>,
    upto: int,
    parent_is_top: bool,
    depth: nat,
    ancestors: Seq<bool>,
    order: ProjectSortOrder,
    scope: ProjectCountScope,
    fuel: nat,
) -> Seq<TreeRow>
    decreases fuel, 1nat, upto,
{
    if upto <= 0 || upto > list.len() {
        Seq::empty()
    } else {
        let k = upto - 1;
        let is_last = k + 1 == list.len();
        let pos = list[k];
        let next_ancestors = if parent_is_top {
            Seq::empty()
        } else {
            ancestors.push(!is_last)
        };
        child_rows(data, list, k, parent_is_top, depth, ancestors, order, scope, fuel) + seq![
            (pos, depth as usize, tree_prefix_spec(depth, ancestors, is_last)),
        ] + subtree_rows(data, pos, depth + 1, next_ancestors, order, scope, fuel)
    }
}

/// The rows under the project at `pos`.
pub open spec fn subtree_rows(
    data: ScreenData,
    pos: usize,
    depth: nat,
    ancestors: Seq<bool>,
    order: ProjectSortOrder,
    scope: ProjectCountScope,
    fuel: nat,
) -> Seq<TreeRow>
    decreases fuel, 0nat, 0int,
{
    if fuel == 0 || pos >= data.projects@.len() {
        Seq::empty()
    } else {
        let kids = project_children_spec(data, Some(data.projects@[pos as int].id), order, scope);
        child_rows(
            data,
            kids,
            kids.len() as int,
            false,
            depth,
            ancestors,
            order,
            scope,
            (fuel - 1) as nat,
        )
    }
}

/// The rows of the whole tree, top level first.
pub open spec fn tree_rows_spec(data: ScreenData, order: ProjectSortOrder, scope: ProjectCountScope) -> Seq<TreeRow> {
    let top = project_children_spec(data, None, order, scope);
    child_rows(
        data,
        top,
        top.len() as int,
        true,
        0,
        Seq::empty(),
        order,
        scope,
        data.projects@.len() as nat,
    )
}

/// The key of a project among its siblings.
fn project_sort_key_of(order: ProjectSortOrder, p: &Project, count: usize) -> (r: Vec<i128>)
    ensures
        key_view(r@) == project_sort_key(order, *p, count as nat),
{
    let mut key: Vec<i128> = Vec::new();
    let place = p.child_order as i128;
    let id = p.id.0 as i128;
    let name = p.name.as_str();
    assert(key_view(key@) =~= Seq::<int>::empty());
    match order {
        ProjectSortOrder::Manual => {
            push_int(&mut key, place);
            push_title(&mut key, name, false);
            push_int(&mut key, id);
        },
        ProjectSortOrder::NameAsc | ProjectSortOrder::NameDesc => {
            push_title(&mut key, name, order == ProjectSortOrder::NameDesc);
            push_int(&mut key, place);
            push_int(&mut key, id);
        },
        ProjectSortOrder::TaskCountAsc | ProjectSortOrder::TaskCountDesc => {
            let c = count as i128;
            push_int(&mut key, if order == ProjectSortOrder::TaskCountDesc { -c } else { c });
            push_title(&mut key, name, false);
            push_int(&mut key, place);
            push_int(&mut key, id);
        },
    }
    assert(key_view(key@) =~= project_sort_key(order, *p, count as nat));
    key
}

proof fn lemma_child_project_positions_bounded(data: ScreenData, parent: Option<ProjectId>, n: int)
    requires
        0 <= n <= data.projects@.len(),
    ensures
        forall|i: int|
            0 <= i < child_project_positions(data, parent, n).len() ==> #[trigger] child_project_positions(
                data,
                parent,
                n,
            )[i] < n,
    decreases n,
{
    if n > 0 {
        lemma_child_project_positions_bounded(data, parent, n - 1);
        let rest = child_project_positions(data, parent, n - 1);
        let all = child_project_positions(data, parent, n);
        assert forall|i: int| 0 <= i < all.len() implies #[trigger] all[i] < n by {
            if i < rest.len() {
                assert(all[i] == rest[i]);
            }
        }
    }
}

proof fn lemma_inbox_position_bounded(data: ScreenData, n: int)
    requires
        0 <= n <= data.projects@.len(),
    ensures
        inbox_position(data, n) matches Some(i) ==> i < n,
    decreases n,
{
    if n > 0 {
        lemma_inbox_position_bounded(data, n - 1);
    }
}

/// The children of `parent` in the tree, in order; at the top, the inbox
/// comes first.
pub fn project_children(
    data: &ScreenData,
    parent: Option<ProjectId>,
    order: ProjectSortOrder,
    scope: &ProjectCountScope,
) -> (r: Vec<usize>)
    requires
        projects_acyclic(data.projects@),
    ensures
        r@ == project_children_spec(*data, parent, order, *scope),
        forall|k: int| 0 <= k < r@.len() ==> #[trigger] r@[k] < data.projects.len(),
{
    let ghost projects = data.projects@;
    let mut kids: Vec<usize> = Vec::new();
    let mut keys: Vec<Vec<i128>> = Vec::new();
    let mut inbox: Option<usize> = None;
    let mut i: usize = 0;
    while i < data.projects.len()
        invariant
            i <= data.projects.len(),
            projects == data.projects@,
            projects_acyclic(data.projects@),
            kids@ == child_project_positions(*data, parent, i as int),
            inbox == inbox_position(*data, i as int),
            keys@.len() == kids@.len(),
            keys_view(keys@) == project_keys_at(*data, order, *scope, kids@),
        decreases data.projects.len() - i,
    {
        let project = &data.projects[i];
        if inbox.is_none() && project.is_inbox && project.deleted_at.is_none() {
            inbox = Some(i);
        }
        if project.deleted_at.is_none() && project.parent_project_id == parent && !project.is_inbox {
            let count = tasks_for_project_filter(
                data,
                Some(project.id),
                scope.view,
                scope.today,
                scope.hide_completed,
            );
            let key = project_sort_key_of(order, project, count);
            let ghost new_key = key_view(key@);
            let ghost before_keys = keys@;
            let ghost before_kids = kids@;
            kids.push(i);
            keys.push(key);
            proof {
                let kn = keys_view(keys@);
                let sk = project_keys_at(*data, order, *scope, kids@);
                assert(kn.len() == keys@.len() && sk.len() == kids@.len());
                assert forall|k: int| 0 <= k < kn.len() implies #[trigger] kn[k] == sk[k] by {
                    assert(kn[k] == key_view(keys@[k]@));
                    if k < before_keys.len() {
                        assert(keys@[k] == before_keys[k]);
                        assert(kids@[k] == before_kids[k]);
                        assert(keys_view(before_keys)[k] == key_view(before_keys[k]@));
                    } else {
                        assert(key_view(keys@[k]@) == new_key);
                        assert(kids@[k] == i);
                    }
                }
                assert(kn =~= sk);
            }
        }
        i += 1;
    }
    proof {
        lemma_child_project_positions_bounded(*data, parent, data.projects@.len() as int);
        lemma_inbox_position_bounded(*data, data.projects@.len() as int);
    }
    let sorted = arrange(&kids, &keys);
    proof {
        let positions = stable_order_spec(keys_view(keys@), keys.len() as nat);
        assert forall|k: int| 0 <= k < sorted@.len() implies #[trigger] sorted@[k] < data.projects.len() by {
            assert(sorted@[k] == kids@[positions[k] as int]);
        }
    }
    if parent.is_none() {
        if let Some(inbox_at) = inbox {
            let mut r: Vec<usize> = Vec::new();
            r.push(inbox_at);
            let mut k: usize = 0;
            while k < sorted.len()
                invariant
                    k <= sorted.len(),
                    r@ == seq![inbox_at] + sorted@.take(k as int),
                decreases sorted.len() - k,
            {
                r.push(sorted[k]);
                assert(sorted@.take(k + 1) =~= sorted@.take(k as int).push(sorted@[k as int]));
                assert(r@ =~= seq![inbox_at] + sorted@.take(k + 1));
                k += 1;
            }
            assert(sorted@.take(sorted.len() as int) =~= sorted@);
            assert(forall|k: int| 0 <= k < r@.len() ==> #[trigger] r@[k] < data.projects.len()) by {
                assert forall|k: int| 0 <= k < r@.len() implies #[trigger] r@[k] < data.projects.len() by {
                    if k > 0 {
                        assert(r@[k] == sorted@[k - 1]);
                    }
                }
            }
            return r;
        }
    }
    sorted
}

/// The views of rows as the tree specifies them.
pub open spec fn rows_view(rows: Seq<(usize, usize, Vec<char>)>) -> Seq<TreeRow> {
    rows.map_values(|r: (usize, usize, Vec<char>)| (r.0, r.1, r.2@))
}

fn prefix_of(depth: usize, ancestors: &Vec<bool>, is_last: bool) -> (r: Vec<char>)
    ensures
        r@ == tree_prefix_spec(depth as nat, ancestors@, is_last),
{
    let mut r: Vec<char> = Vec::new();
    if depth == 0 {
        return r;
    }
    let mut i: usize = 0;
    while i < ancestors.len()
        invariant
            i <= ancestors.len(),
            r@ == bars(ancestors@.take(i as int)),
        decreases ancestors.len() - i,
    {
        assert(ancestors@.take(i + 1).drop_last() =~= ancestors@.take(i as int));
        if ancestors[i] {
            r.push('│');
        } else {
            r.push(' ');
        }
        r.push(' ');
        i += 1;
        assert(r@ =~= bars(ancestors@.take(i as int)));
    }
    assert(ancestors@.take(ancestors.len() as int) =~= ancestors@);
    if is_last {
        r.push('└');
    } else {
        r.push('├');
    }
    r.push(' ');
    assert(r@ =~= tree_prefix_spec(depth as nat, ancestors@, is_last));
    r
}

fn next_ancestors_of(ancestors: &Vec<bool>, parent_is_top: bool, is_last: bool) -> (r: Vec<bool>)
    ensures
        r@ == if parent_is_top {
            Seq::<bool>::empty()
        } else {
            ancestors@.push(!is_last)
        },
{
    let mut next: Vec<bool> = Vec::new();
    if parent_is_top {
        return next;
    }
    let mut j: usize = 0;
    while j < ancestors.len()
        invariant
            j <= ancestors.len(),
            next@ == ancestors@.take(j as int),
        decreases ancestors.len() - j,
    {
        next.push(ancestors[j]);
        assert(ancestors@.take(j + 1) =~= ancestors@.take(j as int).push(ancestors@[j as int]));
        j += 1;
    }
    next.push(!is_last);
    assert(ancestors@.take(ancestors.len() as int) =~= ancestors@);
    next
}

#[verifier::rlimit(30)]
fn append_child_rows(
    data: &ScreenData,
    list: &Vec<usize>,
    upto: usize,
    parent_is_top: bool,
    depth: usize,
    ancestors: &Vec<bool>,
    order: ProjectSortOrder,
    scope: &ProjectCountScope,
    fuel: usize,
    rows: &mut Vec<(usize, usize, Vec<char>)>,
)
    requires
        projects_acyclic(data.projects@),
        upto <= list.len(),
        depth + fuel < usize::MAX,
        ancestors.len() + fuel < usize::MAX,
        forall|k: int| 0 <= k < list@.len() ==> #[trigger] list@[k] < data.projects.len(),
        forall|k: int| 0 <= k < old(rows)@.len() ==> #[trigger] old(rows)@[k].0 < data.projects.len(),
    ensures
        forall|k: int| 0 <= k < final(rows)@.len() ==> #[trigger] final(rows)@[k].0 < data.projects.len(),
        rows_view(final(rows)@) == rows_view(old(rows)@) + child_rows(
            *data,
            list@,
            upto as int,
            parent_is_top,
            depth as nat,
            ancestors@,
            order,
            *scope,
            fuel as nat,
        ),
    decreases fuel, 1nat, upto,
{
    if upto == 0 {
        assert(rows_view(rows@) =~= rows_view(rows@) + Seq::<TreeRow>::empty());
        return;
    }
    let ghost start = rows_view(rows@);
    append_child_rows(data, list, upto - 1, parent_is_top, depth, ancestors, order, scope, fuel, rows);
    let ghost earlier = child_rows(
        *data,
        list@,
        upto - 1,
        parent_is_top,
        depth as nat,
        ancestors@,
        order,
        *scope,
        fuel as nat,
    );
    let k = upto - 1;
    let is_last = k + 1 == list.len();
    let pos = list[k];
    let prefix = prefix_of(depth, ancestors, is_last);
    let ghost row: TreeRow = (pos, depth, prefix@);
    let ghost before = rows@;
    rows.push((pos, depth, prefix));
    assert(rows_view(rows@) =~= rows_view(before).push(row));
    let next_ancestors = next_ancestors_of(ancestors, parent_is_top, is_last);
    let ghost mid = rows_view(rows@);
    append_subtree_rows(data, pos, depth + 1, &next_ancestors, order, scope, fuel, rows);
    let ghost below = subtree_rows(
        *data,
        pos,
        (depth + 1) as nat,
        next_ancestors@,
        order,
        *scope,
        fuel as nat,
    );
    assert(mid == start + earlier + seq![row]);
    assert(rows_view(rows@) == mid + below);
    assert(child_rows(
        *data,
        list@,
        upto as int,
        parent_is_top,
        depth as nat,
        ancestors@,
        order,
        *scope,
        fuel as nat,
    ) == earlier + seq![row] + below);
    assert(rows_view(rows@) =~= start + (earlier + seq![row] + below));
}

fn append_subtree_rows(
    data: &ScreenData,
    pos: usize,
    depth: usize,
    ancestors: &Vec<bool>,
    order: ProjectSortOrder,
    scope: &ProjectCountScope,
    fuel: usize,
    rows: &mut Vec<(usize, usize, Vec<char>)>,
)
    requires
        projects_acyclic(data.projects@),
        depth + fuel <= usize::MAX,
        ancestors.len() + fuel <= usize::MAX,
        forall|k: int| 0 <= k < old(rows)@.len() ==> #[trigger] old(rows)@[k].0 < data.projects.len(),
    ensures
        forall|k: int| 0 <= k < final(rows)@.len() ==> #[trigger] final(rows)@[k].0 < data.projects.len(),
        rows_view(final(rows)@) == rows_view(old(rows)@) + subtree_rows(
            *data,
            pos,
            depth as nat,
            ancestors@,
            order,
            *scope,
            fuel as nat,
        ),
    decreases fuel, 0nat, 0int,
{
    if fuel == 0 || pos >= data.projects.len() {
        assert(rows_view(rows@) =~= rows_view(rows@) + Seq::<TreeRow>::empty());
        return;
    }
    let kids = project_children(data, Some(data.projects[pos].id), order, scope);
    append_child_rows(data, &kids, kids.len(), false, depth, ancestors, order, scope, fuel - 1, rows);
}

/// An entry of the panel: a project's position, or none for the row of all
/// projects, with its depth and marks.
pub type PanelEntry = (Option<usize>, usize, Seq<char>);

/// The name a panel entry shows.
pub open spec fn entry_name(data: ScreenData, e: PanelEntry) -> Seq<char> {
    match e.0 {
        Some(p) => data.projects@[p as int].name@,
        None => "All Projects"@,
    }
}

/// The entries whose names `query` fuzzily matches, in order; all of them
/// for an empty query.
pub open spec fn entries_matching(data: ScreenData, entries: Seq<PanelEntry>, query: Seq<char>) -> Seq<PanelEntry>
    decreases entries.len(),
{
    if query.len() == 0 || entries.len() == 0 {
        entries
    } else {
        let rest = entries_matching(data, entries.drop_last(), query);
        if fuzzy_match_spec(query, entry_name(data, entries.last())) {
            rest.push(entries.last())
        } else {
            rest
        }
    }
}

/// The panel's entries: the row of all projects, then the tree.
pub open spec fn panel_entries(
    data: ScreenData,
    order: ProjectSortOrder,
    scope: ProjectCountScope,
    query: Seq<char>,
) -> Seq<PanelEntry> {
    let tree = tree_rows_spec(data, order, scope);
    let all = seq![(None::<usize>, 0usize, Seq::<char>::empty())] + Seq::new(
        tree.len(),
        |k: int| (Some(tree[k].0), tree[k].1, tree[k].2),
    );
    entries_matching(data, all, query)
}

/// What a row of the panel shows for an entry.
pub open spec fn row_shows(
    data: ScreenData,
    scope: ProjectCountScope,
    selected: Option<ProjectId>,
    e: PanelEntry,
    row: ProjectTreeRowView,
) -> bool {
    let id = match e.0 {
        Some(p) => Some(data.projects@[p as int].id),
        None => None,
    };
    &&& row.project_id == id
    &&& row.name@ == entry_name(data, e)
    &&& row.depth == e.1
    &&& row.tree_prefix@ == e.2
    &&& row.is_favorite == (e.0 matches Some(p) && data.projects@[p as int].is_favorite)
    &&& row.color == match e.0 {
        Some(p) => Some(data.projects@[p as int].color),
        None => None,
    }
    &&& row.task_count == count_of(data, id, scope)
    &&& row.is_selected == (selected == id)
}

/// The rows of the project panel: the row of all projects, then the tree;
/// with a search, only the rows whose names the search fuzzily matches.
pub fn project_tree_rows(
    data: &ScreenData,
    order: ProjectSortOrder,
    scope: &ProjectCountScope,
    selected: Option<ProjectId>,
    query: &str,
) -> (r: Vec<ProjectTreeRowView>)
    requires
        projects_acyclic(data.projects@),
        data.projects.len() < usize::MAX,
    ensures
        r@.len() == panel_entries(*data, order, *scope, query@).len(),
        forall|k: int|
            0 <= k < r@.len() ==> row_shows(
                *data,
                *scope,
                selected,
                panel_entries(*data, order, *scope, query@)[k],
                #[trigger] r@[k],
            ),
{
    let top = project_children(data, None, order, scope);
    let mut tree: Vec<(usize, usize, Vec<char>)> = Vec::new();
    let no_ancestors: Vec<bool> = Vec::new();
    append_child_rows(
        data,
        &top,
        top.len(),
        true,
        0,
        &no_ancestors,
        order,
        scope,
        data.projects.len(),
        &mut tree,
    );
    assert(rows_view(tree@) =~= tree_rows_spec(*data, order, *scope));
    let ghost tv = rows_view(tree@);
    let ghost all = seq![(None::<usize>, 0usize, Seq::<char>::empty())] + Seq::new(
        tv.len(),
        |k: int| (Some(tv[k].0), tv[k].1, tv[k].2),
    );
    let query_chars = chars_of(query);
    let mut r: Vec<ProjectTreeRowView> = Vec::new();
    let ghost mut kept: Seq<PanelEntry> = Seq::empty();
    // The row of all projects.
    let all_name = "All Projects";
    if query_chars.len() == 0 || fuzzy_matches(query, all_name) {
        let count = tasks_for_project_filter(data, None, scope.view, scope.today, scope.hide_completed);
        r.push(
            ProjectTreeRowView {
                project_id: None,
                name: string_of(all_name),
                depth: 0,
                tree_prefix: String::new(),
                is_favorite: false,
                color: None,
                task_count: count,
                is_selected: selected.is_none(),
            },
        );
        proof {
            kept = kept.push(all[0]);
        }
    }
    assert(all.take(1).drop_last() =~= all.take(0));
    assert(all.take(0) =~= Seq::<PanelEntry>::empty());
    assert(all.take(1) =~= seq![all[0]]);
    assert(all.take(1).last() == all[0]);
    assert(entry_name(*data, all[0]) == all_name@);
    assert(entries_matching(*data, all.take(0), query@) =~= Seq::<PanelEntry>::empty());
    assert(kept == entries_matching(*data, all.take(1), query@));
    let mut k: usize = 0;
    while k < tree.len()
        invariant
            k <= tree.len(),
            tv == rows_view(tree@),
            query_chars@ == query@,
            all == seq![(None::<usize>, 0usize, Seq::<char>::empty())] + Seq::new(
                tv.len(),
                |k: int| (Some(tv[k].0), tv[k].1, tv[k].2),
            ),
            forall|t: int| 0 <= t < tree@.len() ==> #[trigger] tree@[t].0 < data.projects.len(),
            kept == entries_matching(*data, all.take(k + 1), query@),
            r@.len() == kept.len(),
            forall|t: int| 0 <= t < r@.len() ==> row_shows(*data, *scope, selected, kept[t], #[trigger] r@[t]),
            projects_acyclic(data.projects@),
        decreases tree.len() - k,
    {
        let (pos, depth, ref prefix) = tree[k];
        let ghost entry = all[k + 1];
        proof {
            assert(all.take(k + 2).drop_last() =~= all.take(k + 1));
            assert(all.take(k + 2).last() == entry);
            assert(entry == (Some(pos), depth, prefix@));
        }
        let project = &data.projects[pos];
        if query_chars.len() == 0 || fuzzy_matches(query, project.name.as_str()) {
            let count = tasks_for_project_filter(
                data,
                Some(project.id),
                scope.view,
                scope.today,
                scope.hide_completed,
            );
            r.push(
                ProjectTreeRowView {
                    project_id: Some(project.id),
                    name: string_of(project.name.as_str()),
                    depth,
                    tree_prefix: string_from(prefix.as_slice()),
                    is_favorite: project.is_favorite,
                    color: Some(project.color),
                    task_count: count,
                    is_selected: selected == Some(project.id),
                },
            );
            proof {
                kept = kept.push(entry);
            }
        }
        k += 1;
    }
    assert(all.take(tree.len() + 1) =~= all);
    r
}

/// Whether there is a project besides the inbox that is not deleted.
pub fn has_user_projects(data: &ScreenData) -> (r: bool)
    ensures
        r == exists|i: int|
            0 <= i < data.projects@.len() && (#[trigger] data.projects@[i]).deleted_at is None
                && !data.projects@[i].is_inbox,
{
    let mut i: usize = 0;
    while i < data.projects.len()
        invariant
            i <= data.projects.len(),
            forall|j: int|
                0 <= j < i ==> !((#[trigger] data.projects@[j]).deleted_at is None
                    && !data.projects@[j].is_inbox),
        decreases data.projects.len() - i,
    {
        if data.projects[i].deleted_at.is_none() && !data.projects[i].is_inbox {
            return true;
        }
        i += 1;
    }
    false
}

/// The positions, in increasing order, of the first `n` projects that are
/// favorites, not deleted and not the inbox.
pub open spec fn favorite_project_positions(data: ScreenData, n: int) -> Seq<usize>
    decreases n,
{
    if n <= 0 {
        Seq::empty()
    } else {
        let rest = favorite_project_positions(data, n - 1);
        let p = data.projects@[n - 1];
        if p.deleted_at is None && !p.is_inbox && p.is_favorite {
            rest.push((n - 1) as usize)
        } else {
            rest
        }
    }
}

/// The favorite projects in the order of the project sort order.
pub open spec fn favorite_projects_spec(data: ScreenData, order: ProjectSortOrder, scope: ProjectCountScope) -> Seq<usize> {
    let favs = favorite_project_positions(data, data.projects@.len() as int);
    pick(favs, stable_order_spec(project_keys_at(data, order, scope, favs), favs.len()))
}

proof fn lemma_favorite_positions_bounded(data: ScreenData, n: int)
    requires
        0 <= n <= data.projects@.len(),
    ensures
        forall|i: int|
            0 <= i < favorite_project_positions(data, n).len() ==> #[trigger] favorite_project_positions(
                data,
                n,
            )[i] < n,
    decreases n,
{
    if n > 0 {
        lemma_favorite_positions_bounded(data, n - 1);
        let rest = favorite_project_positions(data, n - 1);
        let all = favorite_project_positions(data, n);
        assert forall|i: int| 0 <= i < all.len() implies #[trigger] all[i] < n by {
            if i < rest.len() {
                assert(all[i] == rest[i]);
            }
        }
    }
}

/// The favorite projects, in the order of the project sort order.
pub fn favorite_projects(data: &ScreenData, order: ProjectSortOrder, scope: &ProjectCountScope) -> (r: Vec<usize>)
    requires
        projects_acyclic(data.projects@),
    ensures
        r@ == favorite_projects_spec(*data, order, *scope),
        forall|k: int| 0 <= k < r@.len() ==> #[trigger] r@[k] < data.projects.len(),
{
    let mut favs: Vec<usize> = Vec::new();
    let mut keys: Vec<Vec<i128>> = Vec::new();
    let mut i: usize = 0;
    while i < data.projects.len()
        invariant
            i <= data.projects.len(),
            projects_acyclic(data.projects@),
            favs@ == favorite_project_positions(*data, i as int),
            keys@.len() == favs@.len(),
            keys_view(keys@) == project_keys_at(*data, order, *scope, favs@),
        decreases data.projects.len() - i,
    {
        let project = &data.projects[i];
        if project.deleted_at.is_none() && !project.is_inbox && project.is_favorite {
            let count = tasks_for_project_filter(
                data,
                Some(project.id),
                scope.view,
                scope.today,
                scope.hide_completed,
            );
            let key = project_sort_key_of(order, project, count);
            let ghost new_key = key_view(key@);
            let ghost before_keys = keys@;
            let ghost before_favs = favs@;
            favs.push(i);
            keys.push(key);
            proof {
                let kn = keys_view(keys@);
                let sk = project_keys_at(*data, order, *scope, favs@);
                assert(kn.len() == keys@.len() && sk.len() == favs@.len());
                assert forall|k: int| 0 <= k < kn.len() implies #[trigger] kn[k] == sk[k] by {
                    assert(kn[k] == key_view(keys@[k]@));
                    if k < before_keys.len() {
                        assert(keys@[k] == before_keys[k]);
                        assert(favs@[k] == before_favs[k]);
                        assert(keys_view(before_keys)[k] == key_view(before_keys[k]@));
                    } else {
                        assert(key_view(keys@[k]@) == new_key);
                        assert(favs@[k] == i);
                    }
                }
                assert(kn =~= sk);
            }
        }
        i += 1;
    }
    proof {
        lemma_favorite_positions_bounded(*data, data.projects@.len() as int);
    }
    let r = arrange(&favs, &keys);
    proof {
        let positions = stable_order_spec(keys_view(keys@), keys.len() as nat);
        assert forall|k: int| 0 <= k < r@.len() implies #[trigger] r@[k] < data.projects.len() by {
            assert(r@[k] == favs@[positions[k] as int]);
        }
    }
    r
}

} // verus!
