//! The tag, saved filter and favorites panels: each lists its items that
//! are not deleted in the order of its sort order, with how many tasks of
//! the current view each one counts, narrowed by a fuzzy search on names.
use vstd::prelude::*;

use crate::app::{
    fuzzy_match_spec, fuzzy_matches, FavoriteItemColor, FavoriteItemKind, FavoriteListRowView,
    FilterListRowView, ScreenData, TagListRowView, TaskView,
};
use crate::config::{FilterSortOrder, TagSortOrder};
use crate::domain::{Filter, FilterId, Tag, TagId};
use crate::listing::{filter_count, tag_count, tasks_for_filter, tasks_for_tag_filter};
use crate::config::ProjectSortOrder;
use crate::listing::{projects_acyclic, tasks_for_project_filter};
use crate::project_tree::{count_of, favorite_projects, favorite_projects_spec, ProjectCountScope};
use crate::sorting::{key_view, keys_view, pick, stable_order_spec};
use crate::task_order::{arrange, lemma_title_keys_follow_names, push_int, push_title, text_before, title_key};
use crate::sorting::key_lt;
use crate::text::lowercase;
use crate::text::{chars_of, string_of};

verus! {

/// The key of a tag in the tag panel. Names compare lower-cased first and
/// then as written; the manual order is the tag's place; ties go to the
/// earlier place and then to the smaller identifier.
pub open spec fn tag_sort_key(order: TagSortOrder, t: Tag, count: nat) -> Seq<int> {
    let place = seq![t.item_order as int];
    let id = seq![t.id.0 as int];
    match order {
        TagSortOrder::Manual => place + title_key(t.name@, false) + id,
        TagSortOrder::NameAsc => title_key(t.name@, false) + place + id,
        TagSortOrder::NameDesc => title_key(t.name@, true) + place + id,
        TagSortOrder::TaskCountAsc => seq![count as int] + title_key(t.name@, false) + place + id,
        TagSortOrder::TaskCountDesc => seq![-(count as int)] + title_key(t.name@, false) + place + id,
    }
}

/// The key of a saved filter in the filter panel, ordered as tags are.
pub open spec fn filter_sort_key(order: FilterSortOrder, f: Filter, count: nat) -> Seq<int> {
    let place = seq![f.item_order as int];
    let id = seq![f.id.0 as int];
    match order {
        FilterSortOrder::Manual => place + title_key(f.name@, false) + id,
        FilterSortOrder::NameAsc => title_key(f.name@, false) + place + id,
        FilterSortOrder::NameDesc => title_key(f.name@, true) + place + id,
        FilterSortOrder::TaskCountAsc => seq![count as int] + title_key(f.name@, false) + place + id,
        FilterSortOrder::TaskCountDesc => seq![-(count as int)] + title_key(f.name@, false) + place
            + id,
    }
}

/// Sorting tags by name: the one whose lower-cased name comes first
/// goes first in ascending order and last in descending order. Sorting by
/// task count: the one with more tasks goes first in descending order and
/// last in ascending order.
pub proof fn tag_orders_follow_names_and_counts(a: Tag, b: Tag, ca: nat, cb: nat)
    ensures
        text_before(lowercase(a.name@), lowercase(b.name@)) ==> key_lt(
            tag_sort_key(TagSortOrder::NameAsc, a, ca),
            tag_sort_key(TagSortOrder::NameAsc, b, cb),
        ) && key_lt(tag_sort_key(TagSortOrder::NameDesc, b, cb), tag_sort_key(TagSortOrder::NameDesc, a, ca)),
        ca > cb ==> key_lt(tag_sort_key(TagSortOrder::TaskCountDesc, a, ca), tag_sort_key(TagSortOrder::TaskCountDesc, b, cb))
            && key_lt(tag_sort_key(TagSortOrder::TaskCountAsc, b, cb), tag_sort_key(TagSortOrder::TaskCountAsc, a, ca)),
{
    let ra = seq![a.item_order as int] + seq![a.id.0 as int];
    let rb = seq![b.item_order as int] + seq![b.id.0 as int];
    assert(tag_sort_key(TagSortOrder::NameAsc, a, ca) =~= title_key(a.name@, false) + ra);
    assert(tag_sort_key(TagSortOrder::NameAsc, b, cb) =~= title_key(b.name@, false) + rb);
    assert(tag_sort_key(TagSortOrder::NameDesc, a, ca) =~= title_key(a.name@, true) + ra);
    assert(tag_sort_key(TagSortOrder::NameDesc, b, cb) =~= title_key(b.name@, true) + rb);
    if text_before(lowercase(a.name@), lowercase(b.name@)) {
        lemma_title_keys_follow_names(a.name@, b.name@, ra, rb);
    }
    assert(tag_sort_key(TagSortOrder::TaskCountDesc, a, ca)[0] == -(ca as int));
    assert(tag_sort_key(TagSortOrder::TaskCountDesc, b, cb)[0] == -(cb as int));
    assert(tag_sort_key(TagSortOrder::TaskCountAsc, a, ca)[0] == ca as int);
    assert(tag_sort_key(TagSortOrder::TaskCountAsc, b, cb)[0] == cb as int);
}

/// Sorting saved filters by name: the one whose lower-cased name comes first
/// goes first in ascending order and last in descending order. Sorting by
/// task count: the one with more tasks goes first in descending order and
/// last in ascending order.
pub proof fn filter_orders_follow_names_and_counts(a: Filter, b: Filter, ca: nat, cb: nat)
    ensures
        text_before(lowercase(a.name@), lowercase(b.name@)) ==> key_lt(
            filter_sort_key(FilterSortOrder::NameAsc, a, ca),
            filter_sort_key(FilterSortOrder::NameAsc, b, cb),
        ) && key_lt(filter_sort_key(FilterSortOrder::NameDesc, b, cb), filter_sort_key(FilterSortOrder::NameDesc, a, ca)),
        ca > cb ==> key_lt(filter_sort_key(FilterSortOrder::TaskCountDesc, a, ca), filter_sort_key(FilterSortOrder::TaskCountDesc, b, cb))
            && key_lt(filter_sort_key(FilterSortOrder::TaskCountAsc, b, cb), filter_sort_key(FilterSortOrder::TaskCountAsc, a, ca)),
{
    let ra = seq![a.item_order as int] + seq![a.id.0 as int];
    let rb = seq![b.item_order as int] + seq![b.id.0 as int];
    assert(filter_sort_key(FilterSortOrder::NameAsc, a, ca) =~= title_key(a.name@, false) + ra);
    assert(filter_sort_key(FilterSortOrder::NameAsc, b, cb) =~= title_key(b.name@, false) + rb);
    assert(filter_sort_key(FilterSortOrder::NameDesc, a, ca) =~= title_key(a.name@, true) + ra);
    assert(filter_sort_key(FilterSortOrder::NameDesc, b, cb) =~= title_key(b.name@, true) + rb);
    if text_before(lowercase(a.name@), lowercase(b.name@)) {
        lemma_title_keys_follow_names(a.name@, b.name@, ra, rb);
    }
    assert(filter_sort_key(FilterSortOrder::TaskCountDesc, a, ca)[0] == -(ca as int));
    assert(filter_sort_key(FilterSortOrder::TaskCountDesc, b, cb)[0] == -(cb as int));
    assert(filter_sort_key(FilterSortOrder::TaskCountAsc, a, ca)[0] == ca as int);
    assert(filter_sort_key(FilterSortOrder::TaskCountAsc, b, cb)[0] == cb as int);
}

/// In the manual order the tag placed earlier comes first.
pub proof fn tag_manual_order_follows_places(a: Tag, b: Tag, ca: nat, cb: nat)
    requires
        a.item_order < b.item_order,
    ensures
        key_lt(tag_sort_key(TagSortOrder::Manual, a, ca), tag_sort_key(TagSortOrder::Manual, b, cb)),
{
    assert(tag_sort_key(TagSortOrder::Manual, a, ca)[0] == a.item_order as int);
    assert(tag_sort_key(TagSortOrder::Manual, b, cb)[0] == b.item_order as int);
}

/// In the manual order the filter placed earlier comes first.
pub proof fn filter_manual_order_follows_places(a: Filter, b: Filter, ca: nat, cb: nat)
    requires
        a.item_order < b.item_order,
    ensures
        key_lt(filter_sort_key(FilterSortOrder::Manual, a, ca), filter_sort_key(FilterSortOrder::Manual, b, cb)),
{
    assert(filter_sort_key(FilterSortOrder::Manual, a, ca)[0] == a.item_order as int);
    assert(filter_sort_key(FilterSortOrder::Manual, b, cb)[0] == b.item_order as int);
}

/// How many tasks the panel shows beside a tag.
pub open spec fn tag_count_of(data: ScreenData, id: Option<TagId>, scope: ProjectCountScope) -> nat {
    tag_count(data, id, scope.view, scope.today, scope.hide_completed)
}

/// How many tasks the panel shows beside a saved filter.
pub open spec fn filter_count_of(data: ScreenData, id: Option<FilterId>, scope: ProjectCountScope) -> nat {
    filter_count(data, id, scope.view, scope.today, scope.hide_completed)
}

/// The positions, in increasing order, of the first `n` tags that are not
/// deleted, and, where `favorites_only`, are favorites.
pub open spec fn listed_tags(data: ScreenData, favorites_only: bool, n: int) -> Seq<usize>
    decreases n,
{
    if n <= 0 {
        Seq::empty()
    } else {
        let rest = listed_tags(data, favorites_only, n - 1);
        let t = data.tags@[n - 1];
        if t.deleted_at is None && (!favorites_only || t.is_favorite) {
            rest.push((n - 1) as usize)
        } else {
            rest
        }
    }
}

/// The positions, in increasing order, of the first `n` saved filters that
/// are not deleted, and, where `favorites_only`, are favorites.
pub open spec fn listed_filters(data: ScreenData, favorites_only: bool, n: int) -> Seq<usize>
    decreases n,
{
    if n <= 0 {
        Seq::empty()
    } else {
        let rest = listed_filters(data, favorites_only, n - 1);
        let f = data.filters@[n - 1];
        if f.deleted_at is None && (!favorites_only || f.is_favorite) {
            rest.push((n - 1) as usize)
        } else {
            rest
        }
    }
}

/// The listed tags in the order of the tag sort order.
pub open spec fn tags_in_order(
    data: ScreenData,
    order: TagSortOrder,
    scope: ProjectCountScope,
    favorites_only: bool,
) -> Seq<usize> {
    let listed = listed_tags(data, favorites_only, data.tags@.len() as int);
    pick(
        listed,
        stable_order_spec(
            Seq::new(
                listed.len(),
                |k: int|
                    tag_sort_key(
                        order,
                        data.tags@[listed[k] as int],
                        tag_count_of(data, Some(data.tags@[listed[k] as int].id), scope),
                    ),
            ),
            listed.len(),
        ),
    )
}

/// The listed saved filters in the order of the filter sort order.
pub open spec fn filters_in_order(
    data: ScreenData,
    order: FilterSortOrder,
    scope: ProjectCountScope,
    favorites_only: bool,
) -> Seq<usize> {
    let listed = listed_filters(data, favorites_only, data.filters@.len() as int);
    pick(
        listed,
        stable_order_spec(
            Seq::new(
                listed.len(),
                |k: int|
                    filter_sort_key(
                        order,
                        data.filters@[listed[k] as int],
                        filter_count_of(data, Some(data.filters@[listed[k] as int].id), scope),
                    ),
            ),
            listed.len(),
        ),
    )
}

proof fn lemma_listed_tags_bounded(data: ScreenData, favorites_only: bool, n: int)
    requires
        0 <= n <= data.tags@.len(),
    ensures
        forall|i: int|
            0 <= i < listed_tags(data, favorites_only, n).len() ==> #[trigger] listed_tags(
                data,
                favorites_only,
                n,
            )[i] < n,
    decreases n,
{
    if n > 0 {
        lemma_listed_tags_bounded(data, favorites_only, n - 1);
        let rest = listed_tags(data, favorites_only, n - 1);
        let all = listed_tags(data, favorites_only, n);
        assert forall|i: int| 0 <= i < all.len() implies #[trigger] all[i] < n by {
            if i < rest.len() {
                assert(all[i] == rest[i]);
            }
        }
    }
}

proof fn lemma_listed_filters_bounded(data: ScreenData, favorites_only: bool, n: int)
    requires
        0 <= n <= data.filters@.len(),
    ensures
        forall|i: int|
            0 <= i < listed_filters(data, favorites_only, n).len() ==> #[trigger] listed_filters(
                data,
                favorites_only,
                n,
            )[i] < n,
    decreases n,
{
    if n > 0 {
        lemma_listed_filters_bounded(data, favorites_only, n - 1);
        let rest = listed_filters(data, favorites_only, n - 1);
        let all = listed_filters(data, favorites_only, n);
        assert forall|i: int| 0 <= i < all.len() implies #[trigger] all[i] < n by {
            if i < rest.len() {
                assert(all[i] == rest[i]);
            }
        }
    }
}

pub(crate) fn name_item_key(
    place: i64,
    name: &str,
    id: i64,
    count: usize,
    manual: bool,
    by_name_desc: bool,
    by_count: bool,
    count_desc: bool,
) -> (r: Vec<i128>)
    ensures
        key_view(r@) == if manual {
            seq![place as int] + title_key(name@, false) + seq![id as int]
        } else if by_count {
            seq![if count_desc { -(count as int) } else { count as int }] + title_key(name@, false)
                + seq![place as int] + seq![id as int]
        } else {
            title_key(name@, by_name_desc) + seq![place as int] + seq![id as int]
        },
{
    let mut key: Vec<i128> = Vec::new();
    assert(key_view(key@) =~= Seq::<int>::empty());
    if manual {
        push_int(&mut key, place as i128);
        push_title(&mut key, name, false);
        push_int(&mut key, id as i128);
    } else if by_count {
        let c = count as i128;
        push_int(&mut key, if count_desc { -c } else { c });
        push_title(&mut key, name, false);
        push_int(&mut key, place as i128);
        push_int(&mut key, id as i128);
    } else {
        push_title(&mut key, name, by_name_desc);
        push_int(&mut key, place as i128);
        push_int(&mut key, id as i128);
    }
    let ghost expected = if manual {
        seq![place as int] + title_key(name@, false) + seq![id as int]
    } else if by_count {
        seq![if count_desc { -(count as int) } else { count as int }] + title_key(name@, false)
            + seq![place as int] + seq![id as int]
    } else {
        title_key(name@, by_name_desc) + seq![place as int] + seq![id as int]
    };
    assert(key_view(key@) =~= expected);
    key
}

/// The tags that are not deleted (only the favorites where asked), in the
/// order of the tag sort order.
pub fn sorted_tags(
    data: &ScreenData,
    order: TagSortOrder,
    scope: &ProjectCountScope,
    favorites_only: bool,
) -> (r: Vec<usize>)
    ensures
        r@ == tags_in_order(*data, order, *scope, favorites_only),
        forall|k: int| 0 <= k < r@.len() ==> #[trigger] r@[k] < data.tags.len(),
{
    let ghost tags = data.tags@;
    let mut listed: Vec<usize> = Vec::new();
    let mut keys: Vec<Vec<i128>> = Vec::new();
    let mut i: usize = 0;
    while i < data.tags.len()
        invariant
            i <= data.tags.len(),
            tags == data.tags@,
            listed@ == listed_tags(*data, favorites_only, i as int),
            keys@.len() == listed@.len(),
            keys_view(keys@) == Seq::new(
                listed@.len(),
                |k: int|
                    tag_sort_key(
                        order,
                        tags[listed@[k] as int],
                        tag_count_of(*data, Some(tags[listed@[k] as int].id), *scope),
                    ),
            ),
        decreases data.tags.len() - i,
    {
        let tag = &data.tags[i];
        if tag.deleted_at.is_none() && (!favorites_only || tag.is_favorite) {
            let count = tasks_for_tag_filter(
                data,
                Some(tag.id),
                scope.view,
                scope.today,
                scope.hide_completed,
            );
            let key = name_item_key(
                tag.item_order,
                tag.name.as_str(),
                tag.id.0,
                count,
                order == TagSortOrder::Manual,
                order == TagSortOrder::NameDesc,
                order == TagSortOrder::TaskCountAsc || order == TagSortOrder::TaskCountDesc,
                order == TagSortOrder::TaskCountDesc,
            );
            assert(key_view(key@) =~= tag_sort_key(order, *tag, count as nat));
            let ghost new_key = key_view(key@);
            let ghost before_keys = keys@;
            let ghost before_listed = listed@;
            listed.push(i);
            keys.push(key);
            proof {
                let kn = keys_view(keys@);
                let sk = Seq::new(
                    listed@.len(),
                    |k: int|
                        tag_sort_key(
                            order,
                            tags[listed@[k] as int],
                            tag_count_of(*data, Some(tags[listed@[k] as int].id), *scope),
                        ),
                );
                assert(kn.len() == keys@.len() && sk.len() == listed@.len());
                assert forall|k: int| 0 <= k < kn.len() implies #[trigger] kn[k] == sk[k] by {
                    assert(kn[k] == key_view(keys@[k]@));
                    if k < before_keys.len() {
                        assert(keys@[k] == before_keys[k]);
                        assert(listed@[k] == before_listed[k]);
                        assert(keys_view(before_keys)[k] == key_view(before_keys[k]@));
                    } else {
                        assert(key_view(keys@[k]@) == new_key);
                        assert(listed@[k] == i);
                    }
                }
                assert(kn =~= sk);
            }
        }
        i += 1;
    }
    proof {
        lemma_listed_tags_bounded(*data, favorites_only, data.tags@.len() as int);
    }
    let r = arrange(&listed, &keys);
    proof {
        let positions = stable_order_spec(keys_view(keys@), keys.len() as nat);
        assert forall|k: int| 0 <= k < r@.len() implies #[trigger] r@[k] < data.tags.len() by {
            assert(r@[k] == listed@[positions[k] as int]);
        }
    }
    r
}

/// The saved filters that are not deleted (only the favorites where asked),
/// in the order of the filter sort order.
pub fn sorted_filters(
    data: &ScreenData,
    order: FilterSortOrder,
    scope: &ProjectCountScope,
    favorites_only: bool,
) -> (r: Vec<usize>)
    ensures
        r@ == filters_in_order(*data, order, *scope, favorites_only),
        forall|k: int| 0 <= k < r@.len() ==> #[trigger] r@[k] < data.filters.len(),
{
    let ghost filters = data.filters@;
    let mut listed: Vec<usize> = Vec::new();
    let mut keys: Vec<Vec<i128>> = Vec::new();
    let mut i: usize = 0;
    while i < data.filters.len()
        invariant
            i <= data.filters.len(),
            filters == data.filters@,
            listed@ == listed_filters(*data, favorites_only, i as int),
            keys@.len() == listed@.len(),
            keys_view(keys@) == Seq::new(
                listed@.len(),
                |k: int|
                    filter_sort_key(
                        order,
                        filters[listed@[k] as int],
                        filter_count_of(*data, Some(filters[listed@[k] as int].id), *scope),
                    ),
            ),
        decreases data.filters.len() - i,
    {
        let filter = &data.filters[i];
        if filter.deleted_at.is_none() && (!favorites_only || filter.is_favorite) {
            let count = tasks_for_filter(
                data,
                Some(filter.id),
                scope.view,
                scope.today,
                scope.hide_completed,
            );
            let key = name_item_key(
                filter.item_order,
                filter.name.as_str(),
                filter.id.0,
                count,
                order == FilterSortOrder::Manual,
                order == FilterSortOrder::NameDesc,
                order == FilterSortOrder::TaskCountAsc || order == FilterSortOrder::TaskCountDesc,
                order == FilterSortOrder::TaskCountDesc,
            );
            assert(key_view(key@) =~= filter_sort_key(order, *filter, count as nat));
            let ghost new_key = key_view(key@);
            let ghost before_keys = keys@;
            let ghost before_listed = listed@;
            listed.push(i);
            keys.push(key);
            proof {
                let kn = keys_view(keys@);
                let sk = Seq::new(
                    listed@.len(),
                    |k: int|
                        filter_sort_key(
                            order,
                            filters[listed@[k] as int],
                            filter_count_of(*data, Some(filters[listed@[k] as int].id), *scope),
                        ),
                );
                assert(kn.len() == keys@.len() && sk.len() == listed@.len());
                assert forall|k: int| 0 <= k < kn.len() implies #[trigger] kn[k] == sk[k] by {
                    assert(kn[k] == key_view(keys@[k]@));
                    if k < before_keys.len() {
                        assert(keys@[k] == before_keys[k]);
                        assert(listed@[k] == before_listed[k]);
                        assert(keys_view(before_keys)[k] == key_view(before_keys[k]@));
                    } else {
                        assert(key_view(keys@[k]@) == new_key);
                        assert(listed@[k] == i);
                    }
                }
                assert(kn =~= sk);
            }
        }
        i += 1;
    }
    proof {
        lemma_listed_filters_bounded(*data, favorites_only, data.filters@.len() as int);
    }
    let r = arrange(&listed, &keys);
    proof {
        let positions = stable_order_spec(keys_view(keys@), keys.len() as nat);
        assert forall|k: int| 0 <= k < r@.len() implies #[trigger] r@[k] < data.filters.len() by {
            assert(r@[k] == listed@[positions[k] as int]);
        }
    }
    r
}

/// The name a row of the tag panel shows: the tag's, or `All Tags` for the
/// row of all tags.
pub open spec fn tag_entry_name(data: ScreenData, e: Option<usize>) -> Seq<char> {
    match e {
        Some(p) => data.tags@[p as int].name@,
        None => "All Tags"@,
    }
}

/// The name a row of the filter panel shows.
pub open spec fn filter_entry_name(data: ScreenData, e: Option<usize>) -> Seq<char> {
    match e {
        Some(p) => data.filters@[p as int].name@,
        None => "All Filters"@,
    }
}

/// The entries of the tag panel whose names `query` fuzzily matches; all of
/// them for an empty query.
pub open spec fn tag_entries_matching(data: ScreenData, entries: Seq<Option<usize>>, query: Seq<char>) -> Seq<Option<usize>>
    decreases entries.len(),
{
    if query.len() == 0 || entries.len() == 0 {
        entries
    } else {
        let rest = tag_entries_matching(data, entries.drop_last(), query);
        if fuzzy_match_spec(query, tag_entry_name(data, entries.last())) {
            rest.push(entries.last())
        } else {
            rest
        }
    }
}

/// The entries of the filter panel whose names `query` fuzzily matches.
pub open spec fn filter_entries_matching(data: ScreenData, entries: Seq<Option<usize>>, query: Seq<char>) -> Seq<Option<usize>>
    decreases entries.len(),
{
    if query.len() == 0 || entries.len() == 0 {
        entries
    } else {
        let rest = filter_entries_matching(data, entries.drop_last(), query);
        if fuzzy_match_spec(query, filter_entry_name(data, entries.last())) {
            rest.push(entries.last())
        } else {
            rest
        }
    }
}

/// The row of all items, then the items in order.
pub open spec fn with_all_row(items: Seq<usize>) -> Seq<Option<usize>> {
    seq![None::<usize>] + Seq::new(items.len(), |k: int| Some(items[k]))
}

/// The entries of the tag panel.
pub open spec fn tag_panel_entries(data: ScreenData, order: TagSortOrder, scope: ProjectCountScope, query: Seq<char>) -> Seq<Option<usize>> {
    tag_entries_matching(data, with_all_row(tags_in_order(data, order, scope, false)), query)
}

/// The entries of the filter panel.
pub open spec fn filter_panel_entries(data: ScreenData, order: FilterSortOrder, scope: ProjectCountScope, query: Seq<char>) -> Seq<Option<usize>> {
    filter_entries_matching(data, with_all_row(filters_in_order(data, order, scope, false)), query)
}

/// What a row of the tag panel shows for an entry.
pub open spec fn tag_row_shows(data: ScreenData, scope: ProjectCountScope, selected: Option<TagId>, e: Option<usize>, row: TagListRowView) -> bool {
    let id = match e {
        Some(p) => Some(data.tags@[p as int].id),
        None => None,
    };
    &&& row.tag_id == id
    &&& row.name@ == tag_entry_name(data, e)
    &&& row.is_favorite == (e matches Some(p) && data.tags@[p as int].is_favorite)
    &&& row.color == match e {
        Some(p) => Some(data.tags@[p as int].color),
        None => None,
    }
    &&& row.task_count == tag_count_of(data, id, scope)
    &&& row.is_selected == (selected == id)
}

/// What a row of the filter panel shows for an entry.
pub open spec fn filter_row_shows(data: ScreenData, scope: ProjectCountScope, selected: Option<FilterId>, e: Option<usize>, row: FilterListRowView) -> bool {
    let id = match e {
        Some(p) => Some(data.filters@[p as int].id),
        None => None,
    };
    &&& row.filter_id == id
    &&& row.name@ == filter_entry_name(data, e)
    &&& match e {
        Some(p) => row.query matches Some(q) && q@ == data.filters@[p as int].query@,
        None => row.query is None,
    }
    &&& row.is_favorite == (e matches Some(p) && data.filters@[p as int].is_favorite)
    &&& row.color == match e {
        Some(p) => Some(data.filters@[p as int].color),
        None => None,
    }
    &&& row.task_count == filter_count_of(data, id, scope)
    &&& row.is_selected == (selected == id)
}

/// The rows of the tag panel: the row of all tags, then the tags that are
/// not deleted in order; with a search, only the rows whose names match.
pub fn tags_rows(
    data: &ScreenData,
    order: TagSortOrder,
    scope: &ProjectCountScope,
    selected: Option<TagId>,
    query: &str,
) -> (r: Vec<TagListRowView>)
    ensures
        r@.len() == tag_panel_entries(*data, order, *scope, query@).len(),
        forall|k: int|
            0 <= k < r@.len() ==> tag_row_shows(
                *data,
                *scope,
                selected,
                tag_panel_entries(*data, order, *scope, query@)[k],
                #[trigger] r@[k],
            ),
{
    let sorted = sorted_tags(data, order, scope, false);
    let ghost all = with_all_row(sorted@);
    let query_chars = chars_of(query);
    let mut r: Vec<TagListRowView> = Vec::new();
    let ghost mut kept: Seq<Option<usize>> = Seq::empty();
    let all_name = "All Tags";
    if query_chars.len() == 0 || fuzzy_matches(query, all_name) {
        let count = tasks_for_tag_filter(data, None, scope.view, scope.today, scope.hide_completed);
        r.push(
            TagListRowView {
                tag_id: None,
                name: string_of(all_name),
                is_favorite: false,
                color: None,
                task_count: count,
                is_selected: selected.is_none(),
            },
        );
        proof {
            kept = kept.push(all[0]);
        }
    }
    assert(all.take(1).drop_last() =~= all.take(0));
    assert(all.take(0) =~= Seq::<Option<usize>>::empty());
    assert(all.take(1) =~= seq![all[0]]);
    assert(tag_entry_name(*data, all[0]) == all_name@);
    assert(tag_entries_matching(*data, all.take(0), query@) =~= Seq::<Option<usize>>::empty());
    assert(kept == tag_entries_matching(*data, all.take(1), query@));
    let mut k: usize = 0;
    while k < sorted.len()
        invariant
            k <= sorted.len(),
            query_chars@ == query@,
            all == with_all_row(sorted@),
            forall|t: int| 0 <= t < sorted@.len() ==> #[trigger] sorted@[t] < data.tags.len(),
            kept == tag_entries_matching(*data, all.take(k + 1), query@),
            r@.len() == kept.len(),
            forall|t: int| 0 <= t < r@.len() ==> tag_row_shows(*data, *scope, selected, kept[t], #[trigger] r@[t]),
        decreases sorted.len() - k,
    {
        let pos = sorted[k];
        let ghost entry = all[k + 1];
        proof {
            assert(all.take(k + 2).drop_last() =~= all.take(k + 1));
            assert(all.take(k + 2).last() == entry);
            assert(entry == Some(pos));
        }
        let tag = &data.tags[pos];
        if query_chars.len() == 0 || fuzzy_matches(query, tag.name.as_str()) {
            let count = tasks_for_tag_filter(
                data,
                Some(tag.id),
                scope.view,
                scope.today,
                scope.hide_completed,
            );
            r.push(
                TagListRowView {
                    tag_id: Some(tag.id),
                    name: string_of(tag.name.as_str()),
                    is_favorite: tag.is_favorite,
                    color: Some(tag.color),
                    task_count: count,
                    is_selected: selected == Some(tag.id),
                },
            );
            proof {
                kept = kept.push(entry);
            }
        }
        k += 1;
    }
    assert(all.take(sorted.len() + 1) =~= all);
    r
}

/// The rows of the saved filter panel: the row of all filters, then the
/// filters that are not deleted in order; with a search, only the rows
/// whose names match.
pub fn filters_rows(
    data: &ScreenData,
    order: FilterSortOrder,
    scope: &ProjectCountScope,
    selected: Option<FilterId>,
    query: &str,
) -> (r: Vec<FilterListRowView>)
    ensures
        r@.len() == filter_panel_entries(*data, order, *scope, query@).len(),
        forall|k: int|
            0 <= k < r@.len() ==> filter_row_shows(
                *data,
                *scope,
                selected,
                filter_panel_entries(*data, order, *scope, query@)[k],
                #[trigger] r@[k],
            ),
{
    let sorted = sorted_filters(data, order, scope, false);
    let ghost all = with_all_row(sorted@);
    let query_chars = chars_of(query);
    let mut r: Vec<FilterListRowView> = Vec::new();
    let ghost mut kept: Seq<Option<usize>> = Seq::empty();
    let all_name = "All Filters";
    if query_chars.len() == 0 || fuzzy_matches(query, all_name) {
        let count = tasks_for_filter(data, None, scope.view, scope.today, scope.hide_completed);
        r.push(
            FilterListRowView {
                filter_id: None,
                name: string_of(all_name),
                query: None,
                is_favorite: false,
                color: None,
                task_count: count,
                is_selected: selected.is_none(),
            },
        );
        proof {
            kept = kept.push(all[0]);
        }
    }
    assert(all.take(1).drop_last() =~= all.take(0));
    assert(all.take(0) =~= Seq::<Option<usize>>::empty());
    assert(all.take(1) =~= seq![all[0]]);
    assert(filter_entry_name(*data, all[0]) == all_name@);
    assert(filter_entries_matching(*data, all.take(0), query@) =~= Seq::<Option<usize>>::empty());
    assert(kept == filter_entries_matching(*data, all.take(1), query@));
    let mut k: usize = 0;
    while k < sorted.len()
        invariant
            k <= sorted.len(),
            query_chars@ == query@,
            all == with_all_row(sorted@),
            forall|t: int| 0 <= t < sorted@.len() ==> #[trigger] sorted@[t] < data.filters.len(),
            kept == filter_entries_matching(*data, all.take(k + 1), query@),
            r@.len() == kept.len(),
            forall|t: int| 0 <= t < r@.len() ==> filter_row_shows(*data, *scope, selected, kept[t], #[trigger] r@[t]),
        decreases sorted.len() - k,
    {
        let pos = sorted[k];
        let ghost entry = all[k + 1];
        proof {
            assert(all.take(k + 2).drop_last() =~= all.take(k + 1));
            assert(all.take(k + 2).last() == entry);
            assert(entry == Some(pos));
        }
        let filter = &data.filters[pos];
        if query_chars.len() == 0 || fuzzy_matches(query, filter.name.as_str()) {
            let count = tasks_for_filter(
                data,
                Some(filter.id),
                scope.view,
                scope.today,
                scope.hide_completed,
            );
            r.push(
                FilterListRowView {
                    filter_id: Some(filter.id),
                    name: string_of(filter.name.as_str()),
                    query: Some(string_of(filter.query.as_str())),
                    is_favorite: filter.is_favorite,
                    color: Some(filter.color),
                    task_count: count,
                    is_selected: selected == Some(filter.id),
                },
            );
            proof {
                kept = kept.push(entry);
            }
        }
        k += 1;
    }
    assert(all.take(sorted.len() + 1) =~= all);
    r
}

/// Whether there is a tag that is not deleted.
pub fn has_user_tags(data: &ScreenData) -> (r: bool)
    ensures
        r == exists|i: int| 0 <= i < data.tags@.len() && (#[trigger] data.tags@[i]).deleted_at is None,
{
    let mut i: usize = 0;
    while i < data.tags.len()
        invariant
            i <= data.tags.len(),
            forall|j: int| 0 <= j < i ==> !((#[trigger] data.tags@[j]).deleted_at is None),
        decreases data.tags.len() - i,
    {
        if data.tags[i].deleted_at.is_none() {
            return true;
        }
        i += 1;
    }
    false
}

/// Whether there is a saved filter that is not deleted.
pub fn has_user_filters(data: &ScreenData) -> (r: bool)
    ensures
        r == exists|i: int|
            0 <= i < data.filters@.len() && (#[trigger] data.filters@[i]).deleted_at is None,
{
    let mut i: usize = 0;
    while i < data.filters.len()
        invariant
            i <= data.filters.len(),
            forall|j: int| 0 <= j < i ==> !((#[trigger] data.filters@[j]).deleted_at is None),
        decreases data.filters.len() - i,
    {
        if data.filters[i].deleted_at.is_none() {
            return true;
        }
        i += 1;
    }
    false
}

/// One item of the favorites panel, by its position among the projects,
/// tags or saved filters.
pub enum FavoriteSlot {
    Project(usize),
    Tag(usize),
    Filter(usize),
}

/// The name a favorite shows.
pub open spec fn favorite_name(data: ScreenData, e: FavoriteSlot) -> Seq<char> {
    match e {
        FavoriteSlot::Project(p) => data.projects@[p as int].name@,
        FavoriteSlot::Tag(p) => data.tags@[p as int].name@,
        FavoriteSlot::Filter(p) => data.filters@[p as int].name@,
    }
}

/// The favorites whose names `query` fuzzily matches; all for an empty
/// query.
pub open spec fn favorites_matching(data: ScreenData, entries: Seq<FavoriteSlot>, query: Seq<char>) -> Seq<FavoriteSlot>
    decreases entries.len(),
{
    if query.len() == 0 || entries.len() == 0 {
        entries
    } else {
        let rest = favorites_matching(data, entries.drop_last(), query);
        if fuzzy_match_spec(query, favorite_name(data, entries.last())) {
            rest.push(entries.last())
        } else {
            rest
        }
    }
}

/// The favorites panel: the favorite projects, then tags, then saved
/// filters, each group in the order of its own sort order, narrowed by the
/// search.
pub open spec fn favorite_entries(
    data: ScreenData,
    project_order: ProjectSortOrder,
    tag_order: TagSortOrder,
    filter_order: FilterSortOrder,
    scope: ProjectCountScope,
    query: Seq<char>,
) -> Seq<FavoriteSlot> {
    let ps = favorite_projects_spec(data, project_order, scope);
    let ts = tags_in_order(data, tag_order, scope, true);
    let fs = filters_in_order(data, filter_order, scope, true);
    favorites_matching(
        data,
        Seq::new(ps.len(), |k: int| FavoriteSlot::Project(ps[k])) + Seq::new(
            ts.len(),
            |k: int| FavoriteSlot::Tag(ts[k]),
        ) + Seq::new(fs.len(), |k: int| FavoriteSlot::Filter(fs[k])),
        query,
    )
}

/// What a row of the favorites panel shows for a favorite.
pub open spec fn favorite_row_shows(
    data: ScreenData,
    scope: ProjectCountScope,
    selected: Option<FavoriteItemKind>,
    e: FavoriteSlot,
    row: FavoriteListRowView,
) -> bool {
    let item = match e {
        FavoriteSlot::Project(p) => FavoriteItemKind::Project(data.projects@[p as int].id),
        FavoriteSlot::Tag(p) => FavoriteItemKind::Tag(data.tags@[p as int].id),
        FavoriteSlot::Filter(p) => FavoriteItemKind::Filter(data.filters@[p as int].id),
    };
    &&& row.item == item
    &&& row.name@ == favorite_name(data, e)
    &&& row.color == match e {
        FavoriteSlot::Project(p) => FavoriteItemColor::Project(data.projects@[p as int].color),
        FavoriteSlot::Tag(p) => FavoriteItemColor::Tag(data.tags@[p as int].color),
        FavoriteSlot::Filter(p) => FavoriteItemColor::Filter(data.filters@[p as int].color),
    }
    &&& row.task_count == match e {
        FavoriteSlot::Project(p) => count_of(data, Some(data.projects@[p as int].id), scope),
        FavoriteSlot::Tag(p) => tag_count_of(data, Some(data.tags@[p as int].id), scope),
        FavoriteSlot::Filter(p) => filter_count_of(data, Some(data.filters@[p as int].id), scope),
    }
    &&& row.is_selected == (selected == Some(item))
}

/// The rows of the favorites panel.
pub fn favorite_rows(
    data: &ScreenData,
    project_order: ProjectSortOrder,
    tag_order: TagSortOrder,
    filter_order: FilterSortOrder,
    scope: &ProjectCountScope,
    selected: Option<FavoriteItemKind>,
    query: &str,
) -> (r: Vec<FavoriteListRowView>)
    requires
        projects_acyclic(data.projects@),
    ensures
        r@.len() == favorite_entries(*data, project_order, tag_order, filter_order, *scope, query@).len(),
        forall|k: int|
            0 <= k < r@.len() ==> favorite_row_shows(
                *data,
                *scope,
                selected,
                favorite_entries(*data, project_order, tag_order, filter_order, *scope, query@)[k],
                #[trigger] r@[k],
            ),
{
    let ps = favorite_projects(data, project_order, scope);
    let ts = sorted_tags(data, tag_order, scope, true);
    let fs = sorted_filters(data, filter_order, scope, true);
    let ghost all = Seq::new(ps@.len(), |k: int| FavoriteSlot::Project(ps@[k])) + Seq::new(
        ts@.len(),
        |k: int| FavoriteSlot::Tag(ts@[k]),
    ) + Seq::new(fs@.len(), |k: int| FavoriteSlot::Filter(fs@[k]));
    let query_chars = chars_of(query);
    let mut r: Vec<FavoriteListRowView> = Vec::new();
    let ghost mut kept: Seq<FavoriteSlot> = Seq::empty();
    let ghost np = ps@.len() as int;
    let ghost nt = ts@.len() as int;
    assert(all.take(0) =~= Seq::<FavoriteSlot>::empty());
    let mut k: usize = 0;
    while k < ps.len()
        invariant
            k <= ps.len(),
            np == ps@.len(),
            nt == ts@.len(),
            all.len() == np + nt + fs@.len(),
            all == Seq::new(ps@.len(), |k: int| FavoriteSlot::Project(ps@[k])) + Seq::new(
                ts@.len(),
                |k: int| FavoriteSlot::Tag(ts@[k]),
            ) + Seq::new(fs@.len(), |k: int| FavoriteSlot::Filter(fs@[k])),
            query_chars@ == query@,
            projects_acyclic(data.projects@),
            forall|t: int| 0 <= t < ps@.len() ==> #[trigger] ps@[t] < data.projects.len(),
            kept == favorites_matching(*data, all.take(k as int), query@),
            r@.len() == kept.len(),
            forall|t: int|
                0 <= t < r@.len() ==> favorite_row_shows(*data, *scope, selected, kept[t], #[trigger] r@[t]),
        decreases ps.len() - k,
    {
        let ghost entry = all[k as int];
        proof {
            assert(all.take(k + 1).drop_last() =~= all.take(k as int));
            assert(all.take(k + 1).last() == entry);
        }
        let project = &data.projects[ps[k]];
        assert(entry == FavoriteSlot::Project(ps@[k as int]));
        let count = tasks_for_project_filter(
            data,
            Some(project.id),
            scope.view,
            scope.today,
            scope.hide_completed,
        );
        let item = FavoriteItemKind::Project(project.id);
        let row = FavoriteListRowView {
            item,
            name: string_of(project.name.as_str()),
            color: FavoriteItemColor::Project(project.color),
            task_count: count,
            is_selected: selected == Some(item),
        };
        if query_chars.len() == 0 || fuzzy_matches(query, row.name.as_str()) {
            r.push(row);
            proof {
                kept = kept.push(entry);
            }
        }
        k += 1;
    }
    let mut k: usize = 0;
    while k < ts.len()
        invariant
            k <= ts.len(),
            np == ps@.len(),
            nt == ts@.len(),
            all.len() == np + nt + fs@.len(),
            all == Seq::new(ps@.len(), |k: int| FavoriteSlot::Project(ps@[k])) + Seq::new(
                ts@.len(),
                |k: int| FavoriteSlot::Tag(ts@[k]),
            ) + Seq::new(fs@.len(), |k: int| FavoriteSlot::Filter(fs@[k])),
            query_chars@ == query@,
            forall|t: int| 0 <= t < ts@.len() ==> #[trigger] ts@[t] < data.tags.len(),
            kept == favorites_matching(*data, all.take(np + k), query@),
            r@.len() == kept.len(),
            forall|t: int|
                0 <= t < r@.len() ==> favorite_row_shows(*data, *scope, selected, kept[t], #[trigger] r@[t]),
        decreases ts.len() - k,
    {
        let ghost entry = all[np + k];
        proof {
            assert(all.take(np + k + 1).drop_last() =~= all.take(np + k));
            assert(all.take(np + k + 1).last() == entry);
        }
        let tag = &data.tags[ts[k]];
        assert(entry == FavoriteSlot::Tag(ts@[k as int]));
        let count = tasks_for_tag_filter(data, Some(tag.id), scope.view, scope.today, scope.hide_completed);
        let item = FavoriteItemKind::Tag(tag.id);
        let row = FavoriteListRowView {
            item,
            name: string_of(tag.name.as_str()),
            color: FavoriteItemColor::Tag(tag.color),
            task_count: count,
            is_selected: selected == Some(item),
        };
        if query_chars.len() == 0 || fuzzy_matches(query, row.name.as_str()) {
            r.push(row);
            proof {
                kept = kept.push(entry);
            }
        }
        k += 1;
    }
    let mut k: usize = 0;
    while k < fs.len()
        invariant
            k <= fs.len(),
            np == ps@.len(),
            nt == ts@.len(),
            all.len() == np + nt + fs@.len(),
            all == Seq::new(ps@.len(), |k: int| FavoriteSlot::Project(ps@[k])) + Seq::new(
                ts@.len(),
                |k: int| FavoriteSlot::Tag(ts@[k]),
            ) + Seq::new(fs@.len(), |k: int| FavoriteSlot::Filter(fs@[k])),
            query_chars@ == query@,
            forall|t: int| 0 <= t < fs@.len() ==> #[trigger] fs@[t] < data.filters.len(),
            kept == favorites_matching(*data, all.take(np + nt + k), query@),
            r@.len() == kept.len(),
            forall|t: int|
                0 <= t < r@.len() ==> favorite_row_shows(*data, *scope, selected, kept[t], #[trigger] r@[t]),
        decreases fs.len() - k,
    {
        let ghost entry = all[np + nt + k];
        proof {
            assert(all.take(np + nt + k + 1).drop_last() =~= all.take(np + nt + k));
            assert(all.take(np + nt + k + 1).last() == entry);
        }
        let filter = &data.filters[fs[k]];
        assert(entry == FavoriteSlot::Filter(fs@[k as int]));
        let count = tasks_for_filter(data, Some(filter.id), scope.view, scope.today, scope.hide_completed);
        let item = FavoriteItemKind::Filter(filter.id);
        let row = FavoriteListRowView {
            item,
            name: string_of(filter.name.as_str()),
            color: FavoriteItemColor::Filter(filter.color),
            task_count: count,
            is_selected: selected == Some(item),
        };
        if query_chars.len() == 0 || fuzzy_matches(query, row.name.as_str()) {
            r.push(row);
            proof {
                kept = kept.push(entry);
            }
        }
        k += 1;
    }
    assert(all.take(np + nt + fs@.len()) =~= all);
    r
}

/// The task views the navigation panel lists: those whose names the search
/// fuzzily matches, in their own order.
pub open spec fn navigation_views_spec(query: Seq<char>) -> Seq<TaskView> {
    seq![TaskView::All, TaskView::Inbox, TaskView::Today, TaskView::Soon].filter(
        |v: TaskView| fuzzy_match_spec(query, crate::app::task_view_label(v)),
    )
}

/// The task views the navigation panel lists for a search.
pub fn navigation_task_views(query: &str) -> (r: Vec<TaskView>)
    ensures
        r@ == navigation_views_spec(query@),
{
    let views = TaskView::all();
    let ghost pred = |v: TaskView| fuzzy_match_spec(query@, crate::app::task_view_label(v));
    let mut r: Vec<TaskView> = Vec::new();
    let mut i: usize = 0;
    while i < views.len()
        invariant
            i <= views.len(),
            views@ == seq![TaskView::All, TaskView::Inbox, TaskView::Today, TaskView::Soon],
            pred == (|v: TaskView| fuzzy_match_spec(query@, crate::app::task_view_label(v))),
            r@ == views@.take(i as int).filter(pred),
        decreases views.len() - i,
    {
        proof {
            reveal(Seq::filter);
            assert(views@.take(i + 1).drop_last() =~= views@.take(i as int));
        }
        let view = views[i];
        if fuzzy_matches(query, view.label()) {
            r.push(view);
        }
        i += 1;
    }
    assert(views@.take(views.len() as int) =~= views@);
    r
}

} // verus!
