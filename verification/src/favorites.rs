//! Marking the selected project, tag or saved filter as a favorite, or
//! taking the mark off, and moving it within a hand-kept order: what to ask
//! of the store.
use vstd::prelude::*;

use crate::app::{FavoriteItemKind, ScreenData};
use crate::config::{FilterSortOrder, ProjectSortOrder, TagSortOrder};
use crate::domain::{FilterId, FilterUpdate, ProjectId, ProjectUpdate, TagId, TagUpdate};
use crate::listing::{filter_by_id, filter_with_id, project_by_id, project_with_id, tag_by_id, tag_with_id};
use crate::text::string_of;

verus! {

/// The change that marks or unmarks a favorite, for each kind of item.
#[derive(Debug, Clone, PartialEq, Eq)]
pub enum FavoriteToggle {
    Project(ProjectId, ProjectUpdate),
    Tag(TagId, TagUpdate),
    Filter(FilterId, FilterUpdate),
}

/// Whether a project change keeps the project's name, parent and colour
/// and turns its favorite mark over.
pub open spec fn project_mark_flipped(u: ProjectUpdate, p: crate::domain::Project) -> bool {
    &&& u.name@ == p.name@
    &&& u.parent_project_id == p.parent_project_id
    &&& u.color == p.color
    &&& u.is_favorite == !p.is_favorite
}

/// Whether a tag change keeps the tag's name and colour and turns its
/// favorite mark over.
pub open spec fn tag_mark_flipped(u: TagUpdate, t: crate::domain::Tag) -> bool {
    &&& u.name@ == t.name@
    &&& u.color == t.color
    &&& u.is_favorite == !t.is_favorite
}

/// Whether a saved filter change keeps its name, query and colour and
/// turns its favorite mark over.
pub open spec fn filter_mark_flipped(u: FilterUpdate, f: crate::domain::Filter) -> bool {
    &&& u.name@ == f.name@
    &&& u.query@ == f.query@
    &&& u.color == f.color
    &&& u.is_favorite == !f.is_favorite
}

fn flip_project(data: &ScreenData, id: ProjectId) -> (r: Option<ProjectUpdate>)
    ensures
        match project_with_id(data.projects@, id) {
            None => r is None,
            Some(p) => if p.is_inbox {
                r is None
            } else {
                r matches Some(u) && project_mark_flipped(u, p)
            },
        },
{
    let p = project_by_id(data.projects.as_slice(), id)?;
    if p.is_inbox {
        return None;
    }
    Some(
        ProjectUpdate {
            name: string_of(p.name.as_str()),
            parent_project_id: p.parent_project_id,
            color: p.color,
            is_favorite: !p.is_favorite,
        },
    )
}

fn flip_tag(data: &ScreenData, id: TagId) -> (r: Option<TagUpdate>)
    ensures
        match tag_with_id(data.tags@, id) {
            None => r is None,
            Some(t) => r matches Some(u) && tag_mark_flipped(u, t),
        },
{
    let t = tag_by_id(data.tags.as_slice(), id)?;
    Some(TagUpdate { name: string_of(t.name.as_str()), color: t.color, is_favorite: !t.is_favorite })
}

fn flip_filter(data: &ScreenData, id: FilterId) -> (r: Option<FilterUpdate>)
    ensures
        match filter_with_id(data.filters@, id) {
            None => r is None,
            Some(f) => r matches Some(u) && filter_mark_flipped(u, f),
        },
{
    let f = filter_by_id(data.filters.as_slice(), id)?;
    Some(
        FilterUpdate {
            name: string_of(f.name.as_str()),
            query: string_of(f.query.as_str()),
            color: f.color,
            is_favorite: !f.is_favorite,
        },
    )
}

/// The change that turns over the favorite mark of the selected project:
/// none where nothing is selected, it is not found, or it is the inbox.
pub fn toggle_selected_project_favorite(data: &ScreenData, selected: Option<ProjectId>) -> (r: Option<(ProjectId, ProjectUpdate)>)
    ensures
        match selected {
            None => r is None,
            Some(id) => match project_with_id(data.projects@, id) {
                None => r is None,
                Some(p) => if p.is_inbox {
                    r is None
                } else {
                    r matches Some((rid, u)) && rid == id && project_mark_flipped(u, p)
                },
            },
        },
{
    let id = selected?;
    let u = flip_project(data, id)?;
    Some((id, u))
}

/// The change that turns over the favorite mark of the selected tag: none
/// where nothing is selected or it is not found.
pub fn toggle_selected_tag_favorite(data: &ScreenData, selected: Option<TagId>) -> (r: Option<(TagId, TagUpdate)>)
    ensures
        match selected {
            None => r is None,
            Some(id) => match tag_with_id(data.tags@, id) {
                None => r is None,
                Some(t) => r matches Some((rid, u)) && rid == id && tag_mark_flipped(u, t),
            },
        },
{
    let id = selected?;
    let u = flip_tag(data, id)?;
    Some((id, u))
}

/// The change that turns over the favorite mark of the selected saved
/// filter: none where nothing is selected or it is not found.
pub fn toggle_selected_filter_favorite(data: &ScreenData, selected: Option<FilterId>) -> (r: Option<(FilterId, FilterUpdate)>)
    ensures
        match selected {
            None => r is None,
            Some(id) => match filter_with_id(data.filters@, id) {
                None => r is None,
                Some(f) => r matches Some((rid, u)) && rid == id && filter_mark_flipped(u, f),
            },
        },
{
    let id = selected?;
    let u = flip_filter(data, id)?;
    Some((id, u))
}

/// The change that turns over the favorite mark of the item selected in the
/// favorites panel: as for the selected project, tag or saved filter.
pub fn toggle_selected_favorite_item(data: &ScreenData, selected: Option<FavoriteItemKind>) -> (r: Option<FavoriteToggle>)
    ensures
        match selected {
            None => r is None,
            Some(FavoriteItemKind::Project(id)) => match project_with_id(data.projects@, id) {
                None => r is None,
                Some(p) => if p.is_inbox {
                    r is None
                } else {
                    r matches Some(FavoriteToggle::Project(rid, u)) && rid == id && project_mark_flipped(u, p)
                },
            },
            Some(FavoriteItemKind::Tag(id)) => match tag_with_id(data.tags@, id) {
                None => r is None,
                Some(t) => r matches Some(FavoriteToggle::Tag(rid, u)) && rid == id && tag_mark_flipped(u, t),
            },
            Some(FavoriteItemKind::Filter(id)) => match filter_with_id(data.filters@, id) {
                None => r is None,
                Some(f) => r matches Some(FavoriteToggle::Filter(rid, u)) && rid == id && filter_mark_flipped(u, f),
            },
        },
{
    match selected? {
        FavoriteItemKind::Project(id) => Some(FavoriteToggle::Project(id, flip_project(data, id)?)),
        FavoriteItemKind::Tag(id) => Some(FavoriteToggle::Tag(id, flip_tag(data, id)?)),
        FavoriteItemKind::Filter(id) => Some(FavoriteToggle::Filter(id, flip_filter(data, id)?)),
    }
}

/// The project to move within its parent: the selected one, and only
/// while projects are kept in hand order.
pub fn reorder_selected_project(order: ProjectSortOrder, selected: Option<ProjectId>) -> (r: Option<ProjectId>)
    ensures
        r == (if order == ProjectSortOrder::Manual {
            selected
        } else {
            None
        }),
{
    if order != ProjectSortOrder::Manual {
        return None;
    }
    selected
}

/// The tag to move within the list: the selected one, and only while tags
/// are kept in hand order.
pub fn reorder_selected_tag(order: TagSortOrder, selected: Option<TagId>) -> (r: Option<TagId>)
    ensures
        r == (if order == TagSortOrder::Manual {
            selected
        } else {
            None
        }),
{
    if order != TagSortOrder::Manual {
        return None;
    }
    selected
}

/// The saved filter to move within the list: the selected one, and only
/// while saved filters are kept in hand order.
pub fn reorder_selected_filter(order: FilterSortOrder, selected: Option<FilterId>) -> (r: Option<FilterId>)
    ensures
        r == (if order == FilterSortOrder::Manual {
            selected
        } else {
            None
        }),
{
    if order != FilterSortOrder::Manual {
        return None;
    }
    selected
}

} // verus!
