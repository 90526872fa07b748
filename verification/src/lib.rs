use vstd::prelude::*;

pub mod text;
pub mod domain;
pub mod filters;
pub mod listing;
pub mod sorting;
pub mod task_order;
pub mod title_tokens;
pub mod text_input;
pub mod project_tree;
pub mod side_lists;
pub mod panel_search;
pub mod selection;
pub mod config;
pub mod app;
pub mod references;
pub mod text_area;
pub mod history;
pub mod task_input;
pub mod project_editor;
pub mod editors;
pub mod completion;
pub mod sort_popups;
pub mod shortcuts;
pub mod previews;
pub mod calendar;
pub mod favorites;
pub mod overlays;
pub mod shell;
pub mod due_fields;
pub mod task_editor;

verus! {
} // verus!
