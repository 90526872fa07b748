# triginta

The core of a terminal focus timer and task manager, written in Verus: every
decision the program makes about its timer, its tasks, projects, tags and
filters, its query language, its popups and editors, and the keys it reads is
an executable function with a contract that Verus proves.

## Layout

- `src/` — the verified library.
  - `domain`, `text`, `calendar`: the data (tasks, projects, tags, filters,
    sessions, days) and the text and calendar arithmetic they need; the few
    calls into `chrono` and `std` that are not proved stand behind
    `external_body` wrappers whose contracts are documented where they stand.
  - `filters`: the filter query language (tokens, grammar, evaluation) and
    the laws of what an accepted query holds.
  - `listing`, `sorting`, `task_order`, `project_tree`, `side_lists`,
    `selection`, `favorites`, `completion`, `history`: what the panels list
    and in which order, and how selections and stored orders move.
  - `config`: configuration values, their validation and the paths they are
    read from.
  - `app`: the timer state machine and the small types of the screen.
  - `title_tokens`, `references`, `text_input`, `text_area`, `task_input`,
    `task_editor`, `project_editor`, `editors`, `panel_search`,
    `sort_popups`, `previews`, `due_fields`: the popups and editors and what
    their keys do.
  - `overlays`: which open popup takes a key and what it leaves to be done.
  - `shell`: the keys of the main screen (help, panels, tabs, timer, quit).
  - `shortcuts`: the help and footer texts.
- `tests/` — tests of the library on concrete values.
- `app/` — the parts that touch the outside world: configuration files,
  directories, the log file, the wall clock, and the chaining of the key
  handlers.
