# desktop

The decision logic of a tiling desktop shell, verified with Verus: projects hold a matrix of
launchers, launchers hold application instances, instances hold views. Everything here is a
function of plain values with a contract; rendering, windowing, animation and talking to running
instances are left to the caller.

## Layout

- `ordered_hierarchy`, `focus_path`, `topology`: the ordered tree of desktop targets, the paths
  from its root to a focus, and queries on it (the launcher, project or instance a target belongs
  to).
- `id_map`, `matrix_positions`: the registries of projects and launchers, and the launcher slots
  of each project's matrix.
- `navigation`, `matrix_navigation`, `hierarchy_focus`: where directional navigation leads, and
  where the focus goes when a target goes away.
- `event_router`, `focus_manager`, `focus_tree`, `desktop_input`: pointer and keyboard focus, and
  the exit / enter transitions of a focus change.
- `change`, `planning`, `configuration`, `keyboard_shortcuts`, `setup`: commands and requests, and
  the changes they are planned into.
- `apply`, `desktop_state`, `change_surface`: applying changes to the state, what each change
  leaves to be measured again, and running a list of changes to completion.
- `effects`, `layout`, `event_sourcing`, `projects`, `project_configuration`, `ids`,
  `desktop_system`: the effect scheduler, track arithmetic of the layout, transactions, and the
  data types the rest works on.

Laws that span several functions are public proof functions named `law_*`.
