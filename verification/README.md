# gen_ui

The component logic of a widget library, written in Verus: each component's
states and parts, the decisions it takes on a hit (what state it shows, what it
reports, which animator track it plays), the groups that keep one member active,
the tree that keeps a list of active leaves, and the bookkeeping of a container's
children (live-update order, draw order, search cache). Every public function
states its result in its contract; laws that span several calls stand as public
proof functions beside the code they are about.

Layout:

- `src/widget.rs`: hits, animator tracks and the effects a component asks of its host.
- `src/state.rs`, `src/animation.rs`: state traits and what an animator is written with.
- One module per component (`radio`, `switch`, `svg`, `slider`, `tag`, `select`,
  `tabbar`, `branch`, `leaf`, `rate`, `progress`, `verification`, `router`, `view`, `popup`).
- `src/group.rs`: radio groups and tab bars; `src/tree.rs`: the tree and its actives.
- `src/children.rs`: children order, live updates and draw plans; `src/text.rs`: value names.
- `tests/`: tests on concrete values; `app/`: the host side (toolkit hits, animator
  ids, displayable errors, floating-point geometry).
