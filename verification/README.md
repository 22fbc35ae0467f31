# zutil

zutil keeps texts, prompts, templates, terminal commands and projects in a
SQLite database and opens them from a circle menu drawn over the screen.

`src/` is the library, verified with Verus:

- `migration/`: the schema of every version, the steps between versions, and
  the proof that every chain of steps ends in the current schema;
- `helpers/`: what each database request reads or writes (queries, new rows,
  edits, deletions), how rows are read back, the import plan, the export, the
  error log (newest first, stable) and the click counters;
- `init.rs`: what opening the database does to its schema;
- `globals.rs`, `menu.rs`, `overlays.rs`: the stack of circles, the entries of
  each circle, shortcuts, and which overlay a click or a right click reaches;
- `components/`, `ui_screens/`: the state of each screen and what each click
  does to it, which page comes next (`ui_screens/pages.rs`) and what an action
  of the projects screen takes;
- `error_stuff.rs`: the error that disables the app.

`app/` is the window (eframe) and the database connection; it makes the
calls that the library plans and draws what the library decides.
