# gxi

The logic of a GTK front end for the xi editor, verified with Verus.

- `src/` is the library: routing of the core's messages (`controller`), the
  JSON model of those messages (`json`), the main window's themes, styles and
  table of views (`main_win`, `styles`), the state of a view, its tab title,
  gutter labels and search status (`edit_view`), key and mouse bindings
  (`keys`), the property store of the scrolling drawing area
  (`scrollable_drawing_area`) and the core's directories (`startup`).
- `app/` is the GTK program around it: widgets, drawing, dialogs, the
  clipboard and the connection to the core.
- `tests/` runs the library on concrete values.
