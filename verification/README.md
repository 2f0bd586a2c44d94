# korunix_interfaz

The logic of Korunix's control center, verified with Verus.

The window itself (GTK 4 and libadwaita) only shows what the `korunix`
engine reports and asks the engine to act. The decisions in between live in
the library under `src/` and are proved against their contracts: how an
engine reply in JSON becomes rows, summaries and questions; which engine
command each button sends; the navigation and its search; the texts of every
interface language and its catalogue; recovery versions, cleanups and
backups; sound devices and cameras; update plans and default applications.
The readings that need floating point (volumes, memory sizes and camera
frame rates) stay in `app/`.

Layout:

- `src/`: the verified library. `json` holds the library's view of an
  engine reply; it reads a reply's text through `serde_json` and hands a
  value back to `serde_json` when it is shown as JSON text. One module per
  page or concern; `textos` holds the translated texts; `cadena` the string
  helpers and the few trusted statements about `std` that the proofs rest on.
- `tests/`: tests that run the library on concrete replies.
- `app/`: the GTK program around the library: it starts the engine, reads
  the catalogue files, builds the window, and hands the library plain values.
