# vapourfly-gui

The state logic of the Vapourfly desktop app, written in Verus: every
function in `src/` carries a contract that Verus proves.

- `src/jobs.rs` — background job tickets, result slots that keep the newest
  result and hand back only the expected one, wake flags and the polling loop.
- `src/library.rs`, `src/browse.rs`, `src/insights.rs`, `src/cards.rs` — the
  Library screen: filters, stable sorting, paging, insights and card texts.
- `src/playlist.rs`, `src/editor.rs`, `src/rules.rs` — App ID fields, the
  playlist editor and the visual rule builder.
- `src/app_state.rs`, `src/frame.rs` — the app's starting state, the demo
  install, and what a frame does with finished scan, write, cache refresh
  and prepare results.
- `src/records.rs` — collections, recommendations, Discover picks, accounts
  and backups, with their demo data.
- `src/writes.rs`, `src/junk.rs` — dry runs, confirmation and the write that
  a confirmation carries out; the Junk panel's selection.
- `src/generators.rs`, `src/discover.rs`, `src/requests.rs` — job input
  descriptions, generator slots and the request forms.
- `src/theme.rs`, `src/prefs.rs`, `src/navigation.rs`, `src/sources.rs`,
  `src/settings.rs`, `src/captions.rs`, `src/text.rs`, `src/demo.rs` — themes,
  preference files, screens and labels, data sources, settings, captions,
  text rules and the demo library.

`app/` is the ordinary Rust around the library: the entry point, preference
file I/O, worker-thread wake-ups and the floating-point renderings.
