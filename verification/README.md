# youtube_tui — the channel page

The channel page of a terminal YouTube/Invidious client, as a verified
library. A channel page is blank while loading, then shows the channel's main
page (the channel and the commands that can be run on it), its videos, or its
playlists. The library decides what every key, click and framework message
does to the page, keeps long lists paginated through continuation pages that
are fetched ahead of time, and says what the application is to do in return
(tasks, messages, environment entries, downloads, fetches).

Layout of `src/`:

- `item.rs` — items shown in lists, and the pages of videos and playlists.
- `prefetch.rs` — the shared store of continuation pages being fetched or
  waiting, with the laws that make a fetch start once and its result be
  handed out once, to the page it was fetched for.
- `listcursor.rs` — the text list's cursor and scroll, moved through the
  `tui-additions` text list widget.
- `layout.rs` — rectangles and the grid layout, split through the
  `tui-additions` grid widget and `ratatui`'s `Rect`.
- `effects.rs` — what the page asks of the application.
- `config.rs` — settings, key actions and message types.
- `envs.rs` — replacing `${key}` placeholders in commands by environment
  entries.
- `listpage.rs`, `mainpage.rs` — the list pages and the main page.
- `display.rs` — the channel page as a whole: loading, drawing layout,
  keys, messages, clicks and pagination.

`app/` holds the framework item that draws the page with `ratatui`, turns
`crossterm` keys and framework messages into the library's inputs, and runs
the fetch threads.
