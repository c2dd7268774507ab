# ytbm-tui

A terminal YouTube Music client. The decisions it makes - the play queue,
what every key and click does, how replies from the service change the
screen, cookie handling for logging in, column layout of the lists - live
in a library whose behaviour is stated in contracts and proved with Verus.

Layout:

- `src/` - the verified library (crate `ytbm_tui`):
  - `queue.rs` - the play queue, repeat modes, shuffling, radio top-ups;
  - `controller.rs`, `controller/keys.rs` - the state machine of the
    interface: keys, clicks, wheel, player notes and service replies in,
    new state and requests out;
  - `app_state.rs` - pages, key bindings, list navigation;
  - `login.rs`, `cookies.rs`, `cookies/` - cookie headers from
    `cookies.txt` text and from browser cookie databases (Chromium's
    AES-GCM values included);
  - `convert.rs`, `models.rs` - the service's items as the shared models;
  - `ui.rs`, `text.rs` - display-column truncation and padding, text helpers;
  - `config.rs`, `history.rs`, `sponsorblock.rs` - settings, local history,
    segment labels.
- `tests/` - tests of the library.
- `app/` - the program around it: terminal drawing, the mpv player process,
  network requests, files, and the event loop that feeds the controller.
