# puprs

Browser automation over the Chrome DevTools Protocol, with its logic
verified by Verus.

- `src/` is the verified library: what each protocol event does to the
  frame tree, the network tracker, the target registry and a navigation's
  lifecycle wait; the scripts a page and its elements run and what their
  results mean; the launcher's command line; locators' step order and
  retries; query-handler resolution; keyboard, mouse and touch state; the
  plugins' decisions. `src/laws.rs` states the properties that span
  several operations.
- `app/` is the part that talks to the browser: the WebSocket transport,
  the browser process, the tasks that follow events, pages, locators and
  the asynchronous plugin hooks. It performs what the library decides.
- `tests/` runs the library on concrete values.
