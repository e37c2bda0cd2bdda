# halloween

A party invitation page drawn with WebGL, split in two:

- `src/` — the verified library (Verus): mobile detection of the user agent
  (`agent`, on top of the compiled regular expressions of `matcher`), the page state and its texts (`page`), and what the renderer sets
  up and draws every frame (`scene`), with the laws that tie them together.
- `app/` — the Yew program around it: reads the browser window, renders the
  page, and turns the library's plans into WebGL calls.
- `tests/` — tests of the library on concrete values.
