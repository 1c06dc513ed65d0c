# welding

Browser surfaces for hosts that render with a GPU pipeline of their own. Chromium
paints off screen and hands its frames out as GPU resources; a host imports them
as textures and draws them where it likes.

- `src/` is the library: everything about a surface that is a decision rather than
  a call. What a frame may be imported as, what the browser is asked to do, what
  its reports come to, what is kept until the host polls it. Every function states
  what it returns or changes, and Verus proves it.
- `app/` is a Linux host around it: the window, the device, the browser's
  callbacks, and what is floating point. With the `cef-runtime` cfg it links a
  browser; without it every runtime call says that it is missing.
- `tests/` runs the library on concrete values.

Three crates are trusted where the library calls them, each behind a declaration
that says what is believed of it: `std` for appending to a string and for reading
bytes that need not be text, `serde_json` for one member of a JSON object, and
`base64` for the bytes of a capture.
