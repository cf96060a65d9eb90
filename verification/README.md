# whisper

Voice dictation for Linux/Wayland: press a key, speak, press it again, and the
text stands in the focused window. Speech is recognised locally.

- `src/` — the decisions of the program as a library verified with Verus: the
  session state machine, the cleanup of a transcription, the checks on a local
  language model, the insertion modes, configuration, model catalog, download
  plan, guided setup, protocol and command-line outcomes. It is pure: the clock,
  files, devices, sockets and processes are outside.
- `tests/` — tests of the library.
- `app/` — the program around it: argument parsing, threads, PipeWire, Wayland,
  whisper.cpp, HTTP and the terminal.

## What is proved

Every function of `src/` has a contract, and the module `session_laws` states
what holds of the daemon whatever happens to it. Among other things:

- a text is inserted only after the overlay of its own session has closed;
- events of an earlier session change nothing;
- cancelling, stopping and expired messages let go of everything;
- while recording, every block of samples is kept in order, and a recording is
  handed over whole, once;
- an invalid configuration, or an engine that does not load, leaves the
  previous one in place;
- a rejected answer of the language model gives exactly the plain cleanup;
- text is typed and copied only where the insertion mode asks for it, and in
  the default mode copied only after typing has failed;
- putting the punctuation of a text in order a second time changes nothing, where
  the upper case of its letters needs no further change;
- parallel downloads cover the file exactly once;
- a start launches the daemon only where nobody listens, after the daemon of
  another program was asked to stop, and ends a daemon that it launched only
  after ten questions without an answer;
- the setup saves nothing where its summary was declined or an essential
  download failed.

## What is trusted

- `char::is_alphabetic` and `char::to_uppercase`, whose results are named
  (`postprocess`);
- `String::push` (`text`);
- `serde_json::to_string` of a string (`json`).

Floating point stays out of `src/`: samples and levels are of any type there,
and the level of a block, the drawing of the card and the engine are in `app/`.
