# duwet

The decision logic of Duwet, a keyboard-driven terminal client for a
warehouse service, written in Verus and verified.

- `src/model.rs`: the client state (`App`) and its view (`AppView`).
- `src/keys.rs`: keys, commands, the login screen and the stock form fields.
- `src/screens.rs`: the six screens once logged in, and the dispatch of a key.
- `src/ops.rs`: the requests each command sends and how replies update the state.
- `src/view.rs`: what each screen shows (texts, highlights, status colours).
- `src/layout.rs`: the centred pop-up area, cut by ratatui's layout solver.
- `src/text.rs`: text editing, trimming, `i32` reading and decimal writing.
- `src/laws.rs`: properties across key presses and replies.
- `app/`: the terminal, the event loop, the HTTP calls and the drawing.
