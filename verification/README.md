# ragout_custom_events_macro

The expansion behind the `ragout_custom_events!` macro of the ragout line
editor: from a list of custom keyboard events
(`key_code, modifier_bits, Variant, || { .. };`) to the editor's input loop
(`run`, `Command`, the `InputAction` enum, `kbd_event` and `Writer::write`).

- `src/` is the verified library. `event` describes an event by the token
  text of its parts; `codegen` builds the expansion text piece by piece,
  each piece with an exact contract; `tokens` lexes it into a
  `proc_macro2::TokenStream`; `laws` proves properties of every expansion.
- `app/` reads the macro input with `syn`, converts each entry to the
  library's `CustomEvent`, and returns the library's tokens.
- `tests/` runs the library on concrete events.
