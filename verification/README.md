# loti_tui

The state machine of a terminal browser over a store of epics and tickets. The
library decides everything a browser decides — what a row is, what a letter does
on it, what a form writes, what a refusal is answered with — and that logic is
verified with Verus. What it takes from outside is trusted rather than proved: how
`jiff` bounds and writes a timestamp, how std decodes UTF-8 and appends a
character, and how the markdown viewer scrolls, each under the contract written
beside its declaration. The library owns no terminal and touches no store: it is
handed what a store returned as plain values, and answers with the step to take.

| where | what |
|---|---|
| `src/text.rs`, `src/moment.rs` | text as characters, numerals, instants and ages |
| `src/data/` | references, rows, documents, readings, and the writes a store is asked for |
| `src/action.rs` | the intents a key resolves to |
| `src/nav.rs` | the stack of levels the reader has entered |
| `src/app/` | fields, surfaces, dialogs, the preview, and the browser itself |
| `src/app/laws.rs` | what holds of a session whatever is pressed and whatever a store answers |
| `app/` | the store, the colours and the clock around the library |
| `tests/` | the library run on a store kept in memory |

`app/` calls the tracker's own core library, `loti_core`, and is built beside it.
