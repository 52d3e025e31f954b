# tui_events

The decisions of a terminal chat client's event loop, verified with Verus.

The client reacts to what the model engine reports, to keys, and to the other events of the terminal.
For each of these the library holds a machine: it is handed an event, updates the state that it owns
(`state::App`) and answers with the effects that the client carries out, in order. Where the way on
depends on what an effect returned, the machine waits in a stage; the client hands the answer back and
the machine goes on.

- `src/engine/`: the engine's events
- `src/keyboard/`: keys
- `src/onboarding.rs`: keys of the first-run onboarding
- `src/terminal.rs`: pasted text, focus, resizes, the mouse
- `src/state.rs`, `src/step.rs`: the state, the steps and the answers
- `src/keys.rs`, `src/notices.rs`, `src/progress.rs`, `src/text.rs`: what the machines are made of
- `app/`: the client's side, which reads the terminal and the engine and runs the machines

What each step does is stated by a predicate on the state before it, the state after it and the step.
The files named `laws.rs`, and the ends of `engine/pass.rs`, `onboarding.rs` and `terminal.rs`, hold
what follows over several steps: that every event ends, that a tool call which was denied for the
session is answered with a denial, that pasted text goes to one place only, and the like.
