# presage

The decision logic of a Signal client, written and proved in Verus.

- `src/` holds the library. Its functions take plain values and return plain values: what to send,
  store, fetch, accept and reject. What each of them does is stated in its contract, and what holds
  across them in the functions whose names start with `law_`.
- `app/` holds the asynchronous client around it. It performs the network, database and clock
  operations for which the library asks. The Signal protocol and service are reached through the
  traits in `app/ports.rs`.
- `tests/` runs the library, its statements on an SQLite database included.

Where an operation takes several exchanges with the outside, such as leaving a group (`leave`) or
updating a profile (`profile_updates`), the library holds a task that tells what to do next and goes
on when it is handed what came of it.
