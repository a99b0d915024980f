# reservations

Real-time ticket reservations with a waitlist, as a verified Verus library
and the programs around it.

`src/` is the library, checked by Verus:

- `booking` — the booking server's rules. A reservation, a payment and a
  sweep of expired holds are each a conversation with the database inside a
  transaction; `Reservation`, `Payment` and `Sweep` decide every statement
  from the answer to the previous one and the final HTTP answer. Proof
  functions state the whole conversations and what they promise across
  requests (the holder of a seat, and only the holder, can pay for it while
  the hold lasts; a sold seat cannot be sold again; an expired seat goes to
  the queue entry that the database returns, which the server's query
  orders by the time of joining; a seat's status, holder and reservation
  stay in step across requests).
- `loadgen` — the load generator's outcomes, dispatching, payment plans and
  running statistics, with their consistency laws.
- `client`, `endpoints`, `messages` — the API's records, addresses and replies.
- `dashboard` — the dashboard's decisions: the user's hold, the seat grid,
  the reservation button, queue memberships and their stored JSON form,
  notices and identity.
- `seats`, `ids`, `text` — seat statuses, UUIDs and text building.

`app/` holds the programs: `app server` (axum + sqlx, with the sweeper),
`app loadgen` (reqwest + clap), and `app frontend` (Leptos). They perform the
I/O and hand the library plain values.

`tests/` runs the library on concrete values.
