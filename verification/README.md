# hyperswitch

The decisions of a payment switch, verified with Verus: what is sent to a payment
processor and what its answers mean, how requests are served, and what follows for refunds,
authentication, fraud checks, recovery and addresses.

- `src/` is the library. Every function states what it gives back, and the proof functions
  named `law_...` state what holds of the library as a whole.
  - `checkout/`, `payme/`: two payment processors. Requests, answers, webhooks.
  - `webhooks`: where a report of a processor goes.
  - `api/`: serving requests. One step of a payment at a processor, the answers over HTTP,
    the pages that take a customer on, payment links, and what is taken out of a request
    for the record.
  - `refunds`, `authentication`, `fraud_check`, `recovery`, `cancel_flow`, `address`,
    `payouts`: what to do next, given what happened.
  - `json`, `web_url`, `text`, `secret`, `enums`, `errors`, `payment_data`, `router_data`:
    what the rest is made of.
- `app/` is ordinary Rust around the library: HTTP, JSON, storage, the scheduler.
- `tests/` runs the library.

Functions that call another crate are marked `#[verifier::external_body]`. Their doc
comments say which function they call and what is taken for granted of it.
