# pastebin

The request logic of a small paste-sharing web service (users register,
sign in, and create, read, change, list, search and delete pastes), with
its behaviour stated in Verus contracts and proved.

- `src/` — the verified library:
  - `models.rs`: stored records and request bodies, with their views;
  - `object_id.rs`: record identifiers and their 24-digit hex text;
  - `email.rs`: the accepted shape of an e-mail address;
  - `validation.rs`: field rules of each body and the report of broken rules;
  - `auth.rs`: bcrypt-based tokens and password checks;
  - `paste_api.rs`, `user_api.rs`: what each endpoint checks, decides and
    replies, around its database work;
  - `response.rs`: statuses and refusals.
- `app/` — the Rocket server and the MongoDB store; it does the I/O and
  asks the library for every decision.
- `tests/` — tests of the library on concrete values.
