# copycat_code

The backend of a small learning platform: accounts with hashed passwords and
cookie sessions, courses owned by their authors, and modules inside courses.

- `src/` is the verified library. Each endpoint is a controller that decides,
  step by step, which database call to make next (`flow::StoreAction`) and what
  to do with the answer (`flow::StoreEvent`), down to the HTTP answer it gives
  (`reply::HttpReply`). Passwords are hashed with Whirlpool and written in
  Base64 (`password`); record ids are taken apart in `store`.
- `app/` is the web server: actix-web routes and sessions, the SurrealDB calls
  that carry out each `StoreAction`, and the serde forms of the records.
- `tests/` runs the library on concrete requests and answers.

Deleting a single module has no body in this code base: a course deletion asks
for one module deletion per module, and each succeeds without touching the
database, so a deleted course's modules stay stored.
