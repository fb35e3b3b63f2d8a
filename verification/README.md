# sozu

Verified pieces of the Sōzu HTTP reverse proxy and its command-line client.

- `src/cookies.rs` parses the `Cookie` request header into `name=value`
  pairs. Its contracts give the exact cookies read from any input, and its
  laws show that the cookies are exactly the bytes they were read from and
  that writing them out and reading them back gives the same cookies.
- `src/ctl/` holds the client's decisions: request identifiers (`ids`), the
  requests built from the user's arguments (`queries`), what is done with
  each reply (`reply`, `metrics`) and the rolling upgrade of the proxy
  (`upgrade`).
- `app/` sends the requests on the command socket, reads the replies and
  shows what the library decided.
