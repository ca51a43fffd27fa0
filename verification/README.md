# vpnctl_admin

The decisions behind the web admin pages of vpnctld, a daemon that manages a
small fleet of VPN servers: what each page shows, in which order, under which
label, and what each form submission leads to. They are verified with Verus.

* `src/` — the library. Every function takes plain data and returns plain
  data: series of a traffic chart, the drift between declared and listening
  ports, who is online, which share links are due, what a settings form
  changes. Functions that read the clock have a sibling ending in `_at` that
  takes the instant as an argument.
* `tests/` — the library on concrete values.
* `app/` — the pages around it: axum handlers, the queries they make through
  the `Host` trait, and the markup.

What is taken on trust is marked `external_body` or `assume_specification` in
`src/text.rs`, `src/time.rs`, `src/origins.rs`, `src/share_links.rs` and
`src/json.rs`, each with the outside function it speaks of.
