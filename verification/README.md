# herald

A JMAP command line and terminal client for Stalwart Mail Server, built
around a library whose logic is verified with Verus.

## Layout

- `src/` — the verified library (`herald`):
  - `text`, `validate`, `secret`, `strings`, `digits`, `seqs`: display
    sanitising and truncation, URL and header checks, redacted secrets,
    and the string and number helpers the rest is proved with;
  - `config`: profiles, the profile map, environment-based configuration
    and how file and environment combine. Profiles are kept in a vector
    of uniquely named entries with a `Map` view rather than in a
    `HashMap`, because the proofs about lookup and replacement by name
    go through on that form and not on a `String`-keyed hash map; the
    order of the entries is not part of the view;
  - `auth`, `oauth`: the token cache rules (file names, expiry with skew,
    which login step to take), PKCE values, and the OAuth requests and
    how their answers are judged;
  - `jmap`: what goes into each outgoing message (header checks,
    recipients, identity and sent folder, the RFC 5322 text itself), the
    plan of a new event or contact card (default calendar, invitation
    roster), which mailbox a watch follows, and how `*/set` answers are
    read; `app/` lays these plans out as JSON requests;
  - `tui`: the terminal interface's state and every decision on a key
    press (`App::handle_action`), popouts and the draft editor, list
    windows, forms, month arithmetic, folder trees, key maps and the
    status line.
- `tests/` — tests of the library on concrete values.
- `app/` — the executable: argument parsing, files, the network, the
  terminal loop and drawing. It hands the library plain values and acts
  on what it returns.

Each public function states its result in an `ensures` clause; the
properties that span several functions are public proof functions named
`law_*`.
