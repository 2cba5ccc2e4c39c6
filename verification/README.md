# contributor_platform

A contributor incentive platform: contributors to tracked GitHub projects earn
points for merged pull requests, comments, issues and maintainer bonuses, and
are ranked on leaderboards.

- `src/` is the verified library (Verus): scoring, leaderboards, queries over
  stored rows, sessions and password checks, the GitHub synchronisation state
  machines, request validation and the client-side helpers.
- `tests/` runs the library on concrete values.
- `app/` is the server around it: configuration, SQLite storage, the HTTP API
  and the GitHub HTTP client, which drive the library's state machines.

Scoring follows the rule: total = lines + comments + bonus, where lines is the
sum over merged pull requests of additions plus half the deletions, comments is
two points per issue comment, three per review comment and five per opened
issue, and bonus is the sum of the maintainers' grants.
