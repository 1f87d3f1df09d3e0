# cship_usage

Usage limits of an account, shared by many short-lived processes: a status line
may be drawn by dozens of them at once, and yet the usage service should be asked
only every few minutes.

The library in `src/` takes the decisions, and Verus proves them. It touches no
file, no clock and no network: each function is given what was read, and says what
to do.

| module | what it decides |
| --- | --- |
| `usage_limits` | what to send to the service, and what its answer means |
| `usage_limits_state` | when to ask, what an attempt does to the shared state, what may be shown, and what a process does next |
| `usage_laws` | what follows from these rules for many processes |
| `state_file` | how the shared state is read, and replaced without ever being half written |
| `fetch_lock` | who may ask: the lock, its owners, and locks that were left behind |
| `cache` | where results are kept beside a transcript, and when they may be used |
| `timestamp`, `calendar`, `text`, `paths`, `account` | what the others rest on |

Numbers that the service sends as floating point are carried as bit patterns.

`app/` does the work around the decisions: it reads and writes files, holds the
lock file, sends the request, and turns JSON into the library's types.
