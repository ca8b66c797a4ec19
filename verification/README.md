# hanaikada

The core of Hanaikada (花筏), a read-only desktop viewer that collects the
image and video posts of the accounts a Bluesky user follows and shows them
in a dense grid.

`src/` is a library verified with Verus: the app's decisions are made
there, each function with a contract that Verus proves.  What the outside
calls return (a timestamp's parse, an HTTP reason phrase, the clock) is
named or bounded, not computed, and what SQLite and the network answer is
the app's.

| module        | what it decides                                                        |
|---------------|------------------------------------------------------------------------|
| `json`        | the JSON document model the decoders read                              |
| `models`      | decoding of the XRPC answers (sessions, timeline items, errors)        |
| `client`      | endpoint URLs and the classification of failed answers                |
| `extractor`   | which timeline items are media posts, and the rows they become         |
| `sync`        | the sync status, the single-run guard, cancellation, run outcomes      |
| `poller`      | the page loop's decisions, the retry policy and the back-off           |
| `queries`     | the SQL statements and their parameters, the grid filter conditions    |
| `rows`        | reading result rows back into records                                  |
| `migrations`  | the schema and which migrations run                                    |
| `auth`        | the in-memory session and its transitions                              |
| `moderation`  | mute/block reconciliation and its weekly schedule                      |
| `media`       | media ids of `thumb://`/`full://` requests, answers, cache accounting and eviction order |
| `commands`    | the records returned to the frontend, moderation preferences           |
| `error`       | the error type and the messages shown                                  |
| `text`, `clock` | string helpers; times from RFC 3339 and the clock                    |

`app/` is the Tauri application around it: commands, HTTP (reqwest),
SQLite (rusqlite), the OS keychain (keyring), files and the background sync
task.  It carries out what the library decides and hands it plain values.

`tests/` runs the library on concrete values, including the database
statements against an in-memory SQLite.
