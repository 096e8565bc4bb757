# amp-console

The amp-showcase console: a single-page dashboard for seeing and controlling AMP demo
and workshop deployments. A private GitHub repo holds one `state.json`. The console
reads it and writes it back through the GitHub Contents API and queues commands in it;
an executor in that repo runs the commands and writes the results back.

`src/` is the library, verified with Verus:

| module    | what it holds                                                            |
| --------- | ------------------------------------------------------------------------ |
| `models`  | the state document: deployments and commands                             |
| `app`     | the console's own state, queueing a command into the document, refreshing |
| `enqueue` | pushing a queued command, with one retry after a conflict                |
| `sync`    | config, requests, replies and errors of the GitHub Contents API          |
| `storage` | what is kept in the browser's storage                                    |
| `setup`   | the connection form, connecting, creating the state file                 |
| `screens` | what the dashboard shows                                                 |
| `text`    | text helpers                                                             |
| `codec`   | Base64, UTF-8, JSON and ids, from the crates that compute them           |
| `laws`    | what holds of the console as a whole, proved                             |

`app/` is the browser program around it: Leptos components, HTTP, localStorage and the
serde copies of the documents. The library decides; `app/` carries out and reports back.

The contracts in `codec`, and the two standard library specifications in `text`, are
trusted. Everything else in `src/` is proved.
