# fred_timeout_test

A harness around the `unresponsive_timeout` watchdog of the `fred` Redis client. Four
scenarios set the time limits of the client in different ways and show what callers see
while a server does not answer.

- `src/` is the verified library.
  - `settings`: the servers and the time limits of each scenario.
  - `run`: the steps of each scenario, and how answers carry a run on or end it.
  - `course`: what holds of every run, whatever the servers answer.
  - `report`: the lines that the scenarios print.
  - `handlers`: the key routes of the HTTP server: round-robin dispatch and replies.
  - `netem`: the delay routes of the HTTP server: the commands and the replies.
  - `json`, `text`: JSON objects, numerals, debug forms.
- `app/` performs the steps: it talks to Redis, serves HTTP and runs `docker`.
- `tests/` runs the library on concrete values.

`fred_timeout_test misconfigured|correct|cluster|cluster_server` runs a scenario.
