# secscan

A security scanner for Linux servers. The library holds the audit rules and
their proofs; the program around it probes the host, prints reports, serves
an HTTP API and posts webhook alerts.

- `src/` — the verified library:
  - `text` — whitespace, lines, words, trimming, searching, decimal text;
  - `report` — findings, severities, categories and the scan report;
  - `scanner` — the audit modules (ports, services, system, Docker, Nginx,
    SSH), each a function from what the host reported to findings;
  - `webhook` — which findings an alert carries and the alert texts;
  - `api` — the report store and the service's request decisions.
- `app/` — the command-line program and HTTP server.
- `tests/` — tests of the library on concrete values.
