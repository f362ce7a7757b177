# pulsar

A local system-observability engine (`sysray`): collectors, a tick
scheduler, a post-collection pipeline, CSV/JSON/Prometheus exports, a
technical reference catalog and a terminal dashboard.

The library under `src/` is written in Verus and verified: the parsers of
the Linux, macOS and Windows text sources, counter deltas, the collector
schedule, the dashboard state and its texts, the reference search and its
ranking, inventory grouping, the managed `PATH` block of shell profiles,
service texts, and the layout of the exports. Each public function states
what it returns in its `ensures`; the `law_*` proof functions state
properties that span several calls.

`app/` is the program around it: command line, configuration file, reading
`/proc` and `/sys`, fractional figures (percentages, rates, load averages,
alert thresholds), the HTTP endpoint and the files it writes.

`tests/` runs the library on concrete inputs.
