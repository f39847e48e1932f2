# controller

Kubernetes controllers for OpenSLO-style resources (services, SLOs, SLIs, data
sources, alert policies, alert conditions and notification targets).

- `src/` is the verified library:
  - `duration` — duration shorthands such as `15m`: reading and writing them, with
    the round-trip laws and their relation to the schema pattern. A shorthand's
    unit is its last character and its count is the text before that letter, read
    as `u32` reads a number; any other text is refused (`is_shorthand` tells which
    texts `from_str` accepts);
  - `text` — decimal numerals as `u32` reads and writes them;
  - `resources` — the resource specifications and their validation rules;
  - `error` — the errors met while checking a data source;
  - `status` — status conditions (recorded at a time that the caller reads from
    the clock) and how a data source's status is patched after a
    connection check, with the laws that the update settles;
  - `provider` — the Prometheus connection check as a small state machine, from
    how it begins (`start_check`) to how each answer is judged (`probe_step`);
  - `reconcile` — names, requeue decisions, and the plans of a data source
    reconciliation and of the cleanup of a deleted object.
- `app/` is the process around it: the Kubernetes and HTTP calls, the serde, schema
  and `kube` derives on copies of the resource types, metrics and the web server.
- `tests/` exercises the library on concrete values.
