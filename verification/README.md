# hunyi_backend

Analysis backend for a digital twin of a Song-dynasty armillary sphere (浑仪):
sensor readings arrive over HTTP or MQTT, are validated, fanned out to a gear
transmission simulator, a pointing-accuracy analyzer and an alarm stage, and
every result is pushed to WebSocket clients.

Layout:

- `src/` — the library, verified with Verus:
  - `api` — response envelope and error classification (HTTP status);
  - `parse`, `query`, `settings` — decimal parsing with std's acceptance rules,
    query parameters and settings with their defaults;
  - `mqtt` — broker address parsing, the subscriber's event handling, message labels;
  - `clock`, `debounce`, `alarm` — alarm levels and the per-device,
    per-subject debounce, with the laws that govern repeated alarms;
  - `ws` — WebSocket session registry and message types;
  - `pipeline` — bus messages, routing, and the ingest state machine;
  - `axes` — which configured axis is simulated with which angle;
  - `instrument` — instrument names;
  - `validation` — order and ranges of the field checks on a reading.
- `app/` — the service around it: actix-web server and WebSocket actors,
  tokio channels, the MQTT client, metrics, JSON, configuration files, and the
  floating-point physics (gear contact, transmission error, pointing error).
- `tests/` — tests of the library.
