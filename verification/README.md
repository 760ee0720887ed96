# monitor_dashboard

The verified core of a desktop monitoring dashboard (a tray application that
watches network services, shows machine readings and talks to Home
Assistant).

- `src/` is the library, verified with Verus:
  - `service.rs`: the service registry (add, replace, delete, look up by id)
    and its laws;
  - `status.rs`: probe plans, probe outcomes, service statuses and the sweep
    over all enabled services;
  - `settings.rs`: the application settings;
  - `home_assistant.rs`: Home Assistant credentials, URLs, request body and
    reply handling;
  - `sensor.rs`: the choice of the CPU temperature sensor;
  - `power.rs`: the shutdown and restart commands;
  - `http_status.rs`, `text.rs`: status codes and text helpers.
- `app/` is the tauri program around it: commands, tray, files, network
  probes and system readings.
- `tests/` exercises the library on concrete values.
