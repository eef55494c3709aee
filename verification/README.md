# drogue_server

Verified startup planning for running Drogue Cloud services in one process.

- `src/cli.rs`: the server's command line as data (global options and the
  `run` subcommand), from which the argument parser is built.
- `src/plan.rs`: what `run` decides from its arguments: which services start
  and in which order, their runtimes, TLS, HTTP, MQTT listener, Kafka and
  OAuth settings, service URLs, log verbosity and the quick-exit warning.
- `src/summary.rs`: the text shown once the services are up.
- `src/launcher.rs`: the smaller multi-component launcher.
- `src/mqtt.rs`: the MQTT endpoint's configuration.
- `src/decimal.rs`: decimal rendering of numbers, with its read-back law.
- `src/external.rs`: the contract believed of `url::Url::parse`.
- `app/`: the program around it. `main.rs` is the single-process server:
  it parses the command line with clap, builds each service's
  configuration from the library's plan and runs the services in threads.
  `launcher.rs` is the smaller launcher's entry point, `mqtt_endpoint.rs`
  the MQTT endpoint's configuration and task, `startup_text.rs` prints the
  startup text and waits for the threads. The server's `config`, `db` and
  `keycloak` modules and the MQTT endpoint's `auth` and `service` modules
  are not part of this tree, and the Drogue Cloud service crates are not
  available here, so `app/` does not build in this tree.
