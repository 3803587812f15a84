# rabbitmq_consumer

A consumer that takes webhook messages from a RabbitMQ queue and delivers them
to client endpoints over HTTP, logging in to each client for a bearer token.

`src/` is the verified library. It holds the configuration records, the
checks and conversion of queue messages, the retry policy of deliveries, the
token cache and login steps, the consumer's connection lifecycle, and the
structured log records, each with a contract proved by Verus, and the laws
that relate them (the `law_*` proof functions). `src/platform.rs` gathers the
calls into outside crates and std whose contracts are trusted.

`app/` is the program around it: reading `config.yaml`, talking to RabbitMQ
with lapin and to clients with reqwest, the tokio tasks, and the `tracing`
output. It asks the library what to do at each step and does it.
