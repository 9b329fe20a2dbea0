# rotor_server

The server side of a UAV tracking pipeline: sensors send JSON position
readings over TCP, a gateway publishes them to an Iggy broker, and consumers
store them in QuestDB or stream them to browsers over SSE.

- `src/` is the verified library (Verus): frame headers (`framing`), decimal
  and UTF-8 conversions (`text`), the sensor's command line (`sensor`), the
  services' environment settings (`config`), the gateway's per-connection
  protocol (`gateway`), stream and topic setup (`setup`) and the consumers'
  polling cursor (`polling`).
- `app/` is the program around it: networking, the broker and database
  clients, JSON, and the floating-point reading generator. It runs one
  service per subcommand: `sensor <frequency_ms>`, `gateway`, `writer`, `sse`.
- `tests/` exercises the library.
