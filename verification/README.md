# blink_one

Verified command encoding for the blink(1) USB RGB LED.

- `src/cmd.rs`: the HID write commands (`WriteCmd`) and queries (`QueryCmd`), the
  feature-report buffers that carry them (`ReportBuf`), and the fade-time encoding. Each
  `to_buffer` is proved to produce exactly the documented byte format, zero-padded to the
  report's buffer size; public proof functions state the laws that hold across commands.
- `src/duration.rs`: a span of time (seconds and nanoseconds) with its millisecond count.
- `src/relay.rs`: the decisions of the loop that relays MQTT publications.
- `app/`: the HID transport (via `hidapi`) and the MQTT subscription (via `rumqttc`),
  unverified, built on the library.
