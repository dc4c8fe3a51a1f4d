# knx_pico

A KNXnet/IP tunneling library for small devices, verified with Verus, and
the firmware of a Raspberry Pico 2 W that uses it.

## Layout

- `src/` — the verified library:
  - `addressing/` — group (`1/2/3`, `1/234`) and individual (`1.1.5`)
    addresses: construction, byte encoding, text parsing and printing;
  - `dpt/` — datapoint types 1, 3, 5, 7, 9 (exponent and mantissa) and 13;
  - `protocol/` — KNXnet/IP frames and services, cEMI frames, the
    typestate tunnel client, and `TunnelSession`, the decisions of the
    asynchronous tunneling client (what to send, what a received packet
    means, the queue of pending indications);
  - `knx_client.rs` — group telegrams, value encoding and decoding, the
    datapoint registry, bus events, the client configuration builder;
  - `knx_discovery.rs` — `SEARCH_REQUEST` / `SEARCH_RESPONSE`;
  - `net.rs`, `net/mock_transport.rs` — IPv4 addresses and endpoints, a
    scripted transport for tests;
  - `utility.rs`, `configuration.rs` — the device configuration.
- `tests/` — tests of the library.
- `app/` — the firmware: Embassy tasks, WiFi, the UDP transport, the
  asynchronous loops around `TunnelSession`, floating-point DPT 9 values,
  logging.

Every public function of the library states its result in `ensures`; the
laws that relate several functions (encode/decode, print/parse, build/parse
round trips, registry lookups, the bound of the indication queue) are public
proof functions next to the functions they speak of.
