# hidpp

Talks HID++ 2.0, the protocol of Logitech mice and keyboards, with its logic
proved by Verus.

- `src/` is the verified library: the packet layout of requests and
  responses (`request`), the encoding of parameters (`encode`, `to_params`),
  the decoding of payloads (`encode::Decode`), the table of feature indices
  (`feature_lookup`), and what the responses of the root, feature-set,
  device-information, device-type-and-name and friendly-name features mean
  (`features`). Packets are `tinyvec::ArrayVec<[u8; 20]>`; fixed-width text
  is checked by `tinystr`; the feature table is allocated zeroed by
  `bytemuck`.
- `app/` is the program around it: a thread that moves packets between a
  `hidapi` handle and `crossbeam` channels, the request loop that waits for a
  response, software ids from a `deadpool` pool, and a `main` that queries a
  mouse.
- `tests/` runs the library on concrete packets.
