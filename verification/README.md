# rs_iec60870_5

The application layer of IEC 60870-5-101/-104 and the FT1.2 link layer of
IEC 60870-5-101, written in Verus: every encoder, decoder and link procedure
carries a contract, and the properties the protocol relies on (what a decoder
gives back of an encoder, how the frame count bit alternates, when an answer
is delivered) are proved as lemmas. Time tags read back exactly in UTC and at
a fixed offset; in a named zone they read back over what chrono-tz computes,
and in the host's zone the contracts say what holds of every reading.

## Layout

- `src/asdu/` — the data unit identifier, the information elements, the
  CP16/CP24/CP56 time tags, the ASDU container and the builders and decoders
  of the process, command, system, parameter and file transfer families.
- `src/cs101/` — the link configuration, FT1.2 frames, and the link state
  machines of the primary station (`LinkState`) and of the secondary station
  (`SecondaryState`), each a function from state and event to next state and
  frames to send.
- `src/text.rs` — decimal and hexadecimal renderings used by `to_string`.
- `app/` — the asynchronous runtime around the library: serial and TCP
  transports, the primary and secondary station tasks that drive the state
  machines over a real line, the handler traits, the `Connect` helpers and
  the log rendering of an ASDU.
- `tests/` — scenarios on concrete values for every family and procedure.
