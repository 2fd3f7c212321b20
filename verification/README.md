# h100i_tool

Host-side protocol library and command-line tool for a Corsair H100i liquid cooler,
spoken over 64-byte USB HID messages.

- `src/checksum.rs`: the table-driven CRC-8 (polynomial 0x07) that guards each message,
  proved equal to bitwise polynomial division.
- `src/wire.rs`: the message frame and the payload layouts (status reply, cooling
  configuration), with decoders and encoders proved against byte-level specifications.
- `src/lib.rs`: the decoded status, the cooling profiles, and the request builder that
  numbers requests and frames them as feature reports.
- `app/main.rs`: the USB I/O (hidapi), the command line (clap), and the conversion of
  temperatures to floating point.
