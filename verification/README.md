# rusty_shark

A packet sniffer for the terminal. The logic is a library verified with Verus; the program
around it captures packets with libpcap and draws with ratatui.

- `src/parser.rs` reads Ethernet, IPv4, TCP and UDP headers from raw bytes.
- `src/text.rs` writes numerals; `src/display.rs` turns packets into list lines and protocol
  trees.
- `src/export.rs` writes captured packets in the classic pcap file format.
- `src/prompt.rs` and `src/capture.rs` decide what is opened and what the capturing thread does.
- `src/layout.rs` places panels and buttons; `src/model.rs` says what the running program is,
  and `src/session.rs` runs it.
- `src/laws.rs` proves what holds of all of it together.
- `app/` holds the program: terminal, threads, files and the network device.
