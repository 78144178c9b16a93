# aa_proxy

The decisions of a wireless Android Auto proxy as a Verus library: what is sent
to the phone and to the head unit, in which order the two are connected, how the
car's Wi-Fi network is joined, and which settings are kept. Every function of the
library has a contract, and Verus proves each of them but those of the calls into
other crates and the standard library, which are believed (see below). What holds of
the library as a whole is stated by public proof functions whose names begin with
`law_`.

## Layout

- `src/` is the library. It does no I/O. Where a course of events depends on the
  machine, it is a state machine: a function takes what came of the last action
  and tells the next one, and its contract says exactly which.
  - bytes and texts: `wire`, `frame`, `messages`, `inspect`, `text`, `net_text`, `clock`
  - Bluetooth: `address`, `known_devices`, `profiles`, `sdp`, `pairing`,
    `rendezvous`, `handshake`, `bluetooth`
  - Wi-Fi: `wifi_text`, `task`, `wifi_iface`, `wifi_join`, `route`
  - sessions: `prebootstrap`, `mitm_session`, `main_loop`
  - settings and start: `config`, `config_keys`, `config_schema`, `startup`
- `tests/` runs the library on concrete values.
- `app/` is the program around it: the Bluetooth adapter, the shell commands, the
  sockets and the files. The web interface, USB, call audio and the companion are not
  part of it: a board brings them as an implementation of `Peripherals`.

## What is believed without proof

Calls into other crates stand in small functions marked `external_body`, each with
a comment that says what is claimed of the call: the text of addresses (`bluer`),
hexadecimal text (`hex`), messages (`protobuf`), the settings file (`toml_edit`),
ordered maps (`indexmap`), and a few functions of the standard library.
