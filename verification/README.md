# cosmic_clevetura

Host-side tools for Clevetura TouchOnKeys keyboards on the COSMIC desktop:
reading and writing the keyboard's settings over USB HID or Bluetooth LE,
per-application profiles, touch-slider actions, and the settings hub's
command-line protocol.

## Layout

- `src/` is the library, written in Verus: every function carries a
  `requires`/`ensures` contract that Verus proves. It holds the logic:
  - `proto`, `keyboard`, `ble`, `codec`: the firmware command protocol and
    the protobuf app protocol, their framing over HID reports and BLE
    writes, and the readers that collect answers;
  - `config`, `settings_cli`, `settings_page`, `profiles`, `slider_actions`:
    configuration, the settings hub's keys and actions, the settings page
    model, profile switching and slider commands;
  - `applet`: the panel applet's model and the decisions of its background
    connection loop;
  - `hid`, `cli`, `report`, `text`, `json`: device selection, argument
    parsing, the printed reports, text helpers, and JSON values.
  Calls into `base64`, `crc32fast` and `serde_json` go through small
  wrappers whose contracts are trusted; their doc comments say what they
  claim.
- `tests/` runs the library on concrete values.
- `app/` is the program around the library: argument dispatch, HID access
  through `hidapi`, Bluetooth through `btleplug` and `tokio`, configuration
  files, protobuf encoding through `prost`, and printing.
