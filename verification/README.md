# turntouch

Runs shell commands on the button presses of a Turn Touch Bluetooth LE remote.

- `src/` is the verified library: decoding of button reports (`protocol`),
  gesture detection (`event`), the mapping of gestures to commands and their
  environment (`config`), and the decisions of the listening loop (`session`).
- `app/` is the command-line program around it: Bluetooth, the config file,
  spawning commands and the macOS app bundle.
- `tests/` exercises the library on concrete reports and configurations.
