# lightcrazy

Linux control software for the Pulsar X2 CrazyLight mouse: DPI, polling
rate, lift-off distance, debounce and the sensor toggles, battery level in
the system tray with low-battery notifications, and a terminal settings
panel (`--options`).

## Layout

- `src/` is the library, verified with Verus. It holds the logic as
  functions from plain values to plain values, each with a contract:
  - `device::transport`: picking the HID interface, framing commands into
    checksummed reports, and the exchanges (`DeviceAction`) a command needs;
  - `device::protocol`: the vendor commands (DPI stages, polling rate,
    lift-off distance, debounce, toggles, stage query) and the battery read
    with its wake-up sequence, written as a state machine driven by
    `DeviceEvent`s;
  - `device::worker`: when the battery worker polls, and how it backs off
    while the mouse sleeps or is unplugged;
  - `settings`: the stored settings, their defaults and clamping;
  - `lock`: where the lock files live;
  - `tray`: the tray texts, the low-battery alert rule and which terminal
    emulators to try when opening the panel;
  - `ui`: the settings panel's state, its reaction to keys and mouse, and
    the texts it draws.
  Public proof functions named `law_*` state properties that hold across
  calls or for every input.
- `app/` is the program around it: HID access through `hidapi`, files,
  locks, D-Bus and the tray through `ksni`, notifications, threads and the
  terminal through `ratatui`. It performs the `DeviceAction`s and feeds the
  results back to the library.
- `tests/` runs the library on concrete values.
