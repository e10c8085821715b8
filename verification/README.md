# tux_rs

Support for TUXEDO laptops: device identification, fan curves, keyboard
backlights, battery charging, CPU and GPU power limits, and the D-Bus
interface through which a control center drives them.

## Layout

- `src/` — the library, written and proved with Verus. Every public
  function carries a contract; the laws of the library (fan curve
  monotonicity, the fan engine's safety rules, color scaling, device lookup,
  configuration validity, settings caching, and more) are public proof
  functions named `law_*`.
  - `fan_curve`, `fan_engine`: curve interpolation, EC fan tables and the
    decisions of the fan control loop.
  - `device`, `device_table`, `dmi`, `custom_device`, `platform`,
    `registers`: the hardware model and device detection.
  - `hid`: ITE keyboard controllers and LED-class keyboards, as report
    plans and state.
  - `charging`, `cpu`, `gpu`, `display`: the arithmetic and rules of each
    hardware area.
  - `dbus`: the computations behind each D-Bus interface, including the
    legacy TCC interface.
  - `mock`: in-memory fan backend and DMI source.
- `tests/` — tests of the library.
- `app/` — the daemon: sysfs and hidraw access, serde forms of the data,
  the D-Bus objects and the main loop.
