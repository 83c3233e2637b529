# engine_runtime

The runtime of a small windowed diagram editor, with its decision logic
proved in Verus.

- `src/` — the verified library:
  - `frame_delay` — frame pacing that decays from the target frame rate to one
    frame per second while the user is away;
  - `runtime` — the hibernation governor of a hidden window (warm, pre-flight,
    cold), the network policy, frame scheduling and the state changes of
    window, keyboard and worker events; adapter choice, monitor refresh rate
    and the window icon;
  - `header` — the title bar's menus, frame limit, window commands, render
    cache and selector state;
  - `ui_zone`, `primitives`, `diagram` — UI zones, hover effects, the
    interaction state, and the diagram's drag state;
  - `tokens`, `names`, `blueprint` — the `ui_blueprint!` expansion: the scan
    for actions and zones, and the generated code;
  - `laws` — properties that span several operations.
- `app/` — the program: the winit event loop, the wgpu renderer, all
  floating-point geometry (camera, layout, colors), and the bridge from the
  compiler's token streams to the `ui_blueprint!` expansion.
- `tests/` — tests of the library on concrete values.
