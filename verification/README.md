# global_hotkey (macOS backend, verified)

Global hotkeys for desktop applications on macOS. The library under `src/`
holds every decision of the backend, with its proofs; the system calls
themselves are made by `app/`.

- `code`: the physical keys (`Code`), numbered and named.
- `modifiers`: modifier sets, side-neutral and side-specific.
- `hotkey`: hotkeys, their ids (modifiers in the upper 16 bits, key number in
  the lower 16), and hotkey events.
- `keymap`: Carbon virtual key codes, and which keys need the event tap.
- `carbon`: the modifier mask and signature handed to `RegisterEventHotKey`.
- `handler`: which Carbon hotkey events are reported.
- `media`: the event tap's state and what each tapped event reports.
- `manager`: registering and unregistering, step by step, as a state machine
  whose steps name the system call to make and the method that takes its answer.
- `laws`: properties across several operations and event sequences.

`app/` installs the Carbon handler, performs the steps (Carbon, Core Graphics,
Core Foundation, AppKit), and hosts the callbacks; on other systems only the
key conversion and the event channel are built.
