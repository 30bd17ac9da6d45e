# kernelspace_rust

The logic of a small x86 text-mode kernel, verified with Verus.

- `src/vgacolor.rs`: the VGA palette and the attribute byte (`make_color`).
- `src/screen.rs`: the model of a text screen (`Screen`: cursor, colour,
  25 x 80 cells) and its operations as spec functions: writing bytes,
  line feed, scrolling, clearing, cursor moves, the clipped debug line;
  with the laws proved about them.
- `src/terminal.rs`: the executable terminal (`Buffer`, `ScreenTerminal`,
  the `Console` trait, `DebugClipper`); every operation is proved to act on
  the model as the spec functions say.
- `src/keyboard.rs`: the scancode decoder as a state machine
  (`KeyboardState::do_keyboard`) and the console side of a key
  (`apply_key_response`).
- `src/interrupts.rs`: interrupt lines, the port writes that remap and
  acknowledge the interrupt controllers, and the interrupt descriptor table.
- `app/`: the kernel glue that Verus does not see: port I/O, copying the
  buffer to video memory, the global console, the interrupt entry points
  and the boot sequence.
- `tests/`: tests of the library on concrete values.
