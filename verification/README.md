# macos_window

Window management for macOS, driven by keyboard actions: reading the parameters of a
window action, going through its layouts, and placing the focused window.

The library in `src/` is written in Verus; every function of it is proved against its
contract, and it trusts no outside code.

- `sexpr`, `text`: expressions of the configuration, their variables, and texts
- `action`, `command`, `parse`: the values of an action, and how they are read
- `placement`: where a layout puts the window, as exact fractions of the work area
- `geometry`: what a placement means on a screen, in exact arithmetic
- `cycle`: which layout a repeated press uses
- `desktop`, `error`: what the replies of the system mean, and what can go wrong
- `apply`: the order of the steps that place a window

`app/` makes the calls into the frameworks of macOS and does the floating-point geometry.
