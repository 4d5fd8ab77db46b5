# j3devhelper

The verified core of j3DevHelper, a Windows desktop helper that keeps folder workspaces in a
tree, groups command buttons in tabs, and runs those commands against the selected workspace.

## Layout

- `src/` — the library, written in Verus. Every function states its behaviour in `requires` /
  `ensures`; the proof functions state the laws that hold across functions. All of it is proved
  except four small trusted wrappers around std (`String::push`, `char::to_lowercase`,
  `char::from_u32` and the `{:?}` rendering of a string), whose contracts are taken as given.
  - `command_buttons`, `button_scroll` — the button grid, hit testing and whole-row scrolling.
  - `layout`, `scaling`, `geometry`, `message_params` — main window layout, DPI and dialog-font
    scaling, and the points and words packed into window-message parameters.
  - `rules`, `tree`, `menu` — moves and drops in the workspace tree and among tabs and buttons,
    tree item data, and which menu commands are enabled.
  - `command_steps` — what moving, deleting, dragging and running a command button, and renaming
    a command tab, do: the warning to show or the change to make.
  - `arguments`, `command_line`, `execution` — argument tokens, Windows and `cmd.exe` quoting,
    and what a command run hands to the shell.
  - `drop` — checks and messages for folders dropped on the tree, and the language guess.
  - `workspace_dialog` — accepting the workspace dialog after its folder check, and taking the
    answer of its language guess.
  - `theme`, `fonts`, `dialogs`, `language`, `model`, `text`, `wide` — colors, font lists,
    dialog decisions, interface texts, records and text helpers.
- `tests/` — tests of the library on concrete values.
- `app/` — the Win32 calls around the library: shell execution, the installed-font check, the
  folder check on disk, message boxes, and a small launcher program.
