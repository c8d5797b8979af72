# PromptForge

A system-tray prompt enhancer: press a global hotkey in any application, the
selected text is captured through the clipboard, rewritten by a language model,
and pasted back over the selection.

`src/` is the library, verified with Verus:

- `text` — white space, trimming, decimal numbers.
- `clock` — timestamp labels and project identifiers from the system clock.
- `clipboard` — the capture sentinel and the diagnostic snippet of clipboard text.
- `keys` — the copy/paste key chords per platform and the modifier-release rule.
- `pipeline` — the hotkey round trip (capture, enhance, paste, hide the pill) as a
  state machine, with its laws over whole runs; and `Replacement`, the paste of
  a given text over the selection.
- `status_window` — placement of the status pill near the cursor, on screen.
- `enhance` — API key choice, prompts with project context, request bodies, and
  the text taken from a completion.
- `projects` — the project store and its operations.
- `tray` — what the tray menu entries do.

`app/` is the Tauri program around it: windows, clipboard and keyboard access,
HTTP, and the files on disk. It feeds the results of that work into the library
and performs the actions the library decides on.
