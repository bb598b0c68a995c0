# sro_hud

The decisions and state machines behind a game client's HUD windows —
trade, guild storage, teleport board, party window and its mode dialog,
death window, minimap, guild page, buff board, pet bags, the help book's
drawer, window focus — written in Verus with their contracts proved.

- `src/` is the verified library, one module per window; `text` holds the
  number formatting and string-template helpers they share.
- `tests/` runs the library on concrete values.
- `app/` holds the floating-point helpers around it (cooldown sweeps, gauge
  widths, the minimap's world-to-window projection, flipbook timing).
