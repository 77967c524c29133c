# now_playing

A COSMIC panel applet that shows what an MPRIS media player is playing, with a
popup for the album art, playback controls and a seek slider.

- `src/` is the library, verified with Verus:
  - `text` formats times (`m:ss`), cuts labels with an ellipsis, joins names;
  - `config` holds the settings;
  - `mpris` turns what the players reported over D-Bus into the shown player
    and the picker list (skipping the `playerctld` proxy, honouring a pinned
    player, else Playing > Paused > has-a-track > first), and addresses
    commands to a player;
  - `panel` is the applet's state machine: each message gives the next state
    and the outside work to do (poll, load art, send a command, save settings);
  - `label` builds the panel label and the popup lines.
- `app/` is the applet itself: the D-Bus reads and commands (the `mpris`
  crate), the widgets (libcosmic), album art loading (`tokio`, `reqwest`) and
  the floating-point seek slider.
- `tests/` runs the library on concrete values.
