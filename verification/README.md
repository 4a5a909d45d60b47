# leftwm_theme_dark_nord

The verified library behind the Dark Nord LeftWM theme's status bar
(`lefty-status`) and theme manager (`lefty`).

- `src/theme.rs`: `Rgba` colours packed into a `u32`, reading `#rrggbb[aa]`
  text and writing `#rrggbbaa` text, with the laws that tie them together;
  the `Theme` types.
- `src/modules/`: the battery and CPU modules: which level a reading falls in
  and the status text they fill in through `strfmt`.
- `src/template.rs`: the one trusted call into `strfmt`.
- `src/statusbar.rs`: which module or shell a command-line name selects.
- `src/manager.rs`: the theme manager's tabs, key handling and signal window.
- `src/error.rs`: the error type.
- `app/`: the programs: configuration files (whose thresholds are `f32`),
  reading the battery and CPU, the command line and the terminal interface.
