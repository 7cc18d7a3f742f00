# optipc

The logic of OptiPC, a Windows tuning and monitoring tool, as a library whose
functions carry contracts proved with Verus.

- `src/` is the library. Every function there is verified. The only trusted
  items are small wrappers around `String::push`, `str::to_lowercase` and
  `serde_json::from_str`, each documented where it stands.
- `tests/` runs the library on concrete inputs, and compares the text
  routines with the std functions they mirror.
- `app/` is the Tauri application: commands, background refresh threads, and
  everything that touches the machine (PowerShell, files, environment,
  sysinfo) or computes in floating point. It hands plain values to the library
  and takes plain values back.
