# ZeroIdle

ZeroIdle is a Windows maintenance tool: it resets the IDM trial through the
IDM-Activator release, sweeps temporary and cache folders, applies one-time
gaming, privacy and startup tweaks, stops Adobe background processes, and shows
its progress in a small window (or runs headless).

- `src/` is the verified library (Verus): size formatting, the release-metadata
  scan, the cleanup directory list, counts and progress lines, the activator's
  state machine and its archive extraction plan (the `zip` crate reads the archive),
  the popup killer's decisions, the optimizer's system facts, tweak gates and
  completion flags, and the progress model and run plans.
- `app/` is the Windows program around it: registry, file system, network,
  processes, windows and the egui interface.
- `tests/` exercise the library on concrete values.
