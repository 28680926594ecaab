# universal_pm

A desktop front end for the native package manager of a Linux distribution
(APT, DNF, Pacman, Yay, Zypper or APK, detected at start-up) and for Flatpak,
with its core verified by Verus.

## Layout

- `src/` — the verified library.
  - `backend/` — the `PackageManager` interface, one module per package
    manager (the commands it is driven with and the parsers for their
    output, each stated as a spec function), `any.rs` for the backend chosen
    at run time, and in `mod.rs` the launch plan for privileged commands
    (`pkexec`, else `sudo`, or `sudo -S` fed a typed password) with the
    shell quoting it relies on.
  - `detect.rs` — which backend the binaries found on `PATH` select.
  - `app.rs` — the front end's state and every decision it takes: what each
    control does, what a finished background job does to the state.
  - `selection.rs` — the set of ticked packages.
  - `text.rs` — the string operations the parsers are built from, with
    their specifications.
- `app/` — the egui window, the worker threads, and the process and file
  access; it draws the state, runs the jobs the library hands it, and hands
  their results back.
- `tests/` — tests of the library on concrete inputs.
