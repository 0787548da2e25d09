# v8q

A replay buffer recorder for Linux desktops: it keeps the last seconds of the
screen in a rolling buffer (wl-screenrec's history mode, or FFmpeg segments on
X11 and custom setups) and saves them as a clip on request.

## Layout

- `src/` is the library, written in Verus. Every function there carries a
  contract that Verus proves: configuration and presets, the recorder command
  lines, the doctor checks, PID and lock files, replay selection and clip
  naming, the text the command line prints and what the desktop panel shows.
  Values that only the machine knows (the time, the home directory, what is on
  disk, what a command printed) come in as arguments, or through a few small
  functions marked `external_body` whose contracts say what the outside code
  does.
- `app/` is the `v8q` command: argument parsing, files, processes and signals,
  JSON and TOML. It gathers what the library needs, calls it, and carries out
  what it returns.
- `tests/` runs the library on concrete values.
