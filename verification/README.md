# Ember

Ember records the screen in the background and saves the last seconds as a clip
on a key press. It runs on Windows, with libobs as its recording engine and
Tauri for its windows.

- `src/` is the library: the configuration, the shortcuts, the monitors and
  notices, the captured scene, the overlays, the preview, the encoders and the
  recording. Every function in it is verified with Verus.
- `app/` is the program around it: windows, files, the keyboard, libobs, and the
  formulas in floating point. It asks the library what to do and does it.
- `tests/` holds the tests of the library.

Handles of the engine are plain numbers in the library, and 0 is no handle.
Single-precision values are carried by their bit pattern.
