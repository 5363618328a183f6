# Meow Simulator

A clicker: each click on the cat makes it meow (one of four sounds, picked at
random), counts the click, shows the count and saves it; a Purr menu entry
plays a looping purr until its dialog is answered. Beside it stand a Windows
installer wizard, a stand-alone uninstaller and a setup bundle.

- `src/` is the verified library: the counter and its texts (`meow`), decimal
  numerals (`decimal`), the sound-player decisions (`player`), where the assets
  are (`assets`), the installer wizard as a state machine (`wizard`), the
  install and removal plans and the registry entry (`install`), the
  uninstaller's answer check (`uninstall`), shell quoting (`quoting`), the
  shell scripts and messages (`scripts`) and UTF-16 text for Windows calls
  (`wide`).
- `app/` is the program around it: the GTK windows, GStreamer playback, the
  TOML configuration file, the registry, the file system and the Windows
  calls. One executable acts as `installer`, `uninstaller` or `setup` when it
  is started under that name, and as the clicker otherwise.
- `tests/` runs the library on concrete values.
