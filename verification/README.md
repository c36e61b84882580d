# anti_window_snap

Keeps the windows whose titles are listed in `config.txt` out of screenshots
and screen recordings, by running `SetWindowDisplayAffinity` inside the
process that owns each window.

`src/` is the verified library:

- `payload`: the 32-bit and 64-bit machine code written into the target
  process, with its operands, and the display affinity values.
- `injection`: the steps of the injection as a state machine (`Injection`):
  each step takes what came of the previous action and returns the next one.
- `text`: UTF-16 decoding of window texts and class names.
- `modules`: recognising a module of the target process by name.
- `icon`: turning an icon's mask and colour bitmaps into a PNG image.
- `window`: window details, root windows, colours, and the rectangles of the
  highlight and of the inverted frame around a picked window.
- `tracker`: which windows have been looked at as window events arrive; a
  title change during a running title job is kept pending and acted on when
  the job ends.
- `config`: the titles in the configuration file.
- `tip`: the message line of the window.
- `picker`: the window picker's highlighting.

`app/` is the Windows program around it: the user interface, the window
event hook, the system calls that the injection steps name, and reading and
saving the configuration file.
