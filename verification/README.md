# containerization_framework

Linux containers on Apple's Containerization framework: the model a caller
describes (containers, processes, image builds), the image store, and what the
framework's Swift bridge is handed and answers, verified with Verus.

- `src/` is the library. Every function there carries a contract that Verus
  proves. It decides; it does not touch the disk or call the bridge.
- `app/` is the rest: the bridge itself (macOS only), reading the store's
  files, and duplicating descriptors. It gathers what the library needs,
  hands it over, and carries out what the library decided.
- `tests/` runs the library on concrete values.
