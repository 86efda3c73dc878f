# whether

The core of a weather applet for the COSMIC panel, written in Verus.

- `src/` is the verified library: the applet's state machine (`model`), its
  properties (`model_laws`), the settings (`config`), forecast shaping for the
  worldwide forecast and the US overlay (`backend`, `open_meteo`, `nws`),
  place search results (`geocoding`), display helpers (`summary`) and the
  text routines they share (`text`).
- `app/` is the panel applet around it: network requests, the desktop's
  configuration store, timers and widgets. It performs the effects that
  `AppModel::update` returns and feeds the outcomes back as messages.
- `tests/` runs the library on concrete values.
