# Charlotte

Charlotte is an HTTP/HTTPS proxy that records the requests it forwards and
shows them in a terminal user interface. By default it listens on
`127.0.0.1:8888`; `--host` and `--port` change that. On its first start it
makes a certificate authority under `~/.config/charlotte/certs/` (or under
`$CHARLOTTE_CONFIG_DIR/certs/`), with which it signs a certificate for each
HTTPS site it intercepts.

## Layout

- `src/` is the library, verified with Verus: header maps and URIs, where a
  request is forwarded and which headers it loses on the way, the request
  store, the error texts, the certificate authority, the log files kept, the formatting of
  bodies, and the front end's state machine (screens, boxes, key bindings,
  scrolling and selection). Each public function states what it returns or
  changes; the laws of the library are public proof functions beside the
  functions they speak of (`law_*`).
- `app/` is the program around it: command-line arguments, the network
  server and its TLS tunnels, the terminal, drawing and the clipboard. It
  hands events to the library and carries out what the library decides.
- `tests/` runs the library on concrete values.
