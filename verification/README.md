# grim

Verified core of the Grim wallet user interface for GRiN ツ.

`src/` is a Verus library. Each public function states its behaviour in `requires` /
`ensures` clauses over mathematical models (`Seq`, `Set`, views) and is proved by Verus:

- `modal`, `navigator`, `screens`, `content`: modal window state, screen navigation and the
  exit confirmation flow;
- `keyboard`, `edit`: the software keyboard and how its events edit a text with a cursor;
- `number`, `text`: decimal parsing and text helpers;
- `setup`, `connections`, `settings`, `config`: node settings entered at modals, proxy and
  external connection addresses, interface settings and the application configuration;
- `qr`, `scan`, `uniform`, `qr_image`: classification of scanned QR codes, collection of
  animated (Uniform Resources) parts, and vector and raster pictures of QR codes;
- `picture`: reading QR codes from camera frames and encoding shared PNG and animated GIF
  pictures;
- `mining`, `network_panel`: what the mining tab and the network panel show for the node and
  server state, the server address to choose and save, and the answers to panel clicks;
- `colors`, `network`, `network_tabs`, `views`, `accounts`, `file_pick`, `info`: theme colors,
  network tabs and figures, and plain content types.

Calls into other crates (`url`, `qrcodegen`, `ur`, `image`, `rqrr`, `qrcode`, `gif`, `egui`
types) stand behind small trusted
functions whose contracts describe the called function.

`app/` is the program around the library: process-wide state, conversion of colors for
`egui`, the network interfaces and locale of the system, JSON of shared connections, and
the hand-over of camera frames and shared pictures. `tests/` runs the library on
concrete values.
