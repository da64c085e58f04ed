# gtk-layer-sound

A small sound panel for Wayland compositors with a layer shell: it lists the output and input
devices of PulseAudio (or PipeWire-Pulse), selects the default device, moves running streams to it,
sets volume and mute, and meters the microphone.

The decisions of the panel form a library, verified with Verus; the program around it talks to
PulseAudio and GTK.

| Path | Content |
| --- | --- |
| `src/volume.rs`, `src/level.rs`, `src/text.rs` | volumes, loudness, decimal text |
| `src/device.rs`, `src/listing.rs` | devices, and how they are collected from an enumeration |
| `src/connect.rs`, `src/reply.rs`, `src/streams.rs`, `src/meter.rs`, `src/session.rs` | the conversation with PulseAudio |
| `src/worker.rs` | commands in, events out, over any `AudioBackend` |
| `src/panel.rs`, `src/controls.rs`, `src/window.rs` | what the widgets show and ask for |
| `src/laws.rs` | properties that span the panel and the backend |
| `tests/` | tests of the library |
| `app/` | the program: worker thread, PulseAudio client, GTK widgets |

Steps that wait for PulseAudio are written as functions from an event to the next action; the
program performs the action and hands the outcome back. Volumes are counted in PulseAudio's units
(65536 make 100 %), levels in attos (10^18 make full scale).

The program reads its stylesheet from `resources/style.css`.
