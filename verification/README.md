# mixlab

The logic of the Mixlab audio/video workstation's client and codec layer,
written in Verus and proved against its contracts.

- `src/` is the verified library:
  - `nal`, `dcr`, `bitstream`, `encode`: H.264 NAL units, decoder
    configuration records and length-prefixed bitstreams, with the
    write-then-parse laws; the encoder's options and header record.
  - `buf`: the trusted wrappers around the `bytes` crate that the parsers use.
  - `protocol`, `session`: the session protocol's types, the client's copy of
    the workspace and how server messages change it, and the sequence
    bookkeeping that decides when to re-render.
  - `workspace`, `drag`, `monitor`, `midi`, `library`, `notify`, `status`,
    `urls`, `form`: the decisions of the web client's components (window dragging,
    connections, the video monitor's buffering, MIDI bindings, uploads,
    change notification, status lights, addresses).
  - `ffmpeg`, `codec`, `graphics`: the arithmetic and return-code handling
    around libav* and the GPU read-back buffer.
  - `fieldwise`: composable lenses with the lens laws proved for every path.
- `tests/` exercises the library on concrete values.
- `app/` holds what the library leaves out: serde copies of the wire types,
  the module parameters (floating point), the socket end of the session,
  and text formatting of sizes and percentages.
