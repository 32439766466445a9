# opencapt

The core of a screenshot tool for Windows (OpenCapt): region selection,
annotation, pinning, OCR and the machine translation of recognised text,
written in Verus so that its rules are proved rather than only tested.

## Layout

- `src/` is the verified library: Verus proves every function there, and
  the public ones state in `requires`/`ensures` what they do.
  - `config/`: the settings model, its defaults, the clean-up that keeps ids
    unique and values in range, the validation rules and the place where the
    configuration file lives.
  - `overlay/`: the selection and annotation state machine (mouse, keyboard
    and toolbar handling, shapes, text editing, undo, style controls), its
    geometry and the pixel work it does on a captured frame.
  - `annotate/`: the command line of the stand-alone editor (and the proof
    that what the capture process passes is read back whole) and its shapes.
  - `capture.rs`, `raster.rs`: picking the window under the pointer, cutting
    a region out of a captured screen, and the PNG of a selection.
  - `ocr.rs`, `translation/`, `remote.rs`, `probe.rs`, `json.rs`,
    `encoding.rs`: the requests sent to OCR and translation services and
    the judgement of their replies.
  - `settings.rs`, `hotkey.rs`, `pin.rs`, `tray.rs`, `notification.rs`,
    `output.rs`, `lifecycle.rs`: the settings window's rules, hotkey parsing,
    pinned windows, tray menu, toasts, output file names and the
    application's event loop decisions.
- `tests/` runs the library on concrete values.
- `app/` is the thin unverified shell: file access, the TOML form of the
  configuration and the program entry point.

The few calls into outside crates (`serde_json`, `base64`, `image`,
`directories-next`) and into std that Verus has no specification for stand
behind small trusted wrappers whose doc comments say what is assumed.
