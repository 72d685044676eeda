# cameraftp

The verified core of a camera-to-computer FTP companion: the logic that
decides what the FTP server, the photo index, the preview window and the
background processing pipelines do, written in Verus with its behaviour
stated in `requires` / `ensures` contracts and proved.

## Layout

- `src/` — the library, verified by Verus except for a few trusted
  wrappers, each a single call into std or an outside crate (argon2, base64,
  flate2, local-ip-address, nom-exif) whose contract is assumed:
  - `file_index` — the photo index kept newest first, with the viewing cursor
    that follows its file through inserts, removals and EXIF back-fills;
    merging a directory scan with concurrent uploads.
  - `ftp` — server status and start/stop slot, statistics snapshots,
    upload classification, authentication and bind address handling.
  - `presence` — FTP login sessions and the connection count.
  - `network` — IPv4 text, interface classification and the advertised address.
  - `config` — the configuration model, load plans and persist-first updates.
  - `image_preview` — the preview cache with entry and byte budgets.
  - `exif` — the EXIF values of an image's bytes (read by nom-exif), the
    summary shown beside a photo, and the capture time in nanoseconds.
  - `batch`, `processing_activity` — the batch workers' decisions and the
    combined busy state reported to the platform.
  - `color_grading`, `presets`, `ai_edit`, `auto_open`, `watcher`,
    `crypto`, `platform`, `mediastore`, `logcat`, `image_utils`, `text`,
    `error` — the remaining rules, formats and helpers.
- `tests/` — tests of the library on concrete values.
- `app/` — the shell around the library: file and network I/O, serde forms
  of the library's types, the notify watcher, the floating-point EXIF
  formats (aperture, shutter speed), image re-encoding and the worker loops.
