# merging_image

Back end of a stereo image-merging station: two cameras, a calibration
workflow and an alignment check, configured through system, camera and
alignment settings and named presets.

The library (`src/`) is written in Verus; each function states its behaviour
in `requires`/`ensures`, and the properties that span functions are proof
functions named `lemma_*`.

- `config/` — the settings, their checks, the configuration manager, the
  presets, the configuration report and the plain-text configuration files.
- `camera_ffi`, `camera_manager` — the camera SDK's codes and the camera
  manager; the SDK's C functions are passed in as closures.
- `calibration_session`, `alignment` — what the front end's calibration and
  alignment commands decide around the workflows, and what the alignment
  results look like on screen.
- `camera_params` — reading and writing the camera parameter file.
- `performance` — the status texts of the frame-rate monitor.
- `float_bits`, `text`, `encoding`, `paths` — real-valued settings held by
  their IEEE-754 encodings, number formatting, Base64 text, and path joining.

`app/` holds what the library leaves to its caller: files, serialisation,
the SDK's C functions, the frame-rate arithmetic and the command plumbing.
