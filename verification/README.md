# webcam_workspace

A webcam viewer that shows the camera image, the byte-wise difference between
consecutive frames, and a running chi-square test of how uniformly the byte
values of those differences are spread.

- `src/` is the verified library (Verus): byte histograms and the exact
  chi-square statistic (`chi_square`), the chunked running tracker
  (`tracker`), frame differencing (`frames`), device labels (`devices`),
  status texts (`messages`, `decimal`), the viewer's state and decisions
  (`viewer`) and the camera worker's decisions (`worker`).
- `app/` is the egui window and the camera thread (eframe, nokhwa), which
  perform the I/O and drawing and ask the library what to do.
- `tests/` exercises the library on concrete values.
