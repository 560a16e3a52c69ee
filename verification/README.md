# stroke_canvas

A vector-stroke drawing canvas: strokes are drawn with the mouse, fitted with
cubic Bézier curves when finished, and rendered on the GPU; the camera pans
with space+drag and the arrow/WASD keys, zooms with the wheel, and a double
press of space resets the zoom. Ctrl+Z undoes a stroke, Ctrl+Shift+Z redoes it.

- `src/` is the verified library (Verus): key and mouse handling as a state
  machine (`editor`, `input`, `camera`), the undo history (`history`), the
  per-frame compute and draw plans (`frame`), the Bézier segment and disc
  plans of strokes (`segments`), the segment instance layout (`layout`) and
  icon decoding (`icon`).
- `app/` is the window, GPU and event-loop code around it (winit, wgpu,
  cgmath) and the floating-point geometry: curve fitting, resampling,
  camera matrices.
- `tests/` exercises the library on concrete values.
