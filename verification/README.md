# engine

The core of a small browser game engine, verified with Verus.

- `src/asrt.rs`: the task runtime's queue and dirty flag, one scheduling step
  as a state machine that names each task to poll (`StepScan`), and the timed
  step (`StepTimer`).
- `src/task.rs`: the stages of polling one task (`TaskPoll`) over its flags,
  including sending the task's value on.
- `src/event_loop.rs`: what the window event loop does on each event, the order
  of a drawn frame's stages (`FrameProgress`), and when
  it stops.
- `src/meta.rs`: frame timing and frame counting.
- `src/err.rs`: the engine's error value and conversions into it.
- `src/shader.rs`: shader sources and the success rule of a compile or link step.

`app/` holds what runs in the browser around it: winit, imgui, WebGL through
web-sys, futures and channels.
