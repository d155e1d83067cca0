# tweakfls

Verified planning for an Android performance tuner: the boot sequence, the
performance, balanced and eco profiles, the vendor-specific GPU, bus and
memory settings (MediaTek, Snapdragon, Exynos, Unisoc, Tensor), and the
utility requests (governors, I/O scheduler, bypass charging, refresh rate,
renderer, trim, Do Not Disturb).

- `src/` is the library, verified with Verus. It reads nothing and writes
  nothing: it takes what was read of the device (property values, file
  texts, directory listings, command output) and returns the plan of steps
  to take (`plan::SysWrite`, `plan::Step`), each with a contract over the
  texts involved.
- `app/` is the program around it: it reads the device, calls the library,
  and performs the steps; the floating-point SurfaceFlinger latency tune and
  the color scheme stay there.
- `tests/` runs the library on concrete inputs.
