# rknpu-starry-adapter

The StarryOS adapter for the Rockchip NPU driver, with its decisions verified
by Verus.

- `src/` is the verified library: ioctl command decoding and routing
  (`ioctl`), the little-endian layout of the DRM argument records (`abi`,
  `records`), the generic DRM requests the NPU card answers (`drm`, `card1`),
  the error conversions between the VFS and the NPU service (`error`), the
  published device nodes (`devfs`), the power-up order of the NPU domains
  (`power`), the interrupt handler slots (`irq`), the course of an ioctl
  after routing and what it returns (`request`), and the decisions of a task
  waiting for a submitted job (`waiter`).
- `app/` is the platform glue: devfs registration, interrupt trampolines,
  MMIO power-up, user-memory copies and the calls into the NPU service.
- `tests/` runs the library on concrete requests.
