# nova_core

The logic of a driver for NVIDIA GPUs that are run by a GSP (GPU System Processor), written and
verified in Verus.

* `src/` is the verified library. It touches no hardware: it says what to write, what to send and
  what to do next, and is handed what was read or received.
  * `gpu`, `regs`, `driver`, `vgpu`: what a GPU is, and the order in which it is brought up.
  * `mm`: VRAM ranges, allocators, placements, page tables, and the windows onto VRAM.
  * `irq`: the interrupt tree, and the handlers of its vectors.
  * `falcon`, `fb`, `firmware`: the microcontrollers and the images that they run.
  * `fsp`, `mctp`: messages to the FSP, which boots the GSP on newer GPUs.
  * `gsp`: the messages, the boot and the log buffers of the GSP. `gsp::nvkv` encodes and decodes
    streams of keys and values.
  * `bits`, `bytes`, `num`, `error`: what the others are built from.
* `app/` drives the hardware: it performs what the library asks for through the traits in
  `app/hw.rs` and the modules beside it, and hands back the results.
* `tests/` runs the library on concrete values.

Laws that hold across several functions are public proof functions whose names begin with `law_`.
