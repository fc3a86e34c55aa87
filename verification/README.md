# psp_apis

A verified core for PlayStation Portable programs and their asset tools.

- `src/` is the library, written in Verus: native error codes, colors, the
  GE display-list encoder (`gfx::gl`) and start-up list, vertex layouts, the VRAM allocator,
  textures, the screen set-up (`gfx::Gfx`), audio channels, controller input,
  kernel, file, ATRAC and MP3 handles read from the kernel's replies, the heap
  block layout, the C memory routines, and the texture, model and material
  file formats. Every function carries a contract that Verus proves, except
  four trusted wrappers whose contracts are believed: the sort of the free
  VRAM list (std), the two texel byte casts (bytemuck) and image decoding
  (image).
- `tests/` runs the library on concrete values.
- `app/` is the command-line converter (`texture`, `model`, `material`
  subcommands): it reads the input files, loads models, does the float
  arithmetic, and writes the files that the library builds.

Calls into the operating system are not part of the library: functions that
interpret a system call take the call's reply as an argument.
