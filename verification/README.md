# sidozdev

The verified core of a USB bootable media creator: partition table and
FAT32 layouts, image inspection (ISO 9660, hybrid images, boot records),
digests, write and read-back decisions, the application state machine and
the texts of its panels, specified and proved with Verus.

- `src/` is the library. Each module states its rules as spec functions and
  proves the executable code against them; `src/laws.rs` holds properties
  that relate several modules (for instance, that the tables the library
  writes are recognised by its own image inspection).
- `tests/` runs the library on concrete values.
- `app/` is the command-line program around it: file and device I/O, the
  background worker, settings storage and logging.
