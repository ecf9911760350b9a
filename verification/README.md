# apple2_core

The core of an Apple II emulator, written in Verus: the 6502/65C02 CPU, the
memory bus with its soft switches and paging, the slot cards (Disk II with
WOZ/NIB/DSK media, hard disk, serial card, mouse, clocks, Z80 card, VidHD,
the Mockingboard family of sound cards, Uthernet), and ProDOS / DOS 3.3
image creation. Each public function states what it does in its
`requires` / `ensures`, and Verus proves the code against those contracts;
laws that relate several calls (write then read, save then load, push then
pull, the disk motor and SHR flags over any run of calls) are public proof
functions.

Layout:

- `src/` — the verified library (`cpu`, `bus`, `cards`, `prodos`,
  `emulator`).
- `tests/` — tests of the library on concrete values.
- `app/` — the host side: file and network I/O, floating-point audio
  synthesis, serializable copies of the state types.
