# rewinds

A handheld-console emulator core: an ARM/Thumb decoder, disassembler and
interpreter, the GBA's bus, DMA, timers, interrupts, display, sound and
cartridge, and the facade and debug protocol around them. Everything under
`src/` is written in Verus: each function states what it returns or changes,
and the statement is proved.

- `src/arm` - instruction sets: decoding, text, interpretation against a bus.
- `src/emu_core` - the event timeline and the vocabulary of bus accesses.
- `src/gba` - the machine.
- `src/emulator` - the console-agnostic facade a host drives.
- `src/debug` - the structured debug interface and its request protocol.
- `src/bios.rs` - taking a flat BIOS image out of an assembled object file.
- `app/` - what talks to the outside: sockets, the C surface, audio output.
