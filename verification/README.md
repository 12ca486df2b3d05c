# diegos

The logic of DiegOS, a small 32-bit x86 kernel, as a verified library:

- `mem::paging`: page directory and page table entries and their bit
  layouts, virtual address decomposition, `map_pages`, and the start-up
  mapping (first MiB identity-mapped, kernel at 0xC0100000).
- `drivers::screen`: the VGA text-mode frame buffer (cursor, scrolling,
  writing strings) with the port writes that move the hardware cursor.
- `drivers::keyboard`: scan code decoding through the pc-keyboard crate.
- `interrupts::idt`, `interrupts::pic`: gate descriptors, the interrupt
  descriptor table, and the 8259 PIC initialization and end-of-interrupt
  protocol.

`app/` is the kernel around it: port I/O, video memory, control registers,
`lidt`, interrupt handlers and the boot sequence.
