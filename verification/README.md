# libkernel

The logic of a small 32-bit x86 hobby kernel, verified with Verus.

- `src/datastructures`: a ring buffer, the producer/consumer queue and a
  buffered queue, each a fixed-capacity FIFO whose contracts speak of the
  sequence of items it holds. The producer/consumer queue is a sequential
  model: its methods take `&mut self` and hold no atomics.
- `src/sync`: a spinlock and its guard, likewise a sequential model; a guard
  releases the lock when released or dropped.
- `src/kernel`: scancode decoding and the keyboard queue, the UART register
  encodings and programming sequences, the PIC programming sequence, VGA
  text cells, page-table and interrupt-descriptor layouts, the text
  terminal, the key-event handler and the log line format.
- `src/bootstrap`: the segment descriptors, VGA cells and terminal of the
  bootstrap kernel.

Every function that touches the machine returns the port writes or buffer
stores to perform; `app/` performs them, reads ports and registers, loads
the descriptor tables, installs the interrupt handlers and runs the main
loop.
