pub mod gdt;
pub mod interrupts;
pub mod io;
pub mod term;
pub mod vga;
