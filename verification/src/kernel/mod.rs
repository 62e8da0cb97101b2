pub mod console;
pub mod devices;
pub mod idt;
pub mod interrupts;
pub mod io;
pub mod logger;
pub mod mem;
pub mod term;
