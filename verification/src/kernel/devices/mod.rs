pub mod keyboard;
pub mod pic;
pub mod serial;
pub mod vga;
