//! Models of the emulated peripherals: the keyboard key alphabet and the
//! audio device list logic.  The OS-level emulation itself is an external
//! capability; only its data and decisions live here.

pub mod audio;
pub mod keyboard;
