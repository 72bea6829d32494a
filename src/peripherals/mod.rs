pub mod systick;
pub mod gpio;
pub mod nvic;
pub mod scb;
pub mod uart;
