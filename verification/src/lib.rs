//! Driver for SSD1363-class OLED controllers: 256 by 128 pixels, sixteen grey levels,
//! driven over a bus that tells command bytes from data bytes.
//!
//! [`command`] encodes each controller command as an opcode and its parameter bytes.
//! [`properties`] keeps the display's rotation and drawing window and issues the command
//! sequences that initialise the panel, rotate it, address it and fill it. [`interface`]
//! is the bus as the driver sees it, together with the record of what the driver asked
//! of it; every sending function states its effect on that record.

pub mod command;
pub mod displayrotation;
pub mod displaysize;
pub mod interface;
pub mod properties;
