//! Wire protocol of a USB-attached GPIO adapter.
//!
//! A host talks to the adapter over a serial byte stream. The stream is
//! cut into frames by SLIP escaping ([`slip`]). Every frame carries a
//! 16-bit code, a payload and a checksum ([`ha`], [`checksum`],
//! [`payload`]). The frames that are requests become typed commands, and
//! the answers become frames again ([`gpio`]). What to do with a completed
//! frame, and how the outcome of a pin operation becomes the answer, is
//! decided in [`dispatch`]; the pins are found by their index in
//! [`gpio_ctrl`].
//!
//! Every executable function carries a contract over a mathematical model
//! of its data, and the laws that relate the functions to each other are
//! public proof functions.

pub mod buffer;
pub mod checksum;
pub mod dispatch;
pub mod gpio;
pub mod gpio_ctrl;
pub mod ha;
pub mod payload;
pub mod protocol;
pub mod slip;
