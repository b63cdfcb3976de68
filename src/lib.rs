//! A message-in-a-bottle exchange: actors throw bottles holding a message
//! and optionally escrowed lamports, and other actors retrieve them, each
//! kind of operation limited per actor and per day.

pub mod bag;
pub mod layout;
pub mod program;
pub mod selector;
