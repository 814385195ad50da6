//! The Archer market as an automated market maker: which accounts it needs, how its state follows
//! from their data, what it quotes and which accounts a swap touches.
//!
//! `amm` holds the market maker itself and `model` says what its state is and what follows from it.
//! `laws` says what holds of it as a whole; `market_laws`, `update_laws`, `quote_laws` and
//! `swap_laws` say what each operation does in terms of bytes, fields and places.

pub mod account;
pub mod address;
pub mod amm;
pub mod error;
pub mod laws;
pub mod market_laws;
pub mod model;
pub mod pubkey;
pub mod quote;
pub mod quote_laws;
pub mod state;
pub mod swap;
pub mod swap_laws;
pub mod update_laws;
