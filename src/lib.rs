//! A number-guessing game driven by an infrared remote: edge timings are decoded into
//! remote commands, debounced, mapped to symbols, and fed to a guess accumulator that
//! judges each submitted guess against a secret number.

pub mod accumulator;
pub mod debounce;
pub mod decoder;
pub mod game;
pub mod number;
pub mod pipeline;
pub mod symbol;
