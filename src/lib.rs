//! Short spellings of everyday operations, each offered both as a free
//! function and as a method:
//!
//! - `C`: duplicate a value (`Clone`)
//! - `O`: materialise an owned value from a borrowed view (`ToOwned`)
//! - `S`: render a value as text (`ToString`)
//! - `I`: deliberately drop a `Result`
//! - `X`: take the value out of an `Option` or a `Result`, where its absence
//!   cannot happen
#![allow(non_snake_case)]

pub mod duplicate;
pub mod expect;
pub mod ignore;
pub mod owned;
pub mod render;

pub use duplicate::{C, PowerClone};
pub use expect::{PowerExpect, X};
pub use ignore::{I, ResultIgnore};
pub use owned::{O, PowerToOwned};
pub use render::{PowerToString, S};
