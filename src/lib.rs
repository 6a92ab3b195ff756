//! Encoding and decoding of 32-bit ARINC 429 avionics bus words: label bit
//! reversal, field packing, odd parity, BNR readings and BCD date and time.

use vstd::prelude::*;

pub mod bits;
pub mod codec;
pub mod error;
pub mod label;
pub mod laws;
pub mod ssm;
pub mod text;
pub mod word;

pub use codec::{decode, encode};
pub use error::ArincError;
pub use label::Label;
pub use ssm::Ssm;
pub use word::{ArincWord, BnrValue};
