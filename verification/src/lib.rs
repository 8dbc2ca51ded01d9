//! Floats stored as raw bits, making them hashable and totally ordered.
//!
//! The types in this crate represent IEEE 754 binary floating point numbers,
//! using unsigned integers to store the raw bits of the floats.  Some of these
//! types represent float formats not supported by the host language.  A
//! limited suite of operations is available that operates directly on the raw
//! bit representation, bypassing the need for native float support: sign
//! queries and sign manipulation, classification, the IEEE 754 `totalOrder`
//! comparison, and clamping.
//!
//! Every operation carries a contract that pins down its result bit for bit,
//! and each format module states and proves the ordering and sign laws that
//! the operations obey.

pub mod bfloat16;
pub mod binary128;
pub mod binary16;
pub mod binary32;
pub mod binary64;
pub mod category;

pub use bfloat16::BF16;
pub use binary128::F128;
pub use binary16::F16;
pub use binary32::F32;
pub use binary64::F64;
pub use category::Category;
