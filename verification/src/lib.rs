//! Decision logic for loading the bundled terminal font into DirectWrite
//! and for assembling the glyph fallback cascade.

pub mod hresult;
pub mod range_query;
pub mod unicode_range;
pub mod utf16;
pub mod cascade;
pub mod bundle;
