//! A multi-format codec dispatcher: given a textual blob, it tries each
//! serialization format that the current configuration enables, in a fixed
//! priority order, and decodes the blob into a per-language statistics map;
//! symmetrically, it serializes such a map back into any one requested
//! format. Which formats are usable is a configuration-time fact, captured
//! by a capability set that also drives the diagnostic messages shown when
//! no enabled format accepts an input.

pub mod codec;
pub mod dispatch;
pub mod format;
pub mod report;
