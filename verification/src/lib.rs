//! Extraction of a storage device's live self-test status from a structured
//! diagnostic report, together with the enumeration of its expected-duration
//! table.
//!
//! The report is modelled as a generic key-value tree ([`json::JsonValue`]);
//! the extractor locates the self-test subsection and decodes it into a
//! [`self_test::SmartCtlSelfTest`] with validated optionality, and the
//! enumerator turns the duration table into an ordered list of
//! `(test type, minutes)` pairs, failing hard on any malformed present entry.

pub mod json;
pub mod text_util;
