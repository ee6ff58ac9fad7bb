//! Layout reporting for opaque types.
//!
//! Each [`LayoutEntry`] pairs a public opaque-type name with the measured
//! size and alignment of the internal type that backs it, and with the set of
//! capabilities that must be active for the entry to exist. The reporter
//! filters a table of entries by the active capabilities and renders one line
//! of the form `type: <name>, align: <align>, size: <size>` per active entry.
mod capability;
mod decimal;
mod entry;
mod laws;
mod layout;
mod report;

pub use capability::{Capabilities, Capability};
pub use decimal::{decimal, decimal_string, digit_char, lemma_decimal_plain};
pub use entry::{entry_line, is_active, line_of, type_tag, LayoutEntry};
pub use laws::{
    comma_free, distinct_plain_names, lemma_alignment_bounds, lemma_disable_capability,
    lemma_enable_capability, lemma_one_line_per_active_entry, lemma_report_deterministic, names,
    naming, not_under,
};
pub use layout::TypeLayout;
pub use report::{active_under, lemma_report_push, render, report, report_spec, texts};
