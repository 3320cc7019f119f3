//! A small declarative selection-control library: a styleable replacement for a
//! native selection element, with single- and multi-select modes, grouped
//! options, and chip-based removal of multi-selected values.
//!
//! The core is the selection-state reconciliation logic: clicks on leaf options
//! are reported upward as value strings, the root `Select` folds each report
//! into its ordered, duplicate-free selection state, and each render pass
//! re-derives every option's `selected` flag and effective styling from that
//! state. Rendering is modelled as pure derivation: the `select`, `group` and
//! `option` functions map immutable prop descriptors and the current selection
//! to plain render-node values that a host layer can turn into markup.

mod props;
mod render;
mod state;

pub use props::{GroupProps, OptionProps, SelectProps};
pub use render::{group, option, select, Chip, GroupNode, OptionNode, RenderedOption, SelectNode};
pub use render::{chip_rendered, effective_text, group_rendered, option_rendered,
    placeholder_visible};
pub use state::{apply_clicks, first_selected, seq_remove, update_selection, SelectionState};
pub use state::{
    lemma_clicks_preserve_no_duplicates, lemma_multi_select_toggle, lemma_remove_absent_is_noop,
    lemma_single_select_last_click, lemma_toggle_off_then_on,
};
