//! The text buffer: a rope of characters addressed by line and column, with
//! an optional selection.
mod buffer;
pub mod lines;
mod position;
mod rope;
mod selection;

pub use buffer::{
    Buffer, BufferModel, char_index, clamp, law_insert_then_delete_restores,
    law_selection_splits_text, length_or_zero, lemma_clamp_valid, lemma_valid_index,
    selection_span, valid_position,
};
pub use position::Position;
pub use selection::Selection;
