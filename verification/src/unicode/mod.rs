//! Unicode blocks and the characters they hold.
pub mod char_list_model;
pub mod unicode_blocks_data;
pub mod unicode_entry;
pub mod unicode_set;

pub use char_list_model::{raw_offset_to_filtered_index, UnicodeCharModel};
pub use unicode_entry::UnicodeEntry;
pub use unicode_set::UnicodeSet;
