//! Helpers of the character map.
pub mod character_names;
pub mod character_names_data;
pub mod font_list;
pub mod secure_font_coverage;
pub mod utils;
