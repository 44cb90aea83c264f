//! One Unicode block.
use vstd::prelude::*;

verus! {

/// A Unicode block: the inclusive range of its codepoints and its name.
#[derive(Debug, PartialEq, Eq)]
pub struct UnicodeEntry {
    pub start_index: u32,
    pub description: String,
    pub end_index: u32,
    pub code_plan: u32,
    pub included: bool,
}

impl Clone for UnicodeEntry {
    fn clone(&self) -> (copy: Self)
        ensures
            copy == *self,
    {
        UnicodeEntry {
            start_index: self.start_index,
            description: self.description.clone(),
            end_index: self.end_index,
            code_plan: self.code_plan,
            included: self.included,
        }
    }
}

/// The plane that a codepoint lies in.
pub open spec fn plane_of(code: u32) -> u32 {
    (code / 0x1_0000) % 0x100
}

impl UnicodeEntry {
    /// A block with the plane that its first codepoint lies in.
    pub fn new(start_index: u32, description: &str, end_index: u32, included: bool) -> (entry: Self)
        ensures
            entry.start_index == start_index,
            entry.description@ == description@,
            entry.end_index == end_index,
            entry.code_plan == plane_of(start_index),
            entry.code_plan == (start_index / 0x1_0000) % 0x100,
            entry.included == included,
    {
        assert((start_index & 0xFF_0000) >> 16 == (start_index / 0x1_0000) % 0x100) by (bit_vector);
        UnicodeEntry {
            start_index,
            description: description.to_owned(),
            end_index,
            code_plan: (start_index & 0xFF_0000) >> 16,
            included,
        }
    }

    /// Whether the block holds a codepoint.
    pub fn contains(&self, character: u32) -> (r: bool)
        ensures
            r == (self.start_index <= character <= self.end_index),
    {
        character >= self.start_index && character <= self.end_index
    }
}

}
