//! What the dialogs of the character map say.
pub mod help_dialog;
