//! Checked access with the diagnostics of checked access: unwrapping an
//! `Option` or a `Result`, indexing a slice, and indexing a string slice by
//! byte offsets. Each operation makes the checked lookup. Where that finds
//! a value, the value is returned; where it finds none, the text is
//! returned that a failed checked access reports, with the caller's own
//! message after it. What is done with the text is the caller's choice: no
//! operation here panics.

pub mod decimal;
pub mod note;
pub mod option;
pub mod result;
pub mod slice;
pub mod std_ext;
pub mod text;

pub use crate::option::OptionExt;
pub use crate::result::ResultExt;
pub use crate::slice::{SliceExt, SliceIndexExt};
pub use crate::text::StrExt;
