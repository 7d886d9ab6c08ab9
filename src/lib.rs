//! Two independent text renderings for a handful of small value records:
//! a human-readable one with a layout of its own per type, and a diagnostic
//! one that names the type and each of its fields.

pub mod text;
pub mod record;
pub mod indexed_list;
pub mod range;
pub mod color;
pub mod layout;
