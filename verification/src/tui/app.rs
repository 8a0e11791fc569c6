//! Types shared by the TUI modules: the portrait size setting and a
//! completed tool call as the conversation shows it.

use vstd::prelude::*;

use crate::text::str_eq;

verus! {

/// Portrait size setting.
#[derive(Debug, Clone, Copy, PartialEq, Eq)]
pub enum PortraitSize {
    Small,
    Medium,
    Large,
    Original,
}

/// A completed tool call in the conversation.
pub struct ToolCallItem {
    /// Tool name (`Edit`, `Read`, `Bash`, ...).
    pub name: String,
    /// The tool input, as JSON text.
    pub input_json: String,
    /// The tool's output.
    pub result_preview: String,
    /// Whether the output is shown in full.
    pub is_expanded: bool,
}

/// The setting's name, as `/persona portrait size` accepts it.
pub open spec fn size_name_spec(size: PortraitSize) -> Seq<char> {
    match size {
        PortraitSize::Small => "small"@,
        PortraitSize::Medium => "medium"@,
        PortraitSize::Large => "large"@,
        PortraitSize::Original => "original"@,
    }
}

/// The name of a portrait size (the key the portrait paths are looked up
/// by).
pub fn portrait_size_name(size: PortraitSize) -> (r: &'static str)
    ensures
        r@ == size_name_spec(size),
{
    match size {
        PortraitSize::Small => "small",
        PortraitSize::Medium => "medium",
        PortraitSize::Large => "large",
        PortraitSize::Original => "original",
    }
}

/// The text of an optional path.
pub open spec fn path_text(p: Option<&str>) -> Option<Seq<char>> {
    match p {
        Some(s) => Some(s@),
        None => None,
    }
}

/// Whether setting the portrait size reloads the image: only when the
/// path resolved for the new size differs from the one loaded now (no
/// path counts as a path of its own).
pub fn portrait_needs_reload(current: Option<&str>, target: Option<&str>) -> (r: bool)
    ensures
        r == (path_text(current) != path_text(target)),
{
    match (current, target) {
        (Some(a), Some(b)) => !str_eq(a, b),
        (None, None) => false,
        _ => true,
    }
}

} // verus!
