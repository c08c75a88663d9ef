//! The structured selector records produced by parsing.
//!
//! All four types are immutable value records: constructed once, by the
//! parser or by a caller composing segments programmatically, and never
//! mutated afterward.

use vstd::prelude::*;

verus! {

/// One segment of a moniker or node-path pattern, or a property pattern.
#[derive(Clone, Debug, PartialEq, Eq)]
pub enum StringSelector {
    /// A literal/wildcard pattern, interpreted per the escaping and wildcard
    /// grammar.
    StringPattern(String),
    /// A literal value to be matched exactly, after accounting for the same
    /// escaping used when sanitizing runtime strings.
    ExactMatch(String),
}

/// Identifies a hierarchy owner by an ordered sequence of segments, each
/// matching one level of the owner-identifying path ("moniker").
#[derive(Clone, Debug, PartialEq, Eq)]
pub struct ComponentSelector {
    /// The moniker segments; required and non-empty for a valid selector.
    pub moniker_segments: Option<Vec<StringSelector>>,
}

/// Selects nodes inside a hierarchy, and a property on the selected nodes.
#[derive(Clone, Debug, PartialEq, Eq)]
pub struct TreeSelector {
    /// Segments of the node path, each matching one level; required and
    /// non-empty for a valid selector.
    pub node_path: Option<Vec<StringSelector>>,
    /// The single pattern matched against a property name on the selected
    /// nodes; required for a valid selector.
    pub target_properties: Option<StringSelector>,
}

/// A complete selector: a hierarchy owner pattern plus a tree pattern. This is
/// the unit produced by parsing one selector string.
#[derive(Clone, Debug, PartialEq, Eq)]
pub struct Selector {
    pub component_selector: ComponentSelector,
    pub tree_selector: TreeSelector,
}

impl StringSelector {
    /// The text carried by the segment, whichever variant it is.
    pub open spec fn text(&self) -> Seq<char> {
        match self {
            StringSelector::StringPattern(p) => p@,
            StringSelector::ExactMatch(e) => e@,
        }
    }

    /// Whether the segment is a `StringPattern`.
    pub open spec fn is_pattern(&self) -> bool {
        self matches StringSelector::StringPattern(_)
    }
}

/// Whether every segment of `v` is a `StringPattern` and their texts are
/// exactly `texts`, in order.
pub open spec fn segments_are_patterns(v: Seq<StringSelector>, texts: Seq<Seq<char>>) -> bool {
    &&& v.len() == texts.len()
    &&& forall|i: int| 0 <= i < v.len() ==> #[trigger] v[i].is_pattern() && v[i].text() == texts[i]
}

impl ComponentSelector {
    /// A component selector with no fields set.
    pub fn empty() -> (r: ComponentSelector)
        ensures
            r.moniker_segments is None,
    {
        ComponentSelector { moniker_segments: None }
    }
}

impl TreeSelector {
    /// A tree selector with no fields set.
    pub fn empty() -> (r: TreeSelector)
        ensures
            r.node_path is None,
            r.target_properties is None,
    {
        TreeSelector { node_path: None, target_properties: None }
    }
}

} // verus!
