//! Plain property bundles for the display layer.
//!
//! The calling UI renders headers, link buttons and project cards around
//! the generated background; these are the bare data types it fills. They
//! carry no rendering logic — presentation stays with the caller.

use vstd::prelude::*;

verus! {

/// A page or section heading.
pub struct HeaderProperties {
    /// The heading text.
    pub text: String,
}

/// A link styled as a button.
pub struct ButtonProperties {
    /// The visible label.
    pub title: String,
    /// The link target.
    pub link: String,
    /// Open the target in a new tab (the historical default).
    pub new_tab: bool,
}

impl ButtonProperties {
    /// A button that opens in a new tab, the historical default.
    pub fn new(title: String, link: String) -> (r: Self)
        ensures
            r.title == title,
            r.link == link,
            r.new_tab,
    {
        ButtonProperties { title, link, new_tab: true }
    }
}

/// A project card: a titled link with a description.
pub struct ProjectProperties {
    /// The project name.
    pub title: String,
    /// The project link.
    pub link: String,
    /// The card's description text.
    pub description: String,
}

} // verus!
