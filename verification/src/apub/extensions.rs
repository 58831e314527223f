//! What a community document carries beyond the common vocabulary: its
//! category, and whether its content is sensitive.

use vstd::prelude::*;
use crate::text::{decimal_text, i32_to_string};

verus! {

/// The category of a community, as other software reads it.
#[derive(Clone, Debug, Default)]
pub struct GroupCategory {
    /// The number of the category, as text.
    pub identifier: String,
    pub name: String,
}

/// What a community document says beyond the common vocabulary.
#[derive(Clone, Debug, Default)]
pub struct GroupExtension {
    pub category: GroupCategory,
    pub sensitive: bool,
}

impl GroupExtension {
    /// The extension of a community in the category with the given number
    /// and name.
    pub fn new(category_id: i32, category_name: String, sensitive: bool) -> (r: GroupExtension)
        ensures
            r.category.identifier@ == decimal_text(category_id as int),
            r.category.name == category_name,
            r.sensitive == sensitive,
    {
        let group_category = GroupCategory {
            identifier: i32_to_string(category_id),
            name: category_name,
        };
        GroupExtension { category: group_category, sensitive }
    }
}

} // verus!
