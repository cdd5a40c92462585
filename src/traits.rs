//! Traits that resources and list responses implement.
use vstd::prelude::*;

verus! {

/// A resource with an identifier.
pub trait Identifiable {
    /// The type of the identifier.
    type Id;

    /// The identifier.
    fn id(&self) -> &Self::Id;
}

/// A page of a list.
pub trait Paginated {
    /// The type of the items.
    type Item;

    /// The items of the page.
    fn items(&self) -> &[Self::Item];

    /// Whether more items follow.
    fn has_more(&self) -> bool;

    /// The cursor of the next page, if any.
    fn next_page_token(&self) -> Option<&str>;

    /// The total number of items, when known.
    fn total_count(&self) -> Option<usize>;
}

/// A field that may hold the whole object or only a reference to it.
pub trait Expandable<T> {
    /// Whether the whole object is there.
    fn is_expanded(&self) -> bool;

    /// The object, when expanded.
    fn expanded(&self) -> Option<&T>;

    /// The identifier's text, when known.
    fn id_ref(&self) -> Option<&str>;
}

/// A page of a list as the API returns it.
#[derive(Debug, Clone)]
pub struct ListResponse<T> {
    /// The items.
    pub data: Vec<T>,
    /// Whether more items follow.
    pub has_more: bool,
    /// The total number of items, when known.
    pub total_count: Option<usize>,
    /// The cursor of the next page, if any.
    pub next_page: Option<String>,
}

impl<T> Paginated for ListResponse<T> {
    type Item = T;

    fn items(&self) -> &[T] {
        self.data.as_slice()
    }

    fn has_more(&self) -> bool {
        self.has_more
    }

    fn next_page_token(&self) -> Option<&str> {
        match &self.next_page {
            Some(s) => Some(s.as_str()),
            None => None,
        }
    }

    fn total_count(&self) -> Option<usize> {
        self.total_count
    }
}

} // verus!
