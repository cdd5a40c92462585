//! Cursor pagination: a multi-page list endpoint read as one sequence of items.
//!
//! The first page is fetched at the endpoint with the caller's query; each
//! later page at the cursor that the previous page gave, verbatim. Reading
//! stops at a page with no items, at a page with no cursor, and after a page
//! that could not be fetched. An item that could not be read is yielded as an
//! error in its place and reading goes on, within the page and across pages:
//! one policy for both.
use vstd::prelude::*;
use crate::error::Error;
use crate::json::{json_get, json_as_str, json_as_array, json_clone, string_member, array_member, opt_text};

verus! {

/// Which page to fetch next.
#[derive(Debug)]
pub enum PageRequest {
    /// The endpoint itself, with the initial query.
    First,
    /// The cursor that the previous page gave, with no query added.
    Cursor(String),
}

/// The state of one paginated read.
#[derive(Debug)]
pub struct Paginator {
    /// Whether the first page has been received.
    pub started: bool,
    /// The cursor of the next page, while reading goes on.
    pub next_cursor: Option<String>,
    /// Whether reading has ended.
    pub done: bool,
}

/// Whether reading ends after a page with these items and this cursor.
pub open spec fn ends_after_page<T>(items: Seq<Result<T, Error>>, next: Option<String>) -> bool {
    items.len() == 0 || next is None
}

impl Paginator {
    /// Between pages, a reader that goes on knows where to go.
    pub open spec fn wf(&self) -> bool {
        self.started && !self.done ==> self.next_cursor is Some
    }

    /// A read that has fetched nothing yet.
    pub fn new() -> (r: Paginator)
        ensures
            r.wf(),
            !r.started,
            !r.done,
            r.next_cursor is None,
    {
        Paginator { started: false, next_cursor: None, done: false }
    }

    /// The page to fetch next, or `None` once reading has ended.
    pub fn next_request(&self) -> (r: Option<PageRequest>)
        requires
            self.wf(),
        ensures
            self.done ==> r is None,
            !self.done && !self.started ==> r matches Some(PageRequest::First),
            !self.done && self.started ==> (r matches Some(PageRequest::Cursor(c))
                && self.next_cursor matches Some(n) && c@ == n@),
    {
        if self.done {
            None
        } else if !self.started {
            Some(PageRequest::First)
        } else {
            match &self.next_cursor {
                Some(c) => Some(PageRequest::Cursor(c.clone())),
                None => None,
            }
        }
    }

    /// Takes in a fetched page: its items, each read or failed, and its cursor.
    /// Returns the items to yield, all of them and in order.
    pub fn on_page<T>(&mut self, items: Vec<Result<T, Error>>, next: Option<String>) -> (r: Vec<Result<T, Error>>)
        requires
            !old(self).done,
        ensures
            final(self).wf(),
            r@ == items@,
            final(self).started,
            final(self).done == ends_after_page(items@, next),
            !final(self).done ==> final(self).next_cursor == next,
    {
        self.started = true;
        if items.len() == 0 || next.is_none() {
            self.done = true;
            self.next_cursor = None;
        } else {
            self.next_cursor = next;
        }
        items
    }

    /// Takes in a page that could not be fetched: reading ends, and the error
    /// is yielded as it is.
    pub fn on_fetch_error(&mut self, e: Error) -> (r: Error)
        ensures
            final(self).wf(),
            final(self).done,
            r == e,
    {
        self.done = true;
        e
    }
}

/// The items of a list envelope: the elements of its `data` array, none when
/// there is no such array.
pub open spec fn page_items(page: serde_json::Value) -> Seq<serde_json::Value> {
    match array_member(page, "data"@) {
        Some(a) => a,
        None => seq![],
    }
}

/// The cursor of a list envelope: the string under `next_page` when that
/// member is a string, else the string under `next`.
pub open spec fn page_cursor(page: serde_json::Value) -> Option<Seq<char>> {
    if string_member(page, "next_page"@) is Some {
        string_member(page, "next_page"@)
    } else {
        string_member(page, "next"@)
    }
}

/// Reads a list envelope: the elements of its `data` array, in order (none
/// when there is no such array), and its cursor, the string under
/// `next_page` when that member is a string, else the string under `next`.
pub fn read_page(page: &serde_json::Value) -> (r: (Vec<serde_json::Value>, Option<String>))
    ensures
        r.0@ == page_items(*page),
        opt_text(r.1) == page_cursor(*page),
{
    let mut items: Vec<serde_json::Value> = Vec::new();
    match json_get(page, "data") {
        Some(d) => match json_as_array(d) {
            Some(list) => {
                let mut i: usize = 0;
                while i < list.len()
                    invariant
                        i <= list@.len(),
                        items@ == list@.take(i as int),
                    decreases list@.len() - i,
                {
                    items.push(json_clone(&list[i]));
                    i = i + 1;
                    assert(items@ =~= list@.take(i as int));
                }
                assert(items@ =~= list@);
            },
            None => {},
        },
        None => {},
    }
    let first = match json_get(page, "next_page") {
        Some(n) => json_as_str(n),
        None => None,
    };
    let cursor = match first {
        Some(c) => Some(c),
        None => match json_get(page, "next") {
            Some(n) => json_as_str(n),
            None => None,
        },
    };
    (items, cursor)
}

} // verus!
