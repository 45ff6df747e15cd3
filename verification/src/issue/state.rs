//! The pages and tabs of the issue browser.

use vstd::prelude::*;
use vstd::string::*;

verus! {

/// A page number that names no page.
#[derive(Debug, PartialEq, Eq)]
pub enum PageError {
    InvalidIndex(String),
}

impl PageError {
    /// The message for the user.
    pub fn to_string(&self) -> (message: String)
        ensures
            message@ == match self {
                PageError::InvalidIndex(text) => text@,
            },
    {
        match self {
            PageError::InvalidIndex(text) => text.clone(),
        }
    }
}

/// The pages of the browser: the list of issues, and one issue in detail.
#[derive(Clone, Copy, Debug, PartialEq, Eq, Structural)]
pub enum Page {
    Overview,
    Detail,
}

impl Page {
    /// The number under which the page is kept in the state store.
    pub open spec fn index(self) -> usize {
        match self {
            Page::Overview => 0,
            Page::Detail => 1,
        }
    }

    /// The page with the given number, if there is one.
    pub open spec fn at(index: usize) -> Option<Page> {
        if index == 0 {
            Some(Page::Overview)
        } else if index == 1 {
            Some(Page::Detail)
        } else {
            None
        }
    }

    /// The number of the page. Never fails.
    pub fn try_into(self) -> (result: Result<usize, PageError>)
        ensures
            result is Ok,
            result->Ok_0 == self.index(),
    {
        match self {
            Page::Overview => Ok(0),
            Page::Detail => Ok(1),
        }
    }
}

impl Page {
    /// The page with the given number. Fails for a number that names no page.
    pub fn try_from(value: usize) -> (result: Result<Page, PageError>)
        ensures
            match result {
                Ok(page) => Page::at(value) == Some(page),
                Err(PageError::InvalidIndex(text)) => Page::at(value) is None && text@
                    == "Page index not allowed!"@,
            },
    {
        match value {
            0 => Ok(Page::Overview),
            1 => Ok(Page::Detail),
            _ => Err(PageError::InvalidIndex(String::from_str("Page index not allowed!"))),
        }
    }
}

/// The tabs of the overview.
#[derive(Clone, Copy, Debug, PartialEq, Eq, Structural)]
pub enum Tab {
    Open,
}

impl Tab {
    /// The number under which the tab is kept in the state store.
    pub open spec fn index(self) -> usize {
        0
    }

    /// The number of the tab.
    pub fn number(self) -> (index: usize)
        ensures
            index == self.index(),
    {
        0
    }
}

/// Numbering the pages loses nothing: a page is found again by its number,
/// and no other number names a page.
pub proof fn lemma_page_numbers(index: usize, page: Page)
    ensures
        Page::at(page.index()) == Some(page),
        Page::at(index) == Some(page) ==> page.index() == index,
        index >= 2 ==> Page::at(index) is None,
{
}

} // verus!
