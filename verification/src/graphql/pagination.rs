//! Basic, generic pagination types of the query layer, not specific to any
//! particular data source.

use vstd::prelude::*;

use crate::error::ParseError;
use crate::util::{all_digits, dec_val, format_usize, parse_usize};

verus! {

/// An identifier determining where in a paginated sequence of data we are. A
/// cursor is just an offset value converted into a string, so this struct
/// represents the unconverted version.
#[derive(Copy, Clone, Debug)]
pub struct Cursor {
    pub offset: usize,
}

impl Cursor {
    /// Get the pre-parsed offset for this cursor: the element's offset into
    /// the collection, usable against the upstream catalog or the document
    /// store.
    pub fn offset(&self) -> (r: usize)
        ensures
            r == self.offset,
    {
        self.offset
    }

    /// The offset used when this cursor is provided as an `after` pagination
    /// param: the offset of the element directly *after* this cursor in the
    /// sequence.
    pub fn after_offset(&self) -> (r: usize)
        requires
            self.offset < usize::MAX,
        ensures
            r == self.offset + 1,
    {
        self.offset + 1
    }

    /// Get a cursor for an edge from the offset of the page it came from and
    /// the index of the edge within that page: together they give the
    /// element's offset into the whole collection.
    pub fn from_offset_index(offset: usize, index: usize) -> (r: Cursor)
        requires
            offset + index <= usize::MAX,
        ensures
            r.offset == offset + index,
    {
        Cursor { offset: offset + index }
    }

    /// Render this cursor as its wire form, the offset as a decimal
    /// numeral; parsing the result gives this cursor back.
    pub fn to_cursor_string(&self) -> (r: String)
        ensures
            r@.len() >= 1,
            all_digits(r@),
            dec_val(r@) == self.offset,
    {
        format_usize(self.offset)
    }

    /// Parse a cursor string as a plain decimal number; anything else is
    /// rejected, never panicked on.
    pub fn parse(s: &str) -> (r: Result<Cursor, ParseError>)
        ensures
            match r {
                Ok(c) => s@.len() > 0 && all_digits(s@) && c.offset == dec_val(s@),
                Err(_) => s@.len() == 0 || !all_digits(s@) || dec_val(s@) > usize::MAX,
            },
    {
        match parse_usize(s) {
            Some(offset) => Ok(Cursor { offset }),
            None => Err(ParseError {
                message: String::from_str("Invalid pagination cursor"),
                value: s.to_owned(),
            }),
        }
    }
}

/// Information about one page of data within a paginated collection.
#[derive(Clone, Debug)]
pub struct PageInfo {
    pub offset: usize,
    pub page_len: usize,
    pub has_previous_page: bool,
    pub has_next_page: bool,
}

impl PageInfo {
    /// The cursor of the first element of the page; `None` exactly when the
    /// page is empty, since an empty page has no first element.
    pub fn cursor(&self) -> (r: Option<Cursor>)
        ensures
            match r {
                Some(c) => self.page_len > 0 && c.offset == self.offset,
                None => self.page_len == 0,
            },
    {
        if self.page_len > 0 {
            Some(Cursor::from_offset_index(self.offset, 0))
        } else {
            None
        }
    }

    /// The cursor of the last element of the page; `None` exactly when the
    /// page is empty.
    pub fn end_cursor(&self) -> (r: Option<Cursor>)
        requires
            self.offset + self.page_len <= usize::MAX + 1,
        ensures
            match r {
                Some(c) => self.page_len > 0 && c.offset == self.offset + self.page_len - 1,
                None => self.page_len == 0,
            },
    {
        if self.page_len > 0 {
            Some(Cursor::from_offset_index(self.offset, self.page_len - 1))
        } else {
            None
        }
    }

    /// Whether a page precedes this one.
    pub fn previous_page(&self) -> (r: bool)
        ensures
            r == self.has_previous_page,
    {
        self.has_previous_page
    }

    /// Whether a page follows this one.
    pub fn next_page(&self) -> (r: bool)
        ensures
            r == self.has_next_page,
    {
        self.has_next_page
    }
}

} // verus!
