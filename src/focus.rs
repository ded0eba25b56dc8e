//! The focused cell of the grid: at most one key at a time.
use vstd::prelude::*;
use crate::text::str_equals;

verus! {

/// The focused key, if any.
#[derive(Debug)]
pub struct FocusState {
    key: Option<String>,
}

/// The focus after a click on the cell with key `key`.
pub open spec fn toggled(focus: Option<Seq<char>>, key: Seq<char>) -> Option<Seq<char>> {
    if focus == Some(key) {
        None
    } else {
        Some(key)
    }
}

impl View for FocusState {
    type V = Option<Seq<char>>;

    closed spec fn view(&self) -> Option<Seq<char>> {
        match self.key {
            Some(k) => Some(k@),
            None => None,
        }
    }
}

impl FocusState {
    /// Nothing focused.
    pub fn new() -> (r: FocusState)
        ensures
            r@ == None::<Seq<char>>,
    {
        FocusState { key: None }
    }

    /// A click on the cell with key `key`: it clears the focus if `key` is
    /// focused, and focuses `key` otherwise.
    pub fn toggle(&mut self, key: &str)
        ensures
            final(self)@ == toggled(old(self)@, key@),
    {
        let same = match &self.key {
            Some(k) => str_equals(k.as_str(), key),
            None => false,
        };
        if same {
            self.key = None;
        } else {
            self.key = Some(String::from_str(key));
        }
    }

    /// The focused key.
    pub fn key(&self) -> (r: Option<&String>)
        ensures
            match r {
                Some(k) => self@ == Some(k@),
                None => self@ == None::<Seq<char>>,
            },
    {
        match &self.key {
            Some(k) => Some(k),
            None => None,
        }
    }

    /// Whether `key` is the focused key.
    pub fn is_focused(&self, key: &str) -> (r: bool)
        ensures
            r == (self@ == Some(key@)),
    {
        match &self.key {
            Some(k) => str_equals(k.as_str(), key),
            None => false,
        }
    }
}

} // verus!
