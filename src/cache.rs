use vstd::prelude::*;

verus! {

/// A second write to the cached path was attempted.
#[derive(Clone, Copy, Debug, PartialEq, Eq, Structural)]
pub enum CacheError {
    CacheWriteConflict,
}

/// A single-assignment cell holding the resolved binary path.
pub struct CachedPath {
    value: Option<String>,
}

/// The cell after an attempt to store `p`, and whether the attempt was accepted.
pub open spec fn after_set(c: Option<Seq<char>>, p: Seq<char>) -> (Option<Seq<char>>, bool) {
    match c {
        Some(v) => (Some(v), false),
        None => (Some(p), true),
    }
}

impl View for CachedPath {
    type V = Option<Seq<char>>;

    closed spec fn view(&self) -> Option<Seq<char>> {
        match self.value {
            Some(s) => Some(s@),
            None => None,
        }
    }
}

impl CachedPath {
    pub fn new() -> (r: CachedPath)
        ensures
            r@ is None,
    {
        CachedPath { value: None }
    }

    pub fn get(&self) -> (r: Option<String>)
        ensures
            match r {
                Some(s) => self@ == Some(s@),
                None => self@ is None,
            },
    {
        match &self.value {
            Some(s) => Some(s.clone()),
            None => None,
        }
    }

    pub fn is_set(&self) -> (r: bool)
        ensures
            r == self@ is Some,
    {
        self.value.is_some()
    }

    /// Stores `path` if the cell is empty; a populated cell is never overwritten.
    pub fn set(&mut self, path: String) -> (r: Result<(), CacheError>)
        ensures
            (final(self)@, r is Ok) == after_set(old(self)@, path@),
            r is Err ==> r == Err::<(), CacheError>(CacheError::CacheWriteConflict),
    {
        if self.value.is_some() {
            Err(CacheError::CacheWriteConflict)
        } else {
            self.value = Some(path);
            Ok(())
        }
    }
}

/// Once a write has been accepted, any later write is rejected and the stored
/// value stays the one first written.
pub proof fn lemma_write_once(c: Option<Seq<char>>, first: Seq<char>, second: Seq<char>)
    ensures
        after_set(c, first).1 ==> after_set(c, first).0 == Some(first),
        !after_set(after_set(c, first).0, second).1,
        after_set(after_set(c, first).0, second).0 == after_set(c, first).0,
        c is Some ==> after_set(c, first) == (c, false),
{
}

} // verus!
