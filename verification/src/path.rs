//! The project root as given on the command line.

use std::convert::Infallible;
use std::ops::{Deref, DerefMut};
use std::path::{Path, PathBuf};
use std::str::FromStr;
use vstd::prelude::*;

verus! {

/// `std::path::PathBuf`, an owned path; nothing inside it is visible to
/// proofs.
#[verifier::external_type_specification]
#[verifier::external_body]
pub struct ExPathBuf(PathBuf);

/// `std::path::Path`, which a `PathBuf` dereferences to.
#[verifier::external_type_specification]
#[verifier::external_body]
pub struct ExPath(Path);

/// The path that `PathBuf::from` makes of `text`.
pub uninterp spec fn path_of(text: Seq<char>) -> PathBuf;

/// `PathBuf::from` on a string slice. The path depends on the text alone;
/// the contract gives it its name.
#[verifier::external_body]
fn path_from_text(text: &str) -> (path: PathBuf)
    ensures
        path == path_of(text@),
{
    PathBuf::from(text)
}

/// `PathBuf::clone` gives back a path equal to the one it was called on.
pub assume_specification[ <PathBuf as Clone>::clone ](path: &PathBuf) -> (copy: PathBuf)
    ensures
        copy == *path,
;

/// A filesystem path that can be read from a command-line argument.
pub struct PathWrapper {
    path: PathBuf,
}

impl View for PathWrapper {
    type V = PathBuf;

    closed spec fn view(&self) -> PathBuf {
        self.path
    }
}

impl PathWrapper {
    /// Wraps `path`.
    pub fn new(path: PathBuf) -> (wrapper: Self)
        ensures
            wrapper@ == path,
    {
        Self { path }
    }
}

impl Clone for PathWrapper {
    fn clone(&self) -> (copy: Self)
        ensures
            copy@ == self@,
    {
        Self { path: self.path.clone() }
    }
}

impl Default for PathWrapper {
    /// The current directory, `.`.
    fn default() -> (wrapper: Self)
        ensures
            wrapper@ == path_of("."@),
    {
        Self::new(path_from_text("."))
    }
}

impl FromStr for PathWrapper {
    type Err = Infallible;

    /// Reads a path from `s`. Every string is a path, so this never fails.
    fn from_str(s: &str) -> (r: Result<Self, Infallible>)
        ensures
            r matches Ok(wrapper) && wrapper@ == path_of(s@),
    {
        Ok(Self::new(path_from_text(s)))
    }
}

impl Deref for PathWrapper {
    type Target = PathBuf;

    fn deref(&self) -> (path: &PathBuf)
        ensures
            *path == self@,
    {
        &self.path
    }
}

impl DerefMut for PathWrapper {
    fn deref_mut(&mut self) -> (path: &mut PathBuf)
        ensures
            *path == old(self)@,
            final(self)@ == *final(path),
    {
        &mut self.path
    }
}

} // verus!
