//! The failures this library reports, each with the path or name that a
//! maintainer needs to find the cause.

use vstd::prelude::*;

verus! {

/// An asset could not be fetched or decoded.
#[derive(Debug, PartialEq, Eq)]
pub struct LoadError {
    /// The identifier the asset was requested under.
    pub path: String,
    /// What the host reported.
    pub reason: String,
}

/// The text of a [`LoadError`] for the given path and reason.
pub open spec fn spec_load_message(path: Seq<char>, reason: Seq<char>) -> Seq<char> {
    "could not load "@ + path + ": "@ + reason
}

impl LoadError {
    /// Builds the error for `path` with the host's `reason`.
    pub fn new(path: String, reason: String) -> (e: LoadError)
        ensures
            e == (LoadError { path, reason }),
    {
        LoadError { path, reason }
    }

    /// The diagnostic shown when startup is abandoned.
    pub fn message(&self) -> (s: String)
        ensures
            s@ == spec_load_message(self.path@, self.reason@),
    {
        let mut s = String::from_str("could not load ");
        s.append(self.path.as_str());
        s.append(": ");
        s.append(self.reason.as_str());
        s
    }
}

impl Clone for LoadError {
    fn clone(&self) -> (e: LoadError)
        ensures
            e == *self,
    {
        LoadError { path: self.path.clone(), reason: self.reason.clone() }
    }
}

/// A sheet descriptor is malformed.
#[derive(Debug, PartialEq, Eq)]
pub enum ParseError {
    /// The descriptor text could not be read as a sheet at all.
    Malformed { detail: String },
    /// Two frames of the descriptor carry the same name.
    DuplicateFrame { name: String },
}

/// The text of a [`ParseError`].
pub open spec fn spec_parse_message(e: ParseError) -> Seq<char> {
    match e {
        ParseError::Malformed { detail } => "malformed sheet descriptor: "@ + detail@,
        ParseError::DuplicateFrame { name } => "duplicate frame in sheet descriptor: "@ + name@,
    }
}

impl ParseError {
    /// The diagnostic shown when startup is abandoned.
    pub fn message(&self) -> (s: String)
        ensures
            s@ == spec_parse_message(*self),
    {
        match self {
            ParseError::Malformed { detail } => {
                let mut s = String::from_str("malformed sheet descriptor: ");
                s.append(detail.as_str());
                s
            },
            ParseError::DuplicateFrame { name } => {
                let mut s = String::from_str("duplicate frame in sheet descriptor: ");
                s.append(name.as_str());
                s
            },
        }
    }
}

/// A frame name has no rectangle in the sprite sheet.
#[derive(Debug, PartialEq, Eq)]
pub struct FrameNotFound {
    /// The name that was looked up.
    pub name: String,
}

/// The text of a [`FrameNotFound`] for the given name.
pub open spec fn spec_missing_frame_message(name: Seq<char>) -> Seq<char> {
    "frame not found: "@ + name
}

impl FrameNotFound {
    /// The diagnostic shown when a tick cannot find its frame.
    pub fn message(&self) -> (s: String)
        ensures
            s@ == spec_missing_frame_message(self.name@),
    {
        let mut s = String::from_str("frame not found: ");
        s.append(self.name.as_str());
        s
    }
}

/// Why startup was abandoned.
#[derive(Debug, PartialEq, Eq)]
pub enum StartupError {
    /// The descriptor or the image could not be loaded.
    Load(LoadError),
    /// The descriptor was loaded but is malformed.
    Parse(ParseError),
}

/// The text of a [`StartupError`].
pub open spec fn spec_startup_message(e: StartupError) -> Seq<char> {
    match e {
        StartupError::Load(inner) => spec_load_message(inner.path@, inner.reason@),
        StartupError::Parse(inner) => spec_parse_message(inner),
    }
}

impl StartupError {
    /// The diagnostic shown when startup is abandoned.
    pub fn message(&self) -> (s: String)
        ensures
            s@ == spec_startup_message(*self),
    {
        match self {
            StartupError::Load(inner) => inner.message(),
            StartupError::Parse(inner) => inner.message(),
        }
    }
}

} // verus!
