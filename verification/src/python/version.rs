//! The `major.minor[.patch]` version of a Python installation.
use vstd::prelude::*;

use crate::text::{
    decimal, dotted_parts, dotted_version_spec, dotted_version_wrong_format, parse_int_error_message,
    parse_usize, push_char, push_str, push_usize,
};

verus! {

/// A Python version.
#[derive(Debug, Clone)]
pub struct PythonVersion {
    pub major: usize,
    pub minor: usize,
    pub patch: usize,
}

/// The folder name of an installation: `Python` followed by major and minor
/// and a backslash, e.g. `Python39\`.
pub open spec fn folder_name_text(major: usize, minor: usize) -> Seq<char> {
    "Python"@ + decimal(major as nat) + decimal(minor as nat) + seq!['\\']
}

impl PythonVersion {
    /// A version from its three numbers.
    pub fn new(major: usize, minor: usize, patch: usize) -> (r: Self)
        ensures
            r.major == major,
            r.minor == minor,
            r.patch == patch,
    {
        PythonVersion { major, minor, patch }
    }

    /// The installation folder name, e.g. `Python39\`.
    pub fn get_folder_name(&self) -> (r: String)
        ensures
            r@ == folder_name_text(self.major, self.minor),
    {
        let mut name: String = String::from_str("Python");
        push_usize(&mut name, self.major);
        push_usize(&mut name, self.minor);
        push_char(&mut name, '\\');
        proof {
            reveal_strlit("Python");
        }
        assert(name@ =~= folder_name_text(self.major, self.minor));
        name
    }

    /// `(major, minor)`.
    pub fn get_version(&self) -> (r: (usize, usize))
        ensures
            r == (self.major, self.minor),
    {
        (self.major, self.minor)
    }

    /// `(major, minor, patch)`.
    pub fn get_3p_version(&self) -> (r: (usize, usize, usize))
        ensures
            r == (self.major, self.minor, self.patch),
    {
        (self.major, self.minor, self.patch)
    }

    /// `major.minor`.
    pub fn get_version_string(&self) -> (r: String)
        ensures
            r@ == decimal(self.major as nat) + seq!['.'] + decimal(self.minor as nat),
    {
        let mut s: String = String::new();
        push_usize(&mut s, self.major);
        push_char(&mut s, '.');
        push_usize(&mut s, self.minor);
        assert(s@ =~= decimal(self.major as nat) + seq!['.'] + decimal(self.minor as nat));
        s
    }
}

/// Why `PythonVersion::from_str` rejected its input.
#[derive(Debug)]
pub enum ParseVersionError {
    WrongFormat,
    ParseError(std::num::ParseIntError),
}

impl ParseVersionError {
    /// The message of the error: a format hint, or the message of the number
    /// that failed to parse.
    pub fn describe(&self) -> (r: String)
        ensures
            self is WrongFormat ==> r@ == "expected a version in this format => x.y"@,
    {
        match self {
            ParseVersionError::WrongFormat => String::from_str("expected a version in this format => x.y"),
            ParseVersionError::ParseError(e) => parse_int_error_message(e),
        }
    }
}

impl PythonVersion {
    /// Parses `major.minor[.patch]`; surrounding white space and empty pieces
    /// are ignored and a missing patch is 0.
    pub fn from_str(s: &str) -> (r: Result<Self, ParseVersionError>)
        ensures
            match dotted_version_spec(s@) {
                Some(t) => r matches Ok(v) && t == (v.major, v.minor, v.patch),
                None => if dotted_version_wrong_format(s@) {
                    r matches Err(ParseVersionError::WrongFormat)
                } else {
                    r matches Err(ParseVersionError::ParseError(_))
                },
            },
    {
        let parts: Vec<String> = dotted_parts(s);
        if parts.len() < 1 {
            return Err(ParseVersionError::WrongFormat);
        }
        let major: usize = match parse_usize(parts[0].as_str()) {
            Ok(n) => n,
            Err(e) => return Err(ParseVersionError::ParseError(e)),
        };
        if parts.len() < 2 {
            return Err(ParseVersionError::WrongFormat);
        }
        let minor: usize = match parse_usize(parts[1].as_str()) {
            Ok(n) => n,
            Err(e) => return Err(ParseVersionError::ParseError(e)),
        };
        let patch: usize = if parts.len() < 3 {
            0
        } else {
            match parse_usize(parts[2].as_str()) {
                Ok(n) => n,
                Err(e) => return Err(ParseVersionError::ParseError(e)),
            }
        };
        Ok(PythonVersion { major, minor, patch })
    }
}

impl std::str::FromStr for PythonVersion {
    type Err = ParseVersionError;

    fn from_str(s: &str) -> Result<Self, Self::Err> {
        PythonVersion::from_str(s)
    }
}

} // verus!
