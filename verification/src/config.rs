//! The resolved configuration: an ordered list of source names and a
//! single truncation mode.
//!
//! The two modes are mutually exclusive; a byte count, when given,
//! suppresses any line count, and with neither given the mode defaults
//! to the first ten lines.

use vstd::prelude::*;
use vstd::string::StringExecFns;
use crate::parse::{count_value, parse_positive_int, valid_count};

verus! {

/// The truncation policy: a maximum number of lines or of bytes.
/// The count is always at least one.
#[derive(Clone, Copy, Debug, PartialEq, Eq, Structural)]
pub enum ReadType {
    Lines(usize),
    Bytes(usize),
}

impl ReadType {
    /// The count of either variant is strictly positive.
    pub open spec fn wf(self) -> bool {
        match self {
            ReadType::Lines(n) => n >= 1,
            ReadType::Bytes(n) => n >= 1,
        }
    }

    pub fn new_lines(lines: usize) -> (r: Self)
        requires
            lines >= 1,
        ensures
            r == ReadType::Lines(lines),
            r.wf(),
    {
        Self::Lines(lines)
    }

    pub fn new_bytes(bytes: usize) -> (r: Self)
        requires
            bytes >= 1,
        ensures
            r == ReadType::Bytes(bytes),
            r.wf(),
    {
        Self::Bytes(bytes)
    }
}

/// The validated configuration: source names in the order given, and
/// the truncation mode in effect. Built once, never mutated.
#[derive(Debug)]
pub struct Config {
    pub files: Vec<String>,
    pub read: ReadType,
}

impl Config {
    /// At least one source is named and the mode's count is positive.
    pub open spec fn wf(self) -> bool {
        self.files@.len() > 0 && self.read.wf()
    }

    pub fn new(files: Vec<String>, read: ReadType) -> (r: Self)
        requires
            files@.len() > 0,
            read.wf(),
        ensures
            r.files == files,
            r.read == read,
            r.wf(),
    {
        Config { files, read }
    }
}

/// Picks the truncation mode from the raw option values: a byte count
/// wins over a line count, and neither given means the first ten lines.
/// A count that fails validation is returned verbatim as the error.
pub fn resolve_mode(lines: Option<&str>, bytes: Option<&str>) -> (r: Result<ReadType, String>)
    ensures
        match r {
            Ok(m) => {
                &&& m.wf()
                &&& match bytes {
                    Some(b) => valid_count(b@) && m == ReadType::Bytes(count_value(b@) as usize),
                    None => match lines {
                        Some(l) => valid_count(l@) && m == ReadType::Lines(
                            count_value(l@) as usize,
                        ),
                        None => m == ReadType::Lines(10usize),
                    },
                }
            },
            Err(e) => match bytes {
                Some(b) => !valid_count(b@) && e@ == b@,
                None => match lines {
                    Some(l) => !valid_count(l@) && e@ == l@,
                    None => false,
                },
            },
        },
{
    match bytes {
        Some(b) => {
            let n = parse_positive_int(b)?;
            Ok(ReadType::new_bytes(n))
        },
        None => match lines {
            Some(l) => {
                let n = parse_positive_int(l)?;
                Ok(ReadType::new_lines(n))
            },
            None => Ok(ReadType::new_lines(10)),
        },
    }
}

/// Defaults an empty source list to the standard-input sentinel `-`;
/// a nonempty list is kept as given, order preserved.
pub fn resolve_files(names: Vec<String>) -> (r: Vec<String>)
    ensures
        names@.len() > 0 ==> r == names,
        names@.len() == 0 ==> r@.len() == 1 && r@[0]@ == "-"@,
        r@.len() > 0,
{
    if names.len() == 0 {
        let mut r: Vec<String> = Vec::new();
        r.push(String::from_str("-"));
        r
    } else {
        names
    }
}

/// Builds the whole configuration from the raw option values: the
/// source list defaulted as `resolve_files` says, the mode resolved as
/// `resolve_mode` says; the one failure is an invalid count, returned
/// verbatim.
pub fn resolve_config(names: Vec<String>, lines: Option<&str>, bytes: Option<&str>) -> (r: Result<
    Config,
    String,
>)
    ensures
        match r {
            Ok(c) => {
                &&& c.wf()
                &&& names@.len() > 0 ==> c.files == names
                &&& names@.len() == 0 ==> c.files@.len() == 1 && c.files@[0]@ == "-"@
                &&& match bytes {
                    Some(b) => valid_count(b@) && c.read == ReadType::Bytes(
                        count_value(b@) as usize,
                    ),
                    None => match lines {
                        Some(l) => valid_count(l@) && c.read == ReadType::Lines(
                            count_value(l@) as usize,
                        ),
                        None => c.read == ReadType::Lines(10usize),
                    },
                }
            },
            Err(e) => match bytes {
                Some(b) => !valid_count(b@) && e@ == b@,
                None => match lines {
                    Some(l) => !valid_count(l@) && e@ == l@,
                    None => false,
                },
            },
        },
{
    let read = resolve_mode(lines, bytes)?;
    let files = resolve_files(names);
    Ok(Config::new(files, read))
}

} // verus!
