//! Reading a package's identity from the text that the package-inspection
//! tool prints for it.

use vstd::prelude::*;

use crate::decimal::decimal_at_most;
use crate::error::Error;
use crate::general::opt_view;

verus! {

/// Finds the version code, a run of digits in quotes.
pub const VERSION_CODE_PATTERN: &'static str = r"versionCode='(\d+)'";

/// Finds the package name, letters and dots in quotes.
pub const NAME_PATTERN: &'static str = r"name='((?:[[:alpha:]]|\.)+)'";

/// The text of the first group of the leftmost match of `pattern` in
/// `text`, as the regex crate finds it; nothing where the pattern does not
/// compile, nothing matches or the group takes no part in the match.
pub uninterp spec fn regex_first_group(pattern: Seq<char>, text: Seq<char>) -> Option<Seq<char>>;

/// Relies on regex::Regex::new and regex::Regex::captures: compiles the
/// pattern and hands back the first group of the leftmost match.
#[verifier::external_body]
fn first_group(pattern: &str, text: &str) -> (r: Option<String>)
    ensures
        opt_view(r) == regex_first_group(pattern@, text@),
{
    let re = regex::Regex::new(pattern).ok()?;
    let caps = re.captures(text)?;
    caps.get(1).map(|m| m.as_str().to_owned())
}

/// The version code that a captured text gives: a decimal number that fits
/// in 32 bits.
pub open spec fn version_code_from(capture: Option<Seq<char>>) -> Option<u32> {
    match capture {
        Some(c) => match decimal_at_most(c, u32::MAX as nat) {
            Some(v) => Some(v as u32),
            None => None,
        },
        None => None,
    }
}

/// Turns the captured version code into a number; fails where nothing was
/// captured or the capture is not a 32-bit decimal number.
pub fn version_code_from_capture(capture: Option<&str>) -> (r: Result<u32, Error>)
    ensures
        match capture {
            Some(c) => match r {
                Ok(v) => version_code_from(Some(c@)) == Some(v),
                Err(e) => version_code_from(Some(c@)) is None && e is Custom,
            },
            None => r matches Err(Error::Custom(_)),
        },
{
    match capture {
        None => Err(Error::Custom("versionCode not found!".to_owned())),
        Some(c) => match crate::decimal::parse_decimal(c, u32::MAX as u64) {
            Some(v) => Ok(v as u32),
            None => Err(Error::Custom("versionCode is not a valid number!".to_owned())),
        },
    }
}

/// Gets the version code from the inspection tool's output.
pub fn get_version_code(metadata: &str) -> (r: Result<u32, Error>)
    ensures
        match r {
            Ok(v) => version_code_from(regex_first_group(VERSION_CODE_PATTERN@, metadata@))
                == Some(v),
            Err(e) => version_code_from(regex_first_group(VERSION_CODE_PATTERN@, metadata@))
                is None && e is Custom,
        },
{
    let capture = first_group(VERSION_CODE_PATTERN, metadata);
    match capture {
        Some(c) => version_code_from_capture(Some(c.as_str())),
        None => version_code_from_capture(None),
    }
}

/// Turns the captured package name into the name; fails where nothing was
/// captured.
pub fn name_from_capture(capture: Option<&str>) -> (r: Result<String, Error>)
    ensures
        match capture {
            Some(c) => r matches Ok(n) && n@ == c@,
            None => r matches Err(Error::Custom(_)),
        },
{
    match capture {
        Some(c) => Ok(c.to_owned()),
        None => Err(Error::Custom("name not found!".to_owned())),
    }
}

/// Gets the package name from the inspection tool's output.
pub fn get_name(metadata: &str) -> (r: Result<String, Error>)
    ensures
        match regex_first_group(NAME_PATTERN@, metadata@) {
            Some(c) => r matches Ok(n) && n@ == c,
            None => r matches Err(Error::Custom(_)),
        },
{
    let capture = first_group(NAME_PATTERN, metadata);
    match capture {
        Some(c) => name_from_capture(Some(c.as_str())),
        None => name_from_capture(None),
    }
}

} // verus!
