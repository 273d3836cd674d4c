//! The output directory of a campaign. It holds
//!
//! - `crashes.json`: the journal with all that is needed to repeat a crash;
//! - `crashes/`: one file for each input that triage found to crash the
//!   target, named by the SHA-1 of its bytes.
//!
//! This module decides and names; the caller reads and writes.

use crate::error::ErrorView;
use crate::error::ProFuzzError;
use sha1::Digest;
use sha1::Sha1;
use vstd::prelude::*;
use vstd::string::StringExecFns;

verus! {

/// The SHA-1 digest of a sequence of bytes.
pub uninterp spec fn sha1_of(data: Seq<u8>) -> Seq<u8>;

/// Calls `Sha1::digest` of sha1. Claims that the digest depends on the data
/// alone and has twenty bytes.
#[verifier::external_body]
pub(crate) fn sha1_digest(data: &[u8]) -> (digest: Vec<u8>)
    ensures
        digest@ == sha1_of(data@),
        digest@.len() == 20,
{
    Sha1::digest(data).to_vec()
}

/// The lowercase hex digit of a number below sixteen.
pub open spec fn hex_digit(nibble: u8) -> char {
    if nibble < 10 {
        ((nibble + 48) as u8) as char
    } else {
        ((nibble + 87) as u8) as char
    }
}

/// The bytes written as lowercase hex digits, two for each byte.
pub open spec fn hex_of(data: Seq<u8>) -> Seq<char>
    decreases data.len(),
{
    if data.len() == 0 {
        Seq::empty()
    } else {
        hex_of(data.drop_last()).push(hex_digit(data.last() / 16)).push(hex_digit(data.last() % 16))
    }
}

/// Calls `hex::encode` of hex, which writes each byte as two lowercase hex
/// digits.
#[verifier::external_body]
pub(crate) fn hex_encode(data: &[u8]) -> (text: String)
    ensures
        text@ == hex_of(data@),
{
    hex::encode(data)
}

/// The name of the file that holds a crashing input: the lowercase hex of
/// the digest of its bytes.
pub open spec fn crash_name_of(digest: Seq<u8>) -> Seq<char> {
    hex_of(digest)
}

/// A path below a directory: the directory, a slash and the name.
pub open spec fn below(dir: Seq<char>, name: Seq<char>) -> Seq<char> {
    dir + "/"@ + name
}

/// Manages the output directory: whether a campaign may start in it, and
/// where its files are.
#[derive(Clone, Debug)]
pub struct Output {
    path: String,
}

impl Output {
    /// The path of the directory.
    pub closed spec fn path(&self) -> Seq<char> {
        self.path@
    }

    /// Creates the instance for a directory. `exists` says whether the
    /// directory is there already: then the campaign resumes, which has to be
    /// asked for with `auto_resume`.
    pub fn init(path: String, exists: bool, auto_resume: bool) -> (output: Result<
        Output,
        ProFuzzError,
    >)
        ensures
            output.is_err() == (exists && !auto_resume),
            output matches Err(err) ==> err@ == ErrorView::AutoResumeNotEnabled,
            output matches Ok(dir) ==> dir.path() == path@,
    {
        if exists && !auto_resume {
            return Err(ProFuzzError::AutoResumeNotEnabled);
        }
        Ok(Output { path })
    }

    /// The path of the crash journal.
    pub fn get_crash_file(&self) -> (file: String)
        ensures
            file@ == below(self.path(), "crashes.json"@),
    {
        self.path.clone().concat("/").concat("crashes.json")
    }

    /// The path of the directory of the crashing inputs.
    pub fn get_crash_folder(&self) -> (dir: String)
        ensures
            dir@ == below(self.path(), "crashes"@),
    {
        self.path.clone().concat("/").concat("crashes")
    }

    /// The path of the file that holds a crashing input with the given
    /// digest.
    pub fn crash_path_for_digest(&self, digest: &[u8]) -> (file: String)
        ensures
            file@ == below(below(self.path(), "crashes"@), crash_name_of(digest@)),
    {
        let name = hex_encode(digest);
        self.get_crash_folder().concat("/").concat(name.as_str())
    }

    /// The path of the file that holds a crashing input.
    pub fn crash_path(&self, buffer: &[u8]) -> (file: String)
        ensures
            file@ == below(below(self.path(), "crashes"@), crash_name_of(sha1_of(buffer@))),
    {
        let digest = sha1_digest(buffer);
        self.crash_path_for_digest(digest.as_slice())
    }
}

} // verus!
