//! Strongly-typed identifiers: a short prefix plus a random suffix.

use vstd::prelude::*;
use vstd::string::StrSliceExecFns;
use vstd::string::StringExecFns;

use crate::errors::IdParseError;
use crate::strutil::is_prefix_of;
use crate::strutil::starts_with_str;

verus! {

/// Length of the random suffix of every public identifier.
pub const NANOID_LENGTH: usize = 12;

/// Relies on `nanoid::format` with the URL-safe alphabet and the default
/// random source: it returns an identifier of exactly `size` characters,
/// each drawn from `A-Za-z0-9_-`.
#[verifier::external_body]
fn random_id_suffix(size: usize) -> (r: String)
    ensures
        r@.len() == size as nat,
{
    nanoid::format(nanoid::rngs::default, &nanoid::alphabet::SAFE, size)
}

/// The identifier of a research job, of the form `job_` plus a random suffix.
#[derive(Debug)]
pub struct JobId {
    id: String,
}

impl View for JobId {
    type V = Seq<char>;

    closed spec fn view(&self) -> Seq<char> {
        self.id@
    }
}

/// A job identifier is well formed when it carries the `job_` prefix and the
/// random suffix of the fixed length.
pub open spec fn job_id_wf(s: Seq<char>) -> bool {
    is_prefix_of("job_"@, s) && s.len() == "job_"@.len() + NANOID_LENGTH
}

impl JobId {
    /// Creates a fresh identifier with a random suffix.
    pub fn new() -> (r: JobId)
        ensures
            job_id_wf(r@),
    {
        proof {
            reveal_strlit("job_");
        }
        let mut id = "job_".to_owned();
        let suffix = random_id_suffix(NANOID_LENGTH);
        id.append(suffix.as_str());
        assert(id@.subrange(0, 4) =~= "job_"@);
        JobId { id }
    }

    /// The full identifier as a string slice.
    pub fn as_str(&self) -> (r: &str)
        ensures
            r@ == self@,
    {
        self.id.as_str()
    }

    /// The full identifier as an owned string.
    pub fn to_string(&self) -> (r: String)
        ensures
            r@ == self@,
    {
        self.id.clone()
    }

    /// The prefix that every job identifier carries.
    pub fn prefix() -> (r: &'static str)
        ensures
            r@ == "job_"@,
    {
        "job_"
    }

    /// Parses an identifier string: it must carry the `job_` prefix and then
    /// a suffix of exactly `NANOID_LENGTH` characters.
    pub fn parse_str(s: &str) -> (r: Result<JobId, IdParseError>)
        ensures
            job_id_wf(s@) ==> (r matches Ok(id) && id@ == s@),
            !is_prefix_of("job_"@, s@) ==> (r matches Err(e) && e matches
                IdParseError::InvalidPrefix { expected, got } && expected@ == "job_"@ && got@
                == s@),
            is_prefix_of("job_"@, s@) && s@.len() != "job_"@.len() + NANOID_LENGTH ==> (r matches
                Err(e) && e matches IdParseError::InvalidLength { expected, got } && expected
                == "job_"@.len() + NANOID_LENGTH && got == s@.len()),
    {
        proof {
            reveal_strlit("job_");
        }
        if !starts_with_str(s, "job_") {
            return Err(IdParseError::InvalidPrefix {
                expected: "job_".to_owned(),
                got: s.to_owned(),
            });
        }
        let len = s.unicode_len();
        if len != 4 + NANOID_LENGTH {
            return Err(IdParseError::InvalidLength { expected: 4 + NANOID_LENGTH, got: len });
        }
        Ok(JobId { id: s.to_owned() })
    }
}

impl Clone for JobId {
    fn clone(&self) -> (r: Self)
        ensures
            r == *self,
    {
        JobId { id: self.id.clone() }
    }
}

impl PartialEq for JobId {
    fn eq(&self, other: &JobId) -> (r: bool) {
        self.id == other.id
    }
}

impl vstd::std_specs::cmp::PartialEqSpecImpl for JobId {
    open spec fn obeys_eq_spec() -> bool {
        true
    }

    open spec fn eq_spec(&self, other: &JobId) -> bool {
        self@ == other@
    }
}

impl core::str::FromStr for JobId {
    type Err = IdParseError;

    fn from_str(s: &str) -> Result<JobId, IdParseError> {
        JobId::parse_str(s)
    }
}

/// The identifier of a collected source, of the form `src_` plus a random
/// suffix.
#[derive(Debug)]
pub struct SourceId {
    id: String,
}

impl View for SourceId {
    type V = Seq<char>;

    closed spec fn view(&self) -> Seq<char> {
        self.id@
    }
}

/// A source identifier is well formed when it carries the `src_` prefix and
/// the random suffix of the fixed length.
pub open spec fn source_id_wf(s: Seq<char>) -> bool {
    is_prefix_of("src_"@, s) && s.len() == "src_"@.len() + NANOID_LENGTH
}

impl SourceId {
    /// Creates a fresh identifier with a random suffix.
    pub fn new() -> (r: SourceId)
        ensures
            source_id_wf(r@),
    {
        proof {
            reveal_strlit("src_");
        }
        let mut id = "src_".to_owned();
        let suffix = random_id_suffix(NANOID_LENGTH);
        id.append(suffix.as_str());
        assert(id@.subrange(0, 4) =~= "src_"@);
        SourceId { id }
    }

    /// The full identifier as a string slice.
    pub fn as_str(&self) -> (r: &str)
        ensures
            r@ == self@,
    {
        self.id.as_str()
    }

    /// The full identifier as an owned string.
    pub fn to_string(&self) -> (r: String)
        ensures
            r@ == self@,
    {
        self.id.clone()
    }

    /// The prefix that every source identifier carries.
    pub fn prefix() -> (r: &'static str)
        ensures
            r@ == "src_"@,
    {
        "src_"
    }

    /// Whether this identifier reads as the given string.
    pub fn matches_str(&self, s: &String) -> (r: bool)
        ensures
            r == (self@ == s@),
    {
        self.id.eq(s)
    }

    /// Parses an identifier string: it must carry the `src_` prefix and then
    /// a suffix of exactly `NANOID_LENGTH` characters.
    pub fn parse_str(s: &str) -> (r: Result<SourceId, IdParseError>)
        ensures
            source_id_wf(s@) ==> (r matches Ok(id) && id@ == s@),
            !is_prefix_of("src_"@, s@) ==> (r matches Err(e) && e matches
                IdParseError::InvalidPrefix { expected, got } && expected@ == "src_"@ && got@
                == s@),
            is_prefix_of("src_"@, s@) && s@.len() != "src_"@.len() + NANOID_LENGTH ==> (r matches
                Err(e) && e matches IdParseError::InvalidLength { expected, got } && expected
                == "src_"@.len() + NANOID_LENGTH && got == s@.len()),
    {
        proof {
            reveal_strlit("src_");
        }
        if !starts_with_str(s, "src_") {
            return Err(IdParseError::InvalidPrefix {
                expected: "src_".to_owned(),
                got: s.to_owned(),
            });
        }
        let len = s.unicode_len();
        if len != 4 + NANOID_LENGTH {
            return Err(IdParseError::InvalidLength { expected: 4 + NANOID_LENGTH, got: len });
        }
        Ok(SourceId { id: s.to_owned() })
    }

}

impl Clone for SourceId {
    fn clone(&self) -> (r: Self)
        ensures
            r == *self,
    {
        SourceId { id: self.id.clone() }
    }
}

impl PartialEq for SourceId {
    fn eq(&self, other: &SourceId) -> (r: bool) {
        self.id == other.id
    }
}

impl vstd::std_specs::cmp::PartialEqSpecImpl for SourceId {
    open spec fn obeys_eq_spec() -> bool {
        true
    }

    open spec fn eq_spec(&self, other: &SourceId) -> bool {
        self@ == other@
    }
}

impl core::str::FromStr for SourceId {
    type Err = IdParseError;

    fn from_str(s: &str) -> Result<SourceId, IdParseError> {
        SourceId::parse_str(s)
    }
}

} // verus!
