//! Failure classification for the pipeline's network layer: an error carries
//! a textual description, and its kind decides whether the worker evicts the
//! proxy (`ProxyExpire`), abandons the job blaming the solving service
//! (`CaptchaError`), or abandons it for any other reason (`Other`). Unknown
//! descriptions deliberately fall through to `Other`.

use vstd::prelude::*;

verus! {

/// The three classes of a network-layer failure.
#[derive(Clone, Copy, Debug, PartialEq, Eq, Structural)]
pub enum CheckErrorKind {
    ProxyExpire,
    CaptchaError,
    Other,
}

/// The canonical description of each kind.
pub open spec fn spec_kind_str(k: CheckErrorKind) -> Seq<char> {
    match k {
        CheckErrorKind::ProxyExpire => "proxy expire"@,
        CheckErrorKind::CaptchaError => "captcha error"@,
        CheckErrorKind::Other => "other"@,
    }
}

/// The kind a description classifies as: exactly the canonical descriptions
/// name the first two kinds; everything else is `Other`.
pub open spec fn spec_kind_of(s: Seq<char>) -> CheckErrorKind {
    if s == "proxy expire"@ {
        CheckErrorKind::ProxyExpire
    } else if s == "captcha error"@ {
        CheckErrorKind::CaptchaError
    } else {
        CheckErrorKind::Other
    }
}

impl CheckErrorKind {
    /// The canonical description of this kind.
    pub fn as_str(&self) -> (r: &'static str)
        ensures
            r@ == spec_kind_str(*self),
    {
        match *self {
            CheckErrorKind::ProxyExpire => "proxy expire",
            CheckErrorKind::CaptchaError => "captcha error",
            CheckErrorKind::Other => "other",
        }
    }
}

/// A pipeline failure, carrying the description it will be classified by.
pub struct CheckError {
    pub v: String,
}

impl CheckError {
    /// The description as given.
    pub fn description(&self) -> (r: &str)
        ensures
            r@ == self.v@,
    {
        self.v.as_str()
    }

    /// Classifies the description: the canonical texts map to their kinds,
    /// anything else to `Other`.
    pub fn kind(&self) -> (k: CheckErrorKind)
        ensures
            k == spec_kind_of(self.v@),
    {
        if self.v == String::from_str("proxy expire") {
            CheckErrorKind::ProxyExpire
        } else if self.v == String::from_str("captcha error") {
            CheckErrorKind::CaptchaError
        } else {
            CheckErrorKind::Other
        }
    }
}

impl CheckError {
    /// An error whose description is the kind's canonical text, so that it
    /// classifies back to the same kind.
    pub fn from_kind(kind: CheckErrorKind) -> (e: CheckError)
        ensures
            e.v@ == spec_kind_str(kind),
            spec_kind_of(e.v@) == kind,
    {
        proof {
            reveal_strlit("proxy expire");
            reveal_strlit("captcha error");
            reveal_strlit("other");
            assert("proxy expire"@.len() == 12);
            assert("captcha error"@.len() == 13);
            assert("other"@.len() == 5);
        }
        CheckError { v: String::from_str(kind.as_str()) }
    }

    /// An error with the given description.
    pub fn from_description(v: String) -> (e: CheckError)
        ensures
            e.v == v,
    {
        CheckError { v }
    }
}

} // verus!
