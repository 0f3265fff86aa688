//! Version agreement between the orchestrator and the external engine.
//!
//! For any variant that needs the engine binary, the orchestrator's own
//! version string and the engine's self-reported build version must be
//! exactly equal — no normalization of whitespace or case — before a build
//! is allowed to start.

use vstd::prelude::*;

use crate::errors::Error;
use crate::strutil::{find_char_from, find_from_spec, find_str_from, str_eq, until_char_spec};

verus! {

/// Exact string comparison of the two versions.  `Ok` exactly when the
/// strings are equal; any difference at all yields `VersionMismatch`
/// carrying both strings for the remediation message.
pub fn check(local: &str, reported: &str) -> (r: Result<(), Error>)
    ensures
        r is Ok <==> local@ == reported@,
        r is Err ==> (r->Err_0 matches Error::VersionMismatch { local: l, reported: rep }
            && l@ == local@ && rep@ == reported@),
{
    if str_eq(local, reported) {
        Ok(())
    } else {
        Err(
            Error::VersionMismatch {
                local: String::from_str(local),
                reported: String::from_str(reported),
            },
        )
    }
}

/// The quoted value of the first `key` occurrence after the first `anchor`
/// occurrence: the characters between the end of `key` and the next quote.
pub open spec fn quoted_value_spec(
    text: Seq<char>,
    anchor: Seq<char>,
    key: Seq<char>,
) -> Option<Seq<char>> {
    match find_from_spec(text, anchor, 0) {
        None => None,
        Some(i) => match find_from_spec(text, key, i + anchor.len()) {
            None => None,
            Some(j) => Some(
                text.subrange(j + key.len(), until_char_spec(text, j + key.len(), '"')),
            ),
        },
    }
}

/// The engine version pinned in a dependency-lock text: the quoted value of
/// the version key that follows the engine package's name entry.  `None`
/// when the text pins no such package.
pub fn locked_engine_version(lock_text: &str) -> (r: Option<String>)
    ensures
        match r {
            Some(v) => quoted_value_spec(
                lock_text@,
                "name = \"honggfuzz\""@,
                "version = \""@,
            ) == Some(v@),
            None => quoted_value_spec(
                lock_text@,
                "name = \"honggfuzz\""@,
                "version = \""@,
            ) is None,
        },
{
    let anchor = "name = \"honggfuzz\"";
    let key = "version = \"";
    let n = lock_text.unicode_len();
    proof {
        assert(lock_text@.len() == n);
    }
    let i = match find_str_from(lock_text, anchor, 0) {
        Some(i) => i,
        None => {
            return None;
        },
    };
    proof {
        crate::strutil::lemma_find_from_found(lock_text@, anchor@, 0);
    }
    let j = match find_str_from(lock_text, key, i + anchor.unicode_len()) {
        Some(j) => j,
        None => {
            return None;
        },
    };
    proof {
        crate::strutil::lemma_find_from_found(lock_text@, key@, i + anchor@.len());
    }
    let start = j + key.unicode_len();
    let end = find_char_from(lock_text, start, '"');
    Some(String::from_str(lock_text.substring_char(start, end)))
}

} // verus!
