//! Validation of user-supplied SQL identifiers.
//!
//! Every raw name (source table, tracked column, tracking name) is checked
//! here before it is interpolated into generated DDL text; generated
//! identifiers are never bound as parameters, so this check is the sole
//! injection defense.

use vstd::prelude::*;

use crate::error::Error;
use crate::error::ErrorKind;

verus! {

/// A character that may start a SQL identifier: an ASCII letter or underscore.
pub open spec fn is_start_char(c: char) -> bool {
    let u = c as u32;
    (65 <= u && u <= 90) || (97 <= u && u <= 122) || u == 95
}

/// A character that may appear anywhere in a SQL identifier: an ASCII letter,
/// an ASCII digit, or underscore.
pub open spec fn is_word_char(c: char) -> bool {
    let u = c as u32;
    is_start_char(c) || (48 <= u && u <= 57)
}

/// The language of safe identifiers: non-empty, at most 63 characters (the
/// Postgres identifier length limit), starting with an ASCII letter or
/// underscore, every character ASCII alphanumeric or underscore.
pub open spec fn is_identifier(s: Seq<char>) -> bool {
    &&& 1 <= s.len() <= 63
    &&& is_start_char(s[0])
    &&& forall|i: int| 0 <= i < s.len() ==> is_word_char(#[trigger] s[i])
}

fn start_char(c: char) -> (r: bool)
    ensures
        r == is_start_char(c),
{
    let u = c as u32;
    (65 <= u && u <= 90) || (97 <= u && u <= 122) || u == 95
}

fn word_char(c: char) -> (r: bool)
    ensures
        r == is_word_char(c),
{
    let u = c as u32;
    start_char(c) || (48 <= u && u <= 57)
}

/// Character-by-character string equality, settled at the level of the
/// string views that every contract in this crate speaks of.
pub fn str_eq(a: &str, b: &str) -> (r: bool)
    ensures
        r == (a@ == b@),
{
    let n = a.unicode_len();
    if n != b.unicode_len() {
        return false;
    }
    let mut i: usize = 0;
    while i < n
        invariant
            i <= n,
            n == a@.len(),
            n == b@.len(),
            forall|j: int| 0 <= j < i ==> a@[j] == b@[j],
        decreases n - i,
    {
        if a.get_char(i) != b.get_char(i) {
            return false;
        }
        i += 1;
    }
    proof {
        assert(a@ =~= b@);
    }
    true
}

/// Validates a user-supplied name before it is embedded in DDL text.
/// Succeeds exactly on the names accepted by [`is_identifier`]; on failure
/// the error carries the given context and [`ErrorKind::InvalidIdentifier`].
pub fn is_valid_identifier(name: &str, when: &'static str) -> (r: Result<(), Error>)
    ensures
        r is Ok <==> is_identifier(name@),
        r is Err ==> r->Err_0.kind == ErrorKind::InvalidIdentifier && r->Err_0.when@ == when@,
{
    let len = name.unicode_len();
    if len == 0 || len > 63 {
        return Err(Error::new(when, ErrorKind::InvalidIdentifier));
    }
    if !start_char(name.get_char(0)) {
        return Err(Error::new(when, ErrorKind::InvalidIdentifier));
    }
    let mut i: usize = 1;
    while i < len
        invariant
            1 <= i <= len,
            len == name@.len(),
            len <= 63,
            is_start_char(name@[0]),
            forall|j: int| 0 <= j < i ==> is_word_char(#[trigger] name@[j]),
        decreases len - i,
    {
        if !word_char(name.get_char(i)) {
            return Err(Error::new(when, ErrorKind::InvalidIdentifier));
        }
        i += 1;
    }
    Ok(())
}

} // verus!
