//! Layered environment accessor: a snapshot of one environment variable is a
//! plain value (absent, present-but-not-text, or text), and resolving it to a
//! boolean goes through the typed resolver with either a strict or a
//! best-effort failure policy.

use vstd::prelude::*;
use crate::parse::{parse_bool_or_int, spec_parse_bool_or_int, ParseBoolFromIntError};

verus! {

/// One environment variable as observed at read time.
#[derive(Debug)]
pub enum EnvValue {
    /// The variable is unset.
    Absent,
    /// The variable is set but its value is not valid text; the raw bytes
    /// are kept for diagnostics.
    NotUnicode(Vec<u8>),
    /// The variable is set to this text.
    Text(String),
}

/// Failure of the strict accessor.
#[derive(Debug, PartialEq, Eq)]
pub enum ParseEnvError {
    /// The variable was set but not valid text; carries the raw bytes.
    NotUnicode(Vec<u8>),
    /// The variable was text but neither interpretation of the resolver
    /// succeeded; carries both underlying failures.
    Parse(ParseBoolFromIntError),
}

/// Best-effort resolution: the default on an unset, non-text or malformed
/// variable, the resolved boolean otherwise.
pub open spec fn spec_resolved_or(v: EnvValue, default_value: bool) -> bool {
    match v {
        EnvValue::Absent => default_value,
        EnvValue::NotUnicode(_) => default_value,
        EnvValue::Text(s) => match spec_parse_bool_or_int(s@) {
            Ok(b) => b,
            Err(_) => default_value,
        },
    }
}

/// Strict accessor: the default only when the variable is unset; a set but
/// non-text value and a set but malformed value each surface as the
/// corresponding typed failure.
pub fn env_boolean(value: &EnvValue, default_value: bool) -> (r: Result<bool, ParseEnvError>)
    ensures
        match value {
            EnvValue::Absent => r == Ok::<bool, ParseEnvError>(default_value),
            EnvValue::NotUnicode(bytes) => r matches Err(ParseEnvError::NotUnicode(b)) && b@
                == bytes@,
            EnvValue::Text(s) => match spec_parse_bool_or_int(s@) {
                Ok(b) => r == Ok::<bool, ParseEnvError>(b),
                Err(e) => r matches Err(ParseEnvError::Parse(c)) && c == e,
            },
        },
{
    match value {
        EnvValue::Absent => Ok(default_value),
        EnvValue::NotUnicode(bytes) => Err(ParseEnvError::NotUnicode(clone_bytes(bytes))),
        EnvValue::Text(s) => match parse_bool_or_int(s.as_str()) {
            Ok(b) => Ok(b),
            Err(e) => Err(ParseEnvError::Parse(e)),
        },
    }
}

/// Best-effort accessor: any failure of the strict accessor falls back to
/// the default.
pub fn env_boolean_ensure(value: &EnvValue, default_value: bool) -> (r: bool)
    ensures
        r == spec_resolved_or(*value, default_value),
{
    match env_boolean(value, default_value) {
        Ok(b) => b,
        Err(_) => default_value,
    }
}

fn clone_bytes(bytes: &Vec<u8>) -> (r: Vec<u8>)
    ensures
        r@ == bytes@,
{
    let mut r: Vec<u8> = Vec::new();
    let mut i: usize = 0;
    while i < bytes.len()
        invariant
            0 <= i <= bytes.len(),
            r@ == bytes@.take(i as int),
        decreases bytes.len() - i,
    {
        r.push(bytes[i]);
        proof {
            assert(bytes@.take(i as int).push(bytes@[i as int]) =~= bytes@.take(i + 1));
        }
        i = i + 1;
    }
    proof {
        assert(bytes@.take(bytes@.len() as int) =~= bytes@);
    }
    r
}

} // verus!
