//! Configuration resolution.
//!
//! `resolve` decodes the raw configuration payload into the typed selection
//! of active transform rules.  An absent payload, a blank payload, and the
//! `null` payload all resolve to the default (every rule enabled); a
//! well-formed payload resolves to exactly its decoded value; a malformed
//! payload aborts the invocation and is never silently treated as absent.

use vstd::prelude::*;

use crate::errors::PluginError;
use crate::payload::lit_at;
use crate::payload::match_at;
use crate::payload::payload_all_flag;
use crate::payload::payload_is_blank;
use crate::payload::payload_is_null;
use crate::payload::skip_ws;
use crate::payload::ws_end;

verus! {

/// A tagged selection of which transform rules are active for one call.
///
/// The one documented variant applies to every rule with the given enable
/// flag; further target-specific variants would extend this enum.
#[derive(Clone, Copy, Debug, PartialEq, Eq, Structural)]
pub enum Configuration {
    /// Apply every rule, with the given enable flag.
    All(bool),
}

impl Configuration {
    /// The documented default: all rules enabled.
    pub open spec fn spec_default() -> Configuration {
        Configuration::All(true)
    }
}

impl Default for Configuration {
    /// All rules enabled.
    fn default() -> (c: Configuration)
        ensures
            c == Configuration::spec_default(),
    {
        Configuration::All(true)
    }
}

/// What one payload string decodes to.
pub enum ParsedPayload {
    /// Blank or `null`: the host supplied no configuration value.
    Empty,
    /// A well-formed configuration value.
    Value(Configuration),
    /// Not parseable as a configuration payload.
    Malformed,
}

/// The decoding of a payload string.
pub open spec fn spec_parse(s: Seq<char>) -> ParsedPayload {
    if payload_is_blank(s) || payload_is_null(s) {
        ParsedPayload::Empty
    } else {
        match payload_all_flag(s) {
            Some(b) => ParsedPayload::Value(Configuration::All(b)),
            None => ParsedPayload::Malformed,
        }
    }
}

/// The view of an optional payload.
pub open spec fn raw_view(raw: Option<&str>) -> Option<Seq<char>> {
    match raw {
        None => None,
        Some(s) => Some(s@),
    }
}

/// What configuration resolution returns for each raw payload.
pub open spec fn spec_resolve(raw: Option<Seq<char>>) -> Result<Configuration, PluginError> {
    match raw {
        None => Ok(Configuration::spec_default()),
        Some(s) => match spec_parse(s) {
            ParsedPayload::Empty => Ok(Configuration::spec_default()),
            ParsedPayload::Value(c) => Ok(c),
            ParsedPayload::Malformed => Err(PluginError::ConfigMalformed),
        },
    }
}

/// Decode the raw configuration payload into the selection of active rules.
///
/// Total and deterministic: absent, blank, and `null` payloads give the
/// default; a well-formed payload gives its decoded value verbatim; anything
/// else is `ConfigMalformed`.
pub fn resolve(raw: Option<&str>) -> (r: Result<Configuration, PluginError>)
    ensures
        r == spec_resolve(raw_view(raw)),
{
    let s = match raw {
        None => {
            return Ok(Configuration::All(true));
        },
        Some(s) => s,
    };
    let n = s.unicode_len();
    let i0 = ws_end(s, 0);
    if i0 == n {
        return Ok(Configuration::All(true));
    }
    let null_lit = "null";
    if match_at(s, i0, null_lit) {
        let j = ws_end(s, i0 + null_lit.unicode_len());
        if j == n {
            return Ok(Configuration::All(true));
        }
    }
    let brace = "{";
    if match_at(s, i0, brace) {
        let i1 = ws_end(s, i0 + brace.unicode_len());
        let key = "\"all\"";
        if match_at(s, i1, key) {
            let i2 = ws_end(s, i1 + key.unicode_len());
            let colon = ":";
            if match_at(s, i2, colon) {
                let i3 = ws_end(s, i2 + colon.unicode_len());
                let true_lit = "true";
                let false_lit = "false";
                if match_at(s, i3, true_lit) {
                    if crate::payload::closed_at(s, i3 + true_lit.unicode_len()) {
                        return Ok(Configuration::All(true));
                    }
                } else if match_at(s, i3, false_lit) {
                    if crate::payload::closed_at(s, i3 + false_lit.unicode_len()) {
                        return Ok(Configuration::All(false));
                    }
                }
            }
        }
    }
    Err(PluginError::ConfigMalformed)
}

/// Absent, blank, and `null` payloads all resolve to the default
/// configuration: every rule enabled.
pub proof fn lemma_resolve_default_on_absent_or_null(s: Seq<char>)
    ensures
        spec_resolve(None) == Ok::<Configuration, PluginError>(Configuration::spec_default()),
        payload_is_blank(s) || payload_is_null(s) ==> spec_resolve(Some(s)) == Ok::<
            Configuration,
            PluginError,
        >(Configuration::spec_default()),
{
}

/// A well-formed payload resolves to exactly its decoded value; no further
/// defaulting is applied.
pub proof fn lemma_resolve_wellformed_exact(s: Seq<char>, b: bool)
    requires
        payload_all_flag(s) == Some(b),
    ensures
        spec_resolve(Some(s)) == Ok::<Configuration, PluginError>(Configuration::All(b)),
{
    reveal_strlit("{");
    reveal_strlit("null");
    let i0 = skip_ws(s, 0);
    assert(lit_at(s, i0, "{"@));
    assert(!payload_is_blank(s));
    if payload_is_null(s) {
        assert(s.subrange(i0, i0 + 1)[0] == s[i0]);
        assert(s.subrange(i0, i0 + 4)[0] == s[i0]);
        assert(false);
    }
}

/// A payload that fails to parse aborts resolution with `ConfigMalformed`;
/// the default is never substituted for it.
pub proof fn lemma_resolve_malformed_aborts(s: Seq<char>)
    requires
        spec_parse(s) is Malformed,
    ensures
        spec_resolve(Some(s)) == Err::<Configuration, PluginError>(PluginError::ConfigMalformed),
{
}

} // verus!
