//! The collection policy.
//!
//! A `Config` is loaded from the environment at startup and persisted to
//! stable storage in a canonical text form. Across restarts only equality
//! matters: a freshly loaded value that differs from the persisted one makes
//! the on-disk artifacts stale. The canonical form writes each field as a
//! twenty-digit decimal line, so parsing it back always yields the value that
//! was written.

use vstd::prelude::*;

use crate::digits::{
    all_digits, encode_fixed, lemma_decode_encode, lemma_encode_shape, lemma_pow10_20,
    lemma_val_bound, parse_fixed, spec_digits_val, spec_encode_fixed, spec_parse_fixed,
};

verus! {

/// Parameters of profile collection. The coordination layer never interprets
/// them; it only compares configurations for equality and moves them through
/// the canonical text form.
#[derive(Clone, Copy, PartialEq, Eq, Structural, Debug)]
pub struct Config {
    /// Version of the policy that produced this configuration.
    pub version: u64,
    /// Seconds between two periodic collections.
    pub collection_interval_secs: u64,
    /// Milliseconds sampled by one collection.
    pub sampling_period_ms: u64,
}

/// The canonical text form: three twenty-digit decimal fields, one per line.
pub open spec fn spec_to_text(c: Config) -> Seq<u8> {
    spec_encode_fixed(c.version as nat, 20) + seq![10u8]
        + spec_encode_fixed(c.collection_interval_secs as nat, 20) + seq![10u8]
        + spec_encode_fixed(c.sampling_period_ms as nat, 20)
}

/// Reads the canonical text form back; any deviation from it yields `None`.
pub open spec fn spec_from_text(t: Seq<u8>) -> Option<Config> {
    if t.len() == 62 && t[20] == 10u8 && t[41] == 10u8 {
        match (spec_parse_fixed(t.subrange(0, 20)), spec_parse_fixed(t.subrange(21, 41)),
        spec_parse_fixed(t.subrange(42, 62))) {
            (Some(version), Some(interval), Some(period)) => Some(
                Config {
                    version,
                    collection_interval_secs: interval,
                    sampling_period_ms: period,
                },
            ),
            _ => None,
        }
    } else {
        None
    }
}

impl Config {
    /// Serializes this configuration into its canonical text form.
    pub fn to_text(&self) -> (r: Vec<u8>)
        ensures
            r@ == spec_to_text(*self),
    {
        let mut r = encode_fixed(self.version, 20);
        r.push(10);
        let mut interval = encode_fixed(self.collection_interval_secs, 20);
        r.append(&mut interval);
        r.push(10);
        let mut period = encode_fixed(self.sampling_period_ms, 20);
        r.append(&mut period);
        proof {
            assert(r@ =~= spec_to_text(*self));
        }
        r
    }

    /// Parses a persisted text back into a configuration; text that does not
    /// hold the canonical form is rejected.
    pub fn from_text(t: &[u8]) -> (r: Option<Config>)
        ensures
            r == spec_from_text(t@),
    {
        if t.len() != 62 {
            return None;
        }
        if t[20] != 10 || t[41] != 10 {
            return None;
        }
        let version = parse_fixed(t, 0);
        let interval = parse_fixed(t, 21);
        let period = parse_fixed(t, 42);
        proof {
            assert(t@.subrange(0, 20) == t@.subrange(0 as int, 0 as int + 20));
            assert(t@.subrange(21, 41) == t@.subrange(21 as int, 21 as int + 20));
            assert(t@.subrange(42, 62) == t@.subrange(42 as int, 42 as int + 20));
        }
        match (version, interval, period) {
            (Some(version), Some(interval), Some(period)) => Some(
                Config {
                    version,
                    collection_interval_secs: interval,
                    sampling_period_ms: period,
                },
            ),
            _ => None,
        }
    }
}

/// Round-trip fidelity of the canonical text form: parsing what was written
/// always recovers the configuration that was written.
pub proof fn lemma_text_round_trip(c: Config)
    ensures
        spec_from_text(spec_to_text(c)) == Some(c),
{
    let t = spec_to_text(c);
    let ev = spec_encode_fixed(c.version as nat, 20);
    let ei = spec_encode_fixed(c.collection_interval_secs as nat, 20);
    let ep = spec_encode_fixed(c.sampling_period_ms as nat, 20);
    lemma_encode_shape(c.version as nat, 20);
    lemma_encode_shape(c.collection_interval_secs as nat, 20);
    lemma_encode_shape(c.sampling_period_ms as nat, 20);
    assert(t.len() == 62);
    assert(t[20] == 10u8);
    assert(t[41] == 10u8);
    assert(t.subrange(0, 20) =~= ev);
    assert(t.subrange(21, 41) =~= ei);
    assert(t.subrange(42, 62) =~= ep);
    lemma_pow10_20();
    lemma_decode_encode(c.version as nat, 20);
    lemma_decode_encode(c.collection_interval_secs as nat, 20);
    lemma_decode_encode(c.sampling_period_ms as nat, 20);
    lemma_val_bound(ev);
    lemma_val_bound(ei);
    lemma_val_bound(ep);
    assert(spec_parse_fixed(ev) == Some(c.version));
    assert(spec_parse_fixed(ei) == Some(c.collection_interval_secs));
    assert(spec_parse_fixed(ep) == Some(c.sampling_period_ms));
}

} // verus!
