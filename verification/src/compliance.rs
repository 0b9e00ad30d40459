//! Specification-compliance levels.
//!
//! The native layer identifies each compliance level by a small integer
//! code. This module is a typed facade over those codes: encoding is a
//! total injective mapping, and decoding maps the five known codes back to
//! their levels while any unknown code falls back to `Normal`. The fallback
//! is a deliberate lenient-decoding policy, not an error path, and it makes
//! the decode direction lossy on unknown codes by design.

use vstd::prelude::*;

verus! {

/// Native code for the `VeryStrict` level.
pub const VERY_STRICT_CODE: i32 = 2;
/// Native code for the `Strict` level.
pub const STRICT_CODE: i32 = 1;
/// Native code for the `Normal` level.
pub const NORMAL_CODE: i32 = 0;
/// Native code for the `Unofficial` level.
pub const UNOFFICIAL_CODE: i32 = -1;
/// Native code for the `Experimental` level.
pub const EXPERIMENTAL_CODE: i32 = -2;

/// How strictly a codec is asked to follow the specification.
#[derive(Clone, Copy, Debug, PartialEq, Eq, Structural)]
pub enum Compliance {
    /// Strictly conform to an older, more rigid reading of the
    /// specification or to reference software.
    VeryStrict,
    /// Strictly conform to the specification whatever the consequences.
    Strict,
    Normal,
    /// Allow unofficial extensions.
    Unofficial,
    /// Allow nonstandardized experimental things.
    Experimental,
}

/// The level a native code decodes to; unknown codes fall back to `Normal`.
pub open spec fn decoded_compliance(code: i32) -> Compliance {
    if code == VERY_STRICT_CODE {
        Compliance::VeryStrict
    } else if code == STRICT_CODE {
        Compliance::Strict
    } else if code == NORMAL_CODE {
        Compliance::Normal
    } else if code == UNOFFICIAL_CODE {
        Compliance::Unofficial
    } else if code == EXPERIMENTAL_CODE {
        Compliance::Experimental
    } else {
        Compliance::Normal
    }
}

/// The native code a level encodes to.
pub open spec fn compliance_code(level: Compliance) -> i32 {
    match level {
        Compliance::VeryStrict => VERY_STRICT_CODE,
        Compliance::Strict => STRICT_CODE,
        Compliance::Normal => NORMAL_CODE,
        Compliance::Unofficial => UNOFFICIAL_CODE,
        Compliance::Experimental => EXPERIMENTAL_CODE,
    }
}

impl From<i32> for Compliance {
    fn from(code: i32) -> (r: Self) {
        if code == VERY_STRICT_CODE {
            Compliance::VeryStrict
        } else if code == STRICT_CODE {
            Compliance::Strict
        } else if code == NORMAL_CODE {
            Compliance::Normal
        } else if code == UNOFFICIAL_CODE {
            Compliance::Unofficial
        } else if code == EXPERIMENTAL_CODE {
            Compliance::Experimental
        } else {
            Compliance::Normal
        }
    }
}

impl vstd::std_specs::convert::FromSpecImpl<i32> for Compliance {
    open spec fn obeys_from_spec() -> bool {
        true
    }

    open spec fn from_spec(code: i32) -> Self {
        decoded_compliance(code)
    }
}

impl From<Compliance> for i32 {
    fn from(level: Compliance) -> (r: i32) {
        match level {
            Compliance::VeryStrict => VERY_STRICT_CODE,
            Compliance::Strict => STRICT_CODE,
            Compliance::Normal => NORMAL_CODE,
            Compliance::Unofficial => UNOFFICIAL_CODE,
            Compliance::Experimental => EXPERIMENTAL_CODE,
        }
    }
}

impl vstd::std_specs::convert::FromSpecImpl<Compliance> for i32 {
    open spec fn obeys_from_spec() -> bool {
        true
    }

    open spec fn from_spec(level: Compliance) -> Self {
        compliance_code(level)
    }
}

/// Law: decoding an unknown integer code yields `Normal`, and encoding
/// `Normal` back yields the canonical normal code — not the original
/// unknown code. The decode direction is lossy on unknown codes by design.
pub proof fn lemma_compliance_lossy_round_trip(code: i32)
    requires
        code != VERY_STRICT_CODE,
        code != STRICT_CODE,
        code != NORMAL_CODE,
        code != UNOFFICIAL_CODE,
        code != EXPERIMENTAL_CODE,
    ensures
        decoded_compliance(code) == Compliance::Normal,
        compliance_code(decoded_compliance(code)) == NORMAL_CODE,
{
}

/// Law: on the five known levels the mapping is a bijection — encoding a
/// level and decoding the code recovers the level.
pub proof fn lemma_compliance_exact_round_trip(level: Compliance)
    ensures
        decoded_compliance(compliance_code(level)) == level,
{
}

} // verus!
