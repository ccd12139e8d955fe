//! TLS 1.3 cipher suite identifiers.

use vstd::prelude::*;

verus! {

/// Represents a TLS 1.3 cipher suite.
#[derive(Copy, Clone, Debug, PartialEq, Eq, Structural)]
pub enum CipherSuite {
    /// `TLS_CHACHA20_POLY1305_SHA256`, the one suite this design targets.
    TlsChacha20Poly1305Sha256,
}

impl CipherSuite {
    /// The suite's identifier in the TLS registry.
    pub open spec fn spec_code(self) -> u16 {
        match self {
            CipherSuite::TlsChacha20Poly1305Sha256 => 0x1303,
        }
    }

    /// The suite's identifier in the TLS registry.
    pub fn code(self) -> (r: u16)
        ensures
            r == self.spec_code(),
    {
        match self {
            CipherSuite::TlsChacha20Poly1305Sha256 => 0x1303,
        }
    }

    /// The suite a registry value stands for, among the suites supported.
    pub open spec fn spec_of(num: u16) -> Option<CipherSuite> {
        match num {
            0x1303 => Some(CipherSuite::TlsChacha20Poly1305Sha256),
            _ => None,
        }
    }

    /// Parse a registry value back into a supported cipher suite.
    pub fn of(num: u16) -> (r: Option<CipherSuite>)
        ensures
            r == CipherSuite::spec_of(num),
            r matches Some(s) ==> s.spec_code() == num,
    {
        match num {
            0x1303 => Some(CipherSuite::TlsChacha20Poly1305Sha256),
            _ => None,
        }
    }
}

} // verus!
