//! The S-expression type and encoding codes of R, and the information
//! bits at the head of an S-expression.

use vstd::prelude::*;

verus! {

/// Types of S-expressions.
#[allow(non_camel_case_types)]
#[derive(Debug, Clone, Copy, PartialEq, Eq, Structural)]
pub enum SexpType {
    /// nil = NULL
    NILSXP,
    /// symbols
    SYMSXP,
    /// lists of dotted pairs
    LISTSXP,
    /// closures
    CLOSXP,
    /// environments
    ENVSXP,
    /// promises: [un]evaluated closure arguments
    PROMSXP,
    /// language constructs (special lists)
    LANGSXP,
    /// special forms
    SPECIALSXP,
    /// builtin non-special forms
    BUILTINSXP,
    /// "scalar" string type (internal only)
    CHARSXP,
    /// logical vectors
    LGLSXP,
    /// integer vectors
    INTSXP,
    /// real variables
    REALSXP,
    /// complex variables
    CPLXSXP,
    /// string vectors
    STRSXP,
    /// dot-dot-dot object
    DOTSXP,
    /// make "any" args work
    ANYSXP,
    /// generic vectors
    VECSXP,
    /// expressions vectors
    EXPRSXP,
    /// byte code
    BCODESXP,
    /// external pointer
    EXTPTRSXP,
    /// weak reference
    WEAKREFSXP,
    /// raw bytes
    RAWSXP,
    /// S4, non-vector
    S4SXP,
    /// fresh node created in new page
    NEWSXP,
    /// node released by GC
    FREESXP,
    /// Closure or Builtin or Special
    FUNSXP,
}

/// The number that R uses for each SexpType variant.
pub open spec fn sexp_type_code(t: SexpType) -> u32 {
    match t {
        SexpType::NILSXP => 0,
        SexpType::SYMSXP => 1,
        SexpType::LISTSXP => 2,
        SexpType::CLOSXP => 3,
        SexpType::ENVSXP => 4,
        SexpType::PROMSXP => 5,
        SexpType::LANGSXP => 6,
        SexpType::SPECIALSXP => 7,
        SexpType::BUILTINSXP => 8,
        SexpType::CHARSXP => 9,
        SexpType::LGLSXP => 10,
        SexpType::INTSXP => 13,
        SexpType::REALSXP => 14,
        SexpType::CPLXSXP => 15,
        SexpType::STRSXP => 16,
        SexpType::DOTSXP => 17,
        SexpType::ANYSXP => 18,
        SexpType::VECSXP => 19,
        SexpType::EXPRSXP => 20,
        SexpType::BCODESXP => 21,
        SexpType::EXTPTRSXP => 22,
        SexpType::WEAKREFSXP => 23,
        SexpType::RAWSXP => 24,
        SexpType::S4SXP => 25,
        SexpType::NEWSXP => 30,
        SexpType::FREESXP => 31,
        SexpType::FUNSXP => 99,
    }
}

impl SexpType {
    /// The number that R uses for this variant.
    pub fn code(&self) -> (r: u32)
        ensures
            r == sexp_type_code(*self),
    {
        match self {
            SexpType::NILSXP => 0,
            SexpType::SYMSXP => 1,
            SexpType::LISTSXP => 2,
            SexpType::CLOSXP => 3,
            SexpType::ENVSXP => 4,
            SexpType::PROMSXP => 5,
            SexpType::LANGSXP => 6,
            SexpType::SPECIALSXP => 7,
            SexpType::BUILTINSXP => 8,
            SexpType::CHARSXP => 9,
            SexpType::LGLSXP => 10,
            SexpType::INTSXP => 13,
            SexpType::REALSXP => 14,
            SexpType::CPLXSXP => 15,
            SexpType::STRSXP => 16,
            SexpType::DOTSXP => 17,
            SexpType::ANYSXP => 18,
            SexpType::VECSXP => 19,
            SexpType::EXPRSXP => 20,
            SexpType::BCODESXP => 21,
            SexpType::EXTPTRSXP => 22,
            SexpType::WEAKREFSXP => 23,
            SexpType::RAWSXP => 24,
            SexpType::S4SXP => 25,
            SexpType::NEWSXP => 30,
            SexpType::FREESXP => 31,
            SexpType::FUNSXP => 99,
        }
    }

    /// The variant that R's number stands for, if any.
    pub fn from_code(n: u32) -> (r: Option<SexpType>)
        ensures
            match r {
                Some(t) => sexp_type_code(t) == n,
                None => forall|t: SexpType| sexp_type_code(t) != n,
            },
    {
        if n == 0 {
            Some(SexpType::NILSXP)
        } else if n == 1 {
            Some(SexpType::SYMSXP)
        } else if n == 2 {
            Some(SexpType::LISTSXP)
        } else if n == 3 {
            Some(SexpType::CLOSXP)
        } else if n == 4 {
            Some(SexpType::ENVSXP)
        } else if n == 5 {
            Some(SexpType::PROMSXP)
        } else if n == 6 {
            Some(SexpType::LANGSXP)
        } else if n == 7 {
            Some(SexpType::SPECIALSXP)
        } else if n == 8 {
            Some(SexpType::BUILTINSXP)
        } else if n == 9 {
            Some(SexpType::CHARSXP)
        } else if n == 10 {
            Some(SexpType::LGLSXP)
        } else if n == 13 {
            Some(SexpType::INTSXP)
        } else if n == 14 {
            Some(SexpType::REALSXP)
        } else if n == 15 {
            Some(SexpType::CPLXSXP)
        } else if n == 16 {
            Some(SexpType::STRSXP)
        } else if n == 17 {
            Some(SexpType::DOTSXP)
        } else if n == 18 {
            Some(SexpType::ANYSXP)
        } else if n == 19 {
            Some(SexpType::VECSXP)
        } else if n == 20 {
            Some(SexpType::EXPRSXP)
        } else if n == 21 {
            Some(SexpType::BCODESXP)
        } else if n == 22 {
            Some(SexpType::EXTPTRSXP)
        } else if n == 23 {
            Some(SexpType::WEAKREFSXP)
        } else if n == 24 {
            Some(SexpType::RAWSXP)
        } else if n == 25 {
            Some(SexpType::S4SXP)
        } else if n == 30 {
            Some(SexpType::NEWSXP)
        } else if n == 31 {
            Some(SexpType::FREESXP)
        } else if n == 99 {
            Some(SexpType::FUNSXP)
        } else {
            None
        }
    }
}

/// Character encoding types.
#[allow(non_camel_case_types)]
#[derive(Debug, Clone, Copy, PartialEq, Eq, Structural)]
pub enum CeType {
    /// Native (system) encoding
    CE_NATIVE,
    /// UTF-8 encoding
    CE_UTF8,
    /// Latin1 encoding
    CE_LATIN1,
    /// Raw (bytes) encoding
    CE_BYTES,
    /// Symbol encoding
    CE_SYMBOL,
    /// Other
    CE_ANY,
}

/// The number that R uses for each CeType variant.
pub open spec fn ce_type_code(t: CeType) -> u32 {
    match t {
        CeType::CE_NATIVE => 0,
        CeType::CE_UTF8 => 1,
        CeType::CE_LATIN1 => 2,
        CeType::CE_BYTES => 3,
        CeType::CE_SYMBOL => 5,
        CeType::CE_ANY => 99,
    }
}

impl CeType {
    /// The number that R uses for this variant.
    pub fn code(&self) -> (r: u32)
        ensures
            r == ce_type_code(*self),
    {
        match self {
            CeType::CE_NATIVE => 0,
            CeType::CE_UTF8 => 1,
            CeType::CE_LATIN1 => 2,
            CeType::CE_BYTES => 3,
            CeType::CE_SYMBOL => 5,
            CeType::CE_ANY => 99,
        }
    }

    /// The variant that R's number stands for, if any.
    pub fn from_code(n: u32) -> (r: Option<CeType>)
        ensures
            match r {
                Some(t) => ce_type_code(t) == n,
                None => forall|t: CeType| ce_type_code(t) != n,
            },
    {
        if n == 0 {
            Some(CeType::CE_NATIVE)
        } else if n == 1 {
            Some(CeType::CE_UTF8)
        } else if n == 2 {
            Some(CeType::CE_LATIN1)
        } else if n == 3 {
            Some(CeType::CE_BYTES)
        } else if n == 5 {
            Some(CeType::CE_SYMBOL)
        } else if n == 99 {
            Some(CeType::CE_ANY)
        } else {
            None
        }
    }
}

/// The header bits of an S-expression: the first four bytes, least
/// significant first.
pub open spec fn header_word(d: Seq<u8>) -> nat {
    d[0] as nat + 256 * d[1] as nat + 65536 * d[2] as nat + 16777216 * d[3] as nat
}

/// The information bits at the head of an S-expression.
pub struct SexpInfo {
    data: [u8; 64],
}

impl SexpInfo {
    pub fn new(data: [u8; 64]) -> (r: SexpInfo)
        ensures
            r.bytes() == data@,
    {
        SexpInfo { data }
    }

    pub closed spec fn bytes(&self) -> Seq<u8> {
        self.data@
    }

    fn word(&self) -> (r: u32)
        ensures
            r as nat == header_word(self.bytes()),
    {
        self.data[0] as u32 + 256 * (self.data[1] as u32) + 65536 * (self.data[2] as u32)
            + 16777216 * (self.data[3] as u32)
    }

    /// The type code: bits 0 to 4.
    pub fn kind(&self) -> (r: u32)
        ensures
            r as nat == header_word(self.bytes()) % 32,
    {
        self.word() % 32
    }

    /// Whether the object is a vector of length one: bit 5.
    pub fn scalar(&self) -> (r: u32)
        ensures
            r as nat == (header_word(self.bytes()) / 32) % 2,
    {
        (self.word() / 32) % 2
    }

    /// Whether the object has a class attribute: bit 6.
    pub fn obj(&self) -> (r: u32)
        ensures
            r as nat == (header_word(self.bytes()) / 64) % 2,
    {
        (self.word() / 64) % 2
    }

    /// Whether the object is an ALTREP object: bit 7.
    pub fn alt(&self) -> (r: u32)
        ensures
            r as nat == (header_word(self.bytes()) / 128) % 2,
    {
        (self.word() / 128) % 2
    }

    /// The general-purpose bits: 9 to 24.
    pub fn gp(&self) -> (r: u32)
        ensures
            r as nat == (header_word(self.bytes()) / 512) % 65536,
    {
        (self.word() / 512) % 65536
    }

    /// The garbage collector's mark: bit 25.
    pub fn mark(&self) -> (r: u32)
        ensures
            r as nat == (header_word(self.bytes()) / 33554432) % 2,
    {
        (self.word() / 33554432) % 2
    }

    /// The debugging flag: bit 26.
    pub fn debug(&self) -> (r: u32)
        ensures
            r as nat == (header_word(self.bytes()) / 67108864) % 2,
    {
        (self.word() / 67108864) % 2
    }
}
} // verus!
