//! A small, deterministic call-graph fixture: a two-state value type with an
//! inherent method, a free function, and an entry point that calls both and
//! returns their combined result. The value type also has a fixed one-byte
//! encoding so that its two states stay distinguishable in memory.

use vstd::prelude::*;

verus! {

/// A value with exactly two possible states and no payload.
#[derive(Clone, Copy, Debug, PartialEq, Eq, Structural)]
pub enum TestRustEnumWithMethod {
    EnumEntry1,
    EnumEntry2,
}

/// The fixed one-byte encoding of each state: the first state is 0, the
/// second is 1.
pub open spec fn spec_encode(v: TestRustEnumWithMethod) -> u8 {
    match v {
        TestRustEnumWithMethod::EnumEntry1 => 0,
        TestRustEnumWithMethod::EnumEntry2 => 1,
    }
}

/// Which state a byte decodes to; every byte above 1 decodes to nothing.
pub open spec fn spec_decode(b: u8) -> Option<TestRustEnumWithMethod> {
    if b == 0 {
        Some(TestRustEnumWithMethod::EnumEntry1)
    } else if b == 1 {
        Some(TestRustEnumWithMethod::EnumEntry2)
    } else {
        None
    }
}

impl TestRustEnumWithMethod {
    /// The state-dependent operation: whichever state is held, the result
    /// is 5. Kept out of line so it stays a distinct, addressable routine.
    #[inline(never)]
    pub fn call(&self) -> (r: i32)
        ensures
            r == 5,
    {
        5
    }

    /// Encodes this state into its fixed one-byte representation.
    pub fn encode(&self) -> (r: u8)
        ensures
            r == spec_encode(*self),
    {
        match self {
            TestRustEnumWithMethod::EnumEntry1 => 0,
            TestRustEnumWithMethod::EnumEntry2 => 1,
        }
    }

    /// Decodes a byte back into a state. Returns `None` exactly on the bytes
    /// that encode neither state.
    pub fn decode(b: u8) -> (r: Option<TestRustEnumWithMethod>)
        ensures
            r == spec_decode(b),
    {
        if b == 0 {
            Some(TestRustEnumWithMethod::EnumEntry1)
        } else if b == 1 {
            Some(TestRustEnumWithMethod::EnumEntry2)
        } else {
            None
        }
    }
}

/// The standalone operation: always returns 21. Kept out of line so it stays
/// a distinct, addressable routine.
#[inline(never)]
pub fn free_function() -> (r: i32)
    ensures
        r == 21,
{
    21
}

/// The entry point of the fixture's call graph: calls the state-dependent
/// operation and the standalone operation and sums their results. For either
/// input state the result is exactly 26.
pub fn exported_function_to_root_code(val: TestRustEnumWithMethod) -> (r: i32)
    ensures
        r == 26,
{
    val.call() + free_function()
}

/// Distinct states have distinct encodings, so the two states can be told
/// apart from the encoded byte alone.
pub proof fn lemma_encode_distinguishes(a: TestRustEnumWithMethod, b: TestRustEnumWithMethod)
    requires
        a != b,
    ensures
        spec_encode(a) != spec_encode(b),
{
}

/// Encoding a state and decoding the resulting byte yields the original
/// state back.
pub proof fn lemma_encode_decode_roundtrip(v: TestRustEnumWithMethod)
    ensures
        spec_decode(spec_encode(v)) == Some(v),
{
}

} // verus!
