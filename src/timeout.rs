use vstd::prelude::*;

verus! {

/// Nanoseconds in one second.
pub const NANOS_PER_SEC: u32 = 1_000_000_000;

/// A span of time, kept as whole seconds and the nanoseconds beyond them.
///
/// Its view is the whole span in nanoseconds.
#[derive(Debug, Clone, Copy, PartialEq, Eq, Structural)]
pub struct Timeout {
    secs: u64,
    nanos: u32,
}

impl View for Timeout {
    type V = nat;

    closed spec fn view(&self) -> nat {
        self.secs as nat * NANOS_PER_SEC as nat + self.nanos as nat
    }
}

impl Timeout {
    #[verifier::type_invariant]
    spec fn inv(self) -> bool {
        self.nanos < NANOS_PER_SEC
    }

    /// A span of `secs` seconds and `nanos` nanoseconds.
    pub fn new(secs: u64, nanos: u32) -> (r: Timeout)
        requires
            nanos < NANOS_PER_SEC,
        ensures
            r@ == secs as nat * NANOS_PER_SEC as nat + nanos as nat,
    {
        Timeout { secs, nanos }
    }

    /// A span of `secs` whole seconds.
    pub fn from_secs(secs: u64) -> (r: Timeout)
        ensures
            r@ == secs as nat * NANOS_PER_SEC as nat,
    {
        Timeout { secs, nanos: 0 }
    }

    /// The number of whole seconds in the span.
    pub fn as_secs(&self) -> (r: u64)
        ensures
            r as nat == self@ / NANOS_PER_SEC as nat,
    {
        proof {
            use_type_invariant(self);
            lemma_split_nanos(self.secs as nat, self.nanos as nat);
        }
        self.secs
    }

    /// The nanoseconds beyond the whole seconds of the span.
    pub fn subsec_nanos(&self) -> (r: u32)
        ensures
            r < NANOS_PER_SEC,
            r as nat == self@ % NANOS_PER_SEC as nat,
    {
        proof {
            use_type_invariant(self);
            lemma_split_nanos(self.secs as nat, self.nanos as nat);
        }
        self.nanos
    }
}

proof fn lemma_split_nanos(secs: nat, nanos: nat)
    requires
        nanos < NANOS_PER_SEC,
    ensures
        (secs * NANOS_PER_SEC as nat + nanos) / NANOS_PER_SEC as nat == secs,
        (secs * NANOS_PER_SEC as nat + nanos) % NANOS_PER_SEC as nat == nanos,
{
    vstd::arithmetic::div_mod::lemma_fundamental_div_mod_converse(
        (secs * NANOS_PER_SEC as nat + nanos) as int,
        NANOS_PER_SEC as int,
        secs as int,
        nanos as int,
    );
}

} // verus!
