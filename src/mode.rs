use vstd::prelude::*;

verus! {

/// The strength of proof that a caller asks for, cheapest first.
#[derive(Clone, Copy, Debug, PartialEq, Eq, Structural)]
pub enum ProofMode {
    /// The raw execution proof; not succinctly verifiable.
    Core,
    /// The recursively folded proof.
    Compressed,
    /// A succinct proof over a curve, not offered by this service.
    Plonk,
    /// The constant-size succinct proof, verifiable on chain.
    Groth16,
}

/// The modes that the pipeline of this service can produce.
pub open spec fn supported(m: ProofMode) -> bool {
    m == ProofMode::Compressed || m == ProofMode::Groth16
}

/// Whether the pipeline can produce a proof of mode `m`.
pub fn is_supported(m: ProofMode) -> (r: bool)
    ensures
        r == supported(m),
{
    match m {
        ProofMode::Compressed => true,
        ProofMode::Groth16 => true,
        _ => false,
    }
}

} // verus!
