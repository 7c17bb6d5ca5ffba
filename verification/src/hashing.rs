use vstd::prelude::*;

verus! {

/// The lower-case hexadecimal digest that the content-addressing scheme
/// assigns to a logical path. The digest is a function of the input string
/// alone: the same path always maps to the same identifier, on every machine.
pub uninterp spec fn blake3_hex(input: Seq<char>) -> Seq<char>;

/// Relies on blake3::hash and blake3::Hash::to_hex: a 32-byte digest of the
/// input rendered as 64 lower-case hexadecimal characters, depending on the
/// input bytes alone.
#[verifier::external_body]
pub(crate) fn hash_hex(input: &str) -> (r: String)
    ensures
        r@ == blake3_hex(input@),
        r@.len() == 64,
{
    let digest = blake3::hash(input.as_bytes());
    digest.to_hex().as_str().to_string()
}

} // verus!
