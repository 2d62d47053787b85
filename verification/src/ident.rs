//! Identifier generation: fresh file identifiers are fixed-length strings
//! drawn at random from a fixed alphabet of letters.  Uniqueness is not
//! enforced by construction; a duplicate surfaces later as a failed metadata
//! insert, which the pipeline treats as fatal for that request.

use vstd::prelude::*;

verus! {

/// Number of characters in a generated identifier.
pub const ID_LENGTH: usize = 30;

/// The identifier alphabet: the 52 upper- and lower-case ASCII letters.
pub open spec fn alphabet() -> Seq<char> {
    "ABCDEFGHIJKLMNOPQRSTUVWXYZabcdefghijklmnopqrstuvwxyz"@
}

/// An identifier the generator could have produced: exactly `ID_LENGTH`
/// characters, each a letter of the alphabet.
pub open spec fn valid_id(id: Seq<char>) -> bool {
    &&& id.len() == ID_LENGTH
    &&& forall|i: int| 0 <= i < id.len() ==> alphabet().contains(#[trigger] id[i])
}

/// Relies on rand::random_range over the thread-local generator: returns a
/// value drawn from the given non-empty range, so strictly below `bound`.
#[verifier::external_body]
fn random_index(bound: usize) -> (r: usize)
    requires
        bound > 0,
    ensures
        r < bound,
{
    rand::random_range(0..bound)
}

/// Produce a fresh identifier: `ID_LENGTH` characters chosen at random from
/// the alphabet.
pub fn generate() -> (id: String)
    ensures
        valid_id(id@),
{
    let letters = "ABCDEFGHIJKLMNOPQRSTUVWXYZabcdefghijklmnopqrstuvwxyz";
    proof {
        reveal_strlit("ABCDEFGHIJKLMNOPQRSTUVWXYZabcdefghijklmnopqrstuvwxyz");
    }
    let mut id = String::new();
    let mut i: usize = 0;
    while i < ID_LENGTH
        invariant
            i <= ID_LENGTH,
            id@.len() == i,
            letters@ == alphabet(),
            letters@.len() == 52,
            forall|j: int| 0 <= j < i ==> alphabet().contains(#[trigger] id@[j]),
        decreases ID_LENGTH - i,
    {
        let k = random_index(52);
        let c = letters.substring_char(k, k + 1);
        proof {
            assert(c@[0] == alphabet()[k as int]);
            assert(alphabet().contains(alphabet()[k as int]));
        }
        id.append(c);
        i += 1;
    }
    id
}

} // verus!
