//! Peer identities.
//!
//! A peer is named by the text of its chain identifier. The library stores and
//! compares these texts as they are; before it addresses a message to one, it
//! asks `linera-base` whether the text names a chain at all.

use vstd::prelude::*;

verus! {

/// `c` is one of `0-9`, `a-f`, `A-F`.
pub open spec fn is_hex_digit(c: char) -> bool {
    ||| ('0' <= c && c <= '9')
    ||| ('a' <= c && c <= 'f')
    ||| ('A' <= c && c <= 'F')
}

/// `text` is the written form of a chain identifier: the 32 bytes of a hash as
/// 64 hexadecimal digits, in either case.
pub open spec fn is_chain_id_text(text: Seq<char>) -> bool {
    &&& text.len() == 64
    &&& forall|i: int| 0 <= i < text.len() ==> is_hex_digit(#[trigger] text[i])
}

/// Calls `<linera_base::identifiers::ChainId as FromStr>::from_str` and reports
/// whether it accepted `text`.
///
/// Trusted, not proved: that parser hex-decodes the text byte by byte (an odd
/// number of bytes or any byte outside `0-9a-fA-F` is an error) and then
/// requires exactly 32 decoded bytes, so it accepts exactly the texts of 64
/// hexadecimal digits. It never panics.
#[verifier::external_body]
fn chain_id_parses(text: &str) -> (ok: bool)
    ensures
        ok == is_chain_id_text(text@),
{
    text.parse::<linera_base::identifiers::ChainId>().is_ok()
}

/// Whether `text` can be used to address a peer.
pub fn is_valid_chain_id(text: &str) -> (ok: bool)
    ensures
        ok == is_chain_id_text(text@),
{
    chain_id_parses(text)
}

} // verus!
