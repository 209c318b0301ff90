//! The address of a token's metadata: the address of the picture that
//! matches the pet's condition, followed by the token id as text.

use vstd::prelude::*;
use vstd::slice::slice_to_vec;
use vstd::string::StringSliceAdditionalSpecFns;
use crate::pet::{tier, total};
use crate::types::{Id, IdView, Key};
use crate::{MultiAssetData, State};

verus! {

/// The decimal digits of `n` in ASCII, most significant first, without
/// leading zeros; `0` for zero.
pub open spec fn decimal(n: nat) -> Seq<u8>
    decreases n,
{
    if n < 10 {
        seq![(48 + n) as u8]
    } else {
        decimal(n / 10).push((48 + n % 10) as u8)
    }
}

/// A token id as text: the decimal digits of a number, the bytes of a byte
/// string as they are.
pub open spec fn id_text(id: IdView) -> Seq<u8> {
    match id {
        IdView::U8(n) => decimal(n as nat),
        IdView::U16(n) => decimal(n as nat),
        IdView::U32(n) => decimal(n as nat),
        IdView::U64(n) => decimal(n as nat),
        IdView::U128(n) => decimal(n as nat),
        IdView::Bytes(bytes) => bytes,
    }
}

/// Appends the decimal digits of `n`.
pub fn push_decimal(out: &mut Vec<u8>, n: u128)
    ensures
        final(out)@ == old(out)@ + decimal(n as nat),
    decreases n,
{
    if n >= 10 {
        push_decimal(out, n / 10);
    }
    out.push((48 + n % 10) as u8);
    assert(out@ =~= old(out)@ + decimal(n as nat));
}

/// Appends the bytes of `bytes`.
pub fn push_bytes(out: &mut Vec<u8>, bytes: &Vec<u8>)
    ensures
        final(out)@ == old(out)@ + bytes@,
{
    let mut i: usize = 0;
    while i < bytes.len()
        invariant
            i <= bytes.len(),
            out@ == old(out)@ + bytes@.subrange(0, i as int),
        decreases bytes.len() - i,
    {
        out.push(bytes[i]);
        assert(out@ =~= old(out)@ + bytes@.subrange(0, i + 1));
        i = i + 1;
    }
    assert(out@ =~= old(out)@ + bytes@);
}

/// Appends a token id as text.
pub fn push_id(out: &mut Vec<u8>, id: &Id)
    ensures
        final(out)@ == old(out)@ + id_text(id@),
{
    match id {
        Id::U8(n) => push_decimal(out, *n as u128),
        Id::U16(n) => push_decimal(out, *n as u128),
        Id::U32(n) => push_decimal(out, *n as u128),
        Id::U64(n) => push_decimal(out, *n as u128),
        Id::U128(n) => push_decimal(out, *n),
        Id::Bytes(bytes) => push_bytes(out, bytes),
    }
}

/// The bytes of a string.
pub fn bytes_of(text: &str) -> (bytes: Vec<u8>)
    ensures
        bytes@ == text.spec_bytes(),
{
    slice_to_vec(text.as_bytes())
}

impl State {
    /// The address of the token's metadata at `now`.
    pub open spec fn token_uri(self, token: IdView, now: u64) -> Seq<u8> {
        self.uri_of_tier(tier(total(self.current_status(token, now)))) + id_text(token)
    }
}

impl MultiAssetData {
    /// The address of the token's metadata at `now`: the address of the
    /// picture that matches the pet's condition, then the token id as text.
    pub fn token_uri(&self, now: u64, token_id: Id) -> (uri: Vec<u8>)
        requires
            self.wf(),
            self@.readable_at(token_id@, now),
        ensures
            uri@ == self@.token_uri(token_id@, now),
    {
        let mut uri = self.get_condition_url(now, token_id.duplicate());
        push_id(&mut uri, &token_id);
        uri
    }
}

} // verus!
