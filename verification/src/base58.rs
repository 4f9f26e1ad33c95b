//! Account identifiers written in base-58 text.
use vstd::prelude::*;
use crate::account::AccountId;

verus! {

/// The bytes that `bs58::decode` gives for this text with its default
/// alphabet, or `None` where the text is not base-58.
pub uninterp spec fn base58_decoding(text: Seq<char>) -> Option<Seq<u8>>;

/// `bs58::decode(text).into(output)`.
/// Claimed, as the crate's source and documentation show: when the decoded
/// bytes fit in the buffer it returns their number and writes them at the
/// buffer's start, leaving the rest of the buffer untouched; it fails when
/// the text is not base-58 or the decoded bytes do not fit.
#[verifier::external_body]
fn decode_base58_into(text: &str, output: &mut [u8; 35]) -> (written: Option<usize>)
    ensures
        match written {
            Some(n) => {
                &&& base58_decoding(text@) is Some
                &&& base58_decoding(text@)->0.len() == n
                &&& n <= 35
                &&& final(output)@.take(n as int) == base58_decoding(text@)->0
                &&& final(output)@.skip(n as int) == old(output)@.skip(n as int)
            },
            None => base58_decoding(text@) is None || base58_decoding(text@)->0.len() > 35,
        },
{
    bs58::decode(text).into(output).ok()
}

/// The text decodes to at most 35 bytes.
pub open spec fn fits_account_buffer(text: Seq<char>) -> bool {
    base58_decoding(text) is Some && base58_decoding(text)->0.len() <= 35
}

/// The account bytes cut from decoded bytes: the decoded bytes are laid over
/// a 35-byte buffer of `0xFF`, and bytes 1 to 32 of the buffer are kept.
pub open spec fn account_bytes(decoded: Seq<u8>) -> Seq<u8> {
    Seq::new(32, |i: int| if i + 1 < decoded.len() { decoded[i + 1] } else { 0xFFu8 })
}

/// The account held in bytes 1 to 32 of a 35-byte decoding buffer.
pub fn account_from_buffer(buffer: &[u8; 35]) -> (id: AccountId)
    ensures
        id.0@ == buffer@.subrange(1, 33),
{
    let mut array = [0u8; 32];
    let mut i: usize = 0;
    while i < 32
        invariant
            0 <= i <= 32,
            forall|j: int| 0 <= j < i ==> #[trigger] array@[j] == buffer@[j + 1],
        decreases 32 - i,
    {
        array[i] = buffer[i + 1];
        i = i + 1;
    }
    assert(array@ =~= buffer@.subrange(1, 33));
    AccountId(array)
}

/// The account written as base-58 `account_str`.
pub fn convert_string_to_accountid(account_str: &str) -> (id: AccountId)
    requires
        fits_account_buffer(account_str@),
    ensures
        id.0@ == account_bytes(base58_decoding(account_str@)->0),
{
    let mut output = [0xFFu8; 35];
    let ghost blank = output@;
    let written = decode_base58_into(account_str, &mut output);
    let ghost decoded = base58_decoding(account_str@)->0;
    proof {
        match written {
            Some(n) => {
                assert forall|j: int| 0 <= j < 35 implies #[trigger] output@[j] == (if j < decoded.len() {
                    decoded[j]
                } else {
                    0xFFu8
                }) by {
                    if j < n {
                        assert(output@.take(n as int)[j] == output@[j]);
                    } else {
                        assert(output@.skip(n as int)[j - n] == output@[j]);
                        assert(blank.skip(n as int)[j - n] == blank[j]);
                    }
                }
            },
            None => {},
        }
    }
    let id = account_from_buffer(&output);
    assert(id.0@ =~= account_bytes(decoded));
    id
}

/// The account written as base-58 `account_str`, or `None` where the text is
/// not base-58 or decodes to more than 35 bytes.
pub fn try_convert_string_to_accountid(account_str: &str) -> (id: Option<AccountId>)
    ensures
        match id {
            Some(a) => fits_account_buffer(account_str@) && a.0@ == account_bytes(
                base58_decoding(account_str@)->0,
            ),
            None => !fits_account_buffer(account_str@),
        },
{
    let mut probe = [0xFFu8; 35];
    match decode_base58_into(account_str, &mut probe) {
        Some(_) => Some(convert_string_to_accountid(account_str)),
        None => None,
    }
}

} // verus!
