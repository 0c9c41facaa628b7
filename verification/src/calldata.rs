//! Call data for the swaps that an execution is made of.
//!
//! The ABI encoding and the function selector come from `ethers`. The bytes
//! of the encoding are stated here; the selector is a Keccak-256 hash and is
//! only named.

use crate::market::Address;
use crate::uint256::{
    be_bytes, be_value, lemma_be_bytes_round_trip, pow256, two_pow_256, Uint256,
};
use ethers::abi::Token;
use ethers::types::{H160, U256};
use vstd::prelude::*;

verus! {

/// The selector that `ethers::utils::id` gives for a function signature: the
/// first four bytes of its Keccak-256 hash.
pub uninterp spec fn selector_of(signature: Seq<char>) -> Seq<u8>;

/// The most path entries that can be encoded: the encoder adds up byte
/// lengths in 32 bits, and `32 * (MAX_PATH_LEN + 6)` is the most that fits.
pub const MAX_PATH_LEN: usize = 134_217_721;

/// One unsigned integer as an ABI word: 32 bytes, most significant first.
pub open spec fn abi_word(value: nat) -> Seq<u8> {
    be_bytes(value, 32)
}

/// One address as an ABI word: twelve zero bytes, then the address.
pub open spec fn abi_address(address: Seq<u8>) -> Seq<u8> {
    Seq::new(12, |i: int| 0u8) + address
}

/// The addresses of a path, one ABI word each, in order.
pub open spec fn abi_addresses(path: Seq<Seq<u8>>) -> Seq<u8>
    decreases path.len(),
{
    if path.len() == 0 {
        Seq::empty()
    } else {
        abi_addresses(path.drop_last()) + abi_address(path.last())
    }
}

/// The ABI encoding of the argument list
/// `(uint256 amount_in, uint256 amount_out_min, address[] path, address recipient, uint256 deadline)`:
/// five head words, of which the third is the offset of the array, 160;
/// then the array: its length and one word per address.
pub open spec fn swap_arguments_encoding(
    amount_in: nat,
    amount_out_min: nat,
    path: Seq<Seq<u8>>,
    recipient: Seq<u8>,
    deadline: nat,
) -> Seq<u8> {
    abi_word(amount_in) + abi_word(amount_out_min) + abi_word(160) + abi_address(recipient)
        + abi_word(deadline) + abi_word(path.len()) + abi_addresses(path)
}

/// Whether every entry is as long as an address.
pub open spec fn all_addresses(path: Seq<Seq<u8>>) -> bool {
    forall|i: int| 0 <= i < path.len() ==> (#[trigger] path[i]).len() == 20
}

/// The words of a path take 32 bytes per address.
pub proof fn lemma_abi_addresses_len(path: Seq<Seq<u8>>)
    requires
        all_addresses(path),
    ensures
        abi_addresses(path).len() == 32 * path.len(),
    decreases path.len(),
{
    if path.len() > 0 {
        assert(path.last().len() == 20);
        assert(all_addresses(path.drop_last())) by {
            assert forall|i: int| 0 <= i < path.drop_last().len() implies (
            #[trigger] path.drop_last()[i]).len() == 20 by {
                assert(path.drop_last()[i] == path[i]);
            }
        }
        lemma_abi_addresses_len(path.drop_last());
    }
}

/// The encoded arguments take six words and one more per address of the path.
pub proof fn lemma_swap_arguments_len(
    amount_in: nat,
    amount_out_min: nat,
    path: Seq<Seq<u8>>,
    recipient: Seq<u8>,
    deadline: nat,
)
    requires
        all_addresses(path),
        recipient.len() == 20,
    ensures
        swap_arguments_encoding(amount_in, amount_out_min, path, recipient, deadline).len() == 32
            * (6 + path.len()),
{
    lemma_be_bytes_round_trip(amount_in, 32);
    lemma_be_bytes_round_trip(amount_out_min, 32);
    lemma_be_bytes_round_trip(160, 32);
    lemma_be_bytes_round_trip(deadline, 32);
    lemma_be_bytes_round_trip(path.len(), 32);
    lemma_abi_addresses_len(path);
}

/// Where each argument stands in the encoding: the two amounts, the offset
/// of the array, the recipient and the deadline in the first five words, the
/// length of the path in the sixth, and the addresses after it.
pub proof fn lemma_swap_arguments_layout(
    amount_in: nat,
    amount_out_min: nat,
    path: Seq<Seq<u8>>,
    recipient: Seq<u8>,
    deadline: nat,
)
    requires
        all_addresses(path),
        recipient.len() == 20,
    ensures
        ({
            let encoding = swap_arguments_encoding(
                amount_in,
                amount_out_min,
                path,
                recipient,
                deadline,
            );
            &&& encoding.len() == 32 * (6 + path.len())
            &&& encoding.subrange(0, 32) == abi_word(amount_in)
            &&& encoding.subrange(32, 64) == abi_word(amount_out_min)
            &&& encoding.subrange(64, 96) == abi_word(160)
            &&& encoding.subrange(96, 128) == abi_address(recipient)
            &&& encoding.subrange(128, 160) == abi_word(deadline)
            &&& encoding.subrange(160, 192) == abi_word(path.len())
            &&& encoding.subrange(192, encoding.len() as int) == abi_addresses(path)
        }),
{
    lemma_swap_arguments_len(amount_in, amount_out_min, path, recipient, deadline);
    lemma_be_bytes_round_trip(amount_in, 32);
    lemma_be_bytes_round_trip(amount_out_min, 32);
    lemma_be_bytes_round_trip(160, 32);
    lemma_be_bytes_round_trip(deadline, 32);
    lemma_be_bytes_round_trip(path.len(), 32);
    lemma_abi_addresses_len(path);
    let encoding = swap_arguments_encoding(amount_in, amount_out_min, path, recipient, deadline);
    assert(encoding.subrange(0, 32) =~= abi_word(amount_in));
    assert(encoding.subrange(32, 64) =~= abi_word(amount_out_min));
    assert(encoding.subrange(64, 96) =~= abi_word(160));
    assert(encoding.subrange(96, 128) =~= abi_address(recipient));
    assert(encoding.subrange(128, 160) =~= abi_word(deadline));
    assert(encoding.subrange(160, 192) =~= abi_word(path.len()));
    assert(encoding.subrange(192, encoding.len() as int) =~= abi_addresses(path));
}

/// A word read back as a number is the number that was encoded.
pub proof fn lemma_abi_word_round_trip(value: nat)
    requires
        value < two_pow_256(),
    ensures
        abi_word(value).len() == 32,
        be_value(abi_word(value)) == value,
{
    lemma_be_bytes_round_trip(value, 32);
    assert(pow256(32) == two_pow_256()) by {
        reveal_with_fuel(pow256, 33);
    }
    vstd::arithmetic::div_mod::lemma_small_mod(value, two_pow_256());
}

/// The bytes of each address of a path.
pub open spec fn path_bytes(path: Seq<Address>) -> Seq<Seq<u8>> {
    path.map_values(|a: Address| a.bytes@)
}

/// The signature of the router's swap function.
pub open spec fn swap_signature() -> Seq<char> {
    "swapExactTokensForTokens(uint256,uint256,address[],address,uint256)"@
}

/// The call data of `swapExactTokensForTokens`: the selector, then the
/// encoded arguments.
pub open spec fn swap_call_data(
    amount_in: nat,
    amount_out_min: nat,
    path: Seq<Seq<u8>>,
    recipient: Seq<u8>,
    deadline: nat,
) -> Seq<u8> {
    selector_of(swap_signature()) + swap_arguments_encoding(
        amount_in,
        amount_out_min,
        path,
        recipient,
        deadline,
    )
}

/// `ethers::utils::id`: the four-byte selector of `signature`.
#[verifier::external_body]
fn function_selector(signature: &str) -> (r: [u8; 4])
    ensures
        r@ == selector_of(signature@),
{
    ethers::utils::id(signature)
}

/// `ethers::abi::encode` on two unsigned integers, an array of addresses, an
/// address and an unsigned integer, in this order: the head words, with the
/// offset of the array in the array's place, then the array's length and
/// its addresses. The encoder counts bytes in 32 bits, so longer paths are
/// left out.
#[verifier::external_body]
fn abi_encode_swap_arguments(
    amount_in: &Uint256,
    amount_out_min: &Uint256,
    path: &Vec<Address>,
    recipient: &Address,
    deadline_secs: u64,
) -> (r: Vec<u8>)
    requires
        path@.len() <= MAX_PATH_LEN,
    ensures
        r@ == swap_arguments_encoding(
            amount_in.value(),
            amount_out_min.value(),
            path_bytes(path@),
            recipient.bytes@,
            deadline_secs as nat,
        ),
{
    ethers::abi::encode(
        &[
            Token::Uint(U256([amount_in.w0, amount_in.w1, amount_in.w2, amount_in.w3])),
            Token::Uint(
                U256([amount_out_min.w0, amount_out_min.w1, amount_out_min.w2, amount_out_min.w3]),
            ),
            Token::Array(path.iter().map(|a| Token::Address(H160(a.bytes))).collect()),
            Token::Address(H160(recipient.bytes)),
            Token::Uint(U256::from(deadline_secs)),
        ],
    )
}

/// Call data made of a selector followed by encoded arguments.
pub fn assemble_call(selector: [u8; 4], arguments: Vec<u8>) -> (r: Vec<u8>)
    ensures
        r@ == selector@ + arguments@,
{
    let mut data: Vec<u8> = Vec::new();
    let mut i: usize = 0;
    while i < 4
        invariant
            i <= 4,
            data@ == selector@.take(i as int),
        decreases 4 - i,
    {
        data.push(selector[i]);
        assert(selector@.take(i + 1) == selector@.take(i as int).push(selector@[i as int]));
        i = i + 1;
    }
    assert(selector@.take(4) == selector@);
    let mut rest = arguments;
    data.append(&mut rest);
    data
}

/// The call data of a swap of exactly `amount_in` along `path`, paying out to
/// `recipient`, valid until `deadline_secs`: the four bytes of the selector,
/// then the encoded arguments.
pub fn encode_swap_exact_tokens(
    amount_in: Uint256,
    amount_out_min: Uint256,
    path: Vec<Address>,
    recipient: Address,
    deadline_secs: u64,
) -> (r: Vec<u8>)
    requires
        path@.len() <= MAX_PATH_LEN,
    ensures
        r@ == swap_call_data(
            amount_in.value(),
            amount_out_min.value(),
            path_bytes(path@),
            recipient.bytes@,
            deadline_secs as nat,
        ),
        selector_of(swap_signature()).len() == 4,
        r@.len() == 4 + 32 * (6 + path@.len()),
{
    broadcast use vstd::array::group_array_axioms;

    let selector = function_selector(
        "swapExactTokensForTokens(uint256,uint256,address[],address,uint256)",
    );
    let arguments = abi_encode_swap_arguments(
        &amount_in,
        &amount_out_min,
        &path,
        &recipient,
        deadline_secs,
    );
    proof {
        assert(all_addresses(path_bytes(path@)));
        lemma_swap_arguments_len(
            amount_in.value(),
            amount_out_min.value(),
            path_bytes(path@),
            recipient.bytes@,
            deadline_secs as nat,
        );
    }
    assemble_call(selector, arguments)
}

} // verus!
