//! The guest's side of the protocol with WebAssembly context providers: how a
//! guest rebuilds the context from the bytes that the host hands it, and how it
//! frames its result.
use crate::context_provider::wasm_context_provider::le_i32;
use vstd::prelude::*;
use vstd::utf8::{decode_utf8, encode_utf8, valid_utf8};

pub mod hook_signature;

verus! {

/// The text that `String::from_utf8_lossy` makes of `bytes`.
pub uninterp spec fn utf8_lossy(bytes: Seq<u8>) -> Seq<char>;

/// Calls `String::from_utf8_lossy`. Claimed: the result is determined by the
/// bytes; for valid UTF-8 it is their decoding, and otherwise invalid
/// sequences were replaced by U+FFFD, which then occurs in the result, as the
/// documentation says. Where exactly each replacement stands is left unsaid.
#[verifier::external_body]
fn text_from_utf8_lossy(bytes: &[u8]) -> (r: String)
    ensures
        r@ == utf8_lossy(bytes@),
        valid_utf8(bytes@) ==> r@ == decode_utf8(bytes@),
        !valid_utf8(bytes@) ==> r@.contains('\u{FFFD}'),
{
    String::from_utf8_lossy(bytes).into_owned()
}

/// The context as a guest sees it.
pub struct ContextProviderGuestContext {
    pub user: String,
    pub key_path: String,
    pub action_id: String,
    pub payload: Vec<u8>,
}

impl ContextProviderGuestContext {
    /// Rebuilds the context from the bytes that the host handed over: the texts
    /// are decoded as UTF-8, with invalid sequences replaced.
    pub fn from_bytes(user: &[u8], key_path: &[u8], action_id: &[u8], payload: &[u8]) -> (r: Self)
        ensures
            r.user@ == utf8_lossy(user@),
            r.key_path@ == utf8_lossy(key_path@),
            r.action_id@ == utf8_lossy(action_id@),
            valid_utf8(user@) ==> r.user@ == decode_utf8(user@),
            valid_utf8(key_path@) ==> r.key_path@ == decode_utf8(key_path@),
            valid_utf8(action_id@) ==> r.action_id@ == decode_utf8(action_id@),
            !valid_utf8(user@) ==> r.user@.contains('\u{FFFD}'),
            !valid_utf8(key_path@) ==> r.key_path@.contains('\u{FFFD}'),
            !valid_utf8(action_id@) ==> r.action_id@.contains('\u{FFFD}'),
            r.payload@ == payload@,
    {
        ContextProviderGuestContext {
            user: text_from_utf8_lossy(user),
            key_path: text_from_utf8_lossy(key_path),
            action_id: text_from_utf8_lossy(action_id),
            payload: vstd::slice::slice_to_vec(payload),
        }
    }
}

/// The four little-endian bytes of a length, as the guest writes it: the
/// length as an `i32`, that is, modulo 2^32.
pub open spec fn le_bytes(n: nat) -> Seq<u8> {
    seq![
        (n % 256) as u8,
        ((n / 256) % 256) as u8,
        ((n / 65536) % 256) as u8,
        ((n / 16777216) % 256) as u8,
    ]
}

/// The frame in which a guest returns `data`: its length, then the data.
pub open spec fn result_frame(data: Seq<u8>) -> Seq<u8> {
    le_bytes(data.len()) + data
}

/// Frames a guest's result: its length as a little-endian `i32`, then the data.
pub fn encode_result(data: &[u8]) -> (r: Vec<u8>)
    ensures
        r@ == result_frame(data@),
{
    let n = data.len();
    let mut frame: Vec<u8> = Vec::new();
    frame.push((n % 256) as u8);
    frame.push(((n / 256) % 256) as u8);
    frame.push(((n / 65536) % 256) as u8);
    frame.push(((n / 16777216) % 256) as u8);
    let mut i: usize = 0;
    while i < n
        invariant
            n == data@.len(),
            i <= n,
            frame@ == le_bytes(n as nat) + data@.take(i as int),
        decreases n - i,
    {
        frame.push(data[i]);
        i = i + 1;
        assert(frame@ =~= le_bytes(n as nat) + data@.take(i as int));
    }
    assert(data@.take(n as int) =~= data@);
    frame
}

/// The host reads back the length that a guest framed, for any result shorter
/// than 2^31 bytes; the data follows it.
pub proof fn lemma_result_frame_round_trip(data: Seq<u8>)
    requires
        data.len() < 0x8000_0000,
    ensures
        result_frame(data).len() == 4 + data.len(),
        le_i32(result_frame(data).take(4)) == data.len(),
        result_frame(data).skip(4) == data,
{
    let n = data.len();
    let b = result_frame(data).take(4);
    assert(b =~= le_bytes(n));
    assert(result_frame(data).skip(4) =~= data);
    assert(b[0] + 256 * b[1] + 65536 * b[2] + 16777216 * b[3] == n) by (nonlinear_arith)
        requires
            b[0] == n % 256,
            b[1] == (n / 256) % 256,
            b[2] == (n / 65536) % 256,
            b[3] == (n / 16777216) % 256,
            n < 0x8000_0000,
    {
    }
}

/// A guest decodes the text that the host encoded for it exactly.
pub proof fn lemma_guest_reads_host_text(text: Seq<char>)
    ensures
        valid_utf8(encode_utf8(text)),
        decode_utf8(encode_utf8(text)) == text,
{
    vstd::utf8::encode_utf8_valid_utf8(text);
    vstd::utf8::encode_utf8_decode_utf8(text);
}

} // verus!
