use vstd::prelude::*;
use vstd::slice::{slice_subrange, slice_to_vec};
use vstd::utf8::{decode_utf8, encode_utf8, encode_utf8_decode_utf8, encode_utf8_valid_utf8, valid_utf8};
use vstd::string::StringSliceAdditionalSpecFns;
use crate::error::NetError;

verus! {

/// Compares two byte strings: equal lengths and equal bytes at every index.
pub fn compare_byte_array(a: &[u8], b: &[u8]) -> (r: bool)
    ensures
        r == (a@ == b@),
{
    if a.len() != b.len() {
        return false;
    }
    let mut i: usize = 0;
    while i < a.len()
        invariant
            a@.len() == b@.len(),
            0 <= i <= a@.len(),
            forall|j: int| 0 <= j < i ==> a@[j] == b@[j],
        decreases a@.len() - i,
    {
        if a[i] != b[i] {
            return false;
        }
        i += 1;
    }
    assert(a@ =~= b@);
    true
}

/// Width in bytes of an integer field.
pub const U64_WIDTH: usize = 8;

/// `256` raised to `n`.
pub open spec fn pow256(n: nat) -> nat
    decreases n,
{
    if n == 0 {
        1
    } else {
        256 * pow256((n - 1) as nat)
    }
}

/// The `n` low-order base-256 digits of `v`, least significant first.
pub open spec fn le_bytes(v: nat, n: nat) -> Seq<u8>
    decreases n,
{
    if n == 0 {
        seq![]
    } else {
        seq![(v % 256) as u8] + le_bytes(v / 256, (n - 1) as nat)
    }
}

/// The number whose base-256 digits, least significant first, are `s`.
pub open spec fn le_value(s: Seq<u8>) -> nat
    decreases s.len(),
{
    if s.len() == 0 {
        0
    } else {
        s[0] as nat + 256 * le_value(s.drop_first())
    }
}

/// The wire form of an integer field.
pub open spec fn u64_field(v: u64) -> Seq<u8> {
    le_bytes(v as nat, 8)
}

pub proof fn lemma_le_bytes_len(v: nat, n: nat)
    ensures
        le_bytes(v, n).len() == n,
    decreases n,
{
    if n > 0 {
        lemma_le_bytes_len(v / 256, (n - 1) as nat);
    }
}

pub proof fn lemma_le_value_bound(s: Seq<u8>)
    ensures
        le_value(s) < pow256(s.len()),
    decreases s.len(),
{
    if s.len() > 0 {
        lemma_le_value_bound(s.drop_first());
        let t = le_value(s.drop_first());
        let p = pow256(s.drop_first().len());
        assert(s[0] as nat + 256 * t < 256 * p) by (nonlinear_arith)
            requires
                t < p,
                s[0] < 256,
        ;
    }
}

/// Reading back `n` digits of a number below `256^n` gives the number.
pub proof fn lemma_le_round_trip(v: nat, n: nat)
    requires
        v < pow256(n),
    ensures
        le_value(le_bytes(v, n)) == v,
    decreases n,
{
    if n > 0 {
        let q = v / 256;
        assert(q < pow256((n - 1) as nat)) by (nonlinear_arith)
            requires
                v < 256 * pow256((n - 1) as nat),
                q == v / 256,
        ;
        lemma_le_round_trip(q, (n - 1) as nat);
        let s = le_bytes(v, n);
        assert(s.drop_first() =~= le_bytes(q, (n - 1) as nat));
        assert(v == v % 256 + 256 * q) by (nonlinear_arith)
            requires
                q == v / 256,
        ;
    }
}

pub proof fn lemma_pow256_8()
    ensures
        pow256(8) == 0x1_0000_0000_0000_0000,
{
    reveal_with_fuel(pow256, 9);
}

/// An integer field decodes to the value that was encoded, for every `u64`.
pub proof fn lemma_u64_field_round_trip(v: u64)
    ensures
        u64_field(v).len() == U64_WIDTH,
        le_value(u64_field(v)) == v,
{
    lemma_le_bytes_len(v as nat, 8);
    lemma_pow256_8();
    lemma_le_round_trip(v as nat, 8);
}

/// Encodes `v` as eight bytes, least significant first.
pub fn encode_u64(v: u64) -> (r: Vec<u8>)
    ensures
        r@ == u64_field(v),
        r@.len() == U64_WIDTH,
{
    let mut out: Vec<u8> = Vec::new();
    let mut rest: u64 = v;
    let mut i: usize = 0;
    while i < U64_WIDTH
        invariant
            i <= U64_WIDTH,
            out@.len() == i,
            out@ + le_bytes(rest as nat, (U64_WIDTH - i) as nat) == u64_field(v),
        decreases U64_WIDTH - i,
    {
        let ghost before = out@;
        let digit = (rest % 256) as u8;
        proof {
            let k = (U64_WIDTH - i) as nat;
            assert(le_bytes(rest as nat, k) == seq![digit] + le_bytes((rest / 256) as nat, (k - 1) as nat));
        }
        out.push(digit);
        rest = rest / 256;
        i += 1;
        assert(out@ + le_bytes(rest as nat, (U64_WIDTH - i) as nat) =~= before + (seq![digit] + le_bytes(rest as nat, (U64_WIDTH - i) as nat)));
    }
    assert(out@ =~= out@ + le_bytes(rest as nat, 0));
    out
}

/// Decodes an integer field: eight bytes, least significant first.
pub fn decode_u64(b: &[u8]) -> (r: u64)
    requires
        b@.len() == U64_WIDTH,
    ensures
        r == le_value(b@),
{
    let mut acc: u64 = 0;
    let mut i: usize = U64_WIDTH;
    proof {
        assert(b@.subrange(8, 8) =~= Seq::<u8>::empty());
        lemma_pow256_8();
    }
    while i > 0
        invariant
            i <= U64_WIDTH,
            b@.len() == U64_WIDTH,
            acc == le_value(b@.subrange(i as int, 8)),
            pow256(8) == 0x1_0000_0000_0000_0000,
        decreases i,
    {
        let ghost tail = b@.subrange(i as int, 8);
        let ghost s = b@.subrange(i - 1, 8);
        proof {
            assert(s.drop_first() =~= tail);
            lemma_le_value_bound(s);
            assert(pow256(s.len()) <= pow256(8)) by {
                lemma_pow256_mono(s.len(), 8);
            }
        }
        acc = acc * 256 + b[i - 1] as u64;
        i -= 1;
    }
    assert(b@.subrange(0, 8) =~= b@);
    acc
}

proof fn lemma_pow256_mono(a: nat, b: nat)
    requires
        a <= b,
    ensures
        pow256(a) <= pow256(b),
    decreases b,
{
    if a < b {
        lemma_pow256_mono(a, (b - 1) as nat);
    }
}

/// The wire form of a string field: its UTF-8 length as an integer field, then
/// the UTF-8 bytes, with no terminator.
pub open spec fn string_field(text: Seq<char>) -> Seq<u8> {
    u64_field(encode_utf8(text).len() as u64) + encode_utf8(text)
}

/// Relies on `String::from_utf8`: it accepts exactly the well-formed UTF-8 byte
/// strings and then holds the characters they encode.
#[verifier::external_body]
fn utf8_to_string(bytes: Vec<u8>) -> (r: Option<String>)
    ensures
        r is Some <==> valid_utf8(bytes@),
        r matches Some(s) ==> s@ == decode_utf8(bytes@),
{
    match String::from_utf8(bytes) {
        Ok(s) => Some(s),
        Err(_) => None,
    }
}

/// Encodes a string field.
pub fn encode_string(text: &str) -> (r: Vec<u8>)
    ensures
        r@ == string_field(text@),
{
    let bytes = text.as_bytes();
    let n = bytes.len();
    assert(bytes@ == encode_utf8(text@));
    let mut out = encode_u64(n as u64);
    let mut i: usize = 0;
    while i < n
        invariant
            n == bytes@.len(),
            i <= n,
            out@ == u64_field(n as u64) + bytes@.subrange(0, i as int),
        decreases n - i,
    {
        out.push(bytes[i]);
        i += 1;
        assert(out@ =~= u64_field(n as u64) + bytes@.subrange(0, i as int));
    }
    assert(bytes@.subrange(0, n as int) =~= bytes@);
    out
}

/// Checks the bytes of a string field's body and turns them into text.
pub fn decode_text(bytes: Vec<u8>) -> (r: Result<String, NetError>)
    ensures
        r is Ok <==> valid_utf8(bytes@),
        r matches Ok(s) ==> s@ == decode_utf8(bytes@),
        r matches Err(e) ==> e == NetError::InvalidText,
{
    match utf8_to_string(bytes) {
        Some(s) => Ok(s),
        None => Err(NetError::InvalidText),
    }
}

/// Whether `frame` is a well-formed string field: a length, exactly that many
/// bytes after it, and those bytes valid UTF-8.
pub open spec fn is_string_field(frame: Seq<u8>) -> bool {
    &&& frame.len() >= U64_WIDTH
    &&& le_value(frame.subrange(0, 8)) == frame.len() - U64_WIDTH
    &&& valid_utf8(frame.subrange(8, frame.len() as int))
}

/// Decodes a complete string field held in memory.
pub fn decode_string(frame: &[u8]) -> (r: Result<String, NetError>)
    ensures
        r is Ok <==> is_string_field(frame@),
        r matches Ok(s) ==> s@ == decode_utf8(frame@.subrange(8, frame@.len() as int)),
        r matches Err(e) ==> e == (if frame@.len() >= U64_WIDTH && le_value(frame@.subrange(0, 8))
            == frame@.len() - U64_WIDTH {
            NetError::InvalidText
        } else {
            NetError::InvalidProtocol
        }),
{
    if frame.len() < U64_WIDTH {
        return Err(NetError::InvalidProtocol);
    }
    let head = slice_subrange(frame, 0, U64_WIDTH);
    let n = decode_u64(head);
    if n != (frame.len() - U64_WIDTH) as u64 {
        return Err(NetError::InvalidProtocol);
    }
    let body = slice_to_vec(slice_subrange(frame, U64_WIDTH, frame.len()));
    decode_text(body)
}

/// A string field decodes to the text that was encoded, the empty text included.
pub proof fn lemma_string_field_round_trip(text: Seq<char>)
    requires
        encode_utf8(text).len() <= u64::MAX,
    ensures
        is_string_field(string_field(text)),
        decode_utf8(string_field(text).subrange(8, string_field(text).len() as int)) == text,
{
    broadcast use encode_utf8_decode_utf8, encode_utf8_valid_utf8;

    let body = encode_utf8(text);
    let n = body.len() as u64;
    let f = string_field(text);
    lemma_u64_field_round_trip(n);
    assert(f.subrange(0, 8) =~= u64_field(n));
    assert(f.subrange(8, f.len() as int) =~= body);
}

/// The agreement token: `AGREE` padded with spaces to eight bytes.
pub open spec fn agree_token() -> Seq<u8> {
    seq![65u8, 71, 82, 69, 69, 32, 32, 32]
}

/// The refusal token: `DISAGREE`, eight bytes.
pub open spec fn disagree_token() -> Seq<u8> {
    seq![68u8, 73, 83, 65, 71, 82, 69, 69]
}

/// The marker announcing a file: `FILE`.
pub open spec fn file_marker() -> Seq<u8> {
    seq![70u8, 73, 76, 69]
}

/// The marker closing a session: `END` and a space.
pub open spec fn end_marker() -> Seq<u8> {
    seq![69u8, 78, 68, 32]
}

/// The protocol identifier the requesting peer opens with: `netcp v0.1`.
pub open spec fn callsign() -> Seq<u8> {
    seq![110u8, 101, 116, 99, 112, 32, 118, 48, 46, 49]
}

/// Width in bytes of an agreement token.
pub const ANSWER_WIDTH: usize = 8;

/// Width in bytes of a marker.
pub const MARKER_WIDTH: usize = 4;

/// Width in bytes of the callsign.
pub const CALLSIGN_WIDTH: usize = 10;

/// A reply to a proposal.
#[derive(Clone, Copy, Debug, PartialEq, Eq, Structural)]
pub enum Answer {
    Agree,
    Disagree,
}

/// What the offering peer announces next.
#[derive(Clone, Copy, Debug, PartialEq, Eq, Structural)]
pub enum Marker {
    File,
    End,
}

/// The answer that a received token stands for, if any.
pub open spec fn answer_of(b: Seq<u8>) -> Option<Answer> {
    if b == agree_token() {
        Some(Answer::Agree)
    } else if b == disagree_token() {
        Some(Answer::Disagree)
    } else {
        None
    }
}

/// The marker that received bytes stand for, if any.
pub open spec fn marker_of(b: Seq<u8>) -> Option<Marker> {
    if b == file_marker() {
        Some(Marker::File)
    } else if b == end_marker() {
        Some(Marker::End)
    } else {
        None
    }
}

pub open spec fn answer_token(a: Answer) -> Seq<u8> {
    match a {
        Answer::Agree => agree_token(),
        Answer::Disagree => disagree_token(),
    }
}

pub fn agree_bytes() -> (r: Vec<u8>)
    ensures
        r@ == agree_token(),
{
    let r: Vec<u8> = vec![65u8, 71, 82, 69, 69, 32, 32, 32];
    assert(r@ =~= agree_token());
    r
}

pub fn disagree_bytes() -> (r: Vec<u8>)
    ensures
        r@ == disagree_token(),
{
    let r: Vec<u8> = vec![68u8, 73, 83, 65, 71, 82, 69, 69];
    assert(r@ =~= disagree_token());
    r
}

pub fn file_marker_bytes() -> (r: Vec<u8>)
    ensures
        r@ == file_marker(),
{
    let r: Vec<u8> = vec![70u8, 73, 76, 69];
    assert(r@ =~= file_marker());
    r
}

pub fn end_marker_bytes() -> (r: Vec<u8>)
    ensures
        r@ == end_marker(),
{
    let r: Vec<u8> = vec![69u8, 78, 68, 32];
    assert(r@ =~= end_marker());
    r
}

pub fn callsign_bytes() -> (r: Vec<u8>)
    ensures
        r@ == callsign(),
{
    let r: Vec<u8> = vec![110u8, 101, 116, 99, 112, 32, 118, 48, 46, 49];
    assert(r@ =~= callsign());
    r
}

/// The bytes of the token that carries `a`.
pub fn encode_answer(a: Answer) -> (r: Vec<u8>)
    ensures
        r@ == answer_token(a),
{
    match a {
        Answer::Agree => agree_bytes(),
        Answer::Disagree => disagree_bytes(),
    }
}

/// Reads an agreement token: exact, length-sensitive comparison with both tokens.
pub fn decode_answer(b: &[u8]) -> (r: Result<Answer, NetError>)
    ensures
        r matches Ok(a) ==> answer_of(b@) == Some(a),
        r is Err <==> answer_of(b@) is None,
        r matches Err(e) ==> e == NetError::InvalidProtocol,
{
    let agree = agree_bytes();
    let disagree = disagree_bytes();
    if compare_byte_array(b, agree.as_slice()) {
        Ok(Answer::Agree)
    } else if compare_byte_array(b, disagree.as_slice()) {
        Ok(Answer::Disagree)
    } else {
        Err(NetError::InvalidProtocol)
    }
}

/// Reads a marker: exact, length-sensitive comparison with `FILE` and `END `.
pub fn decode_marker(b: &[u8]) -> (r: Result<Marker, NetError>)
    ensures
        r matches Ok(m) ==> marker_of(b@) == Some(m),
        r is Err <==> marker_of(b@) is None,
        r matches Err(e) ==> e == NetError::InvalidProtocol,
{
    let file = file_marker_bytes();
    let end = end_marker_bytes();
    if compare_byte_array(b, file.as_slice()) {
        Ok(Marker::File)
    } else if compare_byte_array(b, end.as_slice()) {
        Ok(Marker::End)
    } else {
        Err(NetError::InvalidProtocol)
    }
}

/// The two agreement tokens never stand for one another: no byte string reads
/// as both, and one of another length, or differing in any byte or letter case,
/// reads as neither.
pub proof fn lemma_answer_tokens_distinct(b: Seq<u8>)
    ensures
        agree_token() != disagree_token(),
        answer_of(b) == Some(Answer::Agree) <==> b == agree_token(),
        answer_of(b) == Some(Answer::Disagree) <==> b == disagree_token(),
        b.len() != ANSWER_WIDTH ==> answer_of(b) is None,
{
    assert(agree_token()[0] != disagree_token()[0]);
}

} // verus!
