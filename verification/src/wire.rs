//! The byte layout of stored records: fixed-width little-endian integers,
//! one-byte flags, and length-prefixed UTF-8 text.
//!
//! Each field kind has a spec encoding, a spec parser that splits one field
//! off the front of a byte sequence, a lemma that the parser undoes the
//! encoding, and the executable writer and reader.

use vstd::prelude::*;
use vstd::bytes::*;
use vstd::slice::*;
use vstd::utf8::*;

verus! {

/// Bytes in three parts can be grouped either way.
pub proof fn lemma_regroup(a: Seq<u8>, b: Seq<u8>, c: Seq<u8>)
    ensures
        a + (b + c) == (a + b) + c,
{
    assert(a + (b + c) =~= (a + b) + c);
}

/// An empty rest adds nothing.
pub proof fn lemma_no_rest(a: Seq<u8>, rest: Seq<u8>)
    requires
        rest.len() == 0,
    ensures
        a + rest == a,
{
    assert(a + rest =~= a);
}

/// The eight bytes of `x`, least significant first.
pub open spec fn u64_bytes(x: u64) -> Seq<u8> {
    spec_u64_to_le_bytes(x)
}

/// Splits a `u64` off the front of `b`.
pub open spec fn take_u64(b: Seq<u8>) -> Option<(u64, Seq<u8>)> {
    if b.len() >= 8 {
        Some((spec_u64_from_le_bytes(b.subrange(0, 8)), b.skip(8)))
    } else {
        None
    }
}

/// `take_u64` splits off the number that was encoded, and leaves the rest.
pub proof fn lemma_take_u64(x: u64, rest: Seq<u8>)
    ensures
        u64_bytes(x).len() == 8,
        take_u64(u64_bytes(x) + rest) == Some((x, rest)),
{
    lemma_auto_spec_u64_to_from_le_bytes();
    let b = u64_bytes(x) + rest;
    assert(b.subrange(0, 8) =~= u64_bytes(x));
    assert(b.skip(8) =~= rest);
}

/// What `take_u64` splits off, put back in front of the rest, is the input.
pub proof fn lemma_taken_u64(b: Seq<u8>)
    requires
        take_u64(b) is Some,
    ensures
        b == u64_bytes(take_u64(b).unwrap().0) + take_u64(b).unwrap().1,
{
    lemma_auto_spec_u64_to_from_le_bytes();
    let head = b.subrange(0, 8);
    assert(spec_u64_to_le_bytes(spec_u64_from_le_bytes(head)) == head);
    assert(b =~= head + b.skip(8));
}

/// The four bytes of `x`, least significant first.
pub open spec fn u32_bytes(x: u32) -> Seq<u8> {
    spec_u32_to_le_bytes(x)
}

/// Splits a `u32` off the front of `b`.
pub open spec fn take_u32(b: Seq<u8>) -> Option<(u32, Seq<u8>)> {
    if b.len() >= 4 {
        Some((spec_u32_from_le_bytes(b.subrange(0, 4)), b.skip(4)))
    } else {
        None
    }
}

/// `take_u32` splits off the number that was encoded, and leaves the rest.
pub proof fn lemma_take_u32(x: u32, rest: Seq<u8>)
    ensures
        u32_bytes(x).len() == 4,
        take_u32(u32_bytes(x) + rest) == Some((x, rest)),
{
    lemma_auto_spec_u32_to_from_le_bytes();
    let b = u32_bytes(x) + rest;
    assert(b.subrange(0, 4) =~= u32_bytes(x));
    assert(b.skip(4) =~= rest);
}

/// What `take_u32` splits off, put back in front of the rest, is the input.
pub proof fn lemma_taken_u32(b: Seq<u8>)
    requires
        take_u32(b) is Some,
    ensures
        b == u32_bytes(take_u32(b).unwrap().0) + take_u32(b).unwrap().1,
{
    lemma_auto_spec_u32_to_from_le_bytes();
    let head = b.subrange(0, 4);
    assert(spec_u32_to_le_bytes(spec_u32_from_le_bytes(head)) == head);
    assert(b =~= head + b.skip(4));
}

/// A flag is one byte: 1 for true, 0 for false.
pub open spec fn flag_bytes(x: bool) -> Seq<u8> {
    seq![if x { 1u8 } else { 0u8 }]
}

/// Splits a flag off the front of `b`; any byte but 0 and 1 is refused.
pub open spec fn take_flag(b: Seq<u8>) -> Option<(bool, Seq<u8>)> {
    if b.len() >= 1 && b[0] <= 1 {
        Some((b[0] == 1, b.skip(1)))
    } else {
        None
    }
}

/// `take_flag` splits off the flag that was encoded, and leaves the rest.
pub proof fn lemma_take_flag(x: bool, rest: Seq<u8>)
    ensures
        flag_bytes(x).len() == 1,
        take_flag(flag_bytes(x) + rest) == Some((x, rest)),
{
    let b = flag_bytes(x) + rest;
    assert(b.skip(1) =~= rest);
}

/// What `take_flag` splits off, put back in front of the rest, is the input.
pub proof fn lemma_taken_flag(b: Seq<u8>)
    requires
        take_flag(b) is Some,
    ensures
        b == flag_bytes(take_flag(b).unwrap().0) + take_flag(b).unwrap().1,
{
    assert(b =~= flag_bytes(b[0] == 1) + b.skip(1));
}

/// Text is its UTF-8 length as a `u64`, then its UTF-8 bytes.
pub open spec fn text_bytes(s: Seq<char>) -> Seq<u8> {
    u64_bytes(encode_utf8(s).len() as u64) + encode_utf8(s)
}

/// Splits a text off the front of `b`; a length that runs past the end, or
/// bytes that are not UTF-8, are refused.
pub open spec fn take_text(b: Seq<u8>) -> Option<(Seq<char>, Seq<u8>)> {
    match take_u64(b) {
        Some((n, r)) => {
            if n <= r.len() && valid_utf8(r.subrange(0, n as int)) {
                Some((decode_utf8(r.subrange(0, n as int)), r.skip(n as int)))
            } else {
                None
            }
        },
        None => None,
    }
}

/// `take_text` splits off the text that was encoded, and leaves the rest.
pub proof fn lemma_take_text(s: Seq<char>, rest: Seq<u8>)
    requires
        encode_utf8(s).len() <= u64::MAX,
    ensures
        text_bytes(s).len() == 8 + encode_utf8(s).len(),
        take_text(text_bytes(s) + rest) == Some((s, rest)),
{
    let body = encode_utf8(s);
    let n = body.len() as u64;
    lemma_take_u64(n, body + rest);
    assert(text_bytes(s) + rest =~= u64_bytes(n) + (body + rest));
    let r = body + rest;
    assert(r.subrange(0, n as int) =~= body);
    assert(r.skip(n as int) =~= rest);
    encode_utf8_valid_utf8(s);
    encode_utf8_decode_utf8(s);
}

/// What `take_text` splits off, put back in front of the rest, is the input.
pub proof fn lemma_taken_text(b: Seq<u8>)
    requires
        take_text(b) is Some,
    ensures
        b == text_bytes(take_text(b).unwrap().0) + take_text(b).unwrap().1,
{
    lemma_taken_u64(b);
    let (n, r) = take_u64(b).unwrap();
    let body = r.subrange(0, n as int);
    decode_utf8_encode_utf8(body);
    assert(r =~= body + r.skip(n as int));
    assert(b =~= text_bytes(decode_utf8(body)) + r.skip(n as int));
}

/// A text takes eight bytes more than its UTF-8 form.
pub proof fn lemma_text_len(s: Seq<char>)
    ensures
        text_bytes(s).len() == 8 + encode_utf8(s).len(),
{
    lemma_auto_spec_u64_to_from_le_bytes();
}

/// An optional `u64` is a flag, then the number where the flag is set.
pub open spec fn opt_u64_bytes(x: Option<u64>) -> Seq<u8> {
    match x {
        Some(v) => flag_bytes(true) + u64_bytes(v),
        None => flag_bytes(false),
    }
}

/// Splits an optional `u64` off the front of `b`.
pub open spec fn take_opt_u64(b: Seq<u8>) -> Option<(Option<u64>, Seq<u8>)> {
    match take_flag(b) {
        Some((true, r)) => match take_u64(r) {
            Some((v, r2)) => Some((Some(v), r2)),
            None => None,
        },
        Some((false, r)) => Some((None, r)),
        None => None,
    }
}

/// `take_opt_u64` splits off what was encoded, and leaves the rest.
pub proof fn lemma_take_opt_u64(x: Option<u64>, rest: Seq<u8>)
    ensures
        opt_u64_bytes(x).len() == if x is Some { 9int } else { 1int },
        take_opt_u64(opt_u64_bytes(x) + rest) == Some((x, rest)),
{
    match x {
        Some(v) => {
            lemma_take_flag(true, u64_bytes(v) + rest);
            lemma_take_u64(v, rest);
            assert(opt_u64_bytes(x) + rest =~= flag_bytes(true) + (u64_bytes(v) + rest));
        },
        None => {
            lemma_take_flag(false, rest);
        },
    }
}

/// What `take_opt_u64` splits off, put back in front of the rest, is the
/// input.
pub proof fn lemma_taken_opt_u64(b: Seq<u8>)
    requires
        take_opt_u64(b) is Some,
    ensures
        b == opt_u64_bytes(take_opt_u64(b).unwrap().0) + take_opt_u64(b).unwrap().1,
{
    lemma_taken_flag(b);
    let (set, r) = take_flag(b).unwrap();
    if set {
        lemma_taken_u64(r);
        let (v, r2) = take_u64(r).unwrap();
        assert(b =~= (flag_bytes(true) + u64_bytes(v)) + r2);
    }
}

/// The texts of a list, one after the other.
#[verifier::opaque]
pub open spec fn texts_body(l: Seq<Seq<char>>) -> Seq<u8>
    decreases l.len(),
{
    if l.len() == 0 {
        Seq::empty()
    } else {
        text_bytes(l[0]) + texts_body(l.drop_first())
    }
}

/// A list of texts is its length as a `u64`, then its texts.
pub open spec fn texts_bytes(l: Seq<Seq<char>>) -> Seq<u8> {
    u64_bytes(l.len() as u64) + texts_body(l)
}

/// Splits `n` texts off the front of `b`.
#[verifier::opaque]
pub open spec fn take_texts_body(b: Seq<u8>, n: nat) -> Option<(Seq<Seq<char>>, Seq<u8>)>
    decreases n,
{
    if n == 0 {
        Some((Seq::empty(), b))
    } else {
        match take_text(b) {
            Some((s, r)) => match take_texts_body(r, (n - 1) as nat) {
                Some((l, r2)) => Some((seq![s] + l, r2)),
                None => None,
            },
            None => None,
        }
    }
}

/// Splits a list of texts off the front of `b`.
pub open spec fn take_texts(b: Seq<u8>) -> Option<(Seq<Seq<char>>, Seq<u8>)> {
    match take_u64(b) {
        Some((n, r)) => take_texts_body(r, n as nat),
        None => None,
    }
}

/// Every text of the list has a UTF-8 length that a `u64` holds.
pub open spec fn texts_fit(l: Seq<Seq<char>>) -> bool {
    forall|i: int| 0 <= i < l.len() ==> (#[trigger] encode_utf8(l[i])).len() <= u64::MAX
}

/// `take_texts_body` splits off the texts that were encoded, and leaves the
/// rest.
pub proof fn lemma_take_texts_body(l: Seq<Seq<char>>, rest: Seq<u8>)
    requires
        texts_fit(l),
    ensures
        take_texts_body(texts_body(l) + rest, l.len()) == Some((l, rest)),
    decreases l.len(),
{
    reveal_with_fuel(texts_body, 2);
    reveal_with_fuel(take_texts_body, 2);
    if l.len() == 0 {
        assert(texts_body(l) + rest =~= rest);
        assert(l =~= Seq::empty());
    } else {
        let tail = l.drop_first();
        assert(encode_utf8(l[0]).len() <= u64::MAX);
        assert forall|i: int| 0 <= i < tail.len() implies (#[trigger] encode_utf8(tail[i])).len()
            <= u64::MAX by {
            assert(tail[i] == l[i + 1]);
        }
        lemma_take_text(l[0], texts_body(tail) + rest);
        lemma_take_texts_body(tail, rest);
        assert(texts_body(l) + rest =~= text_bytes(l[0]) + (texts_body(tail) + rest));
        assert(seq![l[0]] + tail =~= l);
    }
}

/// `take_texts` splits off the list that was encoded, and leaves the rest.
pub proof fn lemma_take_texts(l: Seq<Seq<char>>, rest: Seq<u8>)
    requires
        texts_fit(l),
        l.len() <= u64::MAX,
    ensures
        take_texts(texts_bytes(l) + rest) == Some((l, rest)),
{
    lemma_take_u64(l.len() as u64, texts_body(l) + rest);
    lemma_take_texts_body(l, rest);
    assert(texts_bytes(l) + rest =~= u64_bytes(l.len() as u64) + (texts_body(l) + rest));
}

/// What `take_texts_body` splits off, put back in front of the rest, is the
/// input.
pub proof fn lemma_taken_texts_body(b: Seq<u8>, n: nat)
    requires
        take_texts_body(b, n) is Some,
    ensures
        take_texts_body(b, n).unwrap().0.len() == n,
        b == texts_body(take_texts_body(b, n).unwrap().0) + take_texts_body(b, n).unwrap().1,
    decreases n,
{
    reveal_with_fuel(texts_body, 2);
    reveal_with_fuel(take_texts_body, 2);
    if n == 0 {
        assert(b =~= texts_body(Seq::empty()) + b);
    } else {
        lemma_taken_text(b);
        let (s, r) = take_text(b).unwrap();
        lemma_taken_texts_body(r, (n - 1) as nat);
        let (l, r2) = take_texts_body(r, (n - 1) as nat).unwrap();
        let all = seq![s] + l;
        assert(all.drop_first() =~= l);
        assert(all[0] == s);
        assert(b =~= texts_body(all) + r2);
    }
}

/// What `take_texts` splits off, put back in front of the rest, is the input.
pub proof fn lemma_taken_texts(b: Seq<u8>)
    requires
        take_texts(b) is Some,
    ensures
        b == texts_bytes(take_texts(b).unwrap().0) + take_texts(b).unwrap().1,
{
    lemma_taken_u64(b);
    let (n, r) = take_u64(b).unwrap();
    lemma_taken_texts_body(r, n as nat);
    let (l, r2) = take_texts_body(r, n as nat).unwrap();
    assert(b =~= texts_bytes(l) + r2);
}

/// The texts of a list occupy at least eight bytes each.
pub proof fn lemma_texts_body_len(l: Seq<Seq<char>>)
    ensures
        texts_body(l).len() >= 8 * l.len(),
        forall|i: int|
            0 <= i < l.len() ==> (#[trigger] encode_utf8(l[i])).len() <= texts_body(l).len(),
    decreases l.len(),
{
    reveal_with_fuel(texts_body, 2);
    lemma_auto_spec_u64_to_from_le_bytes();
    if l.len() > 0 {
        let tail = l.drop_first();
        lemma_texts_body_len(tail);
        assert forall|i: int| 0 <= i < l.len() implies (#[trigger] encode_utf8(l[i])).len()
            <= texts_body(l).len() by {
            if i > 0 {
                assert(tail[i - 1] == l[i]);
            }
        }
    }
}


/// A list of texts small enough to store can be read back.
pub proof fn lemma_texts_len(l: Seq<Seq<char>>)
    ensures
        texts_bytes(l).len() == 8 + texts_body(l).len(),
        texts_bytes(l).len() <= u64::MAX ==> texts_fit(l) && l.len() <= u64::MAX,
{
    lemma_auto_spec_u64_to_from_le_bytes();
    lemma_texts_body_len(l);
}

/// The views of the strings of a list.
pub open spec fn texts_view(v: Seq<String>) -> Seq<Seq<char>> {
    Seq::new(v.len(), |i: int| v[i]@)
}

/// Appending one text to a list appends its bytes.
pub proof fn lemma_texts_body_push(l: Seq<Seq<char>>, s: Seq<char>)
    ensures
        texts_body(l.push(s)) == texts_body(l) + text_bytes(s),
    decreases l.len(),
{
    reveal_with_fuel(texts_body, 2);
    let m = l.push(s);
    if l.len() == 0 {
        assert(m.drop_first() =~= Seq::<Seq<char>>::empty());
        assert(texts_body(m) =~= text_bytes(s) + texts_body(m.drop_first()));
        assert(texts_body(m) =~= texts_body(l) + text_bytes(s));
    } else {
        lemma_texts_body_push(l.drop_first(), s);
        assert(m.drop_first() =~= l.drop_first().push(s));
        assert(texts_body(m) =~= texts_body(l) + text_bytes(s));
    }
}

/// What `take_texts_body` yields once the texts in `done` have been read.
pub open spec fn after_texts(
    done: Seq<Seq<char>>,
    more: Option<(Seq<Seq<char>>, Seq<u8>)>,
) -> Option<(Seq<Seq<char>>, Seq<u8>)> {
    match more {
        Some((l, r)) => Some((done + l, r)),
        None => None,
    }
}

/// An outside error: the bytes handed to `String::from_utf8` were not UTF-8.
#[verifier::external_type_specification]
#[verifier::external_body]
pub struct ExFromUtf8Error(std::string::FromUtf8Error);

/// `String::from_utf8`: the string whose UTF-8 bytes are `bytes`, or an
/// error where `bytes` is not well-formed UTF-8.
#[verifier::external_body]
fn string_from_utf8(bytes: Vec<u8>) -> (r: Result<String, std::string::FromUtf8Error>)
    ensures
        r is Ok <==> valid_utf8(bytes@),
        r matches Ok(s) ==> encode_utf8(s@) == bytes@,
{
    String::from_utf8(bytes)
}

/// Appends a `u64` to `out`.
pub fn put_u64(out: &mut Vec<u8>, x: u64)
    ensures
        final(out)@ == old(out)@ + u64_bytes(x),
{
    let mut b = u64_to_le_bytes(x);
    out.append(&mut b);
}

/// Reads a `u64` at `pos`, and says where the next field starts.
pub fn read_u64(bytes: &[u8], pos: usize) -> (r: Option<(u64, usize)>)
    requires
        pos <= bytes@.len(),
    ensures
        match r {
            Some((x, next)) => pos <= next <= bytes@.len() && take_u64(bytes@.skip(pos as int))
                == Some((x, bytes@.skip(next as int))),
            None => take_u64(bytes@.skip(pos as int)) is None,
        },
{
    if bytes.len() - pos < 8 {
        return None;
    }
    let x = u64_from_le_bytes(slice_subrange(bytes, pos, pos + 8));
    proof {
        let rest = bytes@.skip(pos as int);
        assert(rest.subrange(0, 8) =~= bytes@.subrange(pos as int, pos + 8));
        assert(rest.skip(8) =~= bytes@.skip(pos + 8));
    }
    Some((x, pos + 8))
}

/// Appends a `u32` to `out`.
pub fn put_u32(out: &mut Vec<u8>, x: u32)
    ensures
        final(out)@ == old(out)@ + u32_bytes(x),
{
    let mut b = u32_to_le_bytes(x);
    out.append(&mut b);
}

/// Reads a `u32` at `pos`, and says where the next field starts.
pub fn read_u32(bytes: &[u8], pos: usize) -> (r: Option<(u32, usize)>)
    requires
        pos <= bytes@.len(),
    ensures
        match r {
            Some((x, next)) => pos <= next <= bytes@.len() && take_u32(bytes@.skip(pos as int))
                == Some((x, bytes@.skip(next as int))),
            None => take_u32(bytes@.skip(pos as int)) is None,
        },
{
    if bytes.len() - pos < 4 {
        return None;
    }
    let x = u32_from_le_bytes(slice_subrange(bytes, pos, pos + 4));
    proof {
        let rest = bytes@.skip(pos as int);
        assert(rest.subrange(0, 4) =~= bytes@.subrange(pos as int, pos + 4));
        assert(rest.skip(4) =~= bytes@.skip(pos + 4));
    }
    Some((x, pos + 4))
}

/// Appends a flag to `out`.
pub fn put_flag(out: &mut Vec<u8>, x: bool)
    ensures
        final(out)@ == old(out)@ + flag_bytes(x),
{
    let b: u8 = if x { 1 } else { 0 };
    out.push(b);
    assert(out@ =~= old(out)@ + flag_bytes(x));
}

/// Reads a flag at `pos`, and says where the next field starts.
pub fn read_flag(bytes: &[u8], pos: usize) -> (r: Option<(bool, usize)>)
    requires
        pos <= bytes@.len(),
    ensures
        match r {
            Some((x, next)) => pos <= next <= bytes@.len() && take_flag(bytes@.skip(pos as int))
                == Some((x, bytes@.skip(next as int))),
            None => take_flag(bytes@.skip(pos as int)) is None,
        },
{
    if bytes.len() - pos < 1 {
        return None;
    }
    let b = bytes[pos];
    proof {
        let rest = bytes@.skip(pos as int);
        assert(rest[0] == bytes@[pos as int]);
        assert(rest.skip(1) =~= bytes@.skip(pos + 1));
    }
    if b > 1 {
        return None;
    }
    Some((b == 1, pos + 1))
}

/// Appends a text to `out`.
pub fn put_text(out: &mut Vec<u8>, s: &str)
    ensures
        final(out)@ == old(out)@ + text_bytes(s@),
{
    let mut b = s.as_bytes_vec();
    put_u64(out, b.len() as u64);
    out.append(&mut b);
    assert(out@ =~= old(out)@ + text_bytes(s@));
}

/// Reads a text at `pos`, and says where the next field starts.
pub fn read_text(bytes: &[u8], pos: usize) -> (r: Option<(String, usize)>)
    requires
        pos <= bytes@.len(),
    ensures
        match r {
            Some((s, next)) => pos <= next <= bytes@.len() && take_text(bytes@.skip(pos as int))
                == Some((s@, bytes@.skip(next as int))),
            None => take_text(bytes@.skip(pos as int)) is None,
        },
{
    let (n, start) = match read_u64(bytes, pos) {
        Some(p) => p,
        None => { return None; },
    };
    if n > (bytes.len() - start) as u64 {
        return None;
    }
    let end = start + n as usize;
    let chunk = slice_to_vec(slice_subrange(bytes, start, end));
    proof {
        let rest = bytes@.skip(start as int);
        assert(rest.subrange(0, n as int) =~= chunk@);
        assert(rest.skip(n as int) =~= bytes@.skip(end as int));
    }
    match string_from_utf8(chunk) {
        Ok(s) => {
            proof {
                encode_utf8_decode_utf8(s@);
            }
            Some((s, end))
        },
        Err(_) => None,
    }
}

/// Appends an optional `u64` to `out`.
pub fn put_opt_u64(out: &mut Vec<u8>, x: Option<u64>)
    ensures
        final(out)@ == old(out)@ + opt_u64_bytes(x),
{
    match x {
        Some(v) => {
            put_flag(out, true);
            put_u64(out, v);
            assert(out@ =~= old(out)@ + opt_u64_bytes(x));
        },
        None => {
            put_flag(out, false);
        },
    }
}

/// Reads an optional `u64` at `pos`, and says where the next field starts.
pub fn read_opt_u64(bytes: &[u8], pos: usize) -> (r: Option<(Option<u64>, usize)>)
    requires
        pos <= bytes@.len(),
    ensures
        match r {
            Some((x, next)) => pos <= next <= bytes@.len() && take_opt_u64(
                bytes@.skip(pos as int),
            ) == Some((x, bytes@.skip(next as int))),
            None => take_opt_u64(bytes@.skip(pos as int)) is None,
        },
{
    let (set, start) = match read_flag(bytes, pos) {
        Some(p) => p,
        None => { return None; },
    };
    if !set {
        return Some((None, start));
    }
    match read_u64(bytes, start) {
        Some((v, next)) => Some((Some(v), next)),
        None => None,
    }
}

/// Appends a list of texts to `out`.
pub fn put_texts(out: &mut Vec<u8>, l: &Vec<String>)
    ensures
        final(out)@ == old(out)@ + texts_bytes(texts_view(l@)),
{
    proof {
        reveal_with_fuel(texts_body, 2);
    }
    put_u64(out, l.len() as u64);
    let ghost all = texts_view(l@);
    let ghost head = old(out)@ + u64_bytes(l.len() as u64);
    let mut i: usize = 0;
    assert(all.take(0) =~= Seq::<Seq<char>>::empty());
    assert(out@ =~= head + texts_body(all.take(0)));
    while i < l.len()
        invariant
            i <= l.len(),
            all == texts_view(l@),
            out@ == head + texts_body(all.take(i as int)),
        decreases l.len() - i,
    {
        let ghost before = out@;
        put_text(out, l[i].as_str());
        proof {
            lemma_texts_body_push(all.take(i as int), all[i as int]);
            assert(all.take(i + 1) =~= all.take(i as int).push(all[i as int]));
            assert(out@ =~= head + texts_body(all.take(i + 1)));
        }
        i += 1;
    }
    assert(all.take(l.len() as int) =~= all);
    assert(out@ =~= old(out)@ + texts_bytes(all));
}

/// Reads a list of texts at `pos`, and says where the next field starts.
pub fn read_texts(bytes: &[u8], pos: usize) -> (r: Option<(Vec<String>, usize)>)
    requires
        pos <= bytes@.len(),
    ensures
        match r {
            Some((l, next)) => pos <= next <= bytes@.len() && take_texts(bytes@.skip(pos as int))
                == Some((texts_view(l@), bytes@.skip(next as int))),
            None => take_texts(bytes@.skip(pos as int)) is None,
        },
{
    proof {
        reveal_with_fuel(take_texts_body, 2);
    }
    let (n, start) = match read_u64(bytes, pos) {
        Some(p) => p,
        None => { return None; },
    };
    let ghost whole = take_texts_body(bytes@.skip(start as int), n as nat);
    let mut out: Vec<String> = Vec::new();
    let mut at: usize = start;
    let mut i: u64 = 0;
    assert(texts_view(out@) =~= Seq::<Seq<char>>::empty());
    proof {
        let more = take_texts_body(bytes@.skip(at as int), (n - i) as nat);
        if more is Some {
            assert(Seq::<Seq<char>>::empty() + more.unwrap().0 =~= more.unwrap().0);
        }
    }
    while i < n
        invariant
            i <= n,
            i == out@.len(),
            start <= at <= bytes@.len(),
            pos <= start,
            take_u64(bytes@.skip(pos as int)) == Some((n, bytes@.skip(start as int))),
            whole == take_texts_body(bytes@.skip(start as int), n as nat),
            whole == after_texts(
                texts_view(out@),
                take_texts_body(bytes@.skip(at as int), (n - i) as nat),
            ),
        decreases n - i,
    {
        proof {
            reveal_with_fuel(take_texts_body, 2);
        }
        let ghost done = texts_view(out@);
        let ghost here = bytes@.skip(at as int);
        match read_text(bytes, at) {
            Some((s, next)) => {
                proof {
                    let tail = take_texts_body(bytes@.skip(next as int), (n - i - 1) as nat);
                    assert(texts_view(out@.push(s)) =~= done.push(s@));
                    if tail is Some {
                        let more = tail.unwrap().0;
                        assert(done + (seq![s@] + more) =~= done.push(s@) + more);
                    }
                }
                out.push(s);
                at = next;
                i += 1;
            },
            None => {
                assert(take_texts_body(here, (n - i) as nat) is None);
                assert(whole is None);
                return None;
            },
        }
    }
    proof {
        assert(texts_view(out@) + Seq::<Seq<char>>::empty() =~= texts_view(out@));
    }
    Some((out, at))
}


/// A copy of a list of texts.
pub fn copy_texts(l: &Vec<String>) -> (out: Vec<String>)
    ensures
        texts_view(out@) == texts_view(l@),
{
    let mut out: Vec<String> = Vec::new();
    let mut i: usize = 0;
    while i < l.len()
        invariant
            i <= l.len(),
            i == out@.len(),
            forall|j: int| 0 <= j < i ==> out@[j]@ == l@[j]@,
        decreases l.len() - i,
    {
        out.push(l[i].clone());
        i += 1;
    }
    assert(texts_view(out@) =~= texts_view(l@));
    out
}

} // verus!
