//! Byte-level UTF-8 navigation.
//!
//! The text of the editor is kept as a vector of bytes that always forms valid
//! UTF-8. Every offset handed to or produced by the editor is a byte offset,
//! so this module provides the vocabulary to move such offsets to scalar-value
//! boundaries and to step between neighbouring boundaries.

use vstd::prelude::*;
use vstd::utf8::*;

verus! {

/// The nearest character boundary at or before `i`, with `i` first brought
/// into `[0, s.len()]`.
pub open spec fn floor_boundary(s: Seq<u8>, i: int) -> int
    decreases i,
{
    if i <= 0 {
        0
    } else if i >= s.len() {
        s.len() as int
    } else if is_char_boundary(s, i) {
        i
    } else {
        floor_boundary(s, i - 1)
    }
}

/// The nearest character boundary at or after `i`, with `i` first brought
/// into `[0, s.len()]`.
pub open spec fn ceil_boundary(s: Seq<u8>, i: int) -> int
    decreases s.len() - i,
{
    if i >= s.len() {
        s.len() as int
    } else if i <= 0 {
        0
    } else if is_char_boundary(s, i) {
        i
    } else {
        ceil_boundary(s, i + 1)
    }
}

/// The bytes of `s` from offset `i` to its end.
pub open spec fn tail(s: Seq<u8>, i: int) -> Seq<u8> {
    s.subrange(i, s.len() as int)
}

/// Number of bytes taken by the scalar value that starts at boundary `i`.
pub open spec fn width_at(s: Seq<u8>, i: int) -> int {
    length_of_first_scalar(tail(s, i))
}

/// The character that starts at boundary `i`.
pub open spec fn char_at(s: Seq<u8>, i: int) -> char {
    decode_first_scalar(tail(s, i)) as char
}

/// The boundary that follows boundary `i`.
pub open spec fn next_boundary(s: Seq<u8>, i: int) -> int {
    i + width_at(s, i)
}

/// The boundary that precedes boundary `i`.
pub open spec fn prev_boundary(s: Seq<u8>, i: int) -> int {
    floor_boundary(s, i - 1)
}

/// `s` with the bytes in `[a, b)` replaced by `ins`.
pub open spec fn splice(s: Seq<u8>, a: int, b: int, ins: Seq<u8>) -> Seq<u8> {
    s.subrange(0, a) + ins + s.subrange(b, s.len() as int)
}

/// In valid UTF-8 the boundaries are the two ends and every offset whose byte
/// is not a continuation byte.
pub proof fn lemma_boundary_bytes(s: Seq<u8>, i: int)
    requires
        valid_utf8(s),
    ensures
        is_char_boundary(s, i) <==> (i == 0 || i == s.len() || (0 < i < s.len()
            && !is_continuation_byte(s[i]))),
{
    is_char_boundary_start_end_of_seq(s);
    if 0 < i < s.len() {
        is_char_boundary_iff_not_is_continuation_byte(s, i);
    }
}

/// `floor_boundary` yields a boundary, and no boundary lies between it and
/// the clamped argument.
pub proof fn lemma_floor_boundary(s: Seq<u8>, i: int)
    requires
        valid_utf8(s),
    ensures
        is_char_boundary(s, floor_boundary(s, i)),
        0 <= floor_boundary(s, i) <= s.len(),
        floor_boundary(s, i) <= i || i < 0,
        is_char_boundary(s, i) ==> floor_boundary(s, i) == i,
        forall|j: int| floor_boundary(s, i) < j <= i ==> !is_char_boundary(s, j),
    decreases i,
{
    is_char_boundary_start_end_of_seq(s);
    if i <= 0 {
    } else if i >= s.len() {
        assert forall|j: int| s.len() < j <= i implies !is_char_boundary(s, j) by {
            lemma_boundary_bytes(s, j);
        }
    } else if is_char_boundary(s, i) {
    } else {
        lemma_floor_boundary(s, i - 1);
    }
}

/// `ceil_boundary` yields a boundary, and no boundary lies between the
/// clamped argument and it.
pub proof fn lemma_ceil_boundary(s: Seq<u8>, i: int)
    requires
        valid_utf8(s),
    ensures
        is_char_boundary(s, ceil_boundary(s, i)),
        0 <= ceil_boundary(s, i) <= s.len(),
        i <= ceil_boundary(s, i) || i > s.len(),
        is_char_boundary(s, i) ==> ceil_boundary(s, i) == i,
        forall|j: int| i <= j < ceil_boundary(s, i) ==> !is_char_boundary(s, j),
    decreases s.len() - i,
{
    is_char_boundary_start_end_of_seq(s);
    if i >= s.len() {
    } else if i <= 0 {
        assert forall|j: int| i <= j < 0 implies !is_char_boundary(s, j) by {
            lemma_boundary_bytes(s, j);
        }
    } else if is_char_boundary(s, i) {
    } else {
        lemma_ceil_boundary(s, i + 1);
    }
}

/// `floor_boundary` is monotone.
pub proof fn lemma_floor_boundary_monotone(s: Seq<u8>, i: int, j: int)
    requires
        valid_utf8(s),
        i <= j,
    ensures
        floor_boundary(s, i) <= floor_boundary(s, j),
{
    lemma_floor_boundary(s, i);
    lemma_floor_boundary(s, j);
    if floor_boundary(s, j) < floor_boundary(s, i) {
        let f = floor_boundary(s, i);
        if f <= j {
            assert(!is_char_boundary(s, f));
        }
    }
}

/// Tests whether `index` is a character boundary of `bytes`.
pub fn is_boundary(bytes: &Vec<u8>, index: usize) -> (r: bool)
    requires
        valid_utf8(bytes@),
    ensures
        r == is_char_boundary(bytes@, index as int),
{
    proof {
        lemma_boundary_bytes(bytes@, index as int);
    }
    if index == 0 || index == bytes.len() {
        true
    } else if index > bytes.len() {
        false
    } else {
        let b: u8 = bytes[index];
        b < 0x80 || b > 0xbf
    }
}

/// Steps backward from `index` to the nearest character boundary.
pub fn floor_char_boundary(bytes: &Vec<u8>, index: usize) -> (r: usize)
    requires
        valid_utf8(bytes@),
    ensures
        r == floor_boundary(bytes@, index as int),
        is_char_boundary(bytes@, r as int),
        r <= index,
        r <= bytes@.len(),
{
    proof {
        lemma_floor_boundary(bytes@, index as int);
    }
    if index >= bytes.len() {
        return bytes.len();
    }
    let mut i: usize = index;
    while i > 0 && !is_boundary(bytes, i)
        invariant
            valid_utf8(bytes@),
            i <= index < bytes@.len(),
            floor_boundary(bytes@, i as int) == floor_boundary(bytes@, index as int),
        decreases i,
    {
        i -= 1;
    }
    i
}

/// Steps forward from `index` to the nearest character boundary.
pub fn ceil_char_boundary(bytes: &Vec<u8>, index: usize) -> (r: usize)
    requires
        valid_utf8(bytes@),
    ensures
        r == ceil_boundary(bytes@, index as int),
        is_char_boundary(bytes@, r as int),
        index <= r || index > bytes@.len(),
        r <= bytes@.len(),
{
    proof {
        lemma_ceil_boundary(bytes@, index as int);
    }
    let mut i: usize = index;
    while i < bytes.len() && !is_boundary(bytes, i)
        invariant
            valid_utf8(bytes@),
            index <= i,
            ceil_boundary(bytes@, i as int) == ceil_boundary(bytes@, index as int),
        decreases bytes@.len() - i,
    {
        i += 1;
    }
    if i >= bytes.len() {
        bytes.len()
    } else {
        i
    }
}

/// What holds of the scalar value that starts at a boundary before the end:
/// its encoding lies within `s`, the next boundary follows it directly, and
/// it decodes to a Unicode scalar value.
pub proof fn lemma_scalar_at(s: Seq<u8>, i: int)
    requires
        valid_utf8(s),
        is_char_boundary(s, i),
        i < s.len(),
    ensures
        0 <= i,
        valid_utf8(tail(s, i)),
        valid_first_scalar(tail(s, i)),
        1 <= width_at(s, i) <= 4,
        next_boundary(s, i) <= s.len(),
        is_char_boundary(s, next_boundary(s, i)),
        forall|j: int| i < j < next_boundary(s, i) ==> !is_char_boundary(s, j),
        is_scalar(decode_first_scalar(tail(s, i))),
        char_at(s, i) as u32 == decode_first_scalar(tail(s, i)),
        tail(s, i).subrange(0, width_at(s, i)) == encode_scalar(char_at(s, i) as u32),
{
    lemma_boundary_bytes(s, i);
    valid_utf8_split(s, i);
    let t = tail(s, i);
    let w = width_at(s, i);
    assert(t.len() == s.len() - i);
    assert(valid_first_scalar(t));
    assert(forall|k: int| 0 <= k < t.len() ==> t[k] == s[i + k]);
    let rest = pop_first_scalar(t);
    assert(valid_utf8(rest));
    if i + w < s.len() {
        assert(rest.len() > 0);
        assert(valid_first_scalar(rest));
        assert(rest[0] == s[i + w]);
    }
    lemma_boundary_bytes(s, i + w);
    assert forall|j: int| i < j < i + w implies !is_char_boundary(s, j) by {
        lemma_boundary_bytes(s, j);
        assert(t[j - i] == s[j]);
    }
    lemma_first_scalar_is_scalar(t);
    decode_utf8_first_scalar(t);
    let u = decode_first_scalar(t);
    assert((u as char) as u32 == u);
}

/// A well-formed first encoding decodes to a Unicode scalar value.
proof fn lemma_first_scalar_is_scalar(t: Seq<u8>)
    requires
        valid_first_scalar(t),
    ensures
        is_scalar(decode_first_scalar(t)),
{
    let b0 = t[0];
    if is_leading_byte_width_1(b0) {
        assert((b0 & 0x7F) as u32 <= 0x7F) by (bit_vector);
    } else if is_leading_byte_width_2(b0) {
        let b1 = t[1];
        assert((((b0 & 0x1F) as u32) << 6) | ((b1 & 0x3F) as u32) <= 0x7FF) by (bit_vector);
    } else if is_leading_byte_width_3(b0) {
        let b1 = t[1];
        let b2 = t[2];
        assert((((b0 & 0x0F) as u32) << 12) | (((b1 & 0x3F) as u32) << 6) | ((b2 & 0x3F) as u32)
            <= 0xFFFF) by (bit_vector);
    } else {
    }
}

/// The boundary before a boundary `i > 0` is the start of the scalar value
/// that ends at `i`.
pub proof fn lemma_prev_boundary(s: Seq<u8>, i: int)
    requires
        valid_utf8(s),
        is_char_boundary(s, i),
        0 < i,
    ensures
        0 <= prev_boundary(s, i) < i,
        is_char_boundary(s, prev_boundary(s, i)),
        next_boundary(s, prev_boundary(s, i)) == i,
        forall|j: int| prev_boundary(s, i) < j < i ==> !is_char_boundary(s, j),
{
    lemma_boundary_bytes(s, i);
    lemma_floor_boundary(s, i - 1);
    let p = prev_boundary(s, i);
    lemma_scalar_at(s, p);
    let n = next_boundary(s, p);
    if n < i {
        assert(!is_char_boundary(s, n));
    }
    if n > i {
        assert(!is_char_boundary(s, i));
    }
}

/// The boundary after the scalar value that starts at `index`.
pub fn next_char_boundary(bytes: &Vec<u8>, index: usize) -> (r: usize)
    requires
        valid_utf8(bytes@),
        is_char_boundary(bytes@, index as int),
        index < bytes@.len(),
    ensures
        r == next_boundary(bytes@, index as int),
        index < r <= bytes@.len(),
        is_char_boundary(bytes@, r as int),
{
    proof {
        lemma_scalar_at(bytes@, index as int);
        assert(tail(bytes@, index as int)[0] == bytes@[index as int]);
    }
    let len: usize = bytes.len();
    let b: u8 = bytes[index];
    if b < 0x80 {
        index + 1
    } else if b < 0xe0 {
        index + 2
    } else if b < 0xf0 {
        index + 3
    } else {
        index + 4
    }
}

/// The boundary before the scalar value that ends at `index`.
pub fn prev_char_boundary(bytes: &Vec<u8>, index: usize) -> (r: usize)
    requires
        valid_utf8(bytes@),
        is_char_boundary(bytes@, index as int),
        0 < index,
    ensures
        r == prev_boundary(bytes@, index as int),
        r < index,
        is_char_boundary(bytes@, r as int),
        next_boundary(bytes@, r as int) == index,
{
    proof {
        lemma_prev_boundary(bytes@, index as int);
    }
    floor_char_boundary(bytes, index - 1)
}

/// What `char::from_u32` returns: the character with the given scalar value,
/// and nothing for a number that is no Unicode scalar value.
pub assume_specification[ char::from_u32 ](i: u32) -> (r: Option<char>)
    ensures
        is_scalar(i) ==> r == Some(i as char),
        !is_scalar(i) ==> r is None,
;

/// Decodes the character that starts at boundary `index`.
pub fn char_at_boundary(bytes: &Vec<u8>, index: usize) -> (c: char)
    requires
        valid_utf8(bytes@),
        is_char_boundary(bytes@, index as int),
        index < bytes@.len(),
    ensures
        c == char_at(bytes@, index as int),
{
    proof {
        lemma_scalar_at(bytes@, index as int);
        let t = tail(bytes@, index as int);
        assert(forall|k: int| 0 <= k < t.len() ==> t[k] == bytes@[index + k]);
    }
    let len: usize = bytes.len();
    let b0: u8 = bytes[index];
    let code: u32 = if b0 < 0x80 {
        (b0 & 0x7F) as u32
    } else if b0 < 0xe0 {
        let b1: u8 = bytes[index + 1];
        (((b0 & 0x1F) as u32) << 6) | ((b1 & 0x3F) as u32)
    } else if b0 < 0xf0 {
        let b1: u8 = bytes[index + 1];
        let b2: u8 = bytes[index + 2];
        (((b0 & 0x0F) as u32) << 12) | (((b1 & 0x3F) as u32) << 6) | ((b2 & 0x3F) as u32)
    } else {
        let b1: u8 = bytes[index + 1];
        let b2: u8 = bytes[index + 2];
        let b3: u8 = bytes[index + 3];
        (((b0 & 0x07) as u32) << 18) | (((b1 & 0x3F) as u32) << 12) | (((b2 & 0x3F) as u32) << 6)
            | ((b3 & 0x3F) as u32)
    };
    match char::from_u32(code) {
        Some(c) => c,
        // Not reached: valid UTF-8 encodes scalar values only.
        None => ' ',
    }
}

/// Appends the UTF-8 encoding of `c` to `out`.
pub fn push_char(out: &mut Vec<u8>, c: char)
    ensures
        final(out)@ == old(out)@ + encode_scalar(c as u32),
{
    let u: u32 = c as u32;
    proof {
        char_is_scalar(c);
    }
    if u <= 0x7F {
        assert(u & 0x7F <= 0xFF) by (bit_vector);
        out.push((u & 0x7F) as u8);
        assert(out@ =~= old(out)@ + encode_scalar(u));
    } else if u <= 0x7FF {
        assert((u >> 6) & 0x1F <= 0xFF && u & 0x3F <= 0xFF) by (bit_vector);
        out.push(0xC0 | ((u >> 6) & 0x1F) as u8);
        out.push(0x80 | (u & 0x3F) as u8);
        assert(out@ =~= old(out)@ + encode_scalar(u));
    } else if u <= 0xFFFF {
        assert((u >> 12) & 0x0F <= 0xFF && (u >> 6) & 0x3F <= 0xFF && u & 0x3F <= 0xFF)
            by (bit_vector);
        out.push(0xE0 | ((u >> 12) & 0x0F) as u8);
        out.push(0x80 | ((u >> 6) & 0x3F) as u8);
        out.push(0x80 | (u & 0x3F) as u8);
        assert(out@ =~= old(out)@ + encode_scalar(u));
    } else {
        assert((u >> 18) & 0x7 <= 0xFF && (u >> 12) & 0x3F <= 0xFF && (u >> 6) & 0x3F <= 0xFF && u
            & 0x3F <= 0xFF) by (bit_vector);
        out.push(0xF0 | ((u >> 18) & 0x7) as u8);
        out.push(0x80 | ((u >> 12) & 0x3F) as u8);
        out.push(0x80 | ((u >> 6) & 0x3F) as u8);
        out.push(0x80 | (u & 0x3F) as u8);
        assert(out@ =~= old(out)@ + encode_scalar(u));
    }
}

/// The encoding of a single character is the encoding of the one-character
/// sequence, hence valid UTF-8 of one to four bytes.
pub proof fn lemma_encode_char(c: char)
    ensures
        encode_utf8(seq![c]) == encode_scalar(c as u32),
        valid_utf8(encode_scalar(c as u32)),
        1 <= encode_scalar(c as u32).len() <= 4,
{
    let one = seq![c];
    assert(one.drop_first() =~= Seq::<char>::empty());
    assert(encode_utf8(one.drop_first()) =~= Seq::<u8>::empty()) by {
        reveal_with_fuel(encode_utf8, 1);
    }
    assert(encode_utf8(one) =~= encode_scalar(c as u32)) by {
        reveal_with_fuel(encode_utf8, 2);
    }
    encode_utf8_valid_utf8(one);
    char_is_scalar(c);
}

/// Replacing the bytes between two boundaries by valid UTF-8 gives valid
/// UTF-8, whose boundaries are those of the three parts.
pub proof fn lemma_splice(s: Seq<u8>, a: int, b: int, ins: Seq<u8>)
    requires
        valid_utf8(s),
        valid_utf8(ins),
        is_char_boundary(s, a),
        is_char_boundary(s, b),
        a <= b,
    ensures
        valid_utf8(splice(s, a, b, ins)),
        splice(s, a, b, ins).len() == s.len() - (b - a) + ins.len(),
        forall|j: int|
            j <= a ==> (#[trigger] is_char_boundary(splice(s, a, b, ins), j) <==> is_char_boundary(
                s,
                j,
            )),
        forall|j: int|
            a <= j <= a + ins.len() ==> (#[trigger] is_char_boundary(splice(s, a, b, ins), j)
                <==> is_char_boundary(ins, j - a)),
        forall|j: int|
            a + ins.len() <= j ==> (#[trigger] is_char_boundary(splice(s, a, b, ins), j)
                <==> is_char_boundary(s, j - ins.len() + (b - a))),
{
    let r = splice(s, a, b, ins);
    lemma_boundary_bytes(s, a);
    lemma_boundary_bytes(s, b);
    valid_utf8_split(s, a);
    valid_utf8_split(s, b);
    valid_utf8_concat(s.subrange(0, a), ins);
    valid_utf8_concat(s.subrange(0, a) + ins, s.subrange(b, s.len() as int));
    lemma_boundary_bytes(ins, 0);
    lemma_boundary_bytes(ins, ins.len() as int);
    lemma_first_byte(ins);
    lemma_first_byte(s);
    let d = ins.len() - (b - a);
    assert forall|j: int| j <= a implies (#[trigger] is_char_boundary(r, j) <==> is_char_boundary(
        s,
        j,
    )) by {
        lemma_boundary_bytes(r, j);
        lemma_boundary_bytes(s, j);
    }
    assert forall|j: int| a <= j <= a + ins.len() implies (#[trigger] is_char_boundary(r, j)
        <==> is_char_boundary(ins, j - a)) by {
        lemma_boundary_bytes(r, j);
        lemma_boundary_bytes(ins, j - a);
    }
    assert forall|j: int| a + ins.len() <= j implies (#[trigger] is_char_boundary(r, j)
        <==> is_char_boundary(s, j - d)) by {
        lemma_boundary_bytes(r, j);
        lemma_boundary_bytes(s, j - d);
    }
}

/// Valid UTF-8 does not start with a continuation byte.
pub proof fn lemma_first_byte(s: Seq<u8>)
    requires
        valid_utf8(s),
    ensures
        s.len() > 0 ==> !is_continuation_byte(s[0]),
{
}

/// Calls `String::from_utf8`, which accepts exactly the byte vectors that
/// are valid UTF-8 and then returns the string that these bytes encode.
#[verifier::external_body]
pub(crate) fn string_from_utf8(bytes: Vec<u8>) -> (r: Option<String>)
    ensures
        r is Some <==> valid_utf8(bytes@),
        r matches Some(text) ==> text@ == decode_utf8(bytes@),
{
    String::from_utf8(bytes).ok()
}

/// The string that valid UTF-8 bytes encode.
pub fn bytes_to_string(bytes: Vec<u8>) -> (text: String)
    requires
        valid_utf8(bytes@),
    ensures
        text@ == decode_utf8(bytes@),
        encode_utf8(text@) == bytes@,
{
    proof {
        decode_utf8_encode_utf8(bytes@);
    }
    match string_from_utf8(bytes) {
        Some(text) => text,
        // Not reached: the bytes are valid UTF-8.
        None => String::new(),
    }
}

/// The UTF-8 bytes of a string.
pub fn string_to_bytes(text: &str) -> (bytes: Vec<u8>)
    ensures
        bytes@ == encode_utf8(text@),
        valid_utf8(bytes@),
        decode_utf8(bytes@) == text@,
{
    proof {
        encode_utf8_valid_utf8(text@);
        encode_utf8_decode_utf8(text@);
    }
    vstd::slice::slice_to_vec(text.as_bytes())
}

/// A copy of the bytes in `[from, to)`.
pub fn copy_range(bytes: &Vec<u8>, from: usize, to: usize) -> (part: Vec<u8>)
    requires
        from <= to <= bytes@.len(),
    ensures
        part@ == bytes@.subrange(from as int, to as int),
{
    let mut part: Vec<u8> = Vec::new();
    let mut i: usize = from;
    while i < to
        invariant
            from <= i <= to <= bytes@.len(),
            part@ == bytes@.subrange(from as int, i as int),
        decreases to - i,
    {
        part.push(bytes[i]);
        i += 1;
        assert(part@ =~= bytes@.subrange(from as int, i as int));
    }
    part
}

/// `bytes` with the part in `[from, to)` replaced by `ins`.
pub fn splice_bytes(bytes: &Vec<u8>, from: usize, to: usize, ins: &Vec<u8>) -> (r: Vec<u8>)
    requires
        from <= to <= bytes@.len(),
    ensures
        r@ == splice(bytes@, from as int, to as int, ins@),
{
    let mut r: Vec<u8> = copy_range(bytes, 0, from);
    let mut middle: Vec<u8> = copy_range(ins, 0, ins.len());
    let mut rest: Vec<u8> = copy_range(bytes, to, bytes.len());
    assert(middle@ =~= ins@);
    r.append(&mut middle);
    r.append(&mut rest);
    r
}

/// Tests whether two byte vectors hold the same bytes.
pub fn bytes_equal(a: &Vec<u8>, b: &Vec<u8>) -> (equal: bool)
    ensures
        equal == (a@ == b@),
{
    if a.len() != b.len() {
        return false;
    }
    let mut i: usize = 0;
    while i < a.len()
        invariant
            a@.len() == b@.len(),
            i <= a@.len(),
            forall|k: int| 0 <= k < i ==> a@[k] == b@[k],
        decreases a@.len() - i,
    {
        if a[i] != b[i] {
            return false;
        }
        i += 1;
    }
    assert(a@ =~= b@);
    true
}

/// Number of characters between two offsets, counted up to two: none for
/// equal offsets, one where the character that ends at the higher offset
/// starts at or before the lower one, two otherwise.
pub open spec fn chars_apart(s: Seq<u8>, a: int, b: int) -> int {
    let low = if a <= b {
        a
    } else {
        b
    };
    let high = if a <= b {
        b
    } else {
        a
    };
    if low == high {
        0
    } else if floor_boundary(s, high - 1) <= low {
        1
    } else {
        2
    }
}

/// Between two character boundaries lies one character exactly when the
/// higher one follows the lower one directly.
pub proof fn lemma_chars_apart(s: Seq<u8>, a: int, b: int)
    requires
        valid_utf8(s),
        is_char_boundary(s, a),
        is_char_boundary(s, b),
        a < b,
    ensures
        chars_apart(s, a, b) == chars_apart(s, b, a),
        chars_apart(s, a, b) == 1 <==> next_boundary(s, a) == b,
        chars_apart(s, a, b) == 2 <==> next_boundary(s, a) < b,
{
    lemma_boundary_bytes(s, a);
    lemma_boundary_bytes(s, b);
    lemma_prev_boundary(s, b);
    lemma_scalar_at(s, a);
    let p = prev_boundary(s, b);
    let n = next_boundary(s, a);
    if p < a {
        assert(!is_char_boundary(s, a));
    }
    if n > b {
        assert(!is_char_boundary(s, b));
    }
    if p == a {
        assert(n == b);
    }
    if n == b && a < p {
        assert(!is_char_boundary(s, p));
    }
}

/// Counts the characters between two offsets, up to two.
pub fn char_distance(bytes: &Vec<u8>, a: usize, b: usize) -> (distance: usize)
    requires
        valid_utf8(bytes@),
    ensures
        distance == chars_apart(bytes@, a as int, b as int),
{
    let low: usize = if a <= b {
        a
    } else {
        b
    };
    let high: usize = if a <= b {
        b
    } else {
        a
    };
    if low == high {
        0
    } else if floor_char_boundary(bytes, high - 1) <= low {
        1
    } else {
        2
    }
}

} // verus!
