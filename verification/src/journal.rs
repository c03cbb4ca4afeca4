//! The journal's timestamp codec: a timestamp travels as its JSON text.
use vstd::prelude::*;

verus! {

/// A position in a journal stream.
pub type Timestamp = u64;

/// Errors of the journal's codec.
#[derive(Debug)]
pub enum Error {
    /// The bytes are not the JSON text of a timestamp; the codec's description.
    Json(String),
}

/// The ASCII code of the digit `d` (`d < 10`).
pub open spec fn digit_byte(d: nat) -> u8 {
    (48 + d) as u8
}

/// The decimal digits of `n`, most significant first, without leading zeros.
pub open spec fn decimal_digits(n: nat) -> Seq<u8>
    decreases n,
{
    if n < 10 {
        seq![digit_byte(n)]
    } else {
        decimal_digits(n / 10).push(digit_byte(n % 10))
    }
}

/// `s` is a nonempty run of ASCII digits with no leading zero (but for `0` itself).
pub open spec fn is_canonical_decimal(s: Seq<u8>) -> bool {
    &&& s.len() > 0
    &&& forall|i: int| 0 <= i < s.len() ==> 48 <= #[trigger] s[i] <= 57
    &&& s[0] == 48 ==> s.len() == 1
}

/// The number that the ASCII digits `s` spell.
pub open spec fn decimal_value(s: Seq<u8>) -> nat
    decreases s.len(),
{
    if s.len() == 0 {
        0
    } else {
        decimal_value(s.drop_last()) * 10 + (s.last() - 48) as nat
    }
}

/// `b` is JSON whitespace: space, tab, line feed or carriage return.
pub open spec fn is_json_space(b: u8) -> bool {
    b == 32 || b == 9 || b == 10 || b == 13
}

/// Every byte of `s` is JSON whitespace.
pub open spec fn all_json_space(s: Seq<u8>) -> bool {
    forall|i: int| 0 <= i < s.len() ==> is_json_space(#[trigger] s[i])
}

/// `s` without its leading JSON whitespace.
pub open spec fn trim_start(s: Seq<u8>) -> Seq<u8>
    decreases s.len(),
{
    if s.len() > 0 && is_json_space(s[0]) {
        trim_start(s.drop_first())
    } else {
        s
    }
}

/// `s` without its trailing JSON whitespace.
pub open spec fn trim_end(s: Seq<u8>) -> Seq<u8>
    decreases s.len(),
{
    if s.len() > 0 && is_json_space(s.last()) {
        trim_end(s.drop_last())
    } else {
        s
    }
}

/// The `u64` that the JSON text `bytes` holds: canonical decimal digits whose value
/// fits in a `u64`, with only JSON whitespace around them; `None` for any other text.
pub open spec fn json_u64(bytes: Seq<u8>) -> Option<u64> {
    let t = trim_end(trim_start(bytes));
    if is_canonical_decimal(t) && decimal_value(t) <= u64::MAX {
        Some(decimal_value(t) as u64)
    } else {
        None
    }
}

/// Calls `serde_json::to_vec` on a `u64`, an error turned into its text. Its
/// serializer writes the number with `itoa`, as plain decimal digits, into a `Vec`,
/// which cannot fail.
#[verifier::external_body]
fn json_encode_u64(value: u64) -> (res: Result<Vec<u8>, String>)
    ensures
        res is Ok,
        res matches Ok(bytes) ==> bytes@ == decimal_digits(value as nat),
{
    serde_json::to_vec(&value).map_err(|e| e.to_string())
}

/// Calls `serde_json::from_slice::<u64>`, an error turned into its text. The
/// deserializer skips JSON whitespace, reads an integer (one leading `0` at most;
/// a sign, a fraction, an exponent or an overflow make it a number that `u64`
/// refuses), and then allows only JSON whitespace up to the end: it reads exactly
/// the texts that `json_u64` describes.
#[verifier::external_body]
fn json_decode_u64(bytes: &[u8]) -> (res: Result<u64, String>)
    ensures
        res is Ok <==> json_u64(bytes@) is Some,
        res matches Ok(n) ==> json_u64(bytes@) == Some(n),
{
    serde_json::from_slice(bytes).map_err(|e| e.to_string())
}

/// Encodes a timestamp as its JSON text: its decimal digits.
pub fn serialize_ts(ts: &Timestamp) -> (res: Result<Vec<u8>, Error>)
    ensures
        res matches Ok(bytes) && bytes@ == decimal_digits(*ts as nat),
{
    match json_encode_u64(*ts) {
        Ok(bytes) => Ok(bytes),
        Err(e) => Err(Error::Json(e)),
    }
}

/// Decodes a timestamp from its JSON text.
pub fn deserialize_ts(v: &[u8]) -> (res: Result<Timestamp, Error>)
    ensures
        res is Ok <==> json_u64(v@) is Some,
        res matches Ok(ts) ==> json_u64(v@) == Some(ts),
{
    match json_decode_u64(v) {
        Ok(ts) => Ok(ts),
        Err(e) => Err(Error::Json(e)),
    }
}

/// Every decimal expansion is canonical and spells the number it came from; and the
/// expansion of a positive number starts with a nonzero digit.
proof fn lemma_decimal_digits(n: nat)
    ensures
        is_canonical_decimal(decimal_digits(n)),
        decimal_value(decimal_digits(n)) == n,
        n > 0 ==> decimal_digits(n)[0] != 48,
    decreases n,
{
    if n >= 10 {
        lemma_decimal_digits(n / 10);
        let s = decimal_digits(n);
        let t = decimal_digits(n / 10);
        assert(s.drop_last() =~= t);
        assert(s.last() == digit_byte(n % 10));
        assert((s.last() - 48) as nat == n % 10);
        assert(decimal_value(s) == (n / 10) * 10 + n % 10);
        assert forall|i: int| 0 <= i < s.len() implies 48 <= #[trigger] s[i] <= 57 by {
            if i < t.len() {
                assert(s[i] == t[i]);
            }
        }
    } else {
        let s = decimal_digits(n);
        assert(s.drop_last() =~= Seq::<u8>::empty());
        assert(decimal_value(s.drop_last()) == 0);
        assert((s.last() - 48) as nat == n);
    }
}

/// A text that starts with a byte other than JSON whitespace loses nothing at its
/// start; one that ends with such a byte loses nothing at its end.
proof fn lemma_trim_unchanged(s: Seq<u8>)
    ensures
        s.len() > 0 && !is_json_space(s[0]) ==> trim_start(s) == s,
        s.len() > 0 && !is_json_space(s.last()) ==> trim_end(s) == s,
{
}

/// Trimming a text of whitespace only leaves nothing.
proof fn lemma_trim_all_space(s: Seq<u8>)
    requires
        all_json_space(s),
    ensures
        trim_start(s) == Seq::<u8>::empty(),
        trim_end(s) == Seq::<u8>::empty(),
    decreases s.len(),
{
    if s.len() > 0 {
        assert(is_json_space(s[0]));
        assert(is_json_space(s.last()));
        assert(all_json_space(s.drop_first()));
        assert(all_json_space(s.drop_last()));
        lemma_trim_all_space(s.drop_first());
        lemma_trim_all_space(s.drop_last());
    } else {
        assert(s =~= Seq::<u8>::empty());
    }
}

/// Leading whitespace is what `trim_start` removes: the result is a suffix of the
/// text, after whitespace only, that starts with a byte other than whitespace.
proof fn lemma_trim_start_split(s: Seq<u8>) -> (k: int)
    ensures
        0 <= k <= s.len(),
        trim_start(s) == s.subrange(k, s.len() as int),
        all_json_space(s.subrange(0, k)),
        k < s.len() ==> !is_json_space(s[k]),
    decreases s.len(),
{
    if s.len() > 0 && is_json_space(s[0]) {
        let j = lemma_trim_start_split(s.drop_first());
        assert(s.drop_first().subrange(j, s.drop_first().len() as int) =~= s.subrange(
            j + 1,
            s.len() as int,
        ));
        assert forall|i: int| 0 <= i < j + 1 implies is_json_space(
            #[trigger] s.subrange(0, j + 1)[i],
        ) by {
            if i > 0 {
                assert(s.subrange(0, j + 1)[i] == s.drop_first().subrange(0, j)[i - 1]);
            }
        }
        j + 1
    } else {
        assert(s.subrange(0, s.len() as int) =~= s);
        0
    }
}

/// Trailing whitespace is what `trim_end` removes: the result is a prefix of the
/// text, before whitespace only, that ends with a byte other than whitespace.
proof fn lemma_trim_end_split(s: Seq<u8>) -> (k: int)
    ensures
        0 <= k <= s.len(),
        trim_end(s) == s.subrange(0, k),
        all_json_space(s.subrange(k, s.len() as int)),
        k > 0 ==> !is_json_space(s[k - 1]),
    decreases s.len(),
{
    if s.len() > 0 && is_json_space(s.last()) {
        let j = lemma_trim_end_split(s.drop_last());
        assert(s.drop_last().subrange(0, j) =~= s.subrange(0, j));
        assert forall|i: int| 0 <= i < s.len() - j implies is_json_space(
            #[trigger] s.subrange(j, s.len() as int)[i],
        ) by {
            if i < s.len() - 1 - j {
                assert(s.subrange(j, s.len() as int)[i] == s.drop_last().subrange(
                    j,
                    s.drop_last().len() as int,
                )[i]);
            }
        }
        j
    } else {
        assert(s.subrange(0, s.len() as int) =~= s);
        s.len() as int
    }
}

/// Whitespace in front of a text is dropped by `trim_start`.
proof fn lemma_trim_start_prefix(ws: Seq<u8>, x: Seq<u8>)
    requires
        all_json_space(ws),
    ensures
        trim_start(ws + x) == trim_start(x),
    decreases ws.len(),
{
    if ws.len() == 0 {
        assert(ws + x =~= x);
    } else {
        assert(is_json_space(ws[0]));
        assert((ws + x)[0] == ws[0]);
        assert((ws + x).drop_first() =~= ws.drop_first() + x);
        assert(all_json_space(ws.drop_first()));
        lemma_trim_start_prefix(ws.drop_first(), x);
    }
}

/// Whitespace after a text is dropped by `trim_end`.
proof fn lemma_trim_end_suffix(x: Seq<u8>, ws: Seq<u8>)
    requires
        all_json_space(ws),
    ensures
        trim_end(x + ws) == trim_end(x),
    decreases ws.len(),
{
    if ws.len() == 0 {
        assert(x + ws =~= x);
    } else {
        assert(is_json_space(ws.last()));
        assert((x + ws).last() == ws.last());
        assert((x + ws).drop_last() =~= x + ws.drop_last());
        assert(all_json_space(ws.drop_last()));
        lemma_trim_end_suffix(x, ws.drop_last());
    }
}

/// `trim_start` of a text followed by whitespace keeps that whitespace, unless the
/// text itself is whitespace only.
proof fn lemma_trim_start_of_suffixed(x: Seq<u8>, ws: Seq<u8>)
    requires
        all_json_space(ws),
    ensures
        trim_start(x).len() > 0 ==> trim_start(x + ws) == trim_start(x) + ws,
        trim_start(x).len() == 0 ==> trim_start(x + ws) == Seq::<u8>::empty(),
    decreases x.len(),
{
    if x.len() == 0 {
        assert(x + ws =~= ws);
        lemma_trim_all_space(ws);
    } else if is_json_space(x[0]) {
        assert((x + ws)[0] == x[0]);
        assert((x + ws).drop_first() =~= x.drop_first() + ws);
        lemma_trim_start_of_suffixed(x.drop_first(), ws);
    } else {
        assert((x + ws)[0] == x[0]);
    }
}

/// The text that `serialize_ts` writes for a timestamp is one that `deserialize_ts`
/// reads back as that same timestamp.
pub proof fn timestamp_text_round_trip(ts: Timestamp, bytes: Seq<u8>)
    requires
        bytes == decimal_digits(ts as nat),
    ensures
        json_u64(bytes) == Some(ts),
{
    lemma_decimal_digits(ts as nat);
    assert(48 <= bytes[0] <= 57);
    assert(48 <= bytes[bytes.len() - 1] <= 57);
    lemma_trim_unchanged(bytes);
    lemma_trim_unchanged(trim_start(bytes));
}

/// JSON whitespace around a text changes nothing of what `deserialize_ts` reads
/// from it.
pub proof fn surrounding_whitespace_is_ignored(front: Seq<u8>, v: Seq<u8>, back: Seq<u8>)
    requires
        all_json_space(front),
        all_json_space(back),
    ensures
        json_u64(front + v + back) == json_u64(v),
{
    assert(front + v + back =~= front + (v + back));
    lemma_trim_start_prefix(front, v + back);
    lemma_trim_start_of_suffixed(v, back);
    if trim_start(v).len() > 0 {
        lemma_trim_end_suffix(trim_start(v), back);
    } else {
        assert(trim_start(v) =~= Seq::<u8>::empty());
    }
}

/// A text holding a byte that is neither a decimal digit nor JSON whitespace (a sign,
/// a point, a letter, a quote, or anything after the number) is refused.
pub proof fn foreign_byte_is_refused(bytes: Seq<u8>, p: int)
    requires
        0 <= p < bytes.len(),
        !is_json_space(bytes[p]),
        !(48 <= bytes[p] <= 57),
    ensures
        json_u64(bytes) is None,
{
    let k1 = lemma_trim_start_split(bytes);
    let u = bytes.subrange(k1, bytes.len() as int);
    let k2 = lemma_trim_end_split(u);
    let t = trim_end(trim_start(bytes));
    assert(t == u.subrange(0, k2));
    if p < k1 {
        assert(bytes.subrange(0, k1)[p] == bytes[p]);
    } else if p >= k1 + k2 {
        assert(u.subrange(k2, u.len() as int)[p - k1 - k2] == bytes[p]);
    } else {
        assert(t[p - k1] == bytes[p]);
    }
}

/// A text without a digit (whitespace only, or empty) is refused.
pub proof fn blank_text_is_refused(bytes: Seq<u8>)
    requires
        all_json_space(bytes),
    ensures
        json_u64(bytes) is None,
{
    lemma_trim_all_space(bytes);
    assert(trim_end(trim_start(bytes)) =~= Seq::<u8>::empty());
}

} // verus!
