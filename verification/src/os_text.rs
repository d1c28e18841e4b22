//! Text as the operating system holds it: bytes that are UTF-8 most of the time, but need not be.

use vstd::prelude::*;
use vstd::utf8::*;

verus! {

/// A file name, a path, or an argument of a command.
#[derive(Debug, Clone, PartialEq, Eq)]
pub struct OsText {
    pub bytes: Vec<u8>,
}

impl View for OsText {
    type V = Seq<u8>;

    open spec fn view(&self) -> Seq<u8> {
        self.bytes@
    }
}

impl OsText {
    /// The bytes of `s` in UTF-8.
    pub fn from_text(s: &str) -> (r: OsText)
        ensures
            r@ == encode_utf8(s@),
    {
        OsText { bytes: vstd::slice::slice_to_vec(s.as_bytes()) }
    }

    /// The text made of `bytes`.
    pub fn from_bytes(bytes: Vec<u8>) -> (r: OsText)
        ensures
            r@ == bytes@,
    {
        OsText { bytes }
    }

    /// The bytes of this text.
    pub fn as_bytes(&self) -> (r: &[u8])
        ensures
            r@ == self@,
    {
        self.bytes.as_slice()
    }

    /// A copy of this text.
    pub fn duplicate(&self) -> (r: OsText)
        ensures
            r@ == self@,
    {
        OsText { bytes: vstd::slice::slice_to_vec(self.bytes.as_slice()) }
    }

    /// Adds `more` at the end.
    pub fn push(&mut self, more: &[u8])
        ensures
            final(self)@ == old(self)@ + more@,
    {
        let ghost start = self@;
        for i in 0..more.len()
            invariant
                self@ == start + more@.take(i as int),
        {
            self.bytes.push(more[i]);
            assert(more@.take(i + 1) == more@.take(i as int).push(more@[i as int]));
        }
        assert(more@.take(more@.len() as int) == more@);
    }

    /// Adds `more` at the end, in UTF-8.
    pub fn push_text(&mut self, more: &str)
        ensures
            final(self)@ == old(self)@ + encode_utf8(more@),
    {
        self.push(more.as_bytes());
    }

    /// The text to show for these bytes.
    pub fn display(&self) -> (r: String)
        ensures
            r@ == displayed(self@),
    {
        decode_lossy(self.bytes.as_slice())
    }

    /// The text in these bytes, when they are UTF-8.
    pub fn to_text(&self) -> (r: Option<String>)
        ensures
            match r {
                Some(s) => valid_utf8(self@) && s@ == decode_utf8(self@),
                None => !valid_utf8(self@),
            },
    {
        decode(self.bytes.as_slice())
    }
}

/// The text that stands for bytes of which some are not UTF-8.
pub uninterp spec fn lossy_text(bytes: Seq<u8>) -> Seq<char>;

/// The text to show for some bytes: what they encode in UTF-8, or, where they are not UTF-8,
/// the text with replacement characters.
pub open spec fn displayed(bytes: Seq<u8>) -> Seq<char> {
    if valid_utf8(bytes) {
        decode_utf8(bytes)
    } else {
        lossy_text(bytes)
    }
}

/// Calls `String::from_utf8_lossy`. Bytes in UTF-8 give the text that they encode; what other
/// bytes give depends on the bytes alone, and is not said further.
#[verifier::external_body]
fn decode_lossy(bytes: &[u8]) -> (r: String)
    ensures
        r@ == (if valid_utf8(bytes@) {
            decode_utf8(bytes@)
        } else {
            lossy_text(bytes@)
        }),
{
    String::from_utf8_lossy(bytes).into_owned()
}

/// The text in some bytes, when they are UTF-8.
pub fn decode(bytes: &[u8]) -> (r: Option<String>)
    ensures
        match r {
            Some(s) => valid_utf8(bytes@) && s@ == decode_utf8(bytes@),
            None => !valid_utf8(bytes@),
        },
{
    match decode_or_explain(vstd::slice::slice_to_vec(bytes)) {
        Ok(text) => Some(text),
        Err(_) => None,
    }
}

/// What is said against bytes that are not UTF-8.
pub uninterp spec fn utf8_error_text(bytes: Seq<u8>) -> Seq<char>;

/// Calls `String::from_utf8`, which succeeds exactly on bytes in UTF-8 and gives the text that
/// they encode. What its error says depends on the bytes alone, and is not said further.
#[verifier::external_body]
pub(crate) fn decode_or_explain(bytes: Vec<u8>) -> (r: Result<String, String>)
    ensures
        match r {
            Ok(text) => valid_utf8(bytes@) && text@ == decode_utf8(bytes@),
            Err(why) => !valid_utf8(bytes@) && why@ == utf8_error_text(bytes@),
        },
{
    String::from_utf8(bytes).map_err(|error| error.to_string())
}

/// The views of a sequence of texts.
pub open spec fn views(texts: Seq<OsText>) -> Seq<Seq<u8>> {
    texts.map_values(|t: OsText| t@)
}

/// Text that was written in UTF-8 is shown as it was written.
pub proof fn lemma_displayed_utf8(s: Seq<char>)
    ensures
        displayed(encode_utf8(s)) == s,
{
    encode_utf8_valid_utf8(s);
    encode_utf8_decode_utf8(s);
}

/// The bytes of two texts in a row are those of the first and those of the second.
pub proof fn lemma_encode_concat(a: Seq<char>, b: Seq<char>)
    ensures
        encode_utf8(a + b) == encode_utf8(a) + encode_utf8(b),
    decreases a.len(),
{
    if a.len() == 0 {
        assert(a + b == b);
        assert(encode_utf8(a) + encode_utf8(b) == encode_utf8(b));
    } else {
        assert((a + b).drop_first() == a.drop_first() + b);
        assert((a + b)[0] == a[0]);
        lemma_encode_concat(a.drop_first(), b);
        assert(encode_utf8(a + b) == encode_utf8(a) + encode_utf8(b));
    }
}

/// Texts with the same bytes are equal.
pub proof fn lemma_encode_injective(a: Seq<char>, b: Seq<char>)
    requires
        encode_utf8(a) == encode_utf8(b),
    ensures
        a == b,
{
    encode_utf8_decode_utf8(a);
    encode_utf8_decode_utf8(b);
}

/// Whether two byte sequences are equal.
pub fn same_bytes(a: &[u8], b: &[u8]) -> (r: bool)
    ensures
        r == (a@ == b@),
{
    if a.len() != b.len() {
        return false;
    }
    for i in 0..a.len()
        invariant
            a@.len() == b@.len(),
            forall|k: int| 0 <= k < i ==> a@[k] == b@[k],
    {
        if a[i] != b[i] {
            return false;
        }
    }
    assert(a@ == b@);
    true
}

/// Whether `a` comes before `b`, or is `b`, in the order of their bytes.
pub open spec fn bytes_le(a: Seq<u8>, b: Seq<u8>) -> bool
    decreases a.len(),
{
    if a.len() == 0 {
        true
    } else if b.len() == 0 {
        false
    } else if a.first() != b.first() {
        a.first() < b.first()
    } else {
        bytes_le(a.drop_first(), b.drop_first())
    }
}

/// Whether `a` comes before `b`, or is `b`, in the order of their bytes.
pub fn is_bytes_le(a: &[u8], b: &[u8]) -> (r: bool)
    ensures
        r == bytes_le(a@, b@),
{
    let n = if a.len() < b.len() {
        a.len()
    } else {
        b.len()
    };
    assert(a@.skip(0) == a@);
    assert(b@.skip(0) == b@);
    for i in 0..n
        invariant
            n <= a@.len(),
            n <= b@.len(),
            bytes_le(a@, b@) == bytes_le(a@.skip(i as int), b@.skip(i as int)),
    {
        assert(a@.skip(i as int).drop_first() == a@.skip(i + 1));
        assert(b@.skip(i as int).drop_first() == b@.skip(i + 1));
        if a[i] != b[i] {
            return a[i] < b[i];
        }
    }
    a.len() == n
}

proof fn lemma_bytes_le_antisymmetric(a: Seq<u8>, b: Seq<u8>)
    requires
        bytes_le(a, b),
        bytes_le(b, a),
    ensures
        a == b,
    decreases a.len(),
{
    if a.len() > 0 {
        lemma_bytes_le_antisymmetric(a.drop_first(), b.drop_first());
        assert(a == seq![a.first()] + a.drop_first());
        assert(b == seq![b.first()] + b.drop_first());
    } else {
        assert(a == b);
    }
}

proof fn lemma_bytes_le_transitive(a: Seq<u8>, b: Seq<u8>, c: Seq<u8>)
    requires
        bytes_le(a, b),
        bytes_le(b, c),
    ensures
        bytes_le(a, c),
    decreases a.len(),
{
    if a.len() > 0 && a.first() == b.first() && b.first() == c.first() {
        lemma_bytes_le_transitive(a.drop_first(), b.drop_first(), c.drop_first());
    }
}

proof fn lemma_bytes_le_total(a: Seq<u8>, b: Seq<u8>)
    ensures
        bytes_le(a, b) || bytes_le(b, a),
    decreases a.len(),
{
    if a.len() > 0 && b.len() > 0 && a.first() == b.first() {
        lemma_bytes_le_total(a.drop_first(), b.drop_first());
    }
}

/// The order of bytes is a total order.
pub proof fn lemma_bytes_le_total_order()
    ensures
        vstd::relations::total_ordering(|a: Seq<u8>, b: Seq<u8>| bytes_le(a, b)),
{
    let le = |a: Seq<u8>, b: Seq<u8>| bytes_le(a, b);
    assert forall|a: Seq<u8>| #[trigger] le(a, a) by {
        lemma_bytes_le_total(a, a);
    }
    assert forall|a: Seq<u8>, b: Seq<u8>| #[trigger] le(a, b) && #[trigger] le(b, a) implies a
        == b by {
        lemma_bytes_le_antisymmetric(a, b);
    }
    assert forall|a: Seq<u8>, b: Seq<u8>, c: Seq<u8>| #[trigger]
        le(a, b) && #[trigger] le(b, c) implies le(a, c) by {
        lemma_bytes_le_transitive(a, b, c);
    }
    assert forall|a: Seq<u8>, b: Seq<u8>| #[trigger] le(a, b) || #[trigger] le(b, a) by {
        lemma_bytes_le_total(a, b);
    }
}

/// The first byte in which two texts differ decides their order, the smaller one coming first; a
/// text comes before those that it is the beginning of.
pub proof fn first_difference_decides(front: Seq<u8>, a: Seq<u8>, b: Seq<u8>, x: u8, y: u8)
    requires
        x < y,
    ensures
        bytes_le(front + seq![x] + a, front + seq![y] + b),
        !bytes_le(front + seq![y] + b, front + seq![x] + a),
        bytes_le(front, front + a),
        a.len() > 0 ==> !bytes_le(front + a, front),
    decreases front.len(),
{
    let low = front + seq![x] + a;
    let high = front + seq![y] + b;
    if front.len() > 0 {
        let rest = front.drop_first();
        first_difference_decides(rest, a, b, x, y);
        assert(low.drop_first() =~= rest + seq![x] + a);
        assert(high.drop_first() =~= rest + seq![y] + b);
        assert((front + a).drop_first() =~= rest + a);
    }
}

} // verus!
