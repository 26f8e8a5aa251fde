use vstd::prelude::*;
use vstd::string::StringSliceAdditionalSpecFns;

verus! {

/// Width in bytes of every fixed-size text field of the kernel records.
pub const TEXT_FIELD_LEN: usize = 32;

/// The bytes of a fixed-size field that come before its first NUL, or
/// all of them where it holds none.
pub open spec fn field_text(b: Seq<u8>) -> Seq<u8>
    decreases b.len(),
{
    if b.len() == 0 || b[0] == 0 {
        Seq::empty()
    } else {
        seq![b[0]] + field_text(b.drop_first())
    }
}

/// `n` is where the text of field `b` ends.
pub open spec fn ends_text(b: Seq<u8>, n: int) -> bool {
    &&& 0 <= n <= b.len()
    &&& forall|i: int| 0 <= i < n ==> b[i] != 0
    &&& n < b.len() ==> b[n] == 0
}

/// The characters that lossy UTF-8 decoding gives for the bytes `b`.
pub uninterp spec fn lossy_text(b: Seq<u8>) -> Seq<char>;

/// Bytes below 0x80 are ASCII, which decodes one character per byte.
pub open spec fn ascii_chars(b: Seq<u8>) -> Seq<char> {
    b.map_values(|x: u8| x as char)
}

pub open spec fn all_ascii(b: Seq<u8>) -> bool {
    forall|i: int| 0 <= i < b.len() ==> b[i] < 0x80
}

/// A fixed-size label field holding `s`: its bytes, cut at the field's
/// width, and NUL bytes after them.
pub open spec fn label_field(s: Seq<u8>) -> Seq<u8> {
    Seq::new(TEXT_FIELD_LEN as nat, |i: int| if i < s.len() { s[i] } else { 0u8 })
}

/// Relies on `String::from_utf8_lossy`: the result depends on the bytes
/// alone, and valid UTF-8 (such as ASCII) is kept as it is.
#[verifier::external_body]
fn utf8_lossy(b: &[u8]) -> (r: String)
    ensures
        r@ == lossy_text(b@),
        all_ascii(b@) ==> r@ == ascii_chars(b@),
{
    String::from_utf8_lossy(b).into_owned()
}

proof fn lemma_ends_text(b: Seq<u8>, n: int)
    requires
        ends_text(b, n),
    ensures
        field_text(b) == b.take(n),
    decreases b.len(),
{
    if b.len() == 0 || b[0] == 0 {
        assert(n == 0);
        assert(b.take(n) =~= Seq::<u8>::empty());
    } else {
        let t = b.drop_first();
        assert(ends_text(t, n - 1)) by {
            assert forall|i: int| 0 <= i < n - 1 implies t[i] != 0 by {
                assert(b[i + 1] != 0);
            }
        }
        lemma_ends_text(t, n - 1);
        assert(b.take(n) =~= seq![b[0]] + t.take(n - 1));
    }
}

/// Where the text of a fixed-size field ends: the index of its first NUL,
/// or its length where it holds none.
pub fn text_end(field: &[u8]) -> (r: usize)
    ensures
        ends_text(field@, r as int),
        field_text(field@) == field@.take(r as int),
{
    let mut i: usize = 0;
    while i < field.len() && field[i] != 0
        invariant
            i <= field@.len(),
            forall|j: int| 0 <= j < i ==> field@[j] != 0,
        decreases field@.len() - i,
    {
        i = i + 1;
    }
    proof {
        lemma_ends_text(field@, i as int);
    }
    i
}

/// Decodes a NUL-padded text field: the bytes before its first NUL, or
/// all of them, read as UTF-8 with invalid sequences replaced.
pub fn decode_text(field: &[u8]) -> (r: String)
    ensures
        r@ == lossy_text(field_text(field@)),
        all_ascii(field_text(field@)) ==> r@ == ascii_chars(field_text(field@)),
{
    let n = text_end(field);
    let head = copy_range(field, 0, n);
    assert(head@ =~= field@.take(n as int));
    utf8_lossy(&head)
}

/// The bytes of `b` from `from` up to `to`.
pub(crate) fn copy_range(b: &[u8], from: usize, to: usize) -> (r: Vec<u8>)
    requires
        from <= to <= b@.len(),
    ensures
        r@ == b@.subrange(from as int, to as int),
{
    let mut out: Vec<u8> = Vec::new();
    let mut i: usize = from;
    while i < to
        invariant
            from <= i <= to,
            to <= b@.len(),
            out@ == b@.subrange(from as int, i as int),
        decreases to - i,
    {
        out.push(b[i]);
        i = i + 1;
        assert(out@ =~= b@.subrange(from as int, i as int));
    }
    out
}

/// Encodes `consumer` as a fixed-size label field: its UTF-8 bytes cut at
/// the field's width, then NUL bytes up to it. A label that fills the
/// field has no NUL.
pub fn encode_label(consumer: &str) -> (r: Vec<u8>)
    ensures
        r@ == label_field(consumer.spec_bytes()),
        r@.len() == TEXT_FIELD_LEN,
{
    let bytes = consumer.as_bytes();
    let mut out: Vec<u8> = Vec::new();
    let mut i: usize = 0;
    while i < TEXT_FIELD_LEN
        invariant
            i <= TEXT_FIELD_LEN,
            bytes@ == consumer.spec_bytes(),
            out@ == label_field(bytes@).take(i as int),
        decreases TEXT_FIELD_LEN - i,
    {
        if i < bytes.len() {
            out.push(bytes[i]);
        } else {
            out.push(0u8);
        }
        i = i + 1;
        assert(out@ =~= label_field(bytes@).take(i as int));
    }
    assert(out@ =~= label_field(bytes@));
    out
}

/// A field whose bytes hold no NUL is text over its whole width.
pub proof fn lemma_field_without_nul(b: Seq<u8>)
    requires
        forall|i: int| 0 <= i < b.len() ==> b[i] != 0,
    ensures
        field_text(b) == b,
{
    lemma_ends_text(b, b.len() as int);
    assert(b.take(b.len() as int) =~= b);
}

/// A field holding some text and then NUL bytes up to its end decodes to
/// that text.
pub proof fn lemma_field_with_padding(text: Seq<u8>, pad: nat)
    requires
        pad > 0,
        forall|i: int| 0 <= i < text.len() ==> text[i] != 0,
    ensures
        field_text(text + Seq::new(pad, |i: int| 0u8)) == text,
{
    let b = text + Seq::new(pad, |i: int| 0u8);
    assert(ends_text(b, text.len() as int));
    lemma_ends_text(b, text.len() as int);
    assert(b.take(text.len() as int) =~= text);
}

} // verus!
