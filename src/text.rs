use vstd::prelude::*;

verus! {

/// The three bytes of the UTF-8 byte-order mark.
pub open spec fn has_bom(b: Seq<u8>) -> bool {
    b.len() >= 3 && b[0] == 0xEFu8 && b[1] == 0xBBu8 && b[2] == 0xBFu8
}

/// The bytes with a leading byte-order mark removed, if there is one.
pub open spec fn strip_bom(b: Seq<u8>) -> Seq<u8> {
    if has_bom(b) {
        b.subrange(3, b.len() as int)
    } else {
        b
    }
}

/// Copies `buf` without its leading byte-order mark.
pub fn strip_bom_bytes(buf: &[u8]) -> (r: Vec<u8>)
    ensures
        r@ == strip_bom(buf@),
{
    let n = buf.len();
    let start: usize = if n >= 3 && buf[0] == 0xEF && buf[1] == 0xBB && buf[2] == 0xBF {
        3
    } else {
        0
    };
    let mut out: Vec<u8> = Vec::new();
    let mut i: usize = start;
    while i < n
        invariant
            start <= i <= n,
            n == buf@.len(),
            out@ == buf@.subrange(start as int, i as int),
        decreases n - i,
    {
        out.push(buf[i]);
        i = i + 1;
        assert(out@ =~= buf@.subrange(start as int, i as int));
    }
    assert(buf@.subrange(0, n as int) =~= buf@);
    out
}

} // verus!

verus! {

/// The characters that a byte sequence encodes as UTF-8, or `None` where it is
/// not well-formed UTF-8.
pub uninterp spec fn utf8_text(b: Seq<u8>) -> Option<Seq<char>>;

/// Relies on `std::str::from_utf8`: strict UTF-8 validation and decoding of the
/// whole slice; an empty slice decodes to the empty string.
#[verifier::external_body]
fn from_utf8(b: &[u8]) -> (r: Option<String>)
    ensures
        r is Some <==> utf8_text(b@) is Some,
        r is Some ==> r->0@ == utf8_text(b@)->0,
        b@.len() == 0 ==> r is Some && r->0@.len() == 0,
{
    std::str::from_utf8(b).ok().map(|s| s.to_string())
}

/// The text of a document payload: a leading byte-order mark is dropped and
/// the rest is decoded strictly as UTF-8. `None` where the rest is malformed.
pub open spec fn decoded(b: Seq<u8>) -> Option<Seq<char>> {
    utf8_text(strip_bom(b))
}

/// Decodes UTF-8 with an optional leading byte-order mark. The rest must be
/// well-formed UTF-8.
pub fn decode_utf8(buf: &[u8]) -> (r: String)
    requires
        decoded(buf@) is Some,
    ensures
        r@ == decoded(buf@)->0,
        strip_bom(buf@).len() == 0 ==> r@.len() == 0,
{
    let rest = strip_bom_bytes(buf);
    match from_utf8(rest.as_slice()) {
        Some(text) => text,
        None => String::new(),
    }
}

/// Decodes UTF-8 with an optional leading byte-order mark, `None` where the
/// rest is not well-formed UTF-8.
pub fn try_decode_utf8(buf: &[u8]) -> (r: Option<String>)
    ensures
        r is Some <==> decoded(buf@) is Some,
        r is Some ==> r->0@ == decoded(buf@)->0,
        strip_bom(buf@).len() == 0 ==> r is Some && r->0@.len() == 0,
{
    let rest = strip_bom_bytes(buf);
    match from_utf8(rest.as_slice()) {
        Some(_) => Some(decode_utf8(buf)),
        None => None,
    }
}

} // verus!
