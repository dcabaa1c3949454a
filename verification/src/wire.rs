//! Serial line discipline: terminals want CRLF, the kernel only ever emits LF.
use vstd::prelude::*;

verus! {

/// Line feed, the only line ending the kernel writes.
pub const LF: u8 = 0x0A;

/// Carriage return, sent ahead of every line feed.
pub const CR: u8 = 0x0D;

/// What goes on the wire for one byte the kernel writes.
pub open spec fn wire_of(byte: u8) -> Seq<u8> {
    if byte == LF {
        seq![CR, LF]
    } else {
        seq![byte]
    }
}

/// What goes on the wire for a whole run of bytes, byte by byte.
pub open spec fn wire(text: Seq<u8>) -> Seq<u8>
    decreases text.len(),
{
    if text.len() == 0 {
        Seq::empty()
    } else {
        wire(text.drop_last()) + wire_of(text.last())
    }
}

/// The wire bytes of one byte: the first `len` bytes of the array.
pub fn wire_byte(byte: u8) -> (out: ([u8; 2], usize))
    ensures
        out.1 <= 2,
        out.0@.subrange(0, out.1 as int) == wire_of(byte),
{
    if byte == LF {
        ([CR, LF], 2)
    } else {
        ([byte, 0], 1)
    }
}

/// The number of line feeds in `text`.
pub open spec fn line_feeds(text: Seq<u8>) -> nat
    decreases text.len(),
{
    if text.len() == 0 {
        0
    } else {
        line_feeds(text.drop_last()) + if text.last() == LF { 1nat } else { 0nat }
    }
}

/// `text` with every carriage return left out.
pub open spec fn without_cr(text: Seq<u8>) -> Seq<u8>
    decreases text.len(),
{
    if text.len() == 0 {
        Seq::empty()
    } else if text.last() == CR {
        without_cr(text.drop_last())
    } else {
        without_cr(text.drop_last()).push(text.last())
    }
}

/// The bytes that go on the wire when the kernel writes `text`: each byte as
/// it is, but a line feed goes out as CR LF.
pub fn to_wire(text: &[u8]) -> (out: Vec<u8>)
    ensures
        out@ == wire(text@),
{
    let mut out: Vec<u8> = Vec::new();
    let mut i: usize = 0;
    while i < text.len()
        invariant
            i <= text@.len(),
            out@ == wire(text@.subrange(0, i as int)),
        decreases text@.len() - i,
    {
        let byte = text[i];
        if byte == LF {
            out.push(CR);
        }
        out.push(byte);
        proof {
            assert(text@.subrange(0, i + 1).drop_last() =~= text@.subrange(0, i as int));
        }
        i = i + 1;
    }
    proof {
        assert(text@.subrange(0, text@.len() as int) =~= text@);
    }
    out
}

/// Writing a text in pieces puts the same bytes on the wire as writing it at
/// once: the translation of `a + b` is that of `a` followed by that of `b`.
pub proof fn lemma_wire_concat(a: Seq<u8>, b: Seq<u8>)
    ensures
        wire(a + b) == wire(a) + wire(b),
    decreases b.len(),
{
    if b.len() == 0 {
        assert(a + b =~= a);
        assert(wire(a) + wire(b) =~= wire(a));
    } else {
        assert((a + b).drop_last() =~= a + b.drop_last());
        assert((a + b).last() == b.last());
        lemma_wire_concat(a, b.drop_last());
        assert(wire(a + b) =~= wire(a) + wire(b));
    }
}

/// The wire carries one extra byte per line feed, and no other.
pub proof fn lemma_wire_len(text: Seq<u8>)
    ensures
        wire(text).len() == text.len() + line_feeds(text),
    decreases text.len(),
{
    if text.len() > 0 {
        lemma_wire_len(text.drop_last());
    }
}

/// Every line feed on the wire comes right after a carriage return.
pub proof fn lemma_wire_crlf(text: Seq<u8>, i: int)
    requires
        0 <= i < wire(text).len(),
        wire(text)[i] == LF,
    ensures
        i >= 1,
        wire(text)[i - 1] == CR,
    decreases text.len(),
{
    let prefix = wire(text.drop_last());
    if i >= prefix.len() {
        assert(text.last() == LF);
    } else {
        lemma_wire_crlf(text.drop_last(), i);
    }
}

/// Carriage returns aside, the wire carries exactly the bytes written, in order.
pub proof fn lemma_wire_without_cr(text: Seq<u8>)
    ensures
        without_cr(wire(text)) == without_cr(text),
    decreases text.len(),
{
    if text.len() > 0 {
        lemma_wire_without_cr(text.drop_last());
        lemma_without_cr_concat(wire(text.drop_last()), wire_of(text.last()));
        lemma_without_cr_concat(text.drop_last(), seq![text.last()]);
        assert(text.drop_last() + seq![text.last()] =~= text);
        reveal_with_fuel(without_cr, 3);
        assert(seq![CR, LF].drop_last() =~= seq![CR]);
        assert(seq![CR].drop_last() =~= Seq::<u8>::empty());
        assert(seq![text.last()].drop_last() =~= Seq::<u8>::empty());
        assert(without_cr(wire_of(text.last())) =~= without_cr(seq![text.last()]));
    }
}

/// Text without line feeds goes on the wire unchanged.
pub proof fn lemma_wire_plain(text: Seq<u8>)
    requires
        forall|i: int| 0 <= i < text.len() ==> text[i] != LF,
    ensures
        wire(text) == text,
    decreases text.len(),
{
    if text.len() > 0 {
        lemma_wire_plain(text.drop_last());
        assert(wire(text) =~= text);
    }
}

proof fn lemma_without_cr_concat(a: Seq<u8>, b: Seq<u8>)
    ensures
        without_cr(a + b) == without_cr(a) + without_cr(b),
    decreases b.len(),
{
    if b.len() == 0 {
        assert(a + b =~= a);
        assert(without_cr(a) + without_cr(b) =~= without_cr(a));
    } else {
        assert((a + b).drop_last() =~= a + b.drop_last());
        lemma_without_cr_concat(a, b.drop_last());
        assert(without_cr(a + b) =~= without_cr(a) + without_cr(b));
    }
}

} // verus!
