//! The wire shape of a response preamble: line terminators, header lines,
//! the status line, and the header block, as sequences of bytes.

use vstd::prelude::*;

verus! {

/// Carriage return, the first byte of every line terminator on the wire.
pub const CR: u8 = 13;

/// Line feed, the second byte of every line terminator on the wire.
pub const LF: u8 = 10;

/// The space byte separating the version token from the status.
pub const SP: u8 = 32;

/// The colon byte separating a header name from its value.
pub const COLON: u8 = 58;

/// The fixed two-byte CRLF terminator ending every preamble line.
pub open spec fn line_ending() -> Seq<u8> {
    seq![CR, LF]
}

/// One header line on the wire: `name`, a colon and a space, `value`, CRLF.
pub open spec fn header_line(name: Seq<u8>, value: Seq<u8>) -> Seq<u8> {
    name + seq![COLON, SP] + value + line_ending()
}

/// The header block: every header line, in the order of the entries.
pub open spec fn header_block(hs: Seq<(Seq<u8>, Seq<u8>)>) -> Seq<u8>
    decreases hs.len(),
{
    if hs.len() == 0 {
        Seq::empty()
    } else {
        header_block(hs.drop_last()) + header_line(hs.last().0, hs.last().1)
    }
}

/// The status line on the wire: version token, space, status, CRLF.
pub open spec fn status_line(version: Seq<u8>, status: Seq<u8>) -> Seq<u8> {
    version + seq![SP] + status + line_ending()
}

/// The whole preamble: status line, header block, and the blank line that
/// closes the header section.
pub open spec fn preamble(version: Seq<u8>, status: Seq<u8>, hs: Seq<(Seq<u8>, Seq<u8>)>) -> Seq<
    u8,
> {
    status_line(version, status) + header_block(hs) + line_ending()
}

/// Appends the two-byte CRLF terminator.
pub fn push_line_ending(out: &mut Vec<u8>)
    ensures
        final(out)@ == old(out)@ + line_ending(),
{
    out.push(CR);
    out.push(LF);
    proof {
        assert(out@ =~= old(out)@ + line_ending());
    }
}

/// Appends a whole slice, byte for byte.
pub fn push_all(out: &mut Vec<u8>, data: &[u8])
    ensures
        final(out)@ == old(out)@ + data@,
{
    let mut i: usize = 0;
    while i < data.len()
        invariant
            i <= data@.len(),
            out@ == old(out)@ + data@.take(i as int),
        decreases data@.len() - i,
    {
        out.push(data[i]);
        proof {
            assert(out@ =~= old(out)@ + data@.take(i + 1));
        }
        i = i + 1;
    }
    proof {
        assert(data@.take(data@.len() as int) =~= data@);
    }
}

/// Every entry's line stands whole somewhere in the header block.
pub proof fn lemma_header_line_in_block(hs: Seq<(Seq<u8>, Seq<u8>)>, i: int)
    requires
        0 <= i < hs.len(),
    ensures
        exists|pre: Seq<u8>, post: Seq<u8>|
            header_block(hs) == pre + header_line(hs[i].0, hs[i].1) + post,
    decreases hs.len(),
{
    if i == hs.len() - 1 {
        let pre = header_block(hs.drop_last());
        let post = Seq::<u8>::empty();
        assert(header_block(hs) =~= pre + header_line(hs[i].0, hs[i].1) + post);
    } else {
        lemma_header_line_in_block(hs.drop_last(), i);
        let (pre, post) = choose|pre: Seq<u8>, post: Seq<u8>|
            header_block(hs.drop_last()) == pre + header_line(
                hs.drop_last()[i].0,
                hs.drop_last()[i].1,
            ) + post;
        assert(hs.drop_last()[i] == hs[i]);
        let post2 = post + header_line(hs.last().0, hs.last().1);
        assert(header_block(hs) =~= pre + header_line(hs[i].0, hs[i].1) + post2);
    }
}

/// A header entry's line — its value unaltered — stands whole in the
/// preamble rendered from any set that holds it.
pub proof fn lemma_header_line_in_preamble(
    version: Seq<u8>,
    status: Seq<u8>,
    hs: Seq<(Seq<u8>, Seq<u8>)>,
    i: int,
)
    requires
        0 <= i < hs.len(),
    ensures
        exists|pre: Seq<u8>, post: Seq<u8>|
            preamble(version, status, hs) == pre + header_line(hs[i].0, hs[i].1) + post,
{
    lemma_header_line_in_block(hs, i);
    let (pre, post) = choose|pre: Seq<u8>, post: Seq<u8>|
        header_block(hs) == pre + header_line(hs[i].0, hs[i].1) + post;
    let pre2 = status_line(version, status) + pre;
    let post2 = post + line_ending();
    assert(preamble(version, status, hs) =~= pre2 + header_line(hs[i].0, hs[i].1) + post2);
}

/// Extending the header block by one entry appends exactly that entry's line.
pub proof fn lemma_header_block_snoc(hs: Seq<(Seq<u8>, Seq<u8>)>, i: int)
    requires
        0 <= i < hs.len(),
    ensures
        header_block(hs.take(i + 1)) == header_block(hs.take(i)) + header_line(
            hs[i].0,
            hs[i].1,
        ),
{
    let pre = hs.take(i + 1);
    assert(pre.drop_last() =~= hs.take(i));
    assert(pre.last() == hs[i]);
}

} // verus!
