//! Tag-length-value record streams.
//!
//! Paginated SP queries return their records as a flat byte stream of TLV
//! triples: a four-byte tag, a little-endian `u32` length, and that many
//! bytes of value. This module gives the stream's exact grammar as a
//! specification, a decoder and encoder proved against it, and the
//! round-trip theorem connecting the two.

use vstd::bytes::lemma_auto_spec_u32_to_from_le_bytes;
use vstd::bytes::spec_u32_from_le_bytes;
use vstd::bytes::spec_u32_to_le_bytes;
use vstd::bytes::u32_from_le_bytes;
use vstd::bytes::u32_to_le_bytes;
use vstd::prelude::*;
use vstd::slice::slice_subrange;
use vstd::slice::slice_to_vec;

verus! {

/// A four-byte record tag, held byte by byte.
#[derive(Clone, Copy, Debug, PartialEq, Eq, Structural)]
pub struct Tag {
    pub b0: u8,
    pub b1: u8,
    pub b2: u8,
    pub b3: u8,
}

impl Tag {
    /// The tag's four bytes in wire order.
    pub open spec fn to_seq(self) -> Seq<u8> {
        seq![self.b0, self.b1, self.b2, self.b3]
    }
}

/// A decoded TLV triple: the tag and the raw value bytes.
#[derive(Clone, Debug)]
pub struct TlvTriple {
    pub tag: Tag,
    pub value: Vec<u8>,
}

impl View for TlvTriple {
    type V = (Tag, Seq<u8>);

    open spec fn view(&self) -> (Tag, Seq<u8>) {
        (self.tag, self.value@)
    }
}

/// The mathematical contents of a decoded triple sequence.
pub open spec fn triples_view(s: Seq<TlvTriple>) -> Seq<(Tag, Seq<u8>)> {
    s.map_values(|t: TlvTriple| t@)
}

/// The stream was cut short: a triple's header or value runs past the end
/// of the buffer.
#[derive(Clone, Copy, Debug, PartialEq, Eq, Structural)]
pub enum DecodeError {
    Truncated,
}

/// What a well-formed TLV stream denotes: `None` if the bytes are not a
/// whole number of well-formed triples, otherwise the triples in order.
pub open spec fn spec_decode(bytes: Seq<u8>) -> Option<Seq<(Tag, Seq<u8>)>>
    decreases bytes.len(),
{
    if bytes.len() == 0 {
        Some(Seq::empty())
    } else if bytes.len() < 8 {
        None
    } else {
        let len = spec_u32_from_le_bytes(bytes.subrange(4, 8)) as int;
        if bytes.len() < 8 + len {
            None
        } else {
            let tag = Tag { b0: bytes[0], b1: bytes[1], b2: bytes[2], b3: bytes[3] };
            let value = bytes.subrange(8, 8 + len);
            match spec_decode(bytes.skip(8 + len)) {
                Some(rest) => Some(Seq::empty().push((tag, value)) + rest),
                None => None,
            }
        }
    }
}

/// The encoding of one triple.
pub open spec fn spec_encode_one(tag: Tag, value: Seq<u8>) -> Seq<u8> {
    tag.to_seq() + spec_u32_to_le_bytes(value.len() as u32) + value
}

/// The encoding of a whole record stream.
pub open spec fn spec_encode(items: Seq<(Tag, Seq<u8>)>) -> Seq<u8>
    decreases items.len(),
{
    if items.len() == 0 {
        Seq::empty()
    } else {
        spec_encode_one(items[0].0, items[0].1) + spec_encode(items.drop_first())
    }
}

/// Decodes a whole TLV stream, or reports that it is truncated.
pub fn decode_all(data: &[u8]) -> (r: Result<Vec<TlvTriple>, DecodeError>)
    ensures
        match r {
            Ok(v) => spec_decode(data@) == Some(triples_view(v@)),
            Err(_) => spec_decode(data@) is None,
        },
{
    let len: usize = data.len();
    let mut out: Vec<TlvTriple> = Vec::new();
    let mut pos: usize = 0;
    proof {
        assert(data@.skip(0) =~= data@);
        assert forall|rest: Seq<(Tag, Seq<u8>)>|
            spec_decode(data@.skip(pos as int)) == Some(rest) implies spec_decode(data@)
            == Some(triples_view(out@) + rest) by {
            assert(triples_view(out@) + rest =~= rest);
        }
    }
    while pos < len
        invariant
            pos <= len,
            len == data@.len(),
            forall|rest: Seq<(Tag, Seq<u8>)>|
                spec_decode(data@.skip(pos as int)) == Some(rest) ==> spec_decode(data@)
                    == Some(triples_view(out@) + rest),
            spec_decode(data@.skip(pos as int)) is None ==> spec_decode(data@) is None,
        decreases len - pos,
    {
        let ghost b = data@.skip(pos as int);
        if len - pos < 8 {
            assert(0 < b.len() < 8);
            return Err(DecodeError::Truncated);
        }
        let tag = Tag { b0: data[pos], b1: data[pos + 1], b2: data[pos + 2], b3: data[pos + 3] };
        let len_bytes = slice_subrange(data, pos + 4, pos + 8);
        let vlen32 = u32_from_le_bytes(len_bytes);
        let vlen = vlen32 as usize;
        proof {
            assert(len_bytes@ =~= b.subrange(4, 8));
            assert(b[0] == data@[pos as int]);
            assert(b[1] == data@[pos as int + 1]);
            assert(b[2] == data@[pos as int + 2]);
            assert(b[3] == data@[pos as int + 3]);
        }
        if vlen > (len - pos) - 8 {
            assert(b.len() < 8 + vlen32);
            return Err(DecodeError::Truncated);
        }
        let value_slice = slice_subrange(data, pos + 8, pos + 8 + vlen);
        let value = slice_to_vec(value_slice);
        proof {
            assert(value@ =~= b.subrange(8, 8 + vlen32 as int));
        }
        let triple = TlvTriple { tag, value };
        let ghost old_out = out@;
        out.push(triple);
        let ghost old_pos = pos as int;
        pos = pos + 8 + vlen;
        proof {
            assert(b.skip(8 + vlen32 as int) =~= data@.skip(pos as int));
            assert forall|rest: Seq<(Tag, Seq<u8>)>|
                spec_decode(data@.skip(pos as int)) == Some(rest) implies spec_decode(data@)
                == Some(triples_view(out@) + rest) by {
                assert(spec_decode(b) == Some(Seq::empty().push(triple@) + rest));
                assert(triples_view(old_out) + (Seq::empty().push(triple@) + rest)
                    =~= triples_view(out@) + rest);
            }
        }
    }
    proof {
        assert(data@.skip(pos as int) =~= Seq::<u8>::empty());
        assert(spec_decode(data@) == Some(triples_view(out@) + Seq::<(Tag, Seq<u8>)>::empty()));
        assert(triples_view(out@) + Seq::<(Tag, Seq<u8>)>::empty() =~= triples_view(out@));
    }
    Ok(out)
}

/// Appends the bytes of `src` to `out`.
pub fn push_bytes(out: &mut Vec<u8>, src: &[u8])
    ensures
        final(out)@ == old(out)@ + src@,
{
    let mut i: usize = 0;
    while i < src.len()
        invariant
            i <= src@.len(),
            out@ == old(out)@ + src@.subrange(0, i as int),
        decreases src@.len() - i,
    {
        let ghost prev = out@;
        out.push(src[i]);
        i += 1;
        proof {
            assert(out@ =~= old(out)@ + src@.subrange(0, i as int));
        }
    }
    proof {
        assert(old(out)@ + src@.subrange(0, src@.len() as int) =~= old(out)@ + src@);
    }
}

/// Appends the encoding of one triple to `out`.
pub fn encode_into(out: &mut Vec<u8>, tag: Tag, value: &[u8])
    requires
        value@.len() <= u32::MAX,
    ensures
        final(out)@ == old(out)@ + spec_encode_one(tag, value@),
{
    out.push(tag.b0);
    out.push(tag.b1);
    out.push(tag.b2);
    out.push(tag.b3);
    let len_bytes = u32_to_le_bytes(value.len() as u32);
    push_bytes(out, len_bytes.as_slice());
    push_bytes(out, value);
    proof {
        assert(out@ =~= old(out)@ + spec_encode_one(tag, value@));
    }
}

/// Encoding then decoding a record stream gives the records back unchanged.
pub proof fn lemma_encode_decode(items: Seq<(Tag, Seq<u8>)>)
    requires
        forall|i: int| 0 <= i < items.len() ==> (#[trigger] items[i]).1.len() <= u32::MAX,
    ensures
        spec_decode(spec_encode(items)) == Some(items),
    decreases items.len(),
{
    lemma_auto_spec_u32_to_from_le_bytes();
    if items.len() == 0 {
        assert(spec_encode(items) =~= Seq::<u8>::empty());
    } else {
        let tag = items[0].0;
        let value = items[0].1;
        let one = spec_encode_one(tag, value);
        let rest = spec_encode(items.drop_first());
        let bytes = spec_encode(items);
        assert(bytes == one + rest);
        assert(one.len() == 8 + value.len());
        assert(bytes.subrange(4, 8) =~= spec_u32_to_le_bytes(value.len() as u32));
        let vlen = spec_u32_from_le_bytes(bytes.subrange(4, 8)) as int;
        assert(vlen == value.len());
        assert(bytes.subrange(8, 8 + vlen) =~= value);
        assert(bytes.skip(8 + vlen) =~= rest);
        lemma_encode_decode(items.drop_first());
        let tag_read = Tag { b0: bytes[0], b1: bytes[1], b2: bytes[2], b3: bytes[3] };
        assert(tag_read == tag);
        assert(spec_decode(bytes) == Some(Seq::empty().push((tag, value)) + items.drop_first()));
        assert(Seq::empty().push((tag, value)) + items.drop_first() =~= items);
    }
}

} // verus!
