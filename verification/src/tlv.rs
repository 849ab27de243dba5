//! Data objects as cards write them: a tag, a length and a value.

use vstd::prelude::*;

verus! {

/// The length field of a value with `len` bytes. Lengths wrap at 16 bits.
pub open spec fn length_field(len: nat) -> Seq<u8> {
    let short = len % 0x10000;
    if short > 255 {
        seq![0x82u8, (short / 256) as u8, (short % 256) as u8]
    } else if short > 127 {
        seq![0x81u8, short as u8]
    } else {
        seq![short as u8]
    }
}

/// A data object: tag, length field, value.
pub open spec fn object(tag: Seq<u8>, value: Seq<u8>) -> Seq<u8> {
    tag + length_field(value.len()) + value
}

/// Appends `bytes` to `out`.
pub(crate) fn push_all(out: &mut Vec<u8>, bytes: &[u8])
    ensures
        final(out)@ == old(out)@ + bytes@,
{
    out.extend_from_slice(bytes);
    assert(out@ =~= old(out)@ + bytes@);
}

/// The length field of a value with `len` bytes.
pub fn tlv_len(len: usize) -> (field: Vec<u8>)
    ensures
        field@ == length_field(len as nat),
{
    let short: usize = len % 0x10000;
    let mut field: Vec<u8> = Vec::new();
    if short > 255 {
        field.push(0x82);
        field.push((short / 256) as u8);
        field.push((short % 256) as u8);
    } else if short > 127 {
        field.push(0x81);
        field.push(short as u8);
    } else {
        field.push(short as u8);
    }
    assert(field@ =~= length_field(len as nat));
    field
}

/// The data object with this tag and value.
pub fn tlv(tag: &[u8], value: &[u8]) -> (out: Vec<u8>)
    ensures
        out@ == object(tag@, value@),
{
    let mut out: Vec<u8> = Vec::new();
    push_all(&mut out, tag);
    push_all(&mut out, tlv_len(value.len()).as_slice());
    push_all(&mut out, value);
    assert(out@ =~= object(tag@, value@));
    out
}

/// Values of different lengths, up to the largest that a field can tell, have
/// different length fields, and none is the beginning of another.
pub proof fn length_fields_differ(len: nat, other: nat)
    requires
        len < 0x10000,
        other < 0x10000,
        length_field(len).is_prefix_of(length_field(other)),
    ensures
        len == other,
{
    let field = length_field(len);
    let longer = length_field(other);
    assert(forall|i: int| 0 <= i < field.len() ==> field[i] == longer[i]);
    assert(field[0] == longer[0]);
    if field.len() > 1 {
        assert(field[1] == longer[1]);
    }
    if field.len() > 2 {
        assert(field[2] == longer[2]);
    }
}

} // verus!
