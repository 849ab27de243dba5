//! Data objects hold their tag, the length and the value.

use vstd::prelude::*;

use crate::tlv;

verus! {

/// The length that a length field tells.
pub open spec fn told_length(field: Seq<u8>) -> nat {
    if field[0] < 0x80 {
        field[0] as nat
    } else if field[0] == 0x81 {
        field[1] as nat
    } else {
        (field[1] * 0x100 + field[2]) as nat
    }
}

/// A length field tells the length, up to where lengths wrap, in as few bytes
/// as can tell it.
pub proof fn length_fields_tell_the_length(len: usize, field: Vec<u8>)
    requires
        call_ensures(tlv::tlv_len, (len,), field),
    ensures
        told_length(field@) == len % 0x10000,
        field@.len() == if told_length(field@) < 0x80 {
            1nat
        } else if told_length(field@) < 0x100 {
            2
        } else {
            3
        },
        field@.len() == 2 ==> field@[0] == 0x81,
        field@.len() == 3 ==> field@[0] == 0x82,
{
}

/// A data object begins with its tag and ends with its value; what stands
/// between them is a length field that tells the length of the value, up to
/// where lengths wrap.
pub proof fn objects_hold_tag_and_value(tag: &[u8], value: &[u8], out: Vec<u8>)
    requires
        call_ensures(tlv::tlv, (tag, value), out),
    ensures
        tag@.is_prefix_of(out@),
        ({
            let rest = out@.skip(tag@.len() as int);
            let width = rest.len() - value@.len();
            &&& told_length(rest) == value@.len() % 0x10000
            &&& width == if told_length(rest) < 0x80 {
                1int
            } else if told_length(rest) < 0x100 {
                2
            } else {
                3
            }
            &&& rest.skip(width) == value@
        }),
{
    let rest = out@.skip(tag@.len() as int);
    let field = tlv::length_field(value@.len());
    assert(rest =~= field + value@);
    assert(forall|i: int| 0 <= i < field.len() ==> rest[i] == field[i]);
    assert(rest[0] == field[0]);
    if field.len() > 1 {
        assert(rest[1] == field[1]);
    }
    if field.len() > 2 {
        assert(rest[2] == field[2]);
    }
    assert(rest.skip(field.len() as int) =~= value@);
}

} // verus!
