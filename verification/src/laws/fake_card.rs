//! What the card without hardware answers, and what it keeps.

use vstd::prelude::*;

use crate::testing;
use crate::testing::FakeCard;
use crate::text;
use crate::tlv;

verus! {

/// Two cards are alike but for the User PIN's tries and whether it is verified,
/// and the same of the Admin PIN.
pub open spec fn alike_but_for_pins(
    card: testing::FakeCardView,
    other: testing::FakeCardView,
) -> bool {
    &&& card.present == other.present
    &&& card.broken == other.broken
    &&& card.manufacturer == other.manufacturer
    &&& card.serial == other.serial
    &&& card.pw1.current == other.pw1.current
    &&& card.pw3.current == other.pw3.current
    &&& card.uif_sig == other.uif_sig
    &&& card.signing_key_generated == other.signing_key_generated
    &&& card.touch_timeout == other.touch_timeout
}

/// What trying `presented` does to a PIN, and what status it gets: the right one
/// is taken and gives the three tries back; a wrong one costs a try, and the
/// status tells how many are left; without tries, every wrong one is refused as
/// blocked.
pub open spec fn pin_tried(
    before: testing::PinSlotView,
    presented: Seq<u8>,
    after: testing::PinSlotView,
    status: Seq<u8>,
) -> bool {
    &&& after.current == before.current
    &&& status.len() == 2
    &&& if presented == before.current {
        after.retries_left == 3 && status[0] == 0x90 && status[1] == 0x00
    } else if before.retries_left == 0 {
        after.retries_left == 0 && status[0] == 0x69 && status[1] == 0x83
    } else {
        after.retries_left == before.retries_left - 1 && status[0] == 0x63 && status[1]
            == tries_status(after.retries_left)
    }
}

/// The second byte of a status that tells how many tries are left.
pub open spec fn tries_status(tries: u8) -> int {
    0xC0 + tries
}

proof fn lemma_tries_status(tries: u8)
    requires
        tries < 16,
    ensures
        0xC0u8 | tries == tries_status(tries),
{
    assert(0xC0u8 | tries == 0xC0 + tries) by (bit_vector)
        requires
            tries < 16,
    ;
}

/// A VERIFY with data tries exactly the bytes that its length byte announces, as
/// the PIN that it names, whatever they are and however many. It changes the
/// tries of that PIN and whether it counts as verified, and nothing else.
pub proof fn presented_pins_are_tried(
    card: &mut FakeCard,
    cmd: &[u8],
    r: Result<Vec<u8>, testing::TransportFailure>,
    presented: Seq<u8>,
)
    requires
        call_ensures(FakeCard::transmit, (card, cmd), r),
        card@.wf(),
        cmd@.len() > 4,
        cmd@[1] == 0x20,
        cmd@[4] == presented.len(),
        presented.is_prefix_of(cmd@.skip(5)),
    ensures
        r is Ok,
        alike_but_for_pins(final(card)@, old(card)@),
        cmd@[3] == 0x81 || cmd@[3] == 0x82 ==> pin_tried(
            old(card)@.pw1,
            presented,
            final(card)@.pw1,
            r->Ok_0@,
        ),
        cmd@[3] != 0x81 && cmd@[3] != 0x82 ==> final(card)@.pw1 == old(card)@.pw1,
        cmd@[3] == 0x83 ==> pin_tried(
            old(card)@.pw3,
            presented,
            final(card)@.pw3,
            r->Ok_0@,
        ),
        cmd@[3] != 0x83 ==> final(card)@.pw3 == old(card)@.pw3,
        final(card)@.verified_pw1_sign == if cmd@[3] == 0x81 {
            presented == old(card)@.pw1.current
        } else {
            old(card)@.verified_pw1_sign
        },
        final(card)@.verified_pw3_admin == if cmd@[3] == 0x83 {
            presented == old(card)@.pw3.current
        } else {
            old(card)@.verified_pw3_admin
        },
        !(0x81 <= cmd@[3] <= 0x83) ==> r->Ok_0@ == seq![0x6Au8, 0x86],
{
    assert(testing::FakeCardView::presented_pin(cmd@) =~= presented) by {
        assert(cmd@.skip(5).len() == cmd@.len() - 5);
        assert(forall|i: int| 0 <= i < presented.len() ==> presented[i] == cmd@.skip(5)[i]);
    }
    lemma_tries_status(final(card)@.pw1.retries_left);
    lemma_tries_status(final(card)@.pw3.retries_left);
}

/// A VERIFY that announces more bytes than it has presents none, as the PIN that
/// it names.
pub proof fn cut_off_pins_are_empty(
    card: &mut FakeCard,
    cmd: &[u8],
    r: Result<Vec<u8>, testing::TransportFailure>,
)
    requires
        call_ensures(FakeCard::transmit, (card, cmd), r),
        card@.wf(),
        cmd@.len() > 4,
        cmd@[1] == 0x20,
        5 + cmd@[4] > cmd@.len(),
    ensures
        r is Ok,
        alike_but_for_pins(final(card)@, old(card)@),
        cmd@[3] == 0x81 || cmd@[3] == 0x82 ==> pin_tried(
            old(card)@.pw1,
            Seq::empty(),
            final(card)@.pw1,
            r->Ok_0@,
        ),
        cmd@[3] != 0x81 && cmd@[3] != 0x82 ==> final(card)@.pw1 == old(card)@.pw1,
        cmd@[3] == 0x83 ==> pin_tried(
            old(card)@.pw3,
            Seq::empty(),
            final(card)@.pw3,
            r->Ok_0@,
        ),
        cmd@[3] != 0x83 ==> final(card)@.pw3 == old(card)@.pw3,
        final(card)@.verified_pw1_sign == if cmd@[3] == 0x81 {
            old(card)@.pw1.current.len() == 0
        } else {
            old(card)@.verified_pw1_sign
        },
        final(card)@.verified_pw3_admin == if cmd@[3] == 0x83 {
            old(card)@.pw3.current.len() == 0
        } else {
            old(card)@.verified_pw3_admin
        },
        !(0x81 <= cmd@[3] <= 0x83) ==> r->Ok_0@ == seq![0x6Au8, 0x86],
{
    if card@.pw1.current.len() == 0 {
        assert(card@.pw1.current =~= Seq::empty());
    }
    if card@.pw3.current.len() == 0 {
        assert(card@.pw3.current =~= Seq::empty());
    }
    lemma_tries_status(final(card)@.pw1.retries_left);
    lemma_tries_status(final(card)@.pw3.retries_left);
}

/// A VERIFY without data asks how many tries a PIN has left, and changes
/// nothing.
pub proof fn tries_can_be_asked_for(
    card: &mut FakeCard,
    cmd: &[u8],
    r: Result<Vec<u8>, testing::TransportFailure>,
)
    requires
        call_ensures(FakeCard::transmit, (card, cmd), r),
        card@.wf(),
        cmd@.len() == 4,
        cmd@[1] == 0x20,
    ensures
        final(card)@ == old(card)@,
        r is Ok,
        r->Ok_0@.len() == 2,
        0x81 <= cmd@[3] <= 0x83 ==> r->Ok_0@[0] == 0x63 && r->Ok_0@[1] == tries_status(
            if cmd@[3] == 0x83 {
                old(card)@.pw3.retries_left
            } else {
                old(card)@.pw1.retries_left
            },
        ),
        !(0x81 <= cmd@[3] <= 0x83) ==> r->Ok_0@ == seq![0x6Au8, 0x86],
{
    lemma_tries_status(card@.pw1.retries_left);
    lemma_tries_status(card@.pw3.retries_left);
}

/// A request for a signature changes nothing, whatever is to be signed. It is
/// refused unless the User PIN was verified for signing; nobody touching the
/// card shows as no answer; else the signature comes.
pub proof fn signatures_need_pin_and_touch(
    card: &mut FakeCard,
    cmd: &[u8],
    r: Result<Vec<u8>, testing::TransportFailure>,
    signature: [u8; 64],
)
    requires
        call_ensures(FakeCard::transmit, (card, cmd), r),
        call_ensures(FakeCard::fake_signature, (), signature),
        cmd@.len() >= 4,
        cmd@[1] == 0x2A && cmd@[2] == 0x9e && cmd@[3] == 0x9a,
    ensures
        final(card)@ == old(card)@,
        if !old(card)@.verified_pw1_sign {
            r is Ok && r->Ok_0@ == seq![0x69u8, 0x82]
        } else if old(card)@.touch_timeout {
            r is Err && r->Err_0@ is Error
        } else {
            r is Ok && r->Ok_0@ == signature@ + seq![0x90u8, 0x00]
        },
{
}

/// A key is generated exactly if the Admin PIN is verified, and is read back as
/// it was generated; nothing else about the card changes.
pub proof fn keys_are_generated_with_the_admin_pin(
    card: &mut FakeCard,
    cmd: &[u8],
    r: Result<Vec<u8>, testing::TransportFailure>,
    key: [u8; 32],
)
    requires
        call_ensures(FakeCard::transmit, (card, cmd), r),
        call_ensures(FakeCard::fake_public_key, (), key),
        cmd@.len() >= 4,
        cmd@[1] == 0x47,
    ensures
        final(card)@ == (testing::FakeCardView {
            signing_key_generated: final(card)@.signing_key_generated,
            ..old(card)@
        }),
        final(card)@.signing_key_generated <==> old(card)@.signing_key_generated || (cmd@[2] == 0x80
            && old(card)@.verified_pw3_admin),
        r is Ok,
        if cmd@[2] == 0x80 && !old(card)@.verified_pw3_admin {
            r->Ok_0@ == seq![0x69u8, 0x82]
        } else if cmd@[2] == 0x80 || (cmd@[2] == 0x81 && old(card)@.signing_key_generated) {
            r->Ok_0@ == seq![0x7fu8, 0x49, 34, 0x86, 32] + key@ + seq![0x90u8, 0x00]
        } else {
            r->Ok_0@ == seq![0x6Au8, 0x88]
        },
{
    assert(testing::success(testing::public_key_object()) =~= seq![0x7fu8, 0x49, 34, 0x86, 32]
        + key@ + seq![0x90u8, 0x00]);
}

/// Data is written exactly if the Admin PIN is verified. What is kept of it is
/// the touch setting of the Signature slot: the two bytes that were sent.
pub proof fn data_is_written_with_the_admin_pin(
    card: &mut FakeCard,
    cmd: &[u8],
    r: Result<Vec<u8>, testing::TransportFailure>,
)
    requires
        call_ensures(FakeCard::transmit, (card, cmd), r),
        cmd@.len() >= 4,
        cmd@[1] == 0xDA,
    ensures
        r is Ok,
        r->Ok_0@ == if old(card)@.verified_pw3_admin {
            seq![0x90u8, 0x00]
        } else {
            seq![0x69u8, 0x82]
        },
        final(card)@ == (testing::FakeCardView { uif_sig: final(card)@.uif_sig, ..old(card)@ }),
        final(card)@.uif_sig == if old(card)@.verified_pw3_admin && cmd@[2] == 0x00 && cmd@[3]
            == 0xd6 && cmd@.len() >= 7 {
            seq![cmd@[5], cmd@[6]]
        } else {
            old(card)@.uif_sig
        },
{
    assert(testing::success(Seq::empty()) =~= seq![0x90u8, 0x00]);
    if cmd@.len() >= 7 {
        assert(cmd@.subrange(5, 7) =~= seq![cmd@[5], cmd@[6]]);
    }
}

/// A SELECT is always taken, other instructions are not known, and what is too
/// short for a command gets no answer; none of them changes anything.
pub proof fn other_commands_change_nothing(
    card: &mut FakeCard,
    cmd: &[u8],
    r: Result<Vec<u8>, testing::TransportFailure>,
)
    requires
        call_ensures(FakeCard::transmit, (card, cmd), r),
        cmd@.len() < 4 || !(cmd@[1] == 0xCA || cmd@[1] == 0x20 || cmd@[1] == 0x47 || cmd@[1] == 0xDA
            || (cmd@[1] == 0x2A && cmd@[2] == 0x9e && cmd@[3] == 0x9a)),
    ensures
        final(card)@ == old(card)@,
        cmd@.len() >= 4 ==> r is Ok && r->Ok_0@ == if cmd@[1] == 0xA4 {
            seq![0x90u8, 0x00]
        } else {
            seq![0x6Du8, 0x00]
        },
        cmd@.len() < 4 ==> r is Err && r->Err_0@ is Error,
{
    assert(testing::success(Seq::empty()) =~= seq![0x90u8, 0x00]);
}

/// A GET DATA changes nothing. A usable card tells its maker, its number and
/// its touch setting, each at its place; other data is not there.
pub proof fn cards_tell_about_themselves(
    card: &mut FakeCard,
    cmd: &[u8],
    r: Result<Vec<u8>, testing::TransportFailure>,
)
    requires
        call_ensures(FakeCard::transmit, (card, cmd), r),
        card@.wf(),
        cmd@.len() >= 4,
        cmd@[1] == 0xCA,
    ensures
        final(card)@ == old(card)@,
        r is Ok,
        if cmd@[2] == 0x00 && cmd@[3] == 0x6e && !old(card)@.broken {
            let data = r->Ok_0@;
            &&& data.len() == 180
            &&& data[10] * 0x100 + data[11] == old(card)@.manufacturer
            &&& data[12] * 0x1000000 + data[13] * 0x10000 + data[14] * 0x100 + data[15] == old(
                card,
            )@.serial
            &&& data.subrange(164, 166) == old(card)@.uif_sig
            &&& data.subrange(178, 180) == seq![0x90u8, 0x00]
        } else {
            r->Ok_0@ == seq![0x6Au8, 0x88]
        },
{
    if cmd@[2] == 0x00 && cmd@[3] == 0x6e && !card@.broken {
        lemma_application_data(card@.manufacturer, card@.serial, card@.uif_sig);
    }
}

/// What the cards tell about themselves differs in nothing but that.
pub proof fn cards_tell_the_same_otherwise(
    card: &mut FakeCard,
    other: &mut FakeCard,
    cmd: &[u8],
    r: Result<Vec<u8>, testing::TransportFailure>,
    other_r: Result<Vec<u8>, testing::TransportFailure>,
    i: int,
)
    requires
        call_ensures(FakeCard::transmit, (card, cmd), r),
        call_ensures(FakeCard::transmit, (other, cmd), other_r),
        card@.wf() && other@.wf(),
        card@.broken == other@.broken,
        cmd@.len() >= 4,
        cmd@[1] == 0xCA,
        r is Ok && other_r is Ok,
        0 <= i < r->Ok_0@.len(),
        !(10 <= i < 16) && !(164 <= i < 166),
    ensures
        other_r->Ok_0@.len() == r->Ok_0@.len(),
        other_r->Ok_0@[i] == r->Ok_0@[i],
{
    if cmd@[2] == 0x00 && cmd@[3] == 0x6e && !card@.broken {
        lemma_application_data(card@.manufacturer, card@.serial, card@.uif_sig);
        lemma_application_data(other@.manufacturer, other@.serial, other@.uif_sig);
        let data = r->Ok_0@;
        let other_data = other_r->Ok_0@;
        if i < 10 {
            assert(data[i] == data.take(10)[i]);
            assert(other_data[i] == other_data.take(10)[i]);
        } else if i < 164 {
            assert(data[i] == data.subrange(16, 164)[i - 16]);
            assert(other_data[i] == other_data.subrange(16, 164)[i - 16]);
        } else {
            assert(data[i] == data.skip(166)[i - 166]);
            assert(other_data[i] == other_data.skip(166)[i - 166]);
        }
    }
}

/// What stands in the application data before the maker's number.
spec fn data_front() -> Seq<u8> {
    seq![0x4fu8, 16, 0xd2, 0x76, 0x00, 0x01, 0x24, 0x01, 0x03, 0x04]
}

/// The objects of the application data between the card's identity and its
/// touch setting.
spec fn data_objects() -> Seq<u8> {
    let rsa2048 = seq![0x01u8, 0x08, 0x00, 0x00, 0x11, 0x00];
    tlv::object(seq![0x5fu8, 0x52], seq![0x00u8, 0x73, 0x00, 0x00, 0xe0, 0x05, 0x90, 0x00])
        + tlv::object(
        seq![0xc0u8],
        seq![0x7du8, 0x00, 0x0b, 0xfe, 0x08, 0x00, 0x00, 0xff, 0x00, 0x00],
    ) + tlv::object(
        seq![0xc1u8],
        seq![0x16u8, 0x2B, 0x06, 0x01, 0x04, 0x01, 0xDA, 0x47, 0x0F, 0x01],
    ) + tlv::object(seq![0xc2u8], rsa2048) + tlv::object(seq![0xc3u8], rsa2048) + tlv::object(
        seq![0xc4u8],
        seq![0xffu8, 0x7f, 0x7f, 0x7f, 0x03, 0x00, 0x03],
    ) + tlv::object(seq![0xc5u8], Seq::new(60, |i: int| 0u8)) + tlv::object(
        seq![0xcdu8],
        Seq::new(12, |i: int| 0u8),
    ) + tlv::object(seq![0xdeu8], seq![0x01u8, 0x00, 0x02, 0x00, 0x03, 0x00])
}

/// The objects of the application data behind the touch setting, with the
/// status.
spec fn data_back() -> Seq<u8> {
    let touch_off = seq![0x00u8, 0x20];
    tlv::object(seq![0xd7u8], touch_off) + tlv::object(seq![0xd8u8], touch_off) + tlv::object(
        seq![0xd9u8],
        touch_off,
    ) + seq![0x90u8, 0x00]
}

proof fn lemma_small_object(tag: Seq<u8>, value: Seq<u8>)
    requires
        value.len() < 0x80,
    ensures
        tlv::object(tag, value) == tag.push(value.len() as u8) + value,
        tlv::object(tag, value).len() == tag.len() + 1 + value.len(),
{
    assert(tlv::object(tag, value) =~= tag.push(value.len() as u8) + value);
}

proof fn lemma_regroup(
    first: Seq<u8>,
    a: Seq<u8>,
    b: Seq<u8>,
    c: Seq<u8>,
    d: Seq<u8>,
    e: Seq<u8>,
    f: Seq<u8>,
    g: Seq<u8>,
    h: Seq<u8>,
    i: Seq<u8>,
    touch: Seq<u8>,
    x: Seq<u8>,
    y: Seq<u8>,
    z: Seq<u8>,
    status: Seq<u8>,
)
    ensures
        first + a + b + c + d + e + f + g + h + i + touch + x + y + z + status == first + (a + b + c
            + d + e + f + g + h + i) + touch + (x + y + z + status),
{
    assert(first + a + b + c + d + e + f + g + h + i =~= first + (a + b + c + d + e + f + g + h
        + i));
    let front = first + a + b + c + d + e + f + g + h + i + touch;
    assert(front + x + y + z + status =~= front + (x + y + z + status));
}

proof fn lemma_data_objects()
    ensures
        data_objects().len() == 144,
        data_back().len() == 14,
        data_back().skip(12) == seq![0x90u8, 0x00],
{
    let rsa2048 = seq![0x01u8, 0x08, 0x00, 0x00, 0x11, 0x00];
    let touch_off = seq![0x00u8, 0x20];
    lemma_small_object(
        seq![0x5fu8, 0x52],
        seq![0x00u8, 0x73, 0x00, 0x00, 0xe0, 0x05, 0x90, 0x00],
    );
    lemma_small_object(
        seq![0xc0u8],
        seq![0x7du8, 0x00, 0x0b, 0xfe, 0x08, 0x00, 0x00, 0xff, 0x00, 0x00],
    );
    lemma_small_object(
        seq![0xc1u8],
        seq![0x16u8, 0x2B, 0x06, 0x01, 0x04, 0x01, 0xDA, 0x47, 0x0F, 0x01],
    );
    lemma_small_object(seq![0xc2u8], rsa2048);
    lemma_small_object(seq![0xc3u8], rsa2048);
    lemma_small_object(seq![0xc4u8], seq![0xffu8, 0x7f, 0x7f, 0x7f, 0x03, 0x00, 0x03]);
    lemma_small_object(seq![0xc5u8], Seq::new(60, |i: int| 0u8));
    lemma_small_object(seq![0xcdu8], Seq::new(12, |i: int| 0u8));
    lemma_small_object(seq![0xdeu8], seq![0x01u8, 0x00, 0x02, 0x00, 0x03, 0x00]);
    lemma_small_object(seq![0xd7u8], touch_off);
    lemma_small_object(seq![0xd8u8], touch_off);
    lemma_small_object(seq![0xd9u8], touch_off);
    assert(data_back().skip(12) =~= seq![0x90u8, 0x00]);
}

/// The application data with its status, by what varies in it.
proof fn lemma_application_data(manufacturer: u16, serial: u32, uif_sig: Seq<u8>)
    requires
        uif_sig.len() == 2,
    ensures
        ({
            let data = testing::success(
                testing::application_related_data(manufacturer, serial, uif_sig),
            );
            &&& data.len() == 180
            &&& data.take(10) == data_front()
            &&& data.subrange(16, 164) == seq![0x00u8, 0x00] + data_objects() + seq![0xd6u8, 2]
            &&& data.subrange(164, 166) == uif_sig
            &&& data.skip(166) == data_back()
            &&& data.subrange(178, 180) == seq![0x90u8, 0x00]
            &&& data[10] * 0x100 + data[11] == manufacturer
            &&& data[12] * 0x1000000 + data[13] * 0x10000 + data[14] * 0x100 + data[15] == serial
        }),
{
    let rsa2048 = seq![0x01u8, 0x08, 0x00, 0x00, 0x11, 0x00];
    let touch_off = seq![0x00u8, 0x20];
    let identity = testing::application_identifier(manufacturer, serial);
    let first = tlv::object(seq![0x4fu8], identity);
    let touch = tlv::object(seq![0xd6u8], uif_sig);
    let data = testing::success(
        testing::application_related_data(manufacturer, serial, uif_sig),
    );
    lemma_regroup(
        first,
        tlv::object(seq![0x5fu8, 0x52], seq![0x00u8, 0x73, 0x00, 0x00, 0xe0, 0x05, 0x90, 0x00]),
        tlv::object(
            seq![0xc0u8],
            seq![0x7du8, 0x00, 0x0b, 0xfe, 0x08, 0x00, 0x00, 0xff, 0x00, 0x00],
        ),
        tlv::object(
            seq![0xc1u8],
            seq![0x16u8, 0x2B, 0x06, 0x01, 0x04, 0x01, 0xDA, 0x47, 0x0F, 0x01],
        ),
        tlv::object(seq![0xc2u8], rsa2048),
        tlv::object(seq![0xc3u8], rsa2048),
        tlv::object(seq![0xc4u8], seq![0xffu8, 0x7f, 0x7f, 0x7f, 0x03, 0x00, 0x03]),
        tlv::object(seq![0xc5u8], Seq::new(60, |i: int| 0u8)),
        tlv::object(seq![0xcdu8], Seq::new(12, |i: int| 0u8)),
        tlv::object(seq![0xdeu8], seq![0x01u8, 0x00, 0x02, 0x00, 0x03, 0x00]),
        touch,
        tlv::object(seq![0xd7u8], touch_off),
        tlv::object(seq![0xd8u8], touch_off),
        tlv::object(seq![0xd9u8], touch_off),
        seq![0x90u8, 0x00],
    );
    assert(data == first + data_objects() + touch + data_back());
    lemma_identity_object(manufacturer, serial);
    lemma_small_object(seq![0xd6u8], uif_sig);
    lemma_data_objects();
    assert(touch.take(2) =~= seq![0xd6u8, 2]);
    assert(touch.skip(2) =~= uif_sig);
    lemma_cut(first, data_objects(), touch, data_back());
}

proof fn lemma_identity_object(manufacturer: u16, serial: u32)
    ensures
        ({
            let first = tlv::object(
                seq![0x4fu8],
                testing::application_identifier(manufacturer, serial),
            );
            &&& first.len() == 18
            &&& first.take(10) == data_front()
            &&& first.skip(16) == seq![0x00u8, 0x00]
            &&& first[10] * 0x100 + first[11] == manufacturer
            &&& first[12] * 0x1000000 + first[13] * 0x10000 + first[14] * 0x100 + first[15]
                == serial
        }),
{
    let identity = testing::application_identifier(manufacturer, serial);
    let first = tlv::object(seq![0x4fu8], identity);
    lemma_small_object(seq![0x4fu8], identity);
    assert(first.take(10) =~= data_front());
    assert(first.skip(16) =~= seq![0x00u8, 0x00]);
}

proof fn lemma_cut(first: Seq<u8>, objects: Seq<u8>, touch: Seq<u8>, back: Seq<u8>)
    requires
        first.len() == 18,
        objects.len() == 144,
        touch.len() == 4,
        back.len() == 14,
    ensures
        ({
            let data = first + objects + touch + back;
            &&& data.len() == 180
            &&& data.take(10) == first.take(10)
            &&& forall|i: int| 10 <= i < 16 ==> #[trigger] data[i] == first[i]
            &&& data.subrange(16, 164) == first.skip(16) + objects + touch.take(2)
            &&& data.subrange(164, 166) == touch.skip(2)
            &&& data.skip(166) == back
            &&& data.subrange(178, 180) == back.skip(12)
        }),
{
    let data = first + objects + touch + back;
    assert(data.take(10) =~= first.take(10));
    assert(data.subrange(16, 164) =~= first.skip(16) + objects + touch.take(2));
    assert(data.subrange(164, 166) =~= touch.skip(2));
    assert(data.skip(166) =~= back);
    assert(data.subrange(178, 180) =~= back.skip(12));
}

/// A transaction starts exactly if the card is in its reader; then no PIN
/// counts as verified, and nothing else has changed. Else nothing has.
pub proof fn transactions_start_without_verified_pins(
    card: &mut FakeCard,
    r: Result<(), testing::TransportFailure>,
)
    requires
        call_ensures(FakeCard::transaction, (card,), r),
    ensures
        r is Ok <==> old(card)@.present,
        r is Ok ==> {
            &&& alike_but_for_pins(final(card)@, old(card)@)
            &&& final(card)@.pw1 == old(card)@.pw1
            &&& final(card)@.pw3 == old(card)@.pw3
            &&& !final(card)@.verified_pw1_sign
            &&& !final(card)@.verified_pw3_admin
        },
        r is Err ==> final(card)@ == old(card)@ && r->Err_0@ is CardNotFound,
{
}

/// A card with another PIN has exactly the PIN that it was given, with all
/// tries, and is otherwise the card that it was.
pub proof fn changed_pins_are_the_new_ones(
    card: FakeCard,
    new_pin: &[u8],
    user: FakeCard,
    admin: FakeCard,
)
    requires
        call_ensures(FakeCard::with_changed_user_pin, (card, new_pin), user),
        call_ensures(FakeCard::with_changed_admin_pin, (card, new_pin), admin),
    ensures
        user@.pw1.current == new_pin@ && user@.pw1.retries_left == 3,
        user@ == (testing::FakeCardView { pw1: user@.pw1, ..card@ }),
        admin@.pw3.current == new_pin@ && admin@.pw3.retries_left == 3,
        admin@ == (testing::FakeCardView { pw3: admin@.pw3, ..card@ }),
{
}

/// The bytes of a PIN that is written in ASCII.
pub open spec fn ascii(pin: Seq<char>) -> Seq<u8> {
    Seq::new(pin.len(), |i: int| pin[i] as u8)
}

proof fn lemma_shipped_pins()
    ensures
        ascii("123456"@) == testing::FACTORY_DEFAULT_USER_PIN@,
        ascii("12345678"@) == testing::FACTORY_DEFAULT_ADMIN_PIN@,
{
    reveal_strlit("123456");
    reveal_strlit("12345678");
    assert(ascii("123456"@) =~= testing::FACTORY_DEFAULT_USER_PIN@);
    assert(ascii("12345678"@) =~= testing::FACTORY_DEFAULT_ADMIN_PIN@);
}

/// A card has the shipped PINs exactly if the one is `123456` and the other
/// `12345678`.
pub proof fn shipped_pins_are_told(card: FakeCard, yes: bool)
    requires
        call_ensures(FakeCard::is_default_pins, (&card,), yes),
    ensures
        yes <==> card@.pw1.current == ascii("123456"@) && card@.pw3.current == ascii("12345678"@),
{
    lemma_shipped_pins();
}

/// A card that is shipped has the shipped PINs, all tries, and no key; one that
/// is absent or broken differs from it in that alone.
pub proof fn shipped_cards_are_untouched(
    card: FakeCard,
    absent: FakeCard,
    broken: FakeCard,
    default: FakeCard,
    untouched: FakeCard,
    timed_out: FakeCard,
    generated: bool,
)
    requires
        call_ensures(FakeCard::new, (), card),
        call_ensures(FakeCard::absent, (), absent),
        call_ensures(FakeCard::broken, (), broken),
        call_ensures(<FakeCard as Default>::default, (), default),
        call_ensures(FakeCard::with_touch_timeout, (untouched,), timed_out),
        call_ensures(FakeCard::signing_key_generated, (&untouched,), generated),
    ensures
        card@.present && !card@.broken && !card@.touch_timeout,
        card@.pw1 == (testing::PinSlotView { current: ascii("123456"@), retries_left: 3 }),
        card@.pw3 == (testing::PinSlotView { current: ascii("12345678"@), retries_left: 3 }),
        !card@.signing_key_generated && !card@.verified_pw1_sign && !card@.verified_pw3_admin,
        absent@ == (testing::FakeCardView { present: false, ..card@ }),
        broken@ == (testing::FakeCardView { broken: true, ..card@ }),
        default@ == card@,
        timed_out@ == (testing::FakeCardView { touch_timeout: true, ..untouched@ }),
        generated == untouched@.signing_key_generated,
{
    lemma_shipped_pins();
}

/// The number that a digit stands for, with small letters; sixteen for anything
/// else.
pub open spec fn small_digit_value(c: char) -> nat {
    if '0' <= c <= '9' {
        (c as int - '0' as int) as nat
    } else if 'a' <= c <= 'f' {
        (c as int - 'a' as int + 10) as nat
    } else {
        16
    }
}

/// Two small hexadecimal digits for `byte` stand in the text at `at`, with a
/// comma and a blank before them unless it is the first byte.
pub open spec fn tells_byte(text: Seq<char>, at: int, first: bool, byte: u8) -> bool {
    &&& small_digit_value(text[at]) < 16
    &&& small_digit_value(text[at + 1]) < 16
    &&& small_digit_value(text[at]) * 16 + small_digit_value(text[at + 1]) == byte
    &&& !first ==> text[at - 2] == ',' && text[at - 1] == ' '
}

/// The text lists these bytes in square brackets.
pub open spec fn lists_bytes(text: Seq<char>, bytes: Seq<u8>) -> bool {
    let n = bytes.len() as int;
    &&& text.len() == if n == 0 {
        2int
    } else {
        4 * n
    }
    &&& text[0] == '['
    &&& text.last() == ']'
    &&& forall|i: int| 0 <= i < n ==> tells_byte(text, 4 * i + 1, i == 0, #[trigger] bytes[i])
}

proof fn lemma_items_list_bytes(bytes: Seq<u8>, i: int)
    requires
        0 <= i < bytes.len(),
    ensures
        text::byte_list_items(bytes).len() == 4 * bytes.len() - 2,
        tells_byte(text::byte_list_items(bytes), 4 * i, i == 0, bytes[i]),
    decreases bytes.len(),
{
    reveal_strlit(", ");
    let n = bytes.len() as int;
    let items = text::byte_list_items(bytes);
    let last = bytes[n - 1];
    let digits = text::lower_hex_byte(last);
    assert(small_digit_value(digits[0]) == last / 16);
    assert(small_digit_value(digits[1]) == last % 16);
    if n == 1 {
        assert(items == digits);
    } else {
        let front = bytes.drop_last();
        let before = text::byte_list_items(front);
        assert(items == before + ", "@ + digits);
        if i < n - 1 {
            lemma_items_list_bytes(front, i);
            assert(items[4 * i] == before[4 * i]);
            assert(items[4 * i + 1] == before[4 * i + 1]);
            if i > 0 {
                assert(items[4 * i - 2] == before[4 * i - 2]);
                assert(items[4 * i - 1] == before[4 * i - 1]);
            }
        } else {
            lemma_items_list_bytes(front, 0);
            assert(items[4 * i - 2] == ", "@[0]);
            assert(items[4 * i - 1] == ", "@[1]);
            assert(items[4 * i] == digits[0]);
            assert(items[4 * i + 1] == digits[1]);
        }
    }
}

/// What is too short for a command is listed in the failure, byte for byte.
pub proof fn short_commands_are_listed(
    card: &mut FakeCard,
    cmd: &[u8],
    r: Result<Vec<u8>, testing::TransportFailure>,
    other: &mut FakeCard,
    other_cmd: &[u8],
    other_r: Result<Vec<u8>, testing::TransportFailure>,
)
    requires
        call_ensures(FakeCard::transmit, (card, cmd), r),
        call_ensures(FakeCard::transmit, (other, other_cmd), other_r),
        cmd@.len() < 4 && other_cmd@.len() < 4,
    ensures
        r is Err && r->Err_0@ is Error,
        other_r is Err && other_r->Err_0@ is Error,
        exists|front: Seq<char>, list: Seq<char>, other_list: Seq<char>|
            {
                &&& r->Err_0@->Error_0 == #[trigger] (front + list)
                &&& other_r->Err_0@->Error_0 == #[trigger] (front + other_list)
                &&& lists_bytes(list, cmd@)
                &&& lists_bytes(other_list, other_cmd@)
            },
{
    let front = "malformed APDU, too short: "@;
    let list = text::byte_list(cmd@);
    let other_list = text::byte_list(other_cmd@);
    lemma_lists_bytes(cmd@);
    lemma_lists_bytes(other_cmd@);
    assert(r->Err_0@->Error_0 == front + list);
    assert(other_r->Err_0@->Error_0 == front + other_list);
}

proof fn lemma_lists_bytes(bytes: Seq<u8>)
    ensures
        lists_bytes(text::byte_list(bytes), bytes),
{
    reveal_strlit("[");
    reveal_strlit("]");
    let items = text::byte_list_items(bytes);
    let list = text::byte_list(bytes);
    let n = bytes.len() as int;
    if n > 0 {
        lemma_items_list_bytes(bytes, 0);
    }
    assert(list.len() == items.len() + 2);
    assert(list[0] == "["@[0]);
    assert(list.last() == "]"@[0]);
    assert forall|i: int| 0 <= i < n implies tells_byte(
        list,
        4 * i + 1,
        i == 0,
        #[trigger] bytes[i],
    ) by {
        lemma_items_list_bytes(bytes, i);
        assert(list[4 * i + 1] == items[4 * i]);
        assert(list[4 * i + 2] == items[4 * i + 1]);
        if i > 0 {
            assert(list[4 * i - 1] == items[4 * i - 2]);
            assert(list[4 * i] == items[4 * i - 1]);
        }
    }
}

} // verus!
