//! Which card it is and what key it holds, as the card tells it.

use openpgp_card::ocard::crypto::PublicKeyMaterial;
use openpgp_card::ocard::data::ApplicationIdentifier;
use vstd::prelude::*;

use crate::card;
use crate::card::{KeySlot, Session, TransactionCard};
use crate::discovery;
use crate::error::YubiError;
use crate::laws::words;
use crate::reply;
use crate::sign;
use crate::sign::YubiKeySigner;
use crate::text;

verus! {

proof fn lemma_upper_hex_reads_back(n: nat, width: nat)
    requires
        n < text::hex_span(width),
    ensures
        text::upper_hex(n, width).len() == width,
        words::number_in_base(16, text::upper_hex(n, width)) == n,
        forall|i: int|
            0 <= i < width ==> words::digit_value(#[trigger] text::upper_hex(n, width)[i]) < 16,
    decreases width,
{
    if width > 0 {
        let rest = (width - 1) as nat;
        let digits = text::upper_hex(n, width);
        lemma_upper_hex_reads_back(n / 16, rest);
        assert(digits.drop_last() =~= text::upper_hex(n / 16, rest));
        assert(words::digit_value(digits.last()) == n % 16);
        assert(forall|i: int|
            0 <= i < rest ==> #[trigger] digits[i] == text::upper_hex(n / 16, rest)[i]);
    }
}

pub(crate) proof fn lemma_ident_names_card(manufacturer: u16, serial: u32)
    ensures
        words::names_card(reply::ident_text(manufacturer, serial), manufacturer, serial),
{
    reveal_with_fuel(text::hex_span, 9);
    reveal_strlit(":");
    let text = reply::ident_text(manufacturer, serial);
    lemma_upper_hex_reads_back(manufacturer as nat, 4);
    lemma_upper_hex_reads_back(serial as nat, 8);
    assert(text.take(4) =~= text::upper_hex(manufacturer as nat, 4));
    assert(text.skip(5) =~= text::upper_hex(serial as nat, 8));
    assert forall|i: int| 0 <= i < 13 && i != 4 implies words::digit_value(#[trigger] text[i]) < 16 by {
        if i < 4 {
            assert(text[i] == text::upper_hex(manufacturer as nat, 4)[i]);
        } else {
            assert(text[i] == text::upper_hex(serial as nat, 8)[i - 5]);
        }
    }
}

/// What is read of a card is the maker and the number that the card tells, in
/// hexadecimal. It is asked for that alone.
pub proof fn serial_names_the_card<T: TransactionCard>(
    tx: &mut Session<T>,
    r: Result<String, YubiError>,
)
    requires
        call_ensures(discovery::read_serial::<T>, (tx,), r),
    ensures
        exists|c: &mut T, answer: Result<ApplicationIdentifier, openpgp_card::Error>| #[trigger]
            call_ensures(T::application_identifier, (c,), answer) && final(tx).exchanges() == old(
                tx,
            ).exchanges().push(card::Exchange::Identity { reply: answer }) && match answer {
                Ok(aid) => r is Ok && words::names_card(
                    r->Ok_0@,
                    reply::identity_of(aid).0,
                    reply::identity_of(aid).1,
                ),
                Err(cause) => r is Err && words::told_plainly(reply::failure_of(cause), r->Err_0@),
            },
{
    assert(card::continues::<T>(tx.exchanges(), final(tx).exchanges()));
    assert(final(tx).exchanges() =~= tx.exchanges().push(final(tx).exchanges().last()));
    match final(tx).exchanges().last() {
        card::Exchange::Identity { reply: Ok(aid) } => {
            lemma_ident_names_card(reply::identity_of(aid).0, reply::identity_of(aid).1);
        },
        _ => {},
    }
}

/// The plain identity of a card is the maker and the number that it was read
/// from, and the text names them.
pub proof fn identities_name_the_card(aid: ApplicationIdentifier, id: reply::CardIdentity)
    requires
        call_ensures(reply::CardIdentity::of, (&aid,), id),
    ensures
        id.manufacturer == reply::identity_of(aid).0,
        id.serial == reply::identity_of(aid).1,
        words::names_card(id.ident@, id.manufacturer, id.serial),
{
    lemma_ident_names_card(id.manufacturer, id.serial);
}

/// Two cards whose serials read the same have the same maker and number.
pub proof fn same_serial_same_card(
    text: Seq<char>,
    manufacturer: u16,
    serial: u32,
    other_manufacturer: u16,
    other_serial: u32,
)
    requires
        words::names_card(text, manufacturer, serial),
        words::names_card(text, other_manufacturer, other_serial),
    ensures
        manufacturer == other_manufacturer,
        serial == other_serial,
{
}

/// What is read as the public key of a card is the point that the card reports
/// for its Signature slot, byte for byte, if that is an Ed25519 signing key;
/// any other key is an error. The card is asked for that alone.
pub proof fn public_key_is_the_reported_point<T: TransactionCard>(
    tx: &mut Session<T>,
    r: Result<[u8; 32], YubiError>,
)
    requires
        call_ensures(sign::read_signature_public_key::<T>, (tx,), r),
    ensures
        exists|c: &mut T, answer: Result<PublicKeyMaterial, openpgp_card::Error>| #[trigger]
            call_ensures(T::public_key_material, (c, KeySlot::Signing), answer)
                && final(tx).exchanges() == old(tx).exchanges().push(
                card::Exchange::PublicKey { slot: KeySlot::Signing, reply: answer },
            ) && match answer {
                Ok(material) => {
                    let key = reply::key_material_of(material);
                    match r {
                        Ok(bytes) => words::ed25519_point(key, bytes@),
                        Err(err) => words::told_of_held_key(key, err@) && forall|point: Seq<u8>|
                            !words::ed25519_point(key, point),
                    }
                },
                Err(cause) => r is Err && words::told_plainly(reply::failure_of(cause), r->Err_0@),
            },
{
    words::lemma_decimals_read_back();
    assert(card::continues::<T>(tx.exchanges(), final(tx).exchanges()));
    assert(final(tx).exchanges() =~= tx.exchanges().push(final(tx).exchanges().last()));
}

/// A signer holds what the card told when it was made, and the PIN that it was
/// given: the serial names the card, the public key is the point in the
/// Signature slot. It is made of every card that tells both, and is an error
/// for every other. The card is asked for both and for nothing else.
pub proof fn signer_holds_what_the_card_told<T: TransactionCard>(
    tx: &mut Session<T>,
    user_pin: T::Pin,
    r: Result<YubiKeySigner<T::Pin>, YubiError>,
)
    requires
        call_ensures(YubiKeySigner::<T::Pin>::bind::<T>, (tx, user_pin), r),
    ensures
        exists|c: &mut T, identity: Result<ApplicationIdentifier, openpgp_card::Error>| #[trigger]
            call_ensures(T::application_identifier, (c,), identity) && match identity {
                Err(cause) => {
                    &&& r is Err
                    &&& words::told_plainly(reply::failure_of(cause), r->Err_0@)
                    &&& final(tx).exchanges() == old(tx).exchanges() + seq![
                        card::Exchange::Identity { reply: identity },
                    ]
                },
                Ok(aid) => exists|
                    d: &mut T,
                    answer: Result<PublicKeyMaterial, openpgp_card::Error>,
                | #[trigger]
                    call_ensures(T::public_key_material, (d, KeySlot::Signing), answer)
                        && final(tx).exchanges() == old(tx).exchanges() + seq![
                        card::Exchange::Identity { reply: identity },
                        card::Exchange::PublicKey { slot: KeySlot::Signing, reply: answer },
                    ] && match answer {
                        Err(cause) => r is Err && words::told_plainly(
                            reply::failure_of(cause),
                            r->Err_0@,
                        ),
                        Ok(material) => {
                            let key = reply::key_material_of(material);
                            match r {
                                Ok(signer) => {
                                    &&& words::ed25519_point(key, signer@.public_key)
                                    &&& words::names_card(
                                        signer@.card_serial,
                                        reply::identity_of(aid).0,
                                        reply::identity_of(aid).1,
                                    )
                                    &&& signer@.user_pin == user_pin
                                },
                                Err(err) => words::told_of_held_key(key, err@) && forall|point: Seq<u8>|
                                    !words::ed25519_point(key, point),
                            }
                        },
                    },
            },
{
    words::lemma_decimals_read_back();
    let before = tx.exchanges();
    let after = final(tx).exchanges();
    let asked = card::since(before, after);
    assert(card::continues::<T>(before, after));
    assert(asked[0] == after[before.len() as int]);
    if asked.len() > 1 {
        assert(asked[1] == after[before.len() as int + 1]);
        assert(after =~= before + seq![asked[0], asked[1]]);
    } else {
        assert(after =~= before + seq![asked[0]]);
    }
    match asked[0] {
        card::Exchange::Identity { reply: Ok(aid) } => {
            lemma_ident_names_card(reply::identity_of(aid).0, reply::identity_of(aid).1);
        },
        _ => {},
    }
}

/// A signer hands out the public key and the serial that it holds.
pub proof fn signer_hands_out_what_it_holds<P>(
    signer: YubiKeySigner<P>,
    key: [u8; 32],
    serial: &str,
)
    requires
        call_ensures(YubiKeySigner::<P>::public_key, (&signer,), key),
        call_ensures(YubiKeySigner::<P>::card_serial, (&signer,), serial),
    ensures
        key@ == signer@.public_key,
        serial@ == signer@.card_serial,
{
}

} // verus!
