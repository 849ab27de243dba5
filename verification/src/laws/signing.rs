//! A signature in a transaction follows the card.

use vstd::prelude::*;

use crate::card;
use crate::card::{Session, SigningAlgo, TransactionCard};
use crate::error::YubiError;
use crate::laws::words;
use crate::pin;
use crate::reply;
use crate::sign::YubiKeySigner;

verus! {

/// Whatever the message, of whatever length: a card that takes the PIN and
/// signs the message with `signature` gives that signature.
pub proof fn every_message_is_signed<T: TransactionCard>(
    tx: &mut Session<T>,
    user_pin: &T::Pin,
    message: &[u8],
    r: Result<[u8; 64], YubiError>,
    signature: Seq<u8>,
)
    requires
        call_ensures(YubiKeySigner::<T::Pin>::sign_in_transaction::<T>, (tx, user_pin, message), r),
        forall|c: &mut T, presented: &T::Pin, reply: Result<(), openpgp_card::Error>| #[trigger]
            call_ensures(T::verify_user_signing_pin, (c, presented), reply) && *presented
                == *user_pin ==> reply is Ok,
        forall|c: &mut T, data: &[u8], reply: Result<Vec<u8>, openpgp_card::Error>| #[trigger]
            call_ensures(T::signature_for_hash, (c, SigningAlgo::Ecc, data), reply) && data@
                == message@ ==> reply is Ok && reply->Ok_0@ == signature,
        signature.len() == 64,
    ensures
        r is Ok,
        r->Ok_0@ == signature,
{
    assert(card::continues::<T>(tx.exchanges(), final(tx).exchanges()));
}

/// What comes of a signature is what the card makes of it. It is presented the
/// PIN; if it takes it, it is asked to sign the message; and 64 bytes that it
/// answers are the result. It is asked nothing else.
pub proof fn signature_follows_the_card<T: TransactionCard>(
    tx: &mut Session<T>,
    user_pin: &T::Pin,
    message: &[u8],
    r: Result<[u8; 64], YubiError>,
)
    requires
        call_ensures(YubiKeySigner::<T::Pin>::sign_in_transaction::<T>, (tx, user_pin, message), r),
    ensures
        exists|c: &mut T, presented: &T::Pin, verified: Result<(), openpgp_card::Error>| #[trigger]
            call_ensures(T::verify_user_signing_pin, (c, presented), verified) && *presented
                == *user_pin && match verified {
                Err(cause) => {
                    &&& r is Err
                    &&& words::told_of_pin(pin::PinKind::User, reply::failure_of(cause), r->Err_0@)
                    &&& final(tx).exchanges() == old(tx).exchanges() + seq![
                        card::Exchange::VerifyUserSigningPin { pin: *user_pin, reply: verified },
                    ]
                },
                Ok(()) => exists|
                    d: &mut T,
                    data: &[u8],
                    signed: Result<Vec<u8>, openpgp_card::Error>,
                | #[trigger]
                    call_ensures(T::signature_for_hash, (d, SigningAlgo::Ecc, data), signed)
                        && data@ == message@ && final(tx).exchanges() == old(tx).exchanges() + seq![
                        card::Exchange::VerifyUserSigningPin { pin: *user_pin, reply: verified },
                        card::Exchange::Sign {
                            algo: SigningAlgo::Ecc,
                            data: message@,
                            reply: match signed {
                                Ok(bytes) => Ok(bytes@),
                                Err(cause) => Err(cause),
                            },
                        },
                    ] && match signed {
                        Ok(bytes) => if bytes@.len() == 64 {
                            r is Ok && r->Ok_0@ == bytes@
                        } else {
                            r is Err && words::told_of_signature(bytes@.len(), r->Err_0@)
                        },
                        Err(cause) => r matches Err(err) && if reply::failure_of(
                            cause,
                        ).kind is Smartcard {
                            err@ is TouchTimeout
                        } else {
                            words::told_plainly(reply::failure_of(cause), err@)
                        },
                    },
            },
{
    words::lemma_decimals_read_back();
    let before = tx.exchanges();
    let after = final(tx).exchanges();
    let asked = card::since(before, after);
    assert(card::continues::<T>(before, after));
    assert(asked[0] == after[before.len() as int]);
    if asked.len() > 1 {
        assert(asked[1] == after[before.len() as int + 1]);
        assert(after =~= before + seq![asked[0], asked[1]]);
    } else {
        assert(after =~= before + seq![asked[0]]);
    }
}

} // verus!
