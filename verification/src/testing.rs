//! An OpenPGP card without hardware: a [`FakeCard`] answers the commands that
//! `openpgp-card` sends, so that the rest of this crate can be exercised where
//! there is no reader.
//!
//! It keeps what a card keeps (two PINs with their tries, the touch setting of
//! the Signature slot, whether a key was generated) and, for one transaction,
//! which PIN was verified. Key and signature are fixed patterns.
//!
//! Where it differs from a card:
//! - Verified PINs are forgotten when a transaction starts; a card forgets them
//!   when it is reset.
//! - The tries that it lists in its application data are constant; the status
//!   of a rejected PIN tells the real number.
//! - Commands are read in their short form, with one length byte. For
//!   `openpgp-card` to send others, the application data would have to announce
//!   longer commands.
//! - The right PIN is taken even when the PIN is blocked.

use vstd::prelude::*;
use vstd::slice::*;
use vstd::string::*;

use crate::card;
use crate::error;
use crate::pin;
use crate::reply;
use crate::text;
use crate::tlv;

verus! {

pub const INS_SELECT: u8 = 0xA4;

pub const INS_GET_DATA: u8 = 0xCA;

pub const INS_VERIFY: u8 = 0x20;

pub const INS_PUT_DATA: u8 = 0xDA;

pub const INS_PSO: u8 = 0x2A;

pub const INS_GENERATE_ASYMMETRIC_KEY_PAIR: u8 = 0x47;

/// Which PIN a VERIFY presents: the User PIN, for one signature.
pub const VERIFY_P2_SIGN: u8 = 0x81;

/// Which PIN a VERIFY presents: the User PIN, for other uses.
pub const VERIFY_P2_USER: u8 = 0x82;

/// Which PIN a VERIFY presents: the Admin PIN.
pub const VERIFY_P2_ADMIN: u8 = 0x83;

/// The User PIN that cards are shipped with, as bytes.
pub const FACTORY_DEFAULT_USER_PIN: [u8; 6] = [0x31, 0x32, 0x33, 0x34, 0x35, 0x36];

/// The Admin PIN that cards are shipped with, as bytes.
pub const FACTORY_DEFAULT_ADMIN_PIN: [u8; 8] = [0x31, 0x32, 0x33, 0x34, 0x35, 0x36, 0x37, 0x38];

/// Why a command got no answer at all.
#[derive(Debug)]
pub enum TransportFailure {
    CardNotFound(String),
    Error(String),
}

/// A `TransportFailure` by its views.
pub enum TransportFailureView {
    CardNotFound(Seq<char>),
    Error(Seq<char>),
}

impl View for TransportFailure {
    type V = TransportFailureView;

    open spec fn view(&self) -> TransportFailureView {
        match self {
            TransportFailure::CardNotFound(text) => TransportFailureView::CardNotFound(text@),
            TransportFailure::Error(text) => TransportFailureView::Error(text@),
        }
    }
}

/// An answer, or the lack of one, by its view.
pub open spec fn answer_view(r: Result<Vec<u8>, TransportFailure>) -> Result<
    Seq<u8>,
    TransportFailureView,
> {
    match r {
        Ok(bytes) => Ok(bytes@),
        Err(failure) => Err(failure@),
    }
}

/// An answer with data: the data and the status `90 00`.
pub open spec fn success(data: Seq<u8>) -> Seq<u8> {
    data + seq![0x90u8, 0x00u8]
}

/// Appends the status `90 00` to the data of an answer.
fn ok(data: Vec<u8>) -> (answer: Vec<u8>)
    ensures
        answer@ == success(data@),
{
    let mut answer = data;
    answer.push(0x90);
    answer.push(0x00);
    assert(answer@ =~= success(data@));
    answer
}

/// An answer without data: a status.
fn status(sw1: u8, sw2: u8) -> (answer: Vec<u8>)
    ensures
        answer@ == seq![sw1, sw2],
{
    let mut answer: Vec<u8> = Vec::new();
    answer.push(sw1);
    answer.push(sw2);
    assert(answer@ =~= seq![sw1, sw2]);
    answer
}

/// A PIN of a card: what it is, and how many tries it has left.
struct PinSlot {
    current: Vec<u8>,
    retries_left: u8,
}

/// A `PinSlot` by its views.
pub struct PinSlotView {
    pub current: Seq<u8>,
    pub retries_left: u8,
}

impl View for PinSlot {
    type V = PinSlotView;

    closed spec fn view(&self) -> PinSlotView {
        PinSlotView { current: self.current@, retries_left: self.retries_left }
    }
}

impl PinSlotView {
    /// A PIN that was just set.
    pub open spec fn fresh(current: Seq<u8>) -> PinSlotView {
        PinSlotView { current, retries_left: 3 }
    }

    /// No PIN ever has more than three tries.
    pub open spec fn wf(self) -> bool {
        self.retries_left <= 3
    }

    /// The PIN after `presented` was tried.
    pub open spec fn tried(self, presented: Seq<u8>) -> PinSlotView {
        if presented == self.current {
            PinSlotView { retries_left: 3, ..self }
        } else if self.retries_left == 0 {
            self
        } else {
            PinSlotView { retries_left: (self.retries_left - 1) as u8, ..self }
        }
    }

    /// The status for trying `presented`: taken, blocked, or wrong with the
    /// number of tries left.
    pub open spec fn verdict(self, presented: Seq<u8>) -> (u8, u8) {
        if presented == self.current {
            (0x90, 0x00)
        } else if self.retries_left == 0 {
            (0x69, 0x83)
        } else {
            (0x63, 0xC0u8 | self.tried(presented).retries_left)
        }
    }
}

/// Are these the same bytes?
fn same_bytes(a: &[u8], b: &[u8]) -> (same: bool)
    ensures
        same == (a@ == b@),
{
    if a.len() != b.len() {
        return false;
    }
    let mut i: usize = 0;
    while i < a.len()
        invariant
            i <= a@.len(),
            a@.len() == b@.len(),
            forall|j: int| 0 <= j < i ==> a@[j] == b@[j],
        decreases a@.len() - i,
    {
        if a[i] != b[i] {
            return false;
        }
        i += 1;
    }
    assert(a@ =~= b@);
    true
}

impl PinSlot {
    fn new(initial: &[u8]) -> (slot: PinSlot)
        ensures
            slot@ == PinSlotView::fresh(initial@),
    {
        PinSlot { current: slice_to_vec(initial), retries_left: 3 }
    }

    /// Tries `presented` and returns the status for it.
    fn verify(&mut self, presented: &[u8]) -> (sw: (u8, u8))
        ensures
            final(self)@ == old(self)@.tried(presented@),
            sw == old(self)@.verdict(presented@),
    {
        if same_bytes(presented, self.current.as_slice()) {
            self.retries_left = 3;
            (0x90, 0x00)
        } else if self.retries_left == 0 {
            (0x69, 0x83)
        } else {
            self.retries_left = self.retries_left - 1;
            (0x63, 0xC0 | self.retries_left)
        }
    }
}

/// A number in two bytes, the high one first.
pub open spec fn two_bytes(n: u16) -> Seq<u8> {
    seq![(n / 0x100) as u8, (n % 0x100) as u8]
}

/// A number in four bytes, the highest one first.
pub open spec fn four_bytes(n: u32) -> Seq<u8> {
    seq![
        (n / 0x1000000) as u8,
        (n / 0x10000 % 0x100) as u8,
        (n / 0x100 % 0x100) as u8,
        (n % 0x100) as u8,
    ]
}

/// The application identifier: the prefix of all OpenPGP cards, version 3.4,
/// maker, number.
pub open spec fn application_identifier(manufacturer: u16, serial: u32) -> Seq<u8> {
    seq![0xd2u8, 0x76, 0x00, 0x01, 0x24, 0x01, 0x03, 0x04] + two_bytes(manufacturer) + four_bytes(
        serial,
    ) + seq![0x00u8, 0x00]
}

/// What the card tells about itself: identity, capabilities, the algorithms of
/// its slots (Ed25519 for signing, RSA 2048 for the others), PINs, keys (none)
/// and touch settings (`uif_sig` for signing, off for the others).
pub open spec fn application_related_data(
    manufacturer: u16,
    serial: u32,
    uif_sig: Seq<u8>,
) -> Seq<u8> {
    let rsa2048 = seq![0x01u8, 0x08, 0x00, 0x00, 0x11, 0x00];
    let touch_off = seq![0x00u8, 0x20];
    tlv::object(seq![0x4fu8], application_identifier(manufacturer, serial)) + tlv::object(
        seq![0x5fu8, 0x52],
        seq![0x00u8, 0x73, 0x00, 0x00, 0xe0, 0x05, 0x90, 0x00],
    ) + tlv::object(
        seq![0xc0u8],
        seq![0x7du8, 0x00, 0x0b, 0xfe, 0x08, 0x00, 0x00, 0xff, 0x00, 0x00],
    ) + tlv::object(
        seq![0xc1u8],
        seq![0x16u8, 0x2B, 0x06, 0x01, 0x04, 0x01, 0xDA, 0x47, 0x0F, 0x01],
    ) + tlv::object(seq![0xc2u8], rsa2048) + tlv::object(seq![0xc3u8], rsa2048) + tlv::object(
        seq![0xc4u8],
        seq![0xffu8, 0x7f, 0x7f, 0x7f, 0x03, 0x00, 0x03],
    ) + tlv::object(seq![0xc5u8], Seq::new(60, |i: int| 0u8)) + tlv::object(
        seq![0xcdu8],
        Seq::new(12, |i: int| 0u8),
    ) + tlv::object(seq![0xdeu8], seq![0x01u8, 0x00, 0x02, 0x00, 0x03, 0x00]) + tlv::object(
        seq![0xd6u8],
        uif_sig,
    ) + tlv::object(seq![0xd7u8], touch_off) + tlv::object(seq![0xd8u8], touch_off) + tlv::object(
        seq![0xd9u8],
        touch_off,
    )
}

/// Appends the data object with this one-byte tag and this value.
fn push_object(out: &mut Vec<u8>, tag: u8, value: &[u8])
    ensures
        final(out)@ == old(out)@ + tlv::object(seq![tag], value@),
{
    let tag_bytes: [u8; 1] = [tag];
    assert(tag_bytes@ =~= seq![tag]);
    tlv::push_all(out, tlv::tlv(&tag_bytes, value).as_slice());
}

fn build_application_related_data(manufacturer: u16, serial: u32, uif_sig: [u8; 2]) -> (out: Vec<
    u8,
>)
    ensures
        out@ == application_related_data(manufacturer, serial, uif_sig@),
{
    let aid: [u8; 16] = [
        0xd2,
        0x76,
        0x00,
        0x01,
        0x24,
        0x01,
        0x03,
        0x04,
        (manufacturer / 0x100) as u8,
        (manufacturer % 0x100) as u8,
        (serial / 0x1000000) as u8,
        (serial / 0x10000 % 0x100) as u8,
        (serial / 0x100 % 0x100) as u8,
        (serial % 0x100) as u8,
        0x00,
        0x00,
    ];
    assert(aid@ =~= application_identifier(manufacturer, serial));
    let historical_tag: [u8; 2] = [0x5f, 0x52];
    let historical_bytes: [u8; 8] = [0x00, 0x73, 0x00, 0x00, 0xe0, 0x05, 0x90, 0x00];
    assert(historical_tag@ =~= seq![0x5fu8, 0x52]);
    assert(historical_bytes@ =~= seq![0x00u8, 0x73, 0x00, 0x00, 0xe0, 0x05, 0x90, 0x00]);
    let ext_caps: [u8; 10] = [0x7d, 0x00, 0x0b, 0xfe, 0x08, 0x00, 0x00, 0xff, 0x00, 0x00];
    assert(ext_caps@ =~= seq![0x7du8, 0x00, 0x0b, 0xfe, 0x08, 0x00, 0x00, 0xff, 0x00, 0x00]);
    let algo_sig: [u8; 10] = [0x16, 0x2B, 0x06, 0x01, 0x04, 0x01, 0xDA, 0x47, 0x0F, 0x01];
    assert(algo_sig@ =~= seq![0x16u8, 0x2B, 0x06, 0x01, 0x04, 0x01, 0xDA, 0x47, 0x0F, 0x01]);
    let algo_other: [u8; 6] = [0x01, 0x08, 0x00, 0x00, 0x11, 0x00];
    assert(algo_other@ =~= seq![0x01u8, 0x08, 0x00, 0x00, 0x11, 0x00]);
    let pw_status: [u8; 7] = [0xff, 0x7f, 0x7f, 0x7f, 0x03, 0x00, 0x03];
    assert(pw_status@ =~= seq![0xffu8, 0x7f, 0x7f, 0x7f, 0x03, 0x00, 0x03]);
    let fingerprints: [u8; 60] = [0u8; 60];
    assert(fingerprints@ =~= Seq::new(60, |i: int| 0u8));
    let gen_times: [u8; 12] = [0u8; 12];
    assert(gen_times@ =~= Seq::new(12, |i: int| 0u8));
    let key_info: [u8; 6] = [0x01, 0x00, 0x02, 0x00, 0x03, 0x00];
    assert(key_info@ =~= seq![0x01u8, 0x00, 0x02, 0x00, 0x03, 0x00]);
    let touch_off: [u8; 2] = [0x00, 0x20];
    assert(touch_off@ =~= seq![0x00u8, 0x20]);

    let mut out: Vec<u8> = Vec::new();
    push_object(&mut out, 0x4f, &aid);
    assert(out@ =~= tlv::object(seq![0x4fu8], aid@));
    tlv::push_all(&mut out, tlv::tlv(&historical_tag, &historical_bytes).as_slice());
    push_object(&mut out, 0xc0, &ext_caps);
    push_object(&mut out, 0xc1, &algo_sig);
    push_object(&mut out, 0xc2, &algo_other);
    push_object(&mut out, 0xc3, &algo_other);
    push_object(&mut out, 0xc4, &pw_status);
    push_object(&mut out, 0xc5, &fingerprints);
    push_object(&mut out, 0xcd, &gen_times);
    push_object(&mut out, 0xde, &key_info);
    push_object(&mut out, 0xd6, &uif_sig);
    push_object(&mut out, 0xd7, &touch_off);
    push_object(&mut out, 0xd8, &touch_off);
    push_object(&mut out, 0xd9, &touch_off);
    out
}

/// The point of the key that a fake card generates.
pub open spec fn public_key_pattern() -> Seq<u8> {
    Seq::new(32, |i: int| 0xABu8)
}

/// The signature that a fake card makes.
pub open spec fn signature_pattern() -> Seq<u8> {
    Seq::new(64, |i: int| 0xCDu8)
}

/// A public key as a card hands it out: the point, in an object of its own,
/// inside the object for public keys.
pub open spec fn public_key_object() -> Seq<u8> {
    tlv::object(seq![0x7fu8, 0x49], tlv::object(seq![0x86u8], public_key_pattern()))
}

fn build_generate_key_response() -> (out: Vec<u8>)
    ensures
        out@ == public_key_object(),
{
    let key: [u8; 32] = FakeCard::fake_public_key();
    let mut point: Vec<u8> = Vec::new();
    push_object(&mut point, 0x86, &key);
    assert(point@ =~= tlv::object(seq![0x86u8], public_key_pattern()));
    let tag: [u8; 2] = [0x7f, 0x49];
    assert(tag@ =~= seq![0x7fu8, 0x49]);
    tlv::tlv(&tag, point.as_slice())
}

/// An OpenPGP card without hardware.
pub struct FakeCard {
    present: bool,
    broken: bool,
    manufacturer: u16,
    serial: u32,
    pw1: PinSlot,
    pw3: PinSlot,
    uif_sig: [u8; 2],
    signing_key_generated: bool,
    touch_timeout: bool,
    verified_pw1_sign: bool,
    verified_pw3_admin: bool,
}

/// A `FakeCard` by its views.
pub struct FakeCardView {
    /// The card is in its reader.
    pub present: bool,
    /// The card answers, but is no usable OpenPGP card.
    pub broken: bool,
    pub manufacturer: u16,
    pub serial: u32,
    /// The User PIN.
    pub pw1: PinSlotView,
    /// The Admin PIN.
    pub pw3: PinSlotView,
    /// The touch setting of the Signature slot.
    pub uif_sig: Seq<u8>,
    pub signing_key_generated: bool,
    /// Nobody will touch the card.
    pub touch_timeout: bool,
    /// The User PIN was verified for signing in this transaction.
    pub verified_pw1_sign: bool,
    /// The Admin PIN was verified in this transaction.
    pub verified_pw3_admin: bool,
}

impl View for FakeCard {
    type V = FakeCardView;

    closed spec fn view(&self) -> FakeCardView {
        FakeCardView {
            present: self.present,
            broken: self.broken,
            manufacturer: self.manufacturer,
            serial: self.serial,
            pw1: self.pw1@,
            pw3: self.pw3@,
            uif_sig: self.uif_sig@,
            signing_key_generated: self.signing_key_generated,
            touch_timeout: self.touch_timeout,
            verified_pw1_sign: self.verified_pw1_sign,
            verified_pw3_admin: self.verified_pw3_admin,
        }
    }
}

impl FakeCardView {
    /// A card as it is shipped.
    pub open spec fn shipped() -> FakeCardView {
        FakeCardView {
            present: true,
            broken: false,
            manufacturer: 0x0006,
            serial: 0x0011_2233,
            pw1: PinSlotView::fresh(FACTORY_DEFAULT_USER_PIN@),
            pw3: PinSlotView::fresh(FACTORY_DEFAULT_ADMIN_PIN@),
            uif_sig: seq![0x00u8, 0x20],
            signing_key_generated: false,
            touch_timeout: false,
            verified_pw1_sign: false,
            verified_pw3_admin: false,
        }
    }

    /// Both PINs have at most three tries, and the touch setting two bytes.
    pub open spec fn wf(self) -> bool {
        self.pw1.wf() && self.pw3.wf() && self.uif_sig.len() == 2
    }

    /// The card when a transaction has started.
    pub open spec fn in_transaction(self) -> FakeCardView {
        FakeCardView { verified_pw1_sign: false, verified_pw3_admin: false, ..self }
    }

    /// The answer to a GET DATA: only the application data is there.
    pub open spec fn got_data(self, p1: u8, p2: u8) -> Seq<u8> {
        if p1 == 0x00 && p2 == 0x6e && !self.broken {
            success(application_related_data(self.manufacturer, self.serial, self.uif_sig))
        } else {
            seq![0x6Au8, 0x88]
        }
    }

    /// The PIN in a VERIFY command: as many bytes as its length byte says, or
    /// none if there are fewer.
    pub open spec fn presented_pin(cmd: Seq<u8>) -> Seq<u8> {
        if 5 + cmd[4] <= cmd.len() {
            cmd.subrange(5, 5 + cmd[4])
        } else {
            Seq::empty()
        }
    }

    /// What a VERIFY does. Without data it asks for the tries that are left.
    /// With data it tries the PIN, and whether that was taken is what counts
    /// from then on.
    pub open spec fn after_verify(self, cmd: Seq<u8>) -> FakeCardView {
        let p2 = cmd[3];
        if cmd.len() == 4 {
            self
        } else {
            let pin = Self::presented_pin(cmd);
            if p2 == VERIFY_P2_SIGN {
                FakeCardView {
                    verified_pw1_sign: pin == self.pw1.current,
                    pw1: self.pw1.tried(pin),
                    ..self
                }
            } else if p2 == VERIFY_P2_USER {
                FakeCardView { pw1: self.pw1.tried(pin), ..self }
            } else if p2 == VERIFY_P2_ADMIN {
                FakeCardView {
                    verified_pw3_admin: pin == self.pw3.current,
                    pw3: self.pw3.tried(pin),
                    ..self
                }
            } else {
                self
            }
        }
    }

    /// The PIN that a VERIFY is about.
    pub open spec fn slot(self, p2: u8) -> PinSlotView {
        if p2 == VERIFY_P2_ADMIN {
            self.pw3
        } else {
            self.pw1
        }
    }

    /// The answer to a VERIFY.
    pub open spec fn verify_answer(self, cmd: Seq<u8>) -> Seq<u8> {
        let p2 = cmd[3];
        if p2 != VERIFY_P2_SIGN && p2 != VERIFY_P2_USER && p2 != VERIFY_P2_ADMIN {
            seq![0x6Au8, 0x86]
        } else if cmd.len() == 4 {
            seq![0x63u8, 0xC0u8 | self.slot(p2).retries_left]
        } else {
            let (sw1, sw2) = self.slot(p2).verdict(Self::presented_pin(cmd));
            seq![sw1, sw2]
        }
    }

    /// The answer to a request to generate a key (`p1` is `80`), which needs
    /// the Admin PIN, or to read the key that was generated (`p1` is `81`).
    pub open spec fn key_pair_answer(self, p1: u8) -> Seq<u8> {
        if p1 == 0x80 && !self.verified_pw3_admin {
            seq![0x69u8, 0x82]
        } else if p1 == 0x80 || (p1 == 0x81 && self.signing_key_generated) {
            success(public_key_object())
        } else {
            seq![0x6Au8, 0x88]
        }
    }

    /// What a PUT DATA does: with the Admin PIN verified, the touch setting of
    /// the Signature slot is kept. Anything else is taken and forgotten.
    pub open spec fn after_put_data(self, cmd: Seq<u8>) -> FakeCardView {
        if self.verified_pw3_admin && cmd[2] == 0x00 && cmd[3] == 0xd6 && cmd.len() >= 7 {
            FakeCardView { uif_sig: cmd.subrange(5, 7), ..self }
        } else {
            self
        }
    }

    /// The card after a command.
    pub open spec fn after(self, cmd: Seq<u8>) -> FakeCardView {
        if cmd.len() < 4 {
            self
        } else if cmd[1] == INS_VERIFY {
            self.after_verify(cmd)
        } else if cmd[1] == INS_GENERATE_ASYMMETRIC_KEY_PAIR {
            FakeCardView {
                signing_key_generated: self.signing_key_generated || (cmd[2] == 0x80
                    && self.verified_pw3_admin),
                ..self
            }
        } else if cmd[1] == INS_PUT_DATA {
            self.after_put_data(cmd)
        } else {
            self
        }
    }

    /// The answer to a command, if there is one.
    pub open spec fn answer(self, cmd: Seq<u8>) -> Result<Seq<u8>, TransportFailureView> {
        if cmd.len() < 4 {
            Err(
                TransportFailureView::Error(
                    "malformed APDU, too short: "@ + text::byte_list(cmd),
                ),
            )
        } else if cmd[1] == INS_SELECT {
            Ok(success(Seq::empty()))
        } else if cmd[1] == INS_GET_DATA {
            Ok(self.got_data(cmd[2], cmd[3]))
        } else if cmd[1] == INS_VERIFY {
            Ok(self.verify_answer(cmd))
        } else if cmd[1] == INS_GENERATE_ASYMMETRIC_KEY_PAIR {
            Ok(self.key_pair_answer(cmd[2]))
        } else if cmd[1] == INS_PUT_DATA {
            if self.verified_pw3_admin {
                Ok(success(Seq::empty()))
            } else {
                Ok(seq![0x69u8, 0x82])
            }
        } else if cmd[1] == INS_PSO && cmd[2] == 0x9e && cmd[3] == 0x9a {
            if !self.verified_pw1_sign {
                Ok(seq![0x69u8, 0x82])
            } else if self.touch_timeout {
                Err(
                    TransportFailureView::Error(
                        "reader timed out waiting for touch confirmation"@,
                    ),
                )
            } else {
                Ok(success(signature_pattern()))
            }
        } else {
            Ok(seq![0x6Du8, 0x00])
        }
    }
}

impl FakeCard {
    /// A card as it is shipped, in its reader.
    pub fn new() -> (card: FakeCard)
        ensures
            card@ == FakeCardView::shipped(),
    {
        let uif_sig: [u8; 2] = [0x00, 0x20];
        assert(uif_sig@ =~= seq![0x00u8, 0x20]);
        FakeCard {
            present: true,
            broken: false,
            manufacturer: 0x0006,
            serial: 0x0011_2233,
            pw1: PinSlot::new(&FACTORY_DEFAULT_USER_PIN),
            pw3: PinSlot::new(&FACTORY_DEFAULT_ADMIN_PIN),
            uif_sig,
            signing_key_generated: false,
            touch_timeout: false,
            verified_pw1_sign: false,
            verified_pw3_admin: false,
        }
    }

    /// A card that is not in its reader.
    pub fn absent() -> (card: FakeCard)
        ensures
            card@ == (FakeCardView { present: false, ..FakeCardView::shipped() }),
    {
        let mut card = FakeCard::new();
        card.present = false;
        card
    }

    /// A card that can be reached but is no usable OpenPGP card.
    pub fn broken() -> (card: FakeCard)
        ensures
            card@ == (FakeCardView { broken: true, ..FakeCardView::shipped() }),
    {
        let mut card = FakeCard::new();
        card.broken = true;
        card
    }

    /// The same card with another User PIN.
    pub fn with_changed_user_pin(self, new_pin: &[u8]) -> (card: FakeCard)
        ensures
            card@ == (FakeCardView { pw1: PinSlotView::fresh(new_pin@), ..self@ }),
    {
        let mut card = self;
        card.pw1 = PinSlot::new(new_pin);
        card
    }

    /// The same card with another Admin PIN.
    pub fn with_changed_admin_pin(self, new_pin: &[u8]) -> (card: FakeCard)
        ensures
            card@ == (FakeCardView { pw3: PinSlotView::fresh(new_pin@), ..self@ }),
    {
        let mut card = self;
        card.pw3 = PinSlot::new(new_pin);
        card
    }

    /// The same card, that nobody will touch.
    pub fn with_touch_timeout(self) -> (card: FakeCard)
        ensures
            card@ == (FakeCardView { touch_timeout: true, ..self@ }),
    {
        let mut card = self;
        card.touch_timeout = true;
        card
    }

    /// Are both PINs those that cards are shipped with?
    pub fn is_default_pins(&self) -> (yes: bool)
        ensures
            yes == (self@.pw1.current == FACTORY_DEFAULT_USER_PIN@ && self@.pw3.current
                == FACTORY_DEFAULT_ADMIN_PIN@),
    {
        same_bytes(self.pw1.current.as_slice(), &FACTORY_DEFAULT_USER_PIN) && same_bytes(
            self.pw3.current.as_slice(),
            &FACTORY_DEFAULT_ADMIN_PIN,
        )
    }

    /// Was a key generated?
    pub fn signing_key_generated(&self) -> (yes: bool)
        ensures
            yes == self@.signing_key_generated,
    {
        self.signing_key_generated
    }

    /// The point of the key that a fake card generates.
    pub fn fake_public_key() -> (key: [u8; 32])
        ensures
            key@ == public_key_pattern(),
    {
        let key: [u8; 32] = [0xABu8; 32];
        assert(key@ =~= public_key_pattern());
        key
    }

    /// The signature that a fake card makes.
    pub fn fake_signature() -> (signature: [u8; 64])
        ensures
            signature@ == signature_pattern(),
    {
        let signature: [u8; 64] = [0xCDu8; 64];
        assert(signature@ =~= signature_pattern());
        signature
    }

    /// Starts a transaction: an absent card cannot, and verified PINs do not
    /// carry over.
    pub fn transaction(&mut self) -> (r: Result<(), TransportFailure>)
        ensures
            match r {
                Ok(()) => old(self)@.present && final(self)@ == old(self)@.in_transaction(),
                Err(failure) => !old(self)@.present && final(self)@ == old(self)@ && failure@
                    == TransportFailureView::CardNotFound("fake card is absent"@),
            },
    {
        if !self.present {
            return Err(TransportFailure::CardNotFound(String::from_str("fake card is absent")));
        }
        self.verified_pw1_sign = false;
        self.verified_pw3_admin = false;
        Ok(())
    }

    /// Answers a GET DATA.
    fn get_data(&self, p1: u8, p2: u8) -> (answer: Vec<u8>)
        ensures
            answer@ == self@.got_data(p1, p2),
    {
        if p1 == 0x00 && p2 == 0x6e && !self.broken {
            ok(build_application_related_data(self.manufacturer, self.serial, self.uif_sig))
        } else {
            status(0x6A, 0x88)
        }
    }

    /// Answers a VERIFY.
    fn verify(&mut self, cmd: &[u8]) -> (answer: Vec<u8>)
        requires
            cmd@.len() >= 4,
        ensures
            final(self)@ == old(self)@.after_verify(cmd@),
            answer@ == old(self)@.verify_answer(cmd@),
    {
        let p2: u8 = cmd[3];
        if p2 != VERIFY_P2_SIGN && p2 != VERIFY_P2_USER && p2 != VERIFY_P2_ADMIN {
            return status(0x6A, 0x86);
        }
        if cmd.len() == 4 {
            let retries_left: u8 = if p2 == VERIFY_P2_ADMIN {
                self.pw3.retries_left
            } else {
                self.pw1.retries_left
            };
            return status(0x63, 0xC0 | retries_left);
        }
        let end: usize = 5 + cmd[4] as usize;
        let pin: &[u8] = if end <= cmd.len() {
            slice_subrange(cmd, 5, end)
        } else {
            slice_subrange(cmd, 0, 0)
        };
        assert(pin@ =~= FakeCardView::presented_pin(cmd@));
        let (sw1, sw2): (u8, u8) = if p2 == VERIFY_P2_ADMIN {
            self.pw3.verify(pin)
        } else {
            self.pw1.verify(pin)
        };
        let verified = sw1 == 0x90 && sw2 == 0x00;
        if p2 == VERIFY_P2_SIGN {
            self.verified_pw1_sign = verified;
        } else if p2 == VERIFY_P2_ADMIN {
            self.verified_pw3_admin = verified;
        }
        status(sw1, sw2)
    }

    /// Answers a request to generate a key or to read it.
    fn key_pair(&mut self, p1: u8) -> (answer: Vec<u8>)
        ensures
            final(self)@ == (FakeCardView {
                signing_key_generated: old(self)@.signing_key_generated || (p1 == 0x80 && old(
                    self,
                )@.verified_pw3_admin),
                ..old(self)@
            }),
            answer@ == old(self)@.key_pair_answer(p1),
    {
        if p1 == 0x80 {
            if !self.verified_pw3_admin {
                return status(0x69, 0x82);
            }
            self.signing_key_generated = true;
            ok(build_generate_key_response())
        } else if p1 == 0x81 && self.signing_key_generated {
            ok(build_generate_key_response())
        } else {
            status(0x6A, 0x88)
        }
    }

    /// Answers a PUT DATA.
    fn put_data(&mut self, cmd: &[u8]) -> (answer: Vec<u8>)
        requires
            cmd@.len() >= 4,
        ensures
            final(self)@ == old(self)@.after_put_data(cmd@),
            answer@ == if old(self)@.verified_pw3_admin {
                success(Seq::empty())
            } else {
                seq![0x69u8, 0x82]
            },
    {
        if !self.verified_pw3_admin {
            return status(0x69, 0x82);
        }
        if cmd[2] == 0x00 && cmd[3] == 0xd6 && cmd.len() >= 7 {
            let uif_sig: [u8; 2] = [cmd[5], cmd[6]];
            assert(uif_sig@ =~= cmd@.subrange(5, 7));
            self.uif_sig = uif_sig;
        }
        ok(Vec::new())
    }

    /// Answers a command, or fails to.
    pub fn transmit(&mut self, cmd: &[u8]) -> (r: Result<Vec<u8>, TransportFailure>)
        ensures
            final(self)@ == old(self)@.after(cmd@),
            answer_view(r) == old(self)@.answer(cmd@),
    {
        if cmd.len() < 4 {
            let mut message = String::from_str("malformed APDU, too short: ");
            text::push_byte_list(&mut message, cmd);
            return Err(TransportFailure::Error(message));
        }
        let (ins, p1, p2): (u8, u8, u8) = (cmd[1], cmd[2], cmd[3]);
        if ins == INS_SELECT {
            Ok(ok(Vec::new()))
        } else if ins == INS_GET_DATA {
            Ok(self.get_data(p1, p2))
        } else if ins == INS_VERIFY {
            Ok(self.verify(cmd))
        } else if ins == INS_GENERATE_ASYMMETRIC_KEY_PAIR {
            Ok(self.key_pair(p1))
        } else if ins == INS_PUT_DATA {
            Ok(self.put_data(cmd))
        } else if ins == INS_PSO && p1 == 0x9e && p2 == 0x9a {
            if !self.verified_pw1_sign {
                Ok(status(0x69, 0x82))
            } else if self.touch_timeout {
                Err(
                    TransportFailure::Error(
                        String::from_str("reader timed out waiting for touch confirmation"),
                    ),
                )
            } else {
                let signature: [u8; 64] = FakeCard::fake_signature();
                Ok(ok(slice_to_vec(&signature)))
            }
        } else {
            Ok(status(0x6D, 0x00))
        }
    }
}

impl Default for FakeCard {
    fn default() -> (card: FakeCard)
        ensures
            card@ == FakeCardView::shipped(),
    {
        FakeCard::new()
    }
}

/// A sequence of tries, one after the other.
pub open spec fn tried_all(slot: PinSlotView, tries: Seq<Seq<u8>>) -> PinSlotView
    decreases tries.len(),
{
    if tries.len() == 0 {
        slot
    } else {
        tried_all(slot, tries.drop_last()).tried(tries.last())
    }
}

/// A wrong PIN costs one try, and the status tells how many are left.
pub proof fn wrong_pin_costs_one_try(slot: PinSlotView, presented: Seq<u8>)
    requires
        slot.wf(),
        slot.retries_left > 0,
        presented != slot.current,
    ensures
        slot.tried(presented).retries_left == slot.retries_left - 1,
        slot.verdict(presented) == (0x63u8, (0xC0 + slot.retries_left - 1) as u8),
{
    let left = slot.tried(presented).retries_left;
    assert(0xC0u8 | left == 0xC0 + left) by (bit_vector)
        requires
            left < 16,
    ;
}

/// A PIN without tries is blocked for every wrong PIN, and stays so.
pub proof fn blocked_stays_blocked(slot: PinSlotView, presented: Seq<u8>)
    requires
        slot.retries_left == 0,
        presented != slot.current,
    ensures
        slot.tried(presented) == slot,
        slot.verdict(presented) == (0x69u8, 0x83u8),
{
}

/// Of a PIN with three tries, wrong PINs use up one try each: after `n` of them
/// it has three less `n` left, or none.
pub proof fn wrong_pins_use_up_the_tries(current: Seq<u8>, tries: Seq<Seq<u8>>)
    requires
        forall|i: int| 0 <= i < tries.len() ==> tries[i] != current,
    ensures
        tried_all(PinSlotView::fresh(current), tries) == (PinSlotView {
            current,
            retries_left: if tries.len() < 3 {
                (3 - tries.len()) as u8
            } else {
                0
            },
        }),
    decreases tries.len(),
{
    if tries.len() > 0 {
        assert(forall|i: int|
            0 <= i < tries.len() - 1 ==> tries.drop_last()[i] == tries[i]);
        wrong_pins_use_up_the_tries(current, tries.drop_last());
        assert(tries.last() == tries[tries.len() - 1]);
    }
}

/// The right PIN is taken, and gives all tries back.
pub proof fn right_pin_is_taken(slot: PinSlotView)
    ensures
        slot.verdict(slot.current) == (0x90u8, 0x00u8),
        slot.tried(slot.current) == PinSlotView::fresh(slot.current),
{
}

/// Whatever is sent to it, a card stays well-formed and remains the same card:
/// its identity and its PINs do not change, and a key once generated stays.
pub proof fn card_remains_the_same(card: FakeCardView, cmd: Seq<u8>)
    ensures
        card.wf() ==> card.after(cmd).wf(),
        card.after(cmd).present == card.present,
        card.after(cmd).broken == card.broken,
        card.after(cmd).manufacturer == card.manufacturer,
        card.after(cmd).serial == card.serial,
        card.after(cmd).pw1.current == card.pw1.current,
        card.after(cmd).pw3.current == card.pw3.current,
        card.after(cmd).touch_timeout == card.touch_timeout,
        card.signing_key_generated ==> card.after(cmd).signing_key_generated,
{
}

/// A card that was just shipped is well-formed.
pub proof fn shipped_card_is_well_formed()
    ensures
        FakeCardView::shipped().wf(),
{
}

/// Without the User PIN verified for signing there is no signature: a request
/// for one is refused and changes nothing.
pub proof fn signing_needs_the_user_pin(card: FakeCardView, cmd: Seq<u8>)
    requires
        !card.verified_pw1_sign,
        cmd.len() >= 4,
        cmd[1] == INS_PSO && cmd[2] == 0x9e && cmd[3] == 0x9a,
    ensures
        card.answer(cmd) == Ok::<Seq<u8>, TransportFailureView>(seq![0x69u8, 0x82]),
        card.after(cmd) == card,
{
}

/// Without the Admin PIN verified no key is generated and no data is written:
/// the request is refused and changes nothing.
pub proof fn set_up_needs_the_admin_pin(card: FakeCardView, cmd: Seq<u8>)
    requires
        !card.verified_pw3_admin,
        cmd.len() >= 4,
        cmd[1] == INS_PUT_DATA || (cmd[1] == INS_GENERATE_ASYMMETRIC_KEY_PAIR && cmd[2] == 0x80),
    ensures
        card.answer(cmd) == Ok::<Seq<u8>, TransportFailureView>(seq![0x69u8, 0x82]),
        card.after(cmd) == card,
{
}

/// A PIN counts as verified exactly if the last VERIFY for that use presented
/// the right one; no other command verifies a PIN or makes one unverified.
pub proof fn only_the_right_pin_verifies(card: FakeCardView, cmd: Seq<u8>)
    ensures
        card.after(cmd).verified_pw1_sign == if cmd.len() > 4 && cmd[1] == INS_VERIFY && cmd[3]
            == VERIFY_P2_SIGN {
            FakeCardView::presented_pin(cmd) == card.pw1.current
        } else {
            card.verified_pw1_sign
        },
        card.after(cmd).verified_pw3_admin == if cmd.len() > 4 && cmd[1] == INS_VERIFY && cmd[3]
            == VERIFY_P2_ADMIN {
            FakeCardView::presented_pin(cmd) == card.pw3.current
        } else {
            card.verified_pw3_admin
        },
{
}

/// A new transaction has no verified PIN and changes nothing else.
pub proof fn transaction_forgets_verified_pins(card: FakeCardView)
    ensures
        !card.in_transaction().verified_pw1_sign,
        !card.in_transaction().verified_pw3_admin,
        card.in_transaction().pw1 == card.pw1,
        card.in_transaction().pw3 == card.pw3,
        card.in_transaction().uif_sig == card.uif_sig,
        card.in_transaction().signing_key_generated == card.signing_key_generated,
{
}

/// The key that was generated is the key that is read afterwards.
pub proof fn generated_key_is_read_back(card: FakeCardView, generate: Seq<u8>, read: Seq<u8>)
    requires
        card.verified_pw3_admin,
        generate.len() >= 4,
        generate[1] == INS_GENERATE_ASYMMETRIC_KEY_PAIR && generate[2] == 0x80,
        read.len() >= 4,
        read[1] == INS_GENERATE_ASYMMETRIC_KEY_PAIR && read[2] == 0x81,
    ensures
        card.answer(generate) == Ok::<_, TransportFailureView>(success(public_key_object())),
        card.after(generate).answer(read) == card.answer(generate),
{
}

/// The touch setting that was written is the one that is read afterwards.
pub proof fn touch_setting_is_read_back(card: FakeCardView, put: Seq<u8>, get: Seq<u8>)
    requires
        !card.broken,
        card.verified_pw3_admin,
        put.len() >= 7,
        put[1] == INS_PUT_DATA && put[2] == 0x00 && put[3] == 0xd6,
        get.len() >= 4,
        get[1] == INS_GET_DATA && get[2] == 0x00 && get[3] == 0x6e,
    ensures
        card.after(put).answer(get) == Ok::<_, TransportFailureView>(
            success(
                application_related_data(card.manufacturer, card.serial, put.subrange(5, 7)),
            ),
        ),
{
}

/// A fake card is shipped with the PINs that a check for shipped PINs presents.
pub proof fn shipped_pins_are_the_well_known_ones()
    ensures
        FakeCardView::shipped().pw1.current.map_values(|b: u8| b as char)
            == pin::FACTORY_DEFAULT_USER_PIN@,
        FakeCardView::shipped().pw3.current.map_values(|b: u8| b as char)
            == pin::FACTORY_DEFAULT_ADMIN_PIN@,
{
    reveal_strlit("123456");
    reveal_strlit("12345678");
    assert(FACTORY_DEFAULT_USER_PIN@.map_values(|b: u8| b as char) =~= "123456"@);
    assert(FACTORY_DEFAULT_ADMIN_PIN@.map_values(|b: u8| b as char) =~= "12345678"@);
}

/// A VERIFY command with data, in its short form.
pub open spec fn verify_command(p2: u8, presented: Seq<u8>) -> Seq<u8> {
    seq![0x00u8, INS_VERIFY, 0x00, p2, presented.len() as u8] + presented
}

impl FakeCardView {
    /// The card after one check for shipped PINs that presented both.
    pub open spec fn checked(self) -> FakeCardView {
        self.after(verify_command(VERIFY_P2_USER, FACTORY_DEFAULT_USER_PIN@)).after(
            verify_command(VERIFY_P2_ADMIN, FACTORY_DEFAULT_ADMIN_PIN@),
        )
    }

    /// The card after `n` such checks.
    pub open spec fn checked_times(self, n: nat) -> FakeCardView
        decreases n,
    {
        if n == 0 {
            self
        } else {
            self.checked_times((n - 1) as nat).checked()
        }
    }
}

/// A reply says of a presented PIN what the status in a card's answer says:
/// taken (`90 00`), wrong (`63 Cx`) or blocked (`69 83`).
pub open spec fn reply_tells(
    reply: Result<(), openpgp_card::Error>,
    answer: Result<Seq<u8>, TransportFailureView>,
) -> bool {
    answer matches Ok(bytes) && bytes.len() == 2 && match reply {
        Ok(()) => bytes == seq![0x90u8, 0x00],
        Err(cause) => match reply::failure_of(cause).kind {
            reply::FailureKind::PasswordNotChecked { .. } => bytes[0] == 0x63,
            reply::FailureKind::AuthenticationMethodBlocked => bytes == seq![0x69u8, 0x83],
            _ => false,
        },
    }
}

/// `asked` is a check for shipped PINs that `card` answered.
pub open spec fn check_answered_by<P>(asked: Seq<card::Exchange<P>>, card: FakeCardView) -> bool {
    let user = verify_command(VERIFY_P2_USER, FACTORY_DEFAULT_USER_PIN@);
    let admin = verify_command(VERIFY_P2_ADMIN, FACTORY_DEFAULT_ADMIN_PIN@);
    &&& pin::default_check(asked)
    &&& reply_tells(asked[0]->VerifyUserPin_reply, card.answer(user))
    &&& asked.len() == 2 ==> reply_tells(
        asked[1]->VerifyAdminPin_reply,
        card.after(user).answer(admin),
    )
}

/// What checks for shipped PINs cost on a card whose User PIN was changed and
/// whose Admin PIN was not: each check spends one try of the User PIN and none
/// of the Admin PIN, and each finds a shipped PIN, as long as there are tries.
/// The check after that finds the User PIN blocked.
pub proof fn checks_spend_the_tries_of_a_changed_pin<P>(
    card: FakeCardView,
    n: nat,
    asked: Seq<card::Exchange<P>>,
)
    requires
        card.wf(),
        card.pw1.current != FACTORY_DEFAULT_USER_PIN@,
        card.pw3 == PinSlotView::fresh(FACTORY_DEFAULT_ADMIN_PIN@),
        n <= card.pw1.retries_left,
        check_answered_by(asked, card.checked_times(n)),
    ensures
        card.checked_times(n).pw1.retries_left == card.pw1.retries_left - n,
        card.checked_times(n).pw1.current == card.pw1.current,
        card.checked_times(n).pw3 == card.pw3,
        n < card.pw1.retries_left ==> pin::default_check_verdict(asked) == Ok::<
            bool,
            error::YubiErrorView,
        >(true),
        n == card.pw1.retries_left ==> pin::default_check_verdict(asked) == Err::<
            bool,
            error::YubiErrorView,
        >(pin::PinKind::User.blocked()),
{
    lemma_checks_spend_tries(card, n);
    let now = card.checked_times(n);
    lemma_one_check(now);
}

proof fn lemma_checks_spend_tries(card: FakeCardView, n: nat)
    requires
        card.pw1.current != FACTORY_DEFAULT_USER_PIN@,
        card.pw3 == PinSlotView::fresh(FACTORY_DEFAULT_ADMIN_PIN@),
        n <= card.pw1.retries_left,
    ensures
        card.checked_times(n).pw1.retries_left == card.pw1.retries_left - n,
        card.checked_times(n).pw1.current == card.pw1.current,
        card.checked_times(n).pw3 == card.pw3,
    decreases n,
{
    if n > 0 {
        lemma_checks_spend_tries(card, (n - 1) as nat);
        lemma_one_check(card.checked_times((n - 1) as nat));
    }
}

/// One check, command by command.
proof fn lemma_one_check(card: FakeCardView)
    requires
        card.pw1.current != FACTORY_DEFAULT_USER_PIN@,
        card.pw3 == PinSlotView::fresh(FACTORY_DEFAULT_ADMIN_PIN@),
    ensures
        card.checked().pw1 == card.pw1.tried(FACTORY_DEFAULT_USER_PIN@),
        card.checked().pw3 == card.pw3,
        card.answer(verify_command(VERIFY_P2_USER, FACTORY_DEFAULT_USER_PIN@)) == Ok::<
            Seq<u8>,
            TransportFailureView,
        >(
            if card.pw1.retries_left == 0 {
                seq![0x69u8, 0x83]
            } else {
                seq![0x63u8, 0xC0u8 | (card.pw1.retries_left - 1) as u8]
            },
        ),
        card.after(verify_command(VERIFY_P2_USER, FACTORY_DEFAULT_USER_PIN@)).answer(
            verify_command(VERIFY_P2_ADMIN, FACTORY_DEFAULT_ADMIN_PIN@),
        ) == Ok::<Seq<u8>, TransportFailureView>(seq![0x90u8, 0x00]),
{
    let user = verify_command(VERIFY_P2_USER, FACTORY_DEFAULT_USER_PIN@);
    let admin = verify_command(VERIFY_P2_ADMIN, FACTORY_DEFAULT_ADMIN_PIN@);
    assert(FakeCardView::presented_pin(user) =~= FACTORY_DEFAULT_USER_PIN@);
    assert(FakeCardView::presented_pin(admin) =~= FACTORY_DEFAULT_ADMIN_PIN@);
}

} // verus!
