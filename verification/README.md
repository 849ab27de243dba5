# aivyx-yubi

Ed25519 signing with a key that lives in a YubiKey, via the card's OpenPGP
application. The private key is generated on the card and never leaves it, and
every signature asks for a touch.

## What it does

- Finds the first usable OpenPGP card among those in the readers.
- Refuses cards that still have the PINs that they were shipped with.
- Generates an Ed25519 key in the Signature slot, and checks that it is one.
- Makes the card ask for a touch before every signature, for good.
- Signs messages of any length: 64 bytes of raw Ed25519 signature.

A signer keeps the User PIN in memory and presents it to the card with every
signature. It keeps no connection to the card.

## What is proved

The library under `src/` is verified with Verus. It reaches readers and cards
only through the traits in `src/card.rs`, of whose implementations nothing is
assumed: what is proved holds whatever a card answers. The types around them
hide what they hold and keep a record, for the proofs alone, of what the library
asked and what was answered; a question asked twice stands there twice, and none
is missing. The contracts say what every operation adds to that record, that the answers in it
are the card's, and how the result follows from them. So it is proved, for
instance, that

- a card is asked for a signature only after it took the PIN in the same
  transaction, and only for a signature of the given message;
- no operation presents a PIN twice, and making a signer presents none;
- no reader is searched beyond the first usable card;
- a key is generated only after its slot was set to Ed25519, and is accepted
  only if the card says that it is an Ed25519 signing key of 32 bytes;
- a failed transmission is taken for a missing touch only while signing.

Not proved, but stated where they stand: the five small functions that read the
error, key and identity types of `openpgp-card` and `card-backend` into plain
values, or make such a value (`src/reply.rs`, `src/provision.rs`).

`src/testing.rs` is a card without hardware, with a contract for every command.

## Layout

- `src/`: the verified library.
- `tests/`: its tests, against the card without hardware, with `openpgp-card`
  in between.
- `app/`: the library with real cards and PC/SC readers underneath. Running it
  needs the PC/SC service (`pcscd`) and a card with firmware 5.2.3 or later.
