use vstd::prelude::*;

use crate::address::{is_vault_address, vault_address_spec, Address};
use crate::escrow::{
    accept_error, accepted_accounts, cancel_error, made_accounts, made_escrow,
    make_error, maker_of, Accept, Cancel, Escrow, EscrowError, Make, OfferState,
};

verus! {

/// Custody conservation: across a successful Make followed by a successful
/// Accept, the offered asset summed over the maker's source, the vault and the
/// taker's destination never changes; so does the wanted asset summed over the
/// taker's source and the maker's destination.
pub proof fn lemma_custody_conserved(
    m: Make,
    bump: u8,
    offer_maker_amount: u64,
    offer_taker_amount: u64,
    a: Accept,
)
    requires
        make_error(m, bump, offer_maker_amount) is None,
        accept_error(made_escrow(m, bump, offer_maker_amount, offer_taker_amount), a) is None,
    ensures
        ({
            let e = made_escrow(m, bump, offer_maker_amount, offer_taker_amount);
            let m2 = made_accounts(m, offer_maker_amount);
            let a2 = accepted_accounts(e, a);
            let before = m.offer_makers_maker_tokens.amount + a.offer_takers_maker_tokens.amount;
            let made = m2.offer_makers_maker_tokens.amount + e.vault_balance()
                + a.offer_takers_maker_tokens.amount;
            let accepted = m2.offer_makers_maker_tokens.amount + e.settled().vault_balance()
                + a2.offer_takers_maker_tokens.amount;
            &&& before == made
            &&& made == accepted
            &&& a2.offer_takers_taker_tokens.amount + a2.offer_makers_taker_tokens.amount
                == a.offer_takers_taker_tokens.amount + a.offer_makers_taker_tokens.amount
        }),
{
}

/// Mutual exclusivity: once an offer is settled, by Accept or by Cancel, every
/// further Accept or Cancel against it fails with `AlreadySettled`.
pub proof fn lemma_settles_once(e: Escrow, a: Accept, c: Cancel)
    ensures
        accept_error(e.settled(), a) == Some(EscrowError::AlreadySettled),
        cancel_error(e.settled(), c) == Some(EscrowError::AlreadySettled),
{
}

/// Authorization: a Cancel of an open offer requested by anyone but its maker
/// fails with `Unauthorized`.
pub proof fn lemma_only_maker_cancels(e: Escrow, c: Cancel)
    requires
        e.state is Open,
        c.offer_maker != maker_of(e),
    ensures
        cancel_error(e, c) == Some(EscrowError::Unauthorized),
{
}

/// Atomic accept: an Accept whose taker holds the wanted asset kind but less
/// than the wanted amount fails with `InsufficientFunds`.
pub proof fn lemma_short_taker_rejected(e: Escrow, a: Accept)
    requires
        match e.state {
            OfferState::Open(o, _) => {
                &&& a.offer_takers_taker_tokens.mint == o.taker_mint
                &&& a.taker_mint == o.taker_mint
                &&& a.offer_takers_taker_tokens.amount < o.taker_amount
            },
            OfferState::Settled => false,
        },
    ensures
        accept_error(e, a) == Some(EscrowError::InsufficientFunds),
{
}

/// Deterministic custody: two computations of the vault address from the same
/// offer address, tag and program agree.
pub proof fn lemma_vault_address_deterministic(
    offer: Address,
    bump: u8,
    program_id: Address,
    r1: Option<Address>,
    r2: Option<Address>,
)
    requires
        match r1 {
            Some(a) => vault_address_spec(offer, bump, program_id) == Some(a.bytes@),
            None => vault_address_spec(offer, bump, program_id) is None,
        },
        match r2 {
            Some(a) => vault_address_spec(offer, bump, program_id) == Some(a.bytes@),
            None => vault_address_spec(offer, bump, program_id) is None,
        },
    ensures
        r1 == r2,
{
    if r1 is Some && r2 is Some {
        assert(r1->0.bytes =~= r2->0.bytes);
    }
}

/// Deterministic custody: Make, Accept and Cancel succeed only with the vault
/// address derived from the offer's address and tag; any other is refused.
pub proof fn lemma_only_derived_vault(
    m: Make,
    bump: u8,
    offer_maker_amount: u64,
    e: Escrow,
    a: Accept,
    c: Cancel,
)
    ensures
        make_error(m, bump, offer_maker_amount) is None ==> is_vault_address(
            m.offer,
            bump,
            m.program_id,
            m.escrowed_maker_tokens,
        ),
        accept_error(e, a) is None ==> match e.state {
            OfferState::Open(o, _) => is_vault_address(
                e.offer_address,
                o.escrowed_maker_tokens_bump,
                e.program_id,
                a.escrowed_maker_tokens,
            ),
            OfferState::Settled => false,
        },
        cancel_error(e, c) is None ==> match e.state {
            OfferState::Open(o, _) => is_vault_address(
                e.offer_address,
                o.escrowed_maker_tokens_bump,
                e.program_id,
                c.escrowed_maker_tokens,
            ),
            OfferState::Settled => false,
        },
{
}

} // verus!
