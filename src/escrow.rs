use vstd::prelude::*;

use crate::address::{check_vault_address, is_vault_address, same_address, Address};

verus! {

/// What a token account holds as far as the escrow reads it: its own address,
/// the asset kind (mint), the identity that may spend from it, and its balance.
#[derive(Clone, Copy, Debug, PartialEq, Eq)]
pub struct TokenAccount {
    pub address: Address,
    pub mint: Address,
    pub owner: Address,
    pub amount: u64,
}

/// The persistent record of one pending trade.
#[derive(Clone, Copy, Debug, PartialEq, Eq)]
pub struct Offer {
    pub maker: Address,
    pub maker_mint: Address,
    pub taker_mint: Address,
    pub taker_amount: u64,
    pub escrowed_maker_tokens_bump: u8,
}

/// The lifecycle of one escrow instance: open with its offer and its vault, or
/// settled (offer destroyed, vault emptied and closed).
#[derive(Clone, Copy, Debug, PartialEq, Eq)]
pub enum OfferState {
    Open(Offer, TokenAccount),
    Settled,
}

/// One escrow instance: the program that owns it, the address of its offer
/// record, and the record's state.
#[derive(Clone, Copy, Debug, PartialEq, Eq)]
pub struct Escrow {
    pub program_id: Address,
    pub offer_address: Address,
    pub state: OfferState,
}

/// Why a request was refused.
#[derive(Clone, Copy, Debug, PartialEq, Eq)]
pub enum EscrowError {
    /// The requester is not the identity the request needs.
    Unauthorized,
    /// A source balance is below the amount required.
    InsufficientFunds,
    /// An account holds another asset kind than the one required.
    AssetKindMismatch,
    /// A vault or destination does not match the offer's derived or recorded identities.
    AccountRelationshipInvalid,
    /// The offer was already accepted or cancelled.
    AlreadySettled,
    /// A receiving balance would exceed `u64`; checked after every other check passed.
    Overflow,
}

/// The accounts of a Make request.
#[derive(Clone, Copy, Debug, PartialEq, Eq)]
pub struct Make {
    pub program_id: Address,
    /// Address of the new offer record.
    pub offer: Address,
    /// The signer who makes the offer.
    pub offer_maker: Address,
    /// The maker's source of the offered asset.
    pub offer_makers_maker_tokens: TokenAccount,
    /// The vault address the request names.
    pub escrowed_maker_tokens: Address,
    pub maker_mint: Address,
    pub taker_mint: Address,
}

/// The accounts of an Accept request.
#[derive(Clone, Copy, Debug, PartialEq, Eq)]
pub struct Accept {
    /// The vault address the request names.
    pub escrowed_maker_tokens: Address,
    /// Recipient of the vault's storage deposit; must be the offer's maker.
    pub offer_maker: Address,
    /// The signer who accepts the offer.
    pub offer_taker: Address,
    /// The maker's destination for the wanted asset.
    pub offer_makers_taker_tokens: TokenAccount,
    /// The taker's source of the wanted asset.
    pub offer_takers_taker_tokens: TokenAccount,
    /// The taker's destination for the offered asset.
    pub offer_takers_maker_tokens: TokenAccount,
    pub taker_mint: Address,
}

/// The accounts of a Cancel request.
#[derive(Clone, Copy, Debug, PartialEq, Eq)]
pub struct Cancel {
    /// The vault address the request names.
    pub escrowed_maker_tokens: Address,
    /// The signer who cancels the offer.
    pub offer_maker: Address,
    /// The maker's account that gets the locked asset back.
    pub offer_makers_maker_tokens: TokenAccount,
}

impl Escrow {
    /// An open offer's vault holds the offered asset, is its own authority, and
    /// sits at the address derived from the offer's address and stored tag.
    pub open spec fn wf(self) -> bool {
        match self.state {
            OfferState::Open(o, v) => {
                &&& v.mint == o.maker_mint
                &&& v.owner == v.address
                &&& is_vault_address(
                    self.offer_address,
                    o.escrowed_maker_tokens_bump,
                    self.program_id,
                    v.address,
                )
            },
            OfferState::Settled => true,
        }
    }

    /// The balance held in custody: the vault's balance while open, none after.
    pub open spec fn vault_balance(self) -> nat {
        match self.state {
            OfferState::Open(_, v) => v.amount as nat,
            OfferState::Settled => 0,
        }
    }

    /// The same instance after settlement.
    pub open spec fn settled(self) -> Escrow {
        Escrow { state: OfferState::Settled, ..self }
    }
}

impl TokenAccount {
    pub open spec fn with_amount(self, amount: int) -> TokenAccount {
        TokenAccount { amount: amount as u64, ..self }
    }
}

/// The first check that a Make request fails, if any.
pub open spec fn make_error(c: Make, bump: u8, offer_maker_amount: u64) -> Option<EscrowError> {
    if c.offer_makers_maker_tokens.owner != c.offer_maker {
        Some(EscrowError::Unauthorized)
    } else if c.offer_makers_maker_tokens.mint != c.maker_mint {
        Some(EscrowError::AssetKindMismatch)
    } else if c.offer_makers_maker_tokens.amount < offer_maker_amount {
        Some(EscrowError::InsufficientFunds)
    } else if !is_vault_address(c.offer, bump, c.program_id, c.escrowed_maker_tokens) {
        Some(EscrowError::AccountRelationshipInvalid)
    } else {
        None
    }
}

/// The escrow that a successful Make creates.
pub open spec fn made_escrow(
    c: Make,
    bump: u8,
    offer_maker_amount: u64,
    offer_taker_amount: u64,
) -> Escrow {
    Escrow {
        program_id: c.program_id,
        offer_address: c.offer,
        state: OfferState::Open(
            Offer {
                maker: c.offer_maker,
                maker_mint: c.maker_mint,
                taker_mint: c.taker_mint,
                taker_amount: offer_taker_amount,
                escrowed_maker_tokens_bump: bump,
            },
            TokenAccount {
                address: c.escrowed_maker_tokens,
                mint: c.maker_mint,
                owner: c.escrowed_maker_tokens,
                amount: offer_maker_amount,
            },
        ),
    }
}

/// The request's accounts after a successful Make: the locked amount has left
/// the maker's source.
pub open spec fn made_accounts(c: Make, offer_maker_amount: u64) -> Make {
    Make {
        offer_makers_maker_tokens: c.offer_makers_maker_tokens.with_amount(
            c.offer_makers_maker_tokens.amount - offer_maker_amount,
        ),
        ..c
    }
}

/// Opens an offer: checks the maker's source and the vault address, records the
/// offer and moves `offer_maker_amount` from the maker's source into the vault.
/// Nothing changes when a check fails.
pub fn make(
    ctx: &mut Make,
    escrowed_maker_tokens_bump: u8,
    offer_maker_amount: u64,
    offer_taker_amount: u64,
) -> (r: Result<Escrow, EscrowError>)
    ensures
        match r {
            Ok(e) => {
                &&& make_error(*old(ctx), escrowed_maker_tokens_bump, offer_maker_amount) is None
                &&& e == made_escrow(
                    *old(ctx),
                    escrowed_maker_tokens_bump,
                    offer_maker_amount,
                    offer_taker_amount,
                )
                &&& *final(ctx) == made_accounts(*old(ctx), offer_maker_amount)
                &&& e.wf()
            },
            Err(err) => {
                &&& make_error(*old(ctx), escrowed_maker_tokens_bump, offer_maker_amount) == Some(
                    err,
                )
                &&& *final(ctx) == *old(ctx)
            },
        },
{
    if !same_address(&ctx.offer_makers_maker_tokens.owner, &ctx.offer_maker) {
        return Err(EscrowError::Unauthorized);
    }
    if !same_address(&ctx.offer_makers_maker_tokens.mint, &ctx.maker_mint) {
        return Err(EscrowError::AssetKindMismatch);
    }
    if ctx.offer_makers_maker_tokens.amount < offer_maker_amount {
        return Err(EscrowError::InsufficientFunds);
    }
    if !check_vault_address(
        &ctx.offer,
        escrowed_maker_tokens_bump,
        &ctx.program_id,
        &ctx.escrowed_maker_tokens,
    ) {
        return Err(EscrowError::AccountRelationshipInvalid);
    }
    let offer = Offer {
        maker: ctx.offer_maker,
        maker_mint: ctx.maker_mint,
        taker_mint: ctx.taker_mint,
        taker_amount: offer_taker_amount,
        escrowed_maker_tokens_bump,
    };
    let vault = TokenAccount {
        address: ctx.escrowed_maker_tokens,
        mint: ctx.maker_mint,
        owner: ctx.escrowed_maker_tokens,
        amount: offer_maker_amount,
    };
    ctx.offer_makers_maker_tokens.amount = ctx.offer_makers_maker_tokens.amount
        - offer_maker_amount;
    Ok(Escrow { program_id: ctx.program_id, offer_address: ctx.offer, state: OfferState::Open(offer, vault) })
}

/// The first check that an Accept request fails, if any.
pub open spec fn accept_error(e: Escrow, c: Accept) -> Option<EscrowError> {
    match e.state {
        OfferState::Settled => Some(EscrowError::AlreadySettled),
        OfferState::Open(o, v) => {
            if c.offer_takers_taker_tokens.mint != o.taker_mint || c.taker_mint != o.taker_mint {
                Some(EscrowError::AssetKindMismatch)
            } else if c.offer_takers_taker_tokens.amount < o.taker_amount {
                Some(EscrowError::InsufficientFunds)
            } else if c.offer_takers_taker_tokens.owner != c.offer_taker {
                Some(EscrowError::Unauthorized)
            } else if c.offer_maker != o.maker || c.offer_makers_taker_tokens.owner != o.maker
                || c.offer_makers_taker_tokens.mint != o.taker_mint {
                Some(EscrowError::AccountRelationshipInvalid)
            } else if !is_vault_address(
                e.offer_address,
                o.escrowed_maker_tokens_bump,
                e.program_id,
                c.escrowed_maker_tokens,
            ) || c.escrowed_maker_tokens != v.address {
                Some(EscrowError::AccountRelationshipInvalid)
            } else if c.offer_takers_maker_tokens.mint != v.mint {
                Some(EscrowError::AssetKindMismatch)
            } else if !accept_fits(e, c) {
                Some(EscrowError::Overflow)
            } else {
                None
            }
        },
    }
}

/// The balances that receive in an Accept stay within `u64`.
pub open spec fn accept_fits(e: Escrow, c: Accept) -> bool {
    match e.state {
        OfferState::Open(o, v) => {
            &&& c.offer_makers_taker_tokens.amount + o.taker_amount <= u64::MAX
            &&& c.offer_takers_maker_tokens.amount + v.amount <= u64::MAX
        },
        OfferState::Settled => true,
    }
}

/// The request's accounts after a successful Accept: the wanted amount went from
/// the taker to the maker, and the whole vault balance to the taker.
pub open spec fn accepted_accounts(e: Escrow, c: Accept) -> Accept {
    match e.state {
        OfferState::Open(o, v) => Accept {
            offer_makers_taker_tokens: c.offer_makers_taker_tokens.with_amount(
                c.offer_makers_taker_tokens.amount + o.taker_amount,
            ),
            offer_takers_taker_tokens: c.offer_takers_taker_tokens.with_amount(
                c.offer_takers_taker_tokens.amount - o.taker_amount,
            ),
            offer_takers_maker_tokens: c.offer_takers_maker_tokens.with_amount(
                c.offer_takers_maker_tokens.amount + v.amount,
            ),
            ..c
        },
        OfferState::Settled => c,
    }
}

/// The maker of an open offer.
pub open spec fn maker_of(e: Escrow) -> Address {
    match e.state {
        OfferState::Open(o, _) => o.maker,
        OfferState::Settled => e.offer_address,
    }
}

/// Settles an offer by swap: checks every account first, then moves the wanted
/// amount from the taker to the maker and the vault's whole balance to the
/// taker, and closes offer and vault. Returns who gets the vault's storage
/// deposit (the maker). A receiving balance that would pass `u64` is refused
/// after every other check. Nothing changes when a check fails.
pub fn accept(escrow: &mut Escrow, ctx: &mut Accept) -> (r: Result<Address, EscrowError>)
    ensures
        old(escrow).wf() ==> final(escrow).wf(),
        match r {
            Ok(refund_to) => {
                &&& accept_error(*old(escrow), *old(ctx)) is None
                &&& *final(escrow) == old(escrow).settled()
                &&& *final(ctx) == accepted_accounts(*old(escrow), *old(ctx))
                &&& refund_to == maker_of(*old(escrow))
            },
            Err(err) => {
                &&& accept_error(*old(escrow), *old(ctx)) == Some(err)
                &&& *final(escrow) == *old(escrow)
                &&& *final(ctx) == *old(ctx)
            },
        },
{
    let (offer, vault) = match escrow.state {
        OfferState::Open(o, v) => (o, v),
        OfferState::Settled => {
            return Err(EscrowError::AlreadySettled);
        },
    };
    if !same_address(&ctx.offer_takers_taker_tokens.mint, &offer.taker_mint) || !same_address(
        &ctx.taker_mint,
        &offer.taker_mint,
    ) {
        return Err(EscrowError::AssetKindMismatch);
    }
    if ctx.offer_takers_taker_tokens.amount < offer.taker_amount {
        return Err(EscrowError::InsufficientFunds);
    }
    if !same_address(&ctx.offer_takers_taker_tokens.owner, &ctx.offer_taker) {
        return Err(EscrowError::Unauthorized);
    }
    if !same_address(&ctx.offer_maker, &offer.maker) || !same_address(
        &ctx.offer_makers_taker_tokens.owner,
        &offer.maker,
    ) || !same_address(&ctx.offer_makers_taker_tokens.mint, &offer.taker_mint) {
        return Err(EscrowError::AccountRelationshipInvalid);
    }
    if !check_vault_address(
        &escrow.offer_address,
        offer.escrowed_maker_tokens_bump,
        &escrow.program_id,
        &ctx.escrowed_maker_tokens,
    ) || !same_address(&ctx.escrowed_maker_tokens, &vault.address) {
        return Err(EscrowError::AccountRelationshipInvalid);
    }
    if !same_address(&ctx.offer_takers_maker_tokens.mint, &vault.mint) {
        return Err(EscrowError::AssetKindMismatch);
    }
    if ctx.offer_makers_taker_tokens.amount > u64::MAX - offer.taker_amount
        || ctx.offer_takers_maker_tokens.amount > u64::MAX - vault.amount {
        return Err(EscrowError::Overflow);
    }
    // Leg 1: the wanted amount, from the taker to the maker.
    ctx.offer_takers_taker_tokens.amount = ctx.offer_takers_taker_tokens.amount
        - offer.taker_amount;
    ctx.offer_makers_taker_tokens.amount = ctx.offer_makers_taker_tokens.amount
        + offer.taker_amount;
    // Leg 2: the vault's whole balance, to the taker.
    ctx.offer_takers_maker_tokens.amount = ctx.offer_takers_maker_tokens.amount + vault.amount;
    escrow.state = OfferState::Settled;
    Ok(offer.maker)
}

/// The first check that a Cancel request fails, if any.
pub open spec fn cancel_error(e: Escrow, c: Cancel) -> Option<EscrowError> {
    match e.state {
        OfferState::Settled => Some(EscrowError::AlreadySettled),
        OfferState::Open(o, v) => {
            if c.offer_maker != o.maker {
                Some(EscrowError::Unauthorized)
            } else if c.offer_makers_maker_tokens.owner != o.maker {
                Some(EscrowError::AccountRelationshipInvalid)
            } else if !is_vault_address(
                e.offer_address,
                o.escrowed_maker_tokens_bump,
                e.program_id,
                c.escrowed_maker_tokens,
            ) || c.escrowed_maker_tokens != v.address {
                Some(EscrowError::AccountRelationshipInvalid)
            } else if c.offer_makers_maker_tokens.mint != v.mint {
                Some(EscrowError::AssetKindMismatch)
            } else if !cancel_fits(e, c) {
                Some(EscrowError::Overflow)
            } else {
                None
            }
        },
    }
}

/// The refund of a Cancel stays within `u64`.
pub open spec fn cancel_fits(e: Escrow, c: Cancel) -> bool {
    match e.state {
        OfferState::Open(_, v) => c.offer_makers_maker_tokens.amount + v.amount <= u64::MAX,
        OfferState::Settled => true,
    }
}

/// The request's accounts after a successful Cancel: the vault's whole balance
/// went back to the maker.
pub open spec fn cancelled_accounts(e: Escrow, c: Cancel) -> Cancel {
    Cancel {
        offer_makers_maker_tokens: c.offer_makers_maker_tokens.with_amount(
            c.offer_makers_maker_tokens.amount + e.vault_balance(),
        ),
        ..c
    }
}

/// Withdraws an offer: only its maker may; moves the vault's whole balance back
/// to the maker and closes offer and vault. Returns who gets the vault's storage
/// deposit (the maker). A refund that would pass `u64` is refused after every
/// other check. Nothing changes when a check fails.
pub fn cancel(escrow: &mut Escrow, ctx: &mut Cancel) -> (r: Result<Address, EscrowError>)
    ensures
        old(escrow).wf() ==> final(escrow).wf(),
        match r {
            Ok(refund_to) => {
                &&& cancel_error(*old(escrow), *old(ctx)) is None
                &&& *final(escrow) == old(escrow).settled()
                &&& *final(ctx) == cancelled_accounts(*old(escrow), *old(ctx))
                &&& refund_to == maker_of(*old(escrow))
            },
            Err(err) => {
                &&& cancel_error(*old(escrow), *old(ctx)) == Some(err)
                &&& *final(escrow) == *old(escrow)
                &&& *final(ctx) == *old(ctx)
            },
        },
{
    let (offer, vault) = match escrow.state {
        OfferState::Open(o, v) => (o, v),
        OfferState::Settled => {
            return Err(EscrowError::AlreadySettled);
        },
    };
    if !same_address(&ctx.offer_maker, &offer.maker) {
        return Err(EscrowError::Unauthorized);
    }
    if !same_address(&ctx.offer_makers_maker_tokens.owner, &offer.maker) {
        return Err(EscrowError::AccountRelationshipInvalid);
    }
    if !check_vault_address(
        &escrow.offer_address,
        offer.escrowed_maker_tokens_bump,
        &escrow.program_id,
        &ctx.escrowed_maker_tokens,
    ) || !same_address(&ctx.escrowed_maker_tokens, &vault.address) {
        return Err(EscrowError::AccountRelationshipInvalid);
    }
    if !same_address(&ctx.offer_makers_maker_tokens.mint, &vault.mint) {
        return Err(EscrowError::AssetKindMismatch);
    }
    if ctx.offer_makers_maker_tokens.amount > u64::MAX - vault.amount {
        return Err(EscrowError::Overflow);
    }
    ctx.offer_makers_maker_tokens.amount = ctx.offer_makers_maker_tokens.amount + vault.amount;
    escrow.state = OfferState::Settled;
    Ok(offer.maker)
}

} // verus!
