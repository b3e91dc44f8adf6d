use vstd::prelude::*;

verus! {

/// A 32-byte account identity: a wallet, a mint, a token account or a program.
#[derive(Clone, Copy, Debug, PartialEq, Eq)]
pub struct Address {
    pub bytes: [u8; 32],
}

/// The address that the runtime derives from the seeds `[base, [bump]]` under
/// `program`, or `None` where those seeds give no valid program-derived address.
pub uninterp spec fn program_address_of(base: Seq<u8>, bump: u8, program: Seq<u8>) -> Option<
    Seq<u8>,
>;

/// Relies on `Pubkey::create_program_address` (solana-program, re-exported by
/// anchor-lang): for two seeds of 32 and 1 bytes it hashes them with the program
/// id and fails only where the hash lies on the curve; the result depends on the
/// arguments alone.
#[verifier::external_body]
fn create_program_address(base: &[u8; 32], bump: u8, program: &[u8; 32]) -> (r: Option<[u8; 32]>)
    ensures
        match r {
            Some(k) => program_address_of(base@, bump, program@) == Some(k@),
            None => program_address_of(base@, bump, program@) is None,
        },
{
    let program_id = anchor_lang::prelude::Pubkey::new_from_array(*program);
    let bump_seed = [bump];
    match anchor_lang::prelude::Pubkey::create_program_address(
        &[&base[..], &bump_seed[..]],
        &program_id,
    ) {
        Ok(k) => Some(k.to_bytes()),
        Err(_) => None,
    }
}

/// The custody (vault) address of the offer stored at `offer`, derived from the
/// offer's own address and `bump` under `program_id`.
pub open spec fn vault_address_spec(offer: Address, bump: u8, program_id: Address) -> Option<
    Seq<u8>,
> {
    program_address_of(offer.bytes@, bump, program_id.bytes@)
}

/// Whether `candidate` is exactly the vault address derived for `offer` and `bump`.
pub open spec fn is_vault_address(
    offer: Address,
    bump: u8,
    program_id: Address,
    candidate: Address,
) -> bool {
    vault_address_spec(offer, bump, program_id) == Some(candidate.bytes@)
}

/// Computes the vault address of the offer stored at `offer`.
pub fn vault_address(offer: &Address, bump: u8, program_id: &Address) -> (r: Option<Address>)
    ensures
        match r {
            Some(a) => vault_address_spec(*offer, bump, *program_id) == Some(a.bytes@),
            None => vault_address_spec(*offer, bump, *program_id) is None,
        },
{
    match create_program_address(&offer.bytes, bump, &program_id.bytes) {
        Some(k) => Some(Address { bytes: k }),
        None => None,
    }
}

/// Checks that `candidate` is the vault address derived for `offer` and `bump`.
pub fn check_vault_address(offer: &Address, bump: u8, program_id: &Address, candidate: &Address) -> (r:
    bool)
    ensures
        r == is_vault_address(*offer, bump, *program_id, *candidate),
{
    match vault_address(offer, bump, program_id) {
        Some(a) => {
            let same = same_address(&a, candidate);
            proof {
                if a.bytes@ == candidate.bytes@ {
                    assert(a.bytes =~= candidate.bytes);
                }
            }
            same
        },
        None => false,
    }
}

/// Byte-wise equality of two addresses.
pub fn same_address(a: &Address, b: &Address) -> (r: bool)
    ensures
        r == (*a == *b),
{
    let mut i: usize = 0;
    while i < 32
        invariant
            i <= 32,
            forall|j: int| 0 <= j < i ==> a.bytes@[j] == b.bytes@[j],
        decreases 32 - i,
    {
        if a.bytes[i] != b.bytes[i] {
            assert(a.bytes@[i as int] != b.bytes@[i as int]);
            return false;
        }
        i = i + 1;
    }
    assert(a.bytes@ =~= b.bytes@);
    assert(a.bytes =~= b.bytes);
    true
}

} // verus!
