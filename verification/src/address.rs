//! Addresses that the pool derives for its accounts.

use crate::error::ConstraintError;
use crate::key::Pubkey;
use anchor_lang::solana_program::pubkey::PubkeyError;
use vstd::prelude::*;

verus! {

/// The error of `Pubkey::create_program_address`. Nothing is known of it but
/// that the call failed.
#[verifier::external_type_specification]
#[verifier::external_body]
pub struct ExPubkeyError(anchor_lang::solana_program::pubkey::PubkeyError);

/// What `Pubkey::create_program_address` makes of seeds and a program: the
/// address, or nothing where the seeds give none.
pub uninterp spec fn program_address(seeds: Seq<Seq<u8>>, program_id: Seq<u8>) -> Option<Seq<u8>>;

/// The address of the highest bump seed up to `bump` that gives one, with that
/// bump seed. The bump seed 0 is not tried.
pub open spec fn first_address(seeds: Seq<Seq<u8>>, program_id: Seq<u8>, bump: nat) -> Option<
    (Seq<u8>, u8),
>
    decreases bump,
{
    if bump == 0 {
        None
    } else {
        match program_address(seeds.push(seq![bump as u8]), program_id) {
            Some(address) => Some((address, bump as u8)),
            None => first_address(seeds, program_id, (bump - 1) as nat),
        }
    }
}

/// The address of the highest bump seed that gives one, with that bump seed.
pub open spec fn found_address(seeds: Seq<Seq<u8>>, program_id: Seq<u8>) -> Option<(Seq<u8>, u8)> {
    first_address(seeds, program_id, 255)
}

/// There are few enough seeds to add a bump to, and none is too long.
pub open spec fn seeds_fit(seeds: Seq<Seq<u8>>) -> bool {
    &&& seeds.len() < 16
    &&& forall|i: int| 0 <= i < seeds.len() ==> (#[trigger] seeds[i]).len() <= 32
}

/// Calls `Pubkey::create_program_address`. The result depends on the seeds and
/// the program alone, and goes by the name `program_address`.
#[verifier::external_body]
fn create_program_address(seeds: &[&[u8]], program_id: &Pubkey) -> (result: Result<
    Pubkey,
    PubkeyError,
>)
    requires
        seeds_fit(seeds.deep_view()),
    ensures
        match result {
            Ok(address) => program_address(seeds.deep_view(), program_id@) == Some(address@),
            Err(_) => program_address(seeds.deep_view(), program_id@) is None,
        },
{
    let program_id = anchor_lang::prelude::Pubkey::new_from_array(program_id.bytes);
    match anchor_lang::prelude::Pubkey::create_program_address(seeds, &program_id) {
        Ok(address) => Ok(Pubkey { bytes: address.to_bytes() }),
        Err(error) => Err(error),
    }
}

/// Calls `Pubkey::try_find_program_address`. It tries the bump seeds from 255
/// down to 1, each as the last seed, and returns the first address that
/// `Pubkey::create_program_address` gives, with its bump seed; `None` where no
/// bump seed gives an address.
#[verifier::external_body]
fn try_find_program_address(seeds: &[&[u8]], program_id: &Pubkey) -> (result: Option<(Pubkey, u8)>)
    requires
        seeds_fit(seeds.deep_view()),
    ensures
        match result {
            Some((address, bump)) => found_address(seeds.deep_view(), program_id@) == Some(
                (address@, bump),
            ),
            None => found_address(seeds.deep_view(), program_id@) is None,
        },
{
    let program_id = anchor_lang::prelude::Pubkey::new_from_array(program_id.bytes);
    match anchor_lang::prelude::Pubkey::try_find_program_address(seeds, &program_id) {
        Some((address, bump)) => Some((Pubkey { bytes: address.to_bytes() }, bump)),
        None => None,
    }
}

proof fn lemma_first_address(seeds: Seq<Seq<u8>>, program_id: Seq<u8>, bump: nat)
    requires
        bump <= 255,
    ensures
        match first_address(seeds, program_id, bump) {
            Some((address, found)) => {
                &&& 1 <= found <= bump
                &&& program_address(seeds.push(seq![found]), program_id) == Some(address)
                &&& forall|higher: u8|
                    found < higher <= bump ==> program_address(
                        #[trigger] seeds.push(seq![higher]),
                        program_id,
                    ) is None
            },
            None => forall|higher: u8|
                1 <= higher <= bump ==> program_address(
                    #[trigger] seeds.push(seq![higher]),
                    program_id,
                ) is None,
        },
    decreases bump,
{
    if bump > 0 {
        lemma_first_address(seeds, program_id, (bump - 1) as nat);
    }
}

/// An address that is found is derived from the seeds and the bump found with
/// it, and no higher bump gives an address. Where none is found, no bump but
/// perhaps 0 gives one.
pub proof fn law_found_bump_is_the_highest(seeds: Seq<Seq<u8>>, program_id: Seq<u8>)
    ensures
        match found_address(seeds, program_id) {
            Some((address, bump)) => {
                &&& program_address(seeds.push(seq![bump]), program_id) == Some(address)
                &&& forall|higher: u8|
                    bump < higher ==> program_address(
                        #[trigger] seeds.push(seq![higher]),
                        program_id,
                    ) is None
            },
            None => forall|bump: u8|
                1 <= bump ==> program_address(
                    #[trigger] seeds.push(seq![bump]),
                    program_id,
                ) is None,
        },
{
    lemma_first_address(seeds, program_id, 255);
}

/// The bytes of `pool`.
pub open spec fn pool_tag() -> Seq<u8> {
    seq![0x70u8, 0x6f, 0x6f, 0x6c]
}

/// The bytes of `user_stake`.
pub open spec fn user_stake_tag() -> Seq<u8> {
    seq![0x75u8, 0x73, 0x65, 0x72, 0x5f, 0x73, 0x74, 0x61, 0x6b, 0x65]
}

/// The seeds of a pool's address: one pool for each staked token.
pub open spec fn pool_seeds(stake_mint: Pubkey) -> Seq<Seq<u8>> {
    seq![pool_tag(), stake_mint@]
}

/// The seeds of a stake's address: one stake for each pool and user.
pub open spec fn user_stake_seeds(pool: Pubkey, user: Pubkey) -> Seq<Seq<u8>> {
    seq![user_stake_tag(), pool@, user@]
}

/// The seeds with which a pool signs for its address.
pub open spec fn pool_signer_seeds(stake_mint: Pubkey, bump: u8) -> Seq<Seq<u8>> {
    pool_seeds(stake_mint).push(seq![bump])
}

/// The bytes of `pool`.
pub(crate) fn pool_tag_bytes() -> (tag: Vec<u8>)
    ensures
        tag@ == pool_tag(),
{
    vec![0x70u8, 0x6f, 0x6f, 0x6c]
}

fn user_stake_tag_bytes() -> (tag: Vec<u8>)
    ensures
        tag@ == user_stake_tag(),
{
    vec![0x75u8, 0x73, 0x65, 0x72, 0x5f, 0x73, 0x74, 0x61, 0x6b, 0x65]
}

/// Where the pool for `stake_mint` lives, with the bump of that address.
/// `None` where no bump gives an address.
pub fn pool_address(stake_mint: &Pubkey, program_id: &Pubkey) -> (found: Option<(Pubkey, u8)>)
    ensures
        match found {
            Some((address, bump)) => {
                &&& found_address(pool_seeds(*stake_mint), program_id@) == Some((address@, bump))
                &&& program_address(pool_signer_seeds(*stake_mint, bump), program_id@) == Some(
                    address@,
                )
            },
            None => found_address(pool_seeds(*stake_mint), program_id@) is None,
        },
{
    let tag = pool_tag_bytes();
    let parts = [tag.as_slice(), stake_mint.bytes.as_slice()];
    let seeds = parts.as_slice();
    assert(seeds.deep_view() =~= pool_seeds(*stake_mint)) by {
        assert(seeds@[0].deep_view() =~= pool_tag());
        assert(seeds@[1].deep_view() =~= stake_mint@);
    }
    proof {
        law_found_bump_is_the_highest(pool_seeds(*stake_mint), program_id@);
    }
    try_find_program_address(seeds, program_id)
}

/// Where the stake of `user` in `pool` lives, with the bump of that address.
/// `None` where no bump gives an address.
pub fn user_stake_address(pool: &Pubkey, user: &Pubkey, program_id: &Pubkey) -> (found: Option<
    (Pubkey, u8),
>)
    ensures
        match found {
            Some((address, bump)) => {
                &&& found_address(user_stake_seeds(*pool, *user), program_id@) == Some(
                    (address@, bump),
                )
                &&& program_address(
                    user_stake_seeds(*pool, *user).push(seq![bump]),
                    program_id@,
                ) == Some(address@)
            },
            None => found_address(user_stake_seeds(*pool, *user), program_id@) is None,
        },
{
    let tag = user_stake_tag_bytes();
    let parts = [tag.as_slice(), pool.bytes.as_slice(), user.bytes.as_slice()];
    let seeds = parts.as_slice();
    assert(seeds.deep_view() =~= user_stake_seeds(*pool, *user)) by {
        assert(seeds@[0].deep_view() =~= user_stake_tag());
        assert(seeds@[1].deep_view() =~= pool@);
        assert(seeds@[2].deep_view() =~= user@);
    }
    proof {
        law_found_bump_is_the_highest(user_stake_seeds(*pool, *user), program_id@);
    }
    try_find_program_address(seeds, program_id)
}

/// Where the stake of `user` in `pool` lives, going by a bump that is known
/// already. Refused where that bump gives no address.
pub fn user_stake_address_with_bump(
    pool: &Pubkey,
    user: &Pubkey,
    bump: u8,
    program_id: &Pubkey,
) -> (derived: Result<Pubkey, ConstraintError>)
    ensures
        match program_address(user_stake_seeds(*pool, *user).push(seq![bump]), program_id@) {
            Some(address) => derived matches Ok(key) && key@ == address,
            None => derived == Err::<Pubkey, _>(ConstraintError::ConstraintSeeds),
        },
{
    let tag = user_stake_tag_bytes();
    let last = [bump];
    let parts = [
        tag.as_slice(),
        pool.bytes.as_slice(),
        user.bytes.as_slice(),
        last.as_slice(),
    ];
    let seeds = parts.as_slice();
    assert(seeds.deep_view() =~= user_stake_seeds(*pool, *user).push(seq![bump])) by {
        assert(seeds@[0].deep_view() =~= user_stake_tag());
        assert(seeds@[1].deep_view() =~= pool@);
        assert(seeds@[2].deep_view() =~= user@);
        assert(seeds@[3].deep_view() =~= seq![bump]);
    }
    match create_program_address(seeds, program_id) {
        Ok(address) => Ok(address),
        Err(_) => Err(ConstraintError::ConstraintSeeds),
    }
}

} // verus!
