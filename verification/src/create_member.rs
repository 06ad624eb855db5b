//! Member creation.
//!
//! Initializes a zeroed member record in place: empty books owned by the
//! beneficiary and the delegate, generation zero, and an all-zero price
//! context. A record that is already initialized is rejected.

use vstd::prelude::*;

use crate::address::Address;
use crate::basket::StakeContext;
use crate::error::RegistryError;
use crate::member::{Balances, Book, Member, MemberBooks, Watchtower};

verus! {

/// The freshly initialized member record.
pub open spec fn member_after(
    registrar: Address,
    entity: Address,
    beneficiary: Address,
    delegate: Address,
    watchtower: Watchtower,
) -> Member {
    Member {
        initialized: true,
        registrar,
        entity,
        beneficiary,
        generation: 0,
        watchtower,
        books: MemberBooks {
            main: Book { owner: beneficiary, balances: Balances::zero_spec() },
            delegate: Book { owner: delegate, balances: Balances::zero_spec() },
        },
        last_active_stake_ctx: StakeContext::zero_spec(),
    }
}

/// Initializes `member` for the given entity and owners.
pub fn handler(
    member: &mut Member,
    registrar: Address,
    entity: Address,
    beneficiary: Address,
    delegate: Address,
    watchtower: Watchtower,
) -> (r: Result<(), RegistryError>)
    ensures
        old(member).initialized ==> r == Err::<(), RegistryError>(RegistryError::AlreadyInitialized)
            && *final(member) == *old(member),
        !old(member).initialized ==> r is Ok && *final(member) == member_after(
            registrar,
            entity,
            beneficiary,
            delegate,
            watchtower,
        ),
{
    if member.initialized {
        return Err(RegistryError::AlreadyInitialized);
    }

    member.initialized = true;
    member.registrar = registrar;
    member.entity = entity;
    member.beneficiary = beneficiary;
    member.generation = 0;
    member.watchtower = watchtower;
    member.books = MemberBooks::new(beneficiary, delegate);
    member.last_active_stake_ctx = StakeContext::default();

    Ok(())
}

} // verus!
