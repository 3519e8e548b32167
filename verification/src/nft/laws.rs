//! What holds of minting, transfer and ownership, stated over the model.

use vstd::prelude::*;
use crate::address::Address;
use crate::nft::model::Registry;
use crate::nft::token::NFTMetadata;

verus! {

/// A transfer is accepted exactly when the caller is authorized, the token
/// exists, and `from` owns it.
pub proof fn law_transfer_accepted_iff(r: Registry, authorized: bool, from: Seq<char>, id: u64)
    ensures
        r.transfer_verdict(authorized, from, id) is Ok <==> {
            &&& authorized
            &&& r.has(id)
            &&& r.tokens[id].owner@ == from
        },
{
}

/// An accepted transfer makes `to` the owner of the token and changes
/// nothing else of it, nor anything of another token.
pub proof fn law_transfer_changes_the_owner_only(
    r: Registry,
    from: Address,
    to: Address,
    id: u64,
    other: u64,
)
    requires
        r.wf(),
        r.transfer_verdict(true, from@, id) is Ok,
    ensures
        r.after_transfer(from, to, id).tokens[id] == r.tokens[id].with_owner(to),
        r.after_transfer(from, to, id).tokens[id].owner == to,
        other != id ==> r.after_transfer(from, to, id).tokens[other] == r.tokens[other],
        r.after_transfer(from, to, id).has(other) <==> r.has(other),
        r.after_transfer(from, to, id).supply() == r.supply(),
{
}

/// After an accepted transfer the token is filed under its new owner.
pub proof fn law_transfer_files_under_new_owner(r: Registry, from: Address, to: Address, id: u64)
    requires
        r.wf(),
        r.transfer_verdict(true, from@, id) is Ok,
    ensures
        r.after_transfer(from, to, id).holding(to@).contains(id),
        r.after_transfer(from, to, id).holding(to@) == r.holding(to@).push(id),
        from@ != to@ ==> r.after_transfer(from, to, id).holding(from@) == r.holding(
            from@,
        ).remove_value(id),
{
    let list = r.holding(to@).push(id);
    assert(list[list.len() - 1] == id);
}

/// A mint creates one token, owned by `to` and created by the administrator,
/// and raises the supply by one.
pub proof fn law_mint_creates_one_token(
    r: Registry,
    to: Address,
    metadata: NFTMetadata,
    royalty_percentage: u32,
    now: u64,
)
    requires
        r.wf(),
        r.next_token_id < u64::MAX,
    ensures
        ({
            let id = r.next_token_id;
            let next = r.after_mint(to, metadata, royalty_percentage, now);
            &&& !r.has(id)
            &&& next.has(id)
            &&& next.tokens[id].owner == to
            &&& next.tokens[id].creator == r.admin
            &&& next.tokens[id].minted_at == now
            &&& next.supply() == r.supply() + 1
            &&& next.holding(to@) == r.holding(to@).push(id)
            &&& forall|other: u64| r.has(other) ==> next.tokens[other] == r.tokens[other]
        }),
{
}

/// In a well-formed registry every token is filed under its owner, and the
/// tokens that exist are exactly those from 1 up to the supply.
pub proof fn law_owner_holds_token(r: Registry, id: u64)
    requires
        r.wf(),
    ensures
        r.has(id) <==> 1 <= id <= r.supply(),
        r.has(id) ==> r.holding(r.tokens[id].owner@).contains(id),
        r.has(id) ==> r.tokens[id].id == id,
{
}

} // verus!
