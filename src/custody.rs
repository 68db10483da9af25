use vstd::prelude::*;
use crate::address::{Address, be_bytes, i64_be_bytes};
use crate::errors::AuctionError;
use crate::pda::{SeedTag, program_address, try_find_program_address, seeds_view, tag_bytes, tag_seed};

verus! {

/// The declared standard of an asset, as its metadata records it.
#[derive(Clone, Copy, Debug, PartialEq, Eq, Structural)]
pub enum AssetStandard {
    NonFungible,
    FungibleAsset,
    Fungible,
    NonFungibleEdition,
    ProgrammableNonFungible,
    ProgrammableNonFungibleEdition,
}

/// The accounts and asset facts of one asset movement.
#[derive(Clone, Copy, Debug)]
pub struct BoyncTokenTransfer {
    /// The receiving token account.
    pub destination: Address,
    /// The owner of the receiving token account.
    pub destination_owner: Address,
    /// The asset's mint.
    pub mint: Address,
    /// Who authorises the movement (token owner or delegate).
    pub authority: Address,
    /// Whether the receiving account holds no data yet.
    pub destination_is_empty: bool,
    /// The standard that the asset's metadata declares, if any.
    pub token_standard: Option<AssetStandard>,
    /// The rule set of a programmable asset, if it has one.
    pub rule_set: Option<Address>,
}

/// The data handed to the rule set of a programmable asset.
#[derive(Debug)]
pub struct AuthorizationPayload {
    /// The amount that moves.
    pub amount: u64,
    /// The authorising identity.
    pub authority: Address,
    /// The seeds from which that identity derives.
    pub authority_seeds: Vec<Vec<u8>>,
}

/// How the asset moves.
#[derive(Debug)]
pub enum TransferRoute {
    /// A plain balance move through the token program.
    TokenProgram { amount: u64 },
    /// A rule-checked move through the metadata program, passing the edition and
    /// both token records, and the rule-set accounts when the asset has a rule set.
    TokenMetadata { amount: u64, with_rule_set: bool, authorization: AuthorizationPayload },
}

/// The movement that the custody adapter performs.
#[derive(Debug)]
pub struct TransferPlan {
    /// Whether the receiving associated token account has to be created first.
    pub create_destination: bool,
    /// The route of the movement.
    pub route: TransferRoute,
}

/// The seeds that name the authority in a rule-checked movement.
pub open spec fn authorization_seeds(authority: Seq<u8>, mint: Seq<u8>, app_index: i64) -> Seq<Seq<u8>> {
    seq![tag_seed(SeedTag::Auction), authority, mint, be_bytes(app_index)]
}

/// The seeds of the associated token account of `owner` for `mint`.
pub open spec fn associated_account_seeds(owner: Seq<u8>, token_program: Seq<u8>, mint: Seq<u8>) -> Seq<Seq<u8>> {
    seq![owner, token_program, mint]
}

/// Whether `destination` is the associated token account of `owner` for `mint`.
pub open spec fn is_associated_account(
    destination: Seq<u8>,
    owner: Seq<u8>,
    mint: Seq<u8>,
    token_program: Seq<u8>,
    ata_program: Seq<u8>,
) -> bool {
    program_address(associated_account_seeds(owner, token_program, mint), ata_program) matches Some((a, _)) && a == destination
}

/// Whether a movement takes the rule-checked route.
pub open spec fn is_rule_checked(standard: Option<AssetStandard>) -> bool {
    standard == Some(AssetStandard::ProgrammableNonFungible)
}

/// Whether `route` is the route of a movement of `amount` units with `accounts`:
/// rule-checked, with the payload, for a programmable non-fungible asset; one
/// unit through the token program for any other.
pub open spec fn planned_route(route: TransferRoute, accounts: BoyncTokenTransfer, app_index: i64, amount: u64) -> bool {
    match route {
        TransferRoute::TokenMetadata { amount: a, with_rule_set, authorization } => {
            &&& is_rule_checked(accounts.token_standard)
            &&& a == amount
            &&& with_rule_set == (accounts.rule_set is Some)
            &&& authorization.amount == amount
            &&& authorization.authority == accounts.authority
            &&& seeds_view(authorization.authority_seeds@) == authorization_seeds(
                accounts.authority@,
                accounts.mint@,
                app_index,
            )
        },
        TransferRoute::TokenProgram { amount: a } => !is_rule_checked(accounts.token_standard) && a == 1,
    }
}

/// The seeds that name `authority` to the rule set.
pub fn authority_seeds(authority: &Address, mint: &Address, app_index: i64) -> (r: Vec<Vec<u8>>)
    ensures
        seeds_view(r@) == authorization_seeds(authority@, mint@, app_index),
{
    let mut r: Vec<Vec<u8>> = Vec::new();
    r.push(tag_bytes(SeedTag::Auction));
    r.push(authority.to_bytes_vec());
    r.push(mint.to_bytes_vec());
    r.push(i64_be_bytes(app_index));
    assert(seeds_view(r@) =~= authorization_seeds(authority@, mint@, app_index));
    r
}

/// Plans the movement of `amount` units of an asset. A receiving account that
/// is still empty must be the owner's associated token account (else
/// `PublicKeyMismatch`) and is created first. A programmable non-fungible asset
/// moves through the metadata program with an authorization payload; any other
/// asset moves one unit through the token program.
pub fn token_transfer(
    accounts: &BoyncTokenTransfer,
    app_index: i64,
    amount: u64,
    token_program: &Address,
    ata_program: &Address,
) -> (r: Result<TransferPlan, AuctionError>)
    ensures
        r is Err <==> accounts.destination_is_empty && !is_associated_account(
            accounts.destination@,
            accounts.destination_owner@,
            accounts.mint@,
            token_program@,
            ata_program@,
        ),
        r is Err ==> r matches Err(AuctionError::PublicKeyMismatch),
        r matches Ok(plan) ==> plan.create_destination == accounts.destination_is_empty
            && planned_route(plan.route, *accounts, app_index, amount),
{
    if accounts.destination_is_empty {
        let mut seeds: Vec<Vec<u8>> = Vec::new();
        seeds.push(accounts.destination_owner.to_bytes_vec());
        seeds.push(token_program.to_bytes_vec());
        seeds.push(accounts.mint.to_bytes_vec());
        assert(seeds_view(seeds@) =~= associated_account_seeds(
            accounts.destination_owner@,
            token_program@,
            accounts.mint@,
        ));
        match try_find_program_address(&seeds, ata_program) {
            Some((expected, _)) => {
                if !expected.same_as(&accounts.destination) {
                    return Err(AuctionError::PublicKeyMismatch);
                }
            },
            None => {
                return Err(AuctionError::PublicKeyMismatch);
            },
        }
    }
    let route = match accounts.token_standard {
        Some(AssetStandard::ProgrammableNonFungible) => {
            let authorization = AuthorizationPayload {
                amount,
                authority: accounts.authority,
                authority_seeds: authority_seeds(&accounts.authority, &accounts.mint, app_index),
            };
            TransferRoute::TokenMetadata { amount, with_rule_set: accounts.rule_set.is_some(), authorization }
        },
        _ => TransferRoute::TokenProgram { amount: 1 },
    };
    Ok(TransferPlan { create_destination: accounts.destination_is_empty, route })
}

} // verus!
