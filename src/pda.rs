use vstd::prelude::*;
use solana_program::pubkey::Pubkey;
use crate::address::{Address, le_bytes, i64_le_bytes};

verus! {

/// The namespaces of derived accounts; each contributes its own leading seed.
#[derive(Clone, Copy, Debug, PartialEq, Eq, Structural)]
pub enum SeedTag {
    /// The auction record.
    Auction,
    /// The account that holds the auctioned asset.
    Treasury,
    /// The bidders' chest, which holds escrowed bids.
    Wallet,
    /// A per-bid receipt.
    Bidder,
}

/// The bytes of each namespace tag: "auction", "treasury", "wallet", "bidder".
pub open spec fn tag_seed(tag: SeedTag) -> Seq<u8> {
    match tag {
        SeedTag::Auction => seq![97u8, 117, 99, 116, 105, 111, 110],
        SeedTag::Treasury => seq![116u8, 114, 101, 97, 115, 117, 114, 121],
        SeedTag::Wallet => seq![119u8, 97, 108, 108, 101, 116],
        SeedTag::Bidder => seq![98u8, 105, 100, 100, 101, 114],
    }
}

/// The seeds of a derived account: tag, owner, the asset when there is one, and
/// the little-endian salt.
pub open spec fn derivation_seeds(tag: SeedTag, owner: Seq<u8>, asset: Option<Seq<u8>>, salt: i64) -> Seq<Seq<u8>> {
    match asset {
        Some(a) => seq![tag_seed(tag), owner, a, le_bytes(salt)],
        None => seq![tag_seed(tag), owner, le_bytes(salt)],
    }
}

/// The program-derived address (and its bump) that the host computes for
/// `seeds` under `program_id`, if there is one.
pub uninterp spec fn program_address(seeds: Seq<Seq<u8>>, program_id: Seq<u8>) -> Option<(Seq<u8>, u8)>;

/// The byte strings of a seed list.
pub open spec fn seeds_view(seeds: Seq<Vec<u8>>) -> Seq<Seq<u8>> {
    Seq::new(seeds.len(), |i: int| seeds[i]@)
}

/// The view of an optional identity.
pub open spec fn asset_view(a: Option<Address>) -> Option<Seq<u8>> {
    match a {
        Some(x) => Some(x@),
        None => None,
    }
}

/// The view of a derivation result.
pub open spec fn found_view(r: Option<(Address, u8)>) -> Option<(Seq<u8>, u8)> {
    match r {
        Some((a, bump)) => Some((a@, bump)),
        None => None,
    }
}

/// Relies on solana_program's `Pubkey::try_find_program_address`: a search
/// over bump seeds whose result depends on the seeds and the program id alone.
#[verifier::external_body]
pub(crate) fn try_find_program_address(seeds: &Vec<Vec<u8>>, program_id: &Address) -> (r: Option<(Address, u8)>)
    ensures
        found_view(r) == program_address(seeds_view(seeds@), program_id@),
{
    let refs: Vec<&[u8]> = seeds.iter().map(|s| s.as_slice()).collect();
    Pubkey::try_find_program_address(&refs, &Pubkey::new_from_array(program_id.0))
        .map(|(key, bump)| (Address(key.to_bytes()), bump))
}

/// The leading seed of `tag`.
pub fn tag_bytes(tag: SeedTag) -> (r: Vec<u8>)
    ensures
        r@ == tag_seed(tag),
{
    let r = match tag {
        SeedTag::Auction => vec![97u8, 117, 99, 116, 105, 111, 110],
        SeedTag::Treasury => vec![116u8, 114, 101, 97, 115, 117, 114, 121],
        SeedTag::Wallet => vec![119u8, 97, 108, 108, 101, 116],
        SeedTag::Bidder => vec![98u8, 105, 100, 100, 101, 114],
    };
    assert(r@ =~= tag_seed(tag));
    r
}

/// Builds the seed list of a derived account.
pub fn seeds_for(tag: SeedTag, owner: &Address, asset: Option<Address>, salt: i64) -> (r: Vec<Vec<u8>>)
    ensures
        seeds_view(r@) == derivation_seeds(tag, owner@, asset_view(asset), salt),
{
    let mut r: Vec<Vec<u8>> = Vec::new();
    r.push(tag_bytes(tag));
    r.push(owner.to_bytes_vec());
    match asset {
        Some(a) => r.push(a.to_bytes_vec()),
        None => {},
    }
    r.push(i64_le_bytes(salt));
    assert(seeds_view(r@) =~= derivation_seeds(tag, owner@, asset_view(asset), salt));
    r
}

/// The address and bump derived from `(tag, owner, asset, salt)` under `program_id`.
pub open spec fn derived(tag: SeedTag, owner: Seq<u8>, asset: Option<Seq<u8>>, salt: i64, program_id: Seq<u8>) -> Option<(Seq<u8>, u8)> {
    program_address(derivation_seeds(tag, owner, asset, salt), program_id)
}

/// Derives the address of the `tag` account for `(owner, asset, salt)`.
/// Gives `None` only when no bump seed yields an address off the curve.
pub fn derive_address(tag: SeedTag, owner: &Address, asset: Option<Address>, salt: i64, program_id: &Address) -> (r: Option<(Address, u8)>)
    ensures
        found_view(r) == derived(tag, owner@, asset_view(asset), salt, program_id@),
{
    let seeds = seeds_for(tag, owner, asset, salt);
    try_find_program_address(&seeds, program_id)
}

/// The identity of this auction program.
pub fn id() -> (r: Address)
    ensures
        r@ == program_id_bytes(),
{
    let r = Address([
        192u8, 214, 131, 223, 160, 147, 48, 132, 35, 19, 115, 38, 16, 148, 200, 243,
        15, 143, 231, 18, 163, 236, 117, 25, 138, 215, 222, 93, 247, 88, 170, 223,
    ]);
    assert(r@ =~= program_id_bytes());
    r
}

/// The 32 bytes of this program's identity.
pub open spec fn program_id_bytes() -> Seq<u8> {
    seq![
        192u8, 214, 131, 223, 160, 147, 48, 132, 35, 19, 115, 38, 16, 148, 200, 243,
        15, 143, 231, 18, 163, 236, 117, 25, 138, 215, 222, 93, 247, 88, 170, 223,
    ]
}

/// Address of the auction record of `authority` for `mint_address` and instance `ts`.
pub fn find_boync_auction_address(authority: &Address, mint_address: &Address, ts: &i64) -> (r: Option<(Address, u8)>)
    ensures
        found_view(r) == derived(SeedTag::Auction, authority@, Some(mint_address@), *ts, program_id_bytes()),
{
    derive_address(SeedTag::Auction, authority, Some(*mint_address), *ts, &id())
}

/// Address of the treasury that holds the asset of that auction.
pub fn find_boync_treasury_address(authority: &Address, mint_address: &Address, ts: &i64) -> (r: Option<(Address, u8)>)
    ensures
        found_view(r) == derived(SeedTag::Treasury, authority@, Some(mint_address@), *ts, program_id_bytes()),
{
    derive_address(SeedTag::Treasury, authority, Some(*mint_address), *ts, &id())
}

/// Address of the bidders' chest of `authority`'s auction instance `ts`.
pub fn find_boync_bidders_chest_address(authority: &Address, ts: &i64) -> (r: Option<(Address, u8)>)
    ensures
        found_view(r) == derived(SeedTag::Wallet, authority@, None, *ts, program_id_bytes()),
{
    derive_address(SeedTag::Wallet, authority, None, *ts, &id())
}

/// Address of the receipt of `bidder`'s bid with salt `ts` on the auction record `auction`.
pub fn find_boync_bidder_state_address(auction: &Address, bidder: &Address, ts: &i64) -> (r: Option<(Address, u8)>)
    ensures
        found_view(r) == derived(SeedTag::Bidder, auction@, Some(bidder@), *ts, program_id_bytes()),
{
    derive_address(SeedTag::Bidder, auction, Some(*bidder), *ts, &id())
}

/// Deriving twice from identical inputs yields the identical address and bump.
pub proof fn derivation_is_deterministic(
    tag: SeedTag,
    owner: Seq<u8>,
    asset: Option<Seq<u8>>,
    salt: i64,
    program_id: Seq<u8>,
    first: Option<(Address, u8)>,
    second: Option<(Address, u8)>,
)
    requires
        found_view(first) == derived(tag, owner, asset, salt, program_id),
        found_view(second) == derived(tag, owner, asset, salt, program_id),
    ensures
        first == second,
{
    match (first, second) {
        (Some((a, x)), Some((b, y))) => {
            assert(a.0@ == b.0@);
            assert(a.0 == b.0);
        },
        _ => {},
    }
}

} // verus!
