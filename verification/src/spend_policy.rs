//! The sources of funds that the proposal builder may draw upon.
//!
//! The policy value itself is `zcash_client_backend`'s; what it permits is spoken of here
//! through the set of pools and the transparent rule that it holds.

use nonempty::NonEmpty;
use vstd::prelude::*;
use zcash_client_backend::data_api::wallet::input_selection::{SpendPolicy, TransparentSpendPolicy};
use zcash_transparent::address::TransparentAddress as BackendAddress;

use crate::transparent;
use crate::transparent::TransparentAddress;

verus! {

/// A pool of shielded funds.
#[derive(Clone, Copy, Debug, PartialEq, Eq, Structural)]
pub enum ShieldedPool {
    Sapling,
    Orchard,
    Ironwood,
}

/// Which transparent outputs may be spent.
pub ghost enum TransparentSource {
    /// Those received at any transparent address of the account.
    AnyAccountAddr,
    /// Those received at one of the given addresses.
    FromAddresses(Set<TransparentAddress>),
}

/// What a transparent spend policy permits.
pub ghost struct TransparentRule {
    pub source: TransparentSource,
    /// Whether coinbase outputs are what is spent; otherwise only others are.
    pub coinbase: bool,
}

/// Declares `zcash_client_backend`'s `SpendPolicy`.
#[verifier::external_type_specification]
#[verifier::external_body]
pub struct ExSpendPolicy(SpendPolicy);

/// Declares `zcash_client_backend`'s `TransparentSpendPolicy`.
#[verifier::external_type_specification]
#[verifier::external_body]
pub struct ExTransparentSpendPolicy(TransparentSpendPolicy);

/// The shielded pools that a policy permits notes to be selected from.
pub uninterp spec fn permitted_pools(policy: SpendPolicy) -> Set<ShieldedPool>;

/// What a policy permits of transparent outputs: nothing, or what a rule says.
pub uninterp spec fn permitted_transparent(policy: SpendPolicy) -> Option<TransparentRule>;

/// Whether a policy leaves out outputs that are locked.
pub uninterp spec fn leaves_out_locked(policy: SpendPolicy) -> bool;

/// Whether a policy selects the oldest notes first, as many as it takes.
pub uninterp spec fn selects_oldest_first(policy: SpendPolicy) -> bool;

/// What a transparent spend policy permits.
pub uninterp spec fn transparent_rule(policy: TransparentSpendPolicy) -> TransparentRule;

/// Calls `SpendPolicy::shielded_pools`.
///
/// Claimed: the policy permits exactly the given pools and no transparent output. It leaves
/// out locked outputs, and selects the oldest notes first.
#[verifier::external_body]
pub(crate) fn shielded_pools(pools: Vec<ShieldedPool>) -> (policy: SpendPolicy)
    ensures
        permitted_pools(policy) == pools@.to_set(),
        permitted_transparent(policy) is None,
        leaves_out_locked(policy),
        selects_oldest_first(policy),
{
    SpendPolicy::shielded_pools(pools.into_iter().map(|pool| match pool {
        ShieldedPool::Sapling => zcash_protocol::ShieldedPool::Sapling,
        ShieldedPool::Orchard => zcash_protocol::ShieldedPool::Orchard,
        ShieldedPool::Ironwood => zcash_protocol::ShieldedPool::Ironwood,
    }))
}

/// Calls `SpendPolicy::with_transparent`.
///
/// Claimed: what the policy permits of transparent outputs becomes what the given rule
/// permits; all else stays.
#[verifier::external_body]
pub(crate) fn with_transparent(policy: SpendPolicy, transparent: TransparentSpendPolicy) -> (r:
    SpendPolicy)
    ensures
        permitted_pools(r) == permitted_pools(policy),
        permitted_transparent(r) == Some(transparent_rule(transparent)),
        leaves_out_locked(r) == leaves_out_locked(policy),
        selects_oldest_first(r) == selects_oldest_first(policy),
{
    policy.with_transparent(transparent)
}

/// Calls `TransparentSpendPolicy::any_account_addr`.
///
/// Claimed: the rule names every transparent address of the account, and non-coinbase
/// outputs only.
#[verifier::external_body]
pub(crate) fn any_account_addr() -> (policy: TransparentSpendPolicy)
    ensures
        transparent_rule(policy) == (TransparentRule {
            source: TransparentSource::AnyAccountAddr,
            coinbase: false,
        }),
{
    TransparentSpendPolicy::any_account_addr()
}

/// Calls `TransparentSpendPolicy::from_addresses`.
///
/// Claimed: the rule names exactly the listed addresses, and non-coinbase outputs only.
#[verifier::external_body]
pub(crate) fn from_addresses(addresses: &NonEmpty<TransparentAddress>) -> (policy:
    TransparentSpendPolicy)
    ensures
        transparent_rule(policy) == (TransparentRule {
            source: TransparentSource::FromAddresses(transparent::nonempty_addresses(*addresses).to_set()),
            coinbase: false,
        }),
{
    TransparentSpendPolicy::from_addresses(addresses.clone().map(|address| match address {
        TransparentAddress::PublicKeyHash(hash) => BackendAddress::PublicKeyHash(hash),
        TransparentAddress::ScriptHash(hash) => BackendAddress::ScriptHash(hash),
    }))
}

} // verus!
