//! Laws of the `fund_source` parameter and of transparent addresses.

use nonempty::NonEmpty;
use vstd::prelude::*;
use zcash_client_backend::data_api::wallet::input_selection::SpendPolicy;

use crate::error::{LegacyCode, RpcError};
use crate::fund_source;
use crate::fund_source::{FundSource, JsonValue, SourceEntry};
use crate::laws;
use crate::network::Network;
use crate::spend_policy;
use crate::spend_policy::{ShieldedPool, TransparentRule, TransparentSource};
use crate::transparent;
use crate::transparent::{insert_ascending, place, DecodedAddress, Placement, TransparentAddress};

verus! {

/// The three names are different ones.
proof fn lemma_names_differ()
    ensures
        "orchard"@ != "sapling"@,
        "orchard"@ != "any_transparent"@,
        "sapling"@ != "any_transparent"@,
{
    reveal_strlit("orchard");
    reveal_strlit("sapling");
    reveal_strlit("any_transparent");
    assert("orchard"@[0] != "sapling"@[0]);
    assert("orchard"@[0] != "any_transparent"@[0]);
    assert("sapling"@[0] != "any_transparent"@[0]);
}

/// Whoever names `sapling` spends Sapling notes and nothing else, on every network.
pub proof fn sapling_spends_sapling_notes_alone(
    text: String,
    network: Network,
    parsed: Result<FundSource, RpcError>,
)
    requires
        text@ == "sapling"@,
        call_ensures(FundSource::parse, (&JsonValue::String(text), network), parsed),
    ensures
        parsed matches Ok(source) && forall|policy: SpendPolicy| #[trigger]
            call_ensures(FundSource::spend_policy, (&source,), policy) ==> {
                &&& spend_policy::permitted_pools(policy) == set![ShieldedPool::Sapling]
                &&& spend_policy::permitted_transparent(policy) is None
            },
{
    lemma_names_differ();
}

/// Whoever names `orchard` spends Orchard and Ironwood notes and nothing else, on every network.
pub proof fn orchard_spends_orchard_shaped_notes_alone(
    text: String,
    network: Network,
    parsed: Result<FundSource, RpcError>,
)
    requires
        text@ == "orchard"@,
        call_ensures(FundSource::parse, (&JsonValue::String(text), network), parsed),
    ensures
        parsed matches Ok(source) && forall|policy: SpendPolicy| #[trigger]
            call_ensures(FundSource::spend_policy, (&source,), policy) ==> {
                &&& spend_policy::permitted_pools(policy) == set![
                    ShieldedPool::Orchard,
                    ShieldedPool::Ironwood,
                ]
                &&& spend_policy::permitted_transparent(policy) is None
            },
{
    lemma_names_differ();
}

/// Whoever names `any_transparent` spends transparent outputs at any of the account's
/// addresses, none of them a coinbase output, and no notes, on every network.
pub proof fn any_transparent_spends_transparent_outputs_alone(
    text: String,
    network: Network,
    parsed: Result<FundSource, RpcError>,
)
    requires
        text@ == "any_transparent"@,
        call_ensures(FundSource::parse, (&JsonValue::String(text), network), parsed),
    ensures
        parsed matches Ok(source) && forall|policy: SpendPolicy| #[trigger]
            call_ensures(FundSource::spend_policy, (&source,), policy) ==> {
                &&& spend_policy::permitted_pools(policy) == Set::<ShieldedPool>::empty()
                &&& spend_policy::permitted_transparent(policy) == Some(
                    TransparentRule { source: TransparentSource::AnyAccountAddr, coinbase: false },
                )
            },
{
    lemma_names_differ();
}

/// No other string names a source, and the caller is told which one was not understood.
pub proof fn no_other_string_names_a_source(
    text: String,
    network: Network,
    parsed: Result<FundSource, RpcError>,
)
    requires
        text@ != "orchard"@,
        text@ != "sapling"@,
        text@ != "any_transparent"@,
        call_ensures(FundSource::parse, (&JsonValue::String(text), network), parsed),
    ensures
        parsed matches Err(e) && e.code == LegacyCode::InvalidParameter
            && laws::message_names_with(e.message, "err-fund-source-unknown"@, "given"@, text@),
{
}

/// A string is the same source on every network, or is refused in the same way.
pub proof fn names_mean_the_same_on_every_network(
    text: String,
    network_a: Network,
    network_b: Network,
    parsed_a: Result<FundSource, RpcError>,
    parsed_b: Result<FundSource, RpcError>,
)
    requires
        call_ensures(FundSource::parse, (&JsonValue::String(text), network_a), parsed_a),
        call_ensures(FundSource::parse, (&JsonValue::String(text), network_b), parsed_b),
    ensures
        match (parsed_a, parsed_b) {
            (Ok(a), Ok(b)) => a == b,
            (Err(a), Err(b)) => a@ == b@,
            _ => false,
        },
{
}

/// What is neither a string nor an array is no source.
pub proof fn only_strings_and_arrays_are_sources(
    value: JsonValue,
    network: Network,
    parsed: Result<FundSource, RpcError>,
)
    requires
        !(value is String),
        !(value is Array),
        call_ensures(FundSource::parse, (&value, network), parsed),
    ensures
        parsed matches Err(e) && e.code == LegacyCode::InvalidParameter && laws::message_names(
            e.message,
            "err-fund-source-not-a-source"@,
        ),
{
}

/// The sources that a caller can name are isolated: the Ironwood pool is never drawn upon on
/// its own, and a source draws either upon notes or upon transparent outputs.
pub proof fn parsed_sources_are_isolated(
    value: JsonValue,
    network: Network,
    source: FundSource,
    policy: SpendPolicy,
)
    requires
        call_ensures(
            FundSource::parse,
            (&value, network),
            Ok::<FundSource, RpcError>(source),
        ),
        call_ensures(FundSource::spend_policy, (&source,), policy),
    ensures
        source != FundSource::Ironwood,
        spend_policy::permitted_pools(policy).contains(ShieldedPool::Ironwood)
            <==> spend_policy::permitted_pools(policy).contains(ShieldedPool::Orchard),
        spend_policy::permitted_pools(policy).contains(ShieldedPool::Sapling)
            ==> !spend_policy::permitted_pools(policy).contains(ShieldedPool::Orchard),
        spend_policy::permitted_transparent(policy) is Some <==> forall|pool: ShieldedPool|
            !#[trigger] spend_policy::permitted_pools(policy).contains(pool),
        spend_policy::permitted_transparent(policy) matches Some(rule) ==> !rule.coinbase,
        spend_policy::leaves_out_locked(policy),
        spend_policy::selects_oldest_first(policy),
{
    let pools = spend_policy::permitted_pools(policy);
    match source {
        FundSource::Orchard => {
            assert(pools.contains(ShieldedPool::Orchard));
        },
        FundSource::Sapling => {
            assert(pools.contains(ShieldedPool::Sapling));
        },
        _ => {},
    }
}

/// The Ironwood source draws upon Ironwood notes and nothing else.
pub proof fn ironwood_spends_ironwood_notes_alone(policy: SpendPolicy)
    requires
        call_ensures(FundSource::spend_policy, (&FundSource::Ironwood,), policy),
    ensures
        spend_policy::permitted_pools(policy) == set![ShieldedPool::Ironwood],
        spend_policy::permitted_transparent(policy) is None,
        spend_policy::leaves_out_locked(policy),
        spend_policy::selects_oldest_first(policy),
{
}

/// A source of given addresses draws upon exactly those, and upon no coinbase output and no
/// note.
pub proof fn addresses_are_spent_from_alone(
    list: NonEmpty<TransparentAddress>,
    policy: SpendPolicy,
)
    requires
        call_ensures(FundSource::spend_policy, (&FundSource::Transparent(list),), policy),
    ensures
        spend_policy::permitted_pools(policy) == Set::<ShieldedPool>::empty(),
        spend_policy::permitted_transparent(policy) == Some(
            TransparentRule {
                source: TransparentSource::FromAddresses(
                    transparent::nonempty_addresses(list).to_set(),
                ),
                coinbase: false,
            },
        ),
        spend_policy::leaves_out_locked(policy),
        spend_policy::selects_oldest_first(policy),
{
}

/// The transparent address that an item of an array stands for on a network, if it stands for
/// one.
pub open spec fn item_address(network: Network, item: JsonValue) -> Option<TransparentAddress> {
    match item {
        JsonValue::String(text) => match transparent::address_decoding(network, text@) {
            Some(DecodedAddress::Transparent(address)) => Some(address),
            _ => None,
        },
        _ => None,
    }
}

/// An array is a source if and only if it has items and each of them is a transparent address.
/// Exactly those addresses are drawn upon, none of their outputs a coinbase output, and no
/// notes.
pub proof fn arrays_spend_from_their_addresses_alone(
    items: Vec<JsonValue>,
    network: Network,
    parsed: Result<FundSource, RpcError>,
    address: TransparentAddress,
)
    requires
        call_ensures(FundSource::parse, (&JsonValue::Array(items), network), parsed),
    ensures
        parsed is Ok <==> items@.len() > 0 && forall|i: int|
            0 <= i < items@.len() ==> item_address(network, #[trigger] items@[i]) is Some,
        parsed matches Ok(source) ==> forall|policy: SpendPolicy| #[trigger]
            call_ensures(FundSource::spend_policy, (&source,), policy) ==> {
                &&& spend_policy::permitted_pools(policy) == Set::<ShieldedPool>::empty()
                &&& spend_policy::permitted_transparent(policy) matches Some(rule)
                &&& !rule.coinbase
                &&& rule.source matches TransparentSource::FromAddresses(set)
                &&& set.contains(address) <==> exists|i: int|
                    0 <= i < items@.len() && item_address(network, #[trigger] items@[i]) == Some(
                        address,
                    )
            },
{
    let entries = items@.map_values(|item: JsonValue| fund_source::entry_of(network, item));
    assert forall|i: int| 0 <= i < items@.len() implies (item_address(
        network,
        #[trigger] items@[i],
    ) is Some <==> fund_source::entry_outcome(entries[i]) is Ok) && (item_address(
        network,
        items@[i],
    ) matches Some(a) ==> fund_source::entry_outcome(entries[i])->Ok_0 == a) by {}
    match parsed {
        Err(e) => {
            if items@.len() > 0 {
                let i = choose|i: int| #[trigger]
                    fund_source::first_refusal(entries, i) && fund_source::entry_outcome(entries[i])
                        == Err::<TransparentAddress, crate::error::RpcErrorView>(e@);
                assert(fund_source::first_refusal(entries, i));
                assert(item_address(network, items@[i]) is None);
            }
        },
        Ok(source) => {
            assert forall|i: int| 0 <= i < items@.len() implies item_address(
                network,
                #[trigger] items@[i],
            ) is Some by {
                assert(fund_source::entry_outcome(entries[i]) is Ok);
            }
            let named = entries.map_values(
                |entry: fund_source::EntryView| fund_source::entry_outcome(entry)->Ok_0,
            );
            assert(named.to_set().contains(address) <==> exists|i: int|
                0 <= i < items@.len() && item_address(network, #[trigger] items@[i]) == Some(
                    address,
                )) by {
                if named.contains(address) {
                    let i = choose|i: int| 0 <= i < named.len() && named[i] == address;
                    assert(item_address(network, items@[i]) == Some(address));
                }
                if exists|i: int|
                    0 <= i < items@.len() && item_address(network, #[trigger] items@[i]) == Some(
                        address,
                    ) {
                    let i = choose|i: int|
                        0 <= i < items@.len() && item_address(network, #[trigger] items@[i])
                            == Some(address);
                    assert(named[i] == address);
                }
            }
        },
    }
}

/// An array is refused for its first item that is no transparent address: as no string, or as
/// a string that is no transparent address. An array without items is refused as empty.
pub proof fn the_first_wrong_item_is_what_the_caller_is_told(
    items: Vec<JsonValue>,
    network: Network,
    parsed: Result<FundSource, RpcError>,
    first: int,
)
    requires
        call_ensures(FundSource::parse, (&JsonValue::Array(items), network), parsed),
        items@.len() == 0 || (0 <= first < items@.len() && item_address(network, items@[first])
            is None && forall|j: int|
            0 <= j < first ==> item_address(network, #[trigger] items@[j]) is Some),
    ensures
        parsed matches Err(e) && e.code == LegacyCode::InvalidParameter && if items@.len() == 0 {
            laws::message_names(e.message, "err-fund-source-empty-array"@)
        } else {
            match items@[first] {
                JsonValue::String(text) => laws::message_names_with(
                    e.message,
                    "err-fund-source-not-transparent"@,
                    "address"@,
                    text@,
                ),
                _ => laws::message_names(e.message, "err-fund-source-non-string-entry"@),
            }
        },
{
    let entries = items@.map_values(|item: JsonValue| fund_source::entry_of(network, item));
    if items@.len() > 0 {
        assert(fund_source::entry_outcome(entries[first]) is Err);
        let e = parsed->Err_0;
        let i = choose|i: int| #[trigger]
            fund_source::first_refusal(entries, i) && fund_source::entry_outcome(entries[i])
                == Err::<TransparentAddress, crate::error::RpcErrorView>(e@);
        assert(fund_source::first_refusal(entries, i));
        assert(i == first) by {
            if i < first {
                assert(item_address(network, items@[i]) is Some);
            } else if first < i {
                assert(fund_source::entry_outcome(entries[first]) is Ok);
            }
        }
    }
}

/// Entries that have been decoded are judged by what they were decoded to, not by their text:
/// they are a source if and only if there are some and each is a transparent address, and the
/// source holds exactly those addresses.
pub proof fn decoded_entries_are_judged_by_their_address(
    entries: Vec<SourceEntry>,
    parsed: Result<FundSource, RpcError>,
    address: TransparentAddress,
)
    requires
        call_ensures(FundSource::from_entries, (&entries,), parsed),
    ensures
        parsed is Ok <==> entries@.len() > 0 && forall|i: int|
            0 <= i < entries@.len() ==> ((#[trigger] entries@[i]) matches SourceEntry::Text {
                text: _,
                decoded: Some(DecodedAddress::Transparent(_)),
            }),
        parsed matches Ok(source) ==> (source matches FundSource::Transparent(list)
            && transparent::nonempty_addresses(list).contains(address) <==> exists|i: int|
            0 <= i < entries@.len() && ((#[trigger] entries@[i]) matches SourceEntry::Text {
                text: _,
                decoded: Some(DecodedAddress::Transparent(own)),
            } && own == address)),
{
    let views = entries@.map_values(|entry: SourceEntry| entry@);
    match parsed {
        Err(e) => {
            if entries@.len() > 0 {
                let i = choose|i: int| #[trigger]
                    fund_source::first_refusal(views, i) && fund_source::entry_outcome(views[i])
                        == Err::<TransparentAddress, crate::error::RpcErrorView>(e@);
                assert(fund_source::first_refusal(views, i));
                assert(views[i] == entries@[i]@);
            }
        },
        Ok(source) => {
            assert forall|i: int| 0 <= i < entries@.len() implies ((#[trigger] entries@[i]) matches
                SourceEntry::Text {
                text: _,
                decoded: Some(DecodedAddress::Transparent(_)),
            }) by {
                assert(fund_source::entry_outcome(views[i]) is Ok);
            }
            let named = views.map_values(
                |entry: fund_source::EntryView| fund_source::entry_outcome(entry)->Ok_0,
            );
            let list = transparent::nonempty_addresses(source->Transparent_0);
            assert(list.contains(address) <==> list.to_set().contains(address));
            assert(list.to_set() == named.to_set());
            if named.contains(address) {
                let i = choose|i: int| 0 <= i < named.len() && named[i] == address;
                assert(views[i] == entries@[i]@);
            }
            if exists|i: int|
                0 <= i < entries@.len() && ((#[trigger] entries@[i]) matches SourceEntry::Text {
                    text: _,
                    decoded: Some(DecodedAddress::Transparent(own)),
                } && own == address) {
                let i = choose|i: int|
                    0 <= i < entries@.len() && ((#[trigger] entries@[i]) matches SourceEntry::Text {
                        text: _,
                        decoded: Some(DecodedAddress::Transparent(own)),
                    } && own == address);
                assert(views[i] == entries@[i]@);
                assert(named[i] == address);
            }
        },
    }
}

/// The hash that an address consists of.
pub open spec fn hash_of(address: TransparentAddress) -> Seq<u8> {
    match address {
        TransparentAddress::PublicKeyHash(hash) => hash@,
        TransparentAddress::ScriptHash(hash) => hash@,
    }
}

/// Whether `a` comes before `b` where addresses are listed: public key hashes come before
/// script hashes, and hashes of one kind are ordered by their first byte that differs.
pub open spec fn comes_before(a: TransparentAddress, b: TransparentAddress) -> bool {
    ||| a is PublicKeyHash && b is ScriptHash
    ||| {
        &&& a is PublicKeyHash <==> b is PublicKeyHash
        &&& exists|i: int|
            #![trigger hash_of(a)[i], hash_of(b)[i]]
            0 <= i < 20 && hash_of(a)[i] < hash_of(b)[i] && forall|j: int|
                0 <= j < i ==> hash_of(a)[j] == hash_of(b)[j]
    }
}

/// The order of addresses is that of their kinds and hashes.
proof fn lemma_order_of_addresses(a: TransparentAddress, b: TransparentAddress)
    ensures
        transparent::address_before(a, b) <==> comes_before(a, b),
{
    reveal(transparent::address_before);
    let (k, l) = (a.key(), b.key());
    let (x, y) = (hash_of(a), hash_of(b));
    assert(forall|i: int| 0 <= i < 20 ==> k[i + 1] == #[trigger] x[i]);
    assert(forall|i: int| 0 <= i < 20 ==> l[i + 1] == #[trigger] y[i]);
    if transparent::lex_before(k, l) {
        let i = choose|i: int|
            #![trigger k[i], l[i]]
            0 <= i < k.len() && i < l.len() && k[i] < l[i] && forall|j: int|
                0 <= j < i ==> k[j] == l[j];
        if i > 0 {
            assert(k[0] == l[0]);
            assert(x[i - 1] < y[i - 1]);
            assert forall|j: int| 0 <= j < i - 1 implies x[j] == y[j] by {
                assert(k[j + 1] == l[j + 1]);
            }
        }
    }
    if comes_before(a, b) {
        if k[0] == l[0] {
            let i = choose|i: int|
                #![trigger x[i], y[i]]
                0 <= i < 20 && x[i] < y[i] && forall|j: int| 0 <= j < i ==> x[j] == y[j];
            assert(k[i + 1] < l[i + 1]);
            assert forall|j: int| 0 <= j < i + 1 implies k[j] == l[j] by {
                if j > 0 {
                    assert(x[j - 1] == y[j - 1]);
                }
            }
        } else {
            assert(k[0] < l[0]);
        }
    }
}

/// Two addresses are compared as they are listed.
pub proof fn addresses_are_placed_as_they_are_listed(
    a: TransparentAddress,
    b: TransparentAddress,
    placement: Placement,
)
    requires
        call_ensures(place, (&a, &b), placement),
    ensures
        placement == Placement::Before <==> comes_before(a, b),
        placement == Placement::Same <==> a == b,
        placement == Placement::After <==> comes_before(b, a),
{
    lemma_order_of_addresses(a, b);
    lemma_order_of_addresses(b, a);
}

/// An address is added to an ordered list where it belongs, and only if it is not there: the
/// list stays in order, and holds what it held and the address.
pub proof fn addresses_are_added_in_order(
    list: &mut Vec<TransparentAddress>,
    address: TransparentAddress,
    other: TransparentAddress,
    i: int,
    j: int,
)
    requires
        call_ensures(insert_ascending, (list, address), ()),
    ensures
        final(list)@.contains(other) <==> old(list)@.contains(other) || other == address,
        0 <= i < j < final(list)@.len() ==> comes_before(final(list)@[i], final(list)@[j]),
{
    let after = final(list)@;
    assert(after.contains(other) <==> after.to_set().contains(other));
    assert(old(list)@.contains(other) <==> old(list)@.to_set().contains(other));
    if 0 <= i < j < after.len() {
        assert(transparent::address_before(after[i], after[j]));
        lemma_order_of_addresses(after[i], after[j]);
    }
}

/// A parsed source lists its addresses in order, each of them once.
pub proof fn parsed_addresses_are_listed_in_order(
    items: Vec<JsonValue>,
    network: Network,
    source: FundSource,
    i: int,
    j: int,
)
    requires
        call_ensures(
            FundSource::parse,
            (&JsonValue::Array(items), network),
            Ok::<FundSource, RpcError>(source),
        ),
    ensures
        source matches FundSource::Transparent(list) && (0 <= i < j
            < transparent::nonempty_addresses(list).len() ==> comes_before(
            transparent::nonempty_addresses(list)[i],
            transparent::nonempty_addresses(list)[j],
        )),
{
    let list = transparent::nonempty_addresses(source->Transparent_0);
    if 0 <= i < j < list.len() {
        assert(transparent::address_before(list[i], list[j]));
        lemma_order_of_addresses(list[i], list[j]);
    }
}

} // verus!
