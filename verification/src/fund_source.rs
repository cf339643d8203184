//! The `fund_source` parameter of the account-based transaction methods.
//!
//! `fund_source` names where an account's funds may be drawn from. It is turned into a spend
//! policy, which is what the proposal builder consumes.

use nonempty::NonEmpty;
use vstd::prelude::*;
use zcash_client_backend::data_api::wallet::input_selection::SpendPolicy;

use crate::error;
use crate::error::{LegacyCode, Message, RpcError};
use crate::network::Network;
use crate::spend_policy;
use crate::spend_policy::{any_account_addr, from_addresses, shielded_pools, with_transparent, ShieldedPool};
use crate::text::str_eq;
use crate::transparent;
use crate::transparent::{decode_address, insert_ascending, nonempty_from, DecodedAddress, TransparentAddress};

verus! {

/// A JSON value, as far as parameters are read: strings and arrays keep what they hold.
#[derive(Debug, PartialEq, Eq)]
pub enum JsonValue {
    Null,
    Bool(bool),
    Number,
    String(String),
    Array(Vec<JsonValue>),
    Object,
}

/// Where an account's funds may be drawn from when constructing a transaction.
#[derive(Debug, PartialEq, Eq)]
pub enum FundSource {
    /// Spend only Orchard-family notes.
    Orchard,
    /// Spend only Ironwood notes.
    Ironwood,
    /// Spend only Sapling notes.
    Sapling,
    /// Spend any of the account's transparent funds.
    AnyTransparent,
    /// Spend only transparent funds received at the given transparent addresses.
    ///
    /// Parsing puts them in ascending order, each of them once, so that equal sets of
    /// addresses compare equal however the caller wrote them.
    Transparent(NonEmpty<TransparentAddress>),
}

/// What one entry of an array of addresses was found to be.
#[derive(Debug, PartialEq, Eq)]
pub enum SourceEntry {
    /// Something other than a string.
    NotText,
    /// A string, and the address that it encodes, if any.
    Text { text: String, decoded: Option<DecodedAddress> },
}

/// What a [`SourceEntry`] says.
pub ghost enum EntryView {
    NotText,
    Text { text: Seq<char>, decoded: Option<DecodedAddress> },
}

impl View for SourceEntry {
    type V = EntryView;

    open spec fn view(&self) -> EntryView {
        match *self {
            SourceEntry::NotText => EntryView::NotText,
            SourceEntry::Text { text, decoded } => EntryView::Text { text: text@, decoded },
        }
    }
}

/// The refusal of a string that names no source.
pub open spec fn unknown_source(given: Seq<char>) -> error::RpcErrorView {
    error::rpc_error(
        LegacyCode::InvalidParameter,
        error::localized_with("err-fund-source-unknown"@, "given"@, given),
    )
}

/// The refusal of a value that is neither a string nor an array.
pub open spec fn not_a_source() -> error::RpcErrorView {
    error::rpc_error(
        LegacyCode::InvalidParameter,
        error::localized("err-fund-source-not-a-source"@),
    )
}

/// The refusal of an array without entries.
pub open spec fn empty_array() -> error::RpcErrorView {
    error::rpc_error(
        LegacyCode::InvalidParameter,
        error::localized("err-fund-source-empty-array"@),
    )
}

/// The address that an entry names, or why the entry is refused.
pub open spec fn entry_outcome(entry: EntryView) -> Result<
    TransparentAddress,
    error::RpcErrorView,
> {
    match entry {
        EntryView::NotText => Err(
            error::rpc_error(
                LegacyCode::InvalidParameter,
                error::localized("err-fund-source-non-string-entry"@),
            ),
        ),
        EntryView::Text { text, decoded } => match decoded {
            Some(DecodedAddress::Transparent(address)) => Ok(address),
            _ => Err(
                error::rpc_error(
                    LegacyCode::InvalidParameter,
                    error::localized_with("err-fund-source-not-transparent"@, "address"@, text),
                ),
            ),
        },
    }
}

/// Whether the entry at `i` is the first one that is refused.
pub open spec fn first_refusal(entries: Seq<EntryView>, i: int) -> bool {
    &&& 0 <= i < entries.len()
    &&& entry_outcome(entries[i]) is Err
    &&& forall|j: int| 0 <= j < i ==> entry_outcome(#[trigger] entries[j]) is Ok
}

/// The addresses that entries name, when none of them is refused.
pub open spec fn named_addresses(entries: Seq<EntryView>) -> Set<TransparentAddress> {
    entries.map_values(|entry: EntryView| entry_outcome(entry)->Ok_0).to_set()
}

/// Whether `r` is what an array with the given entries is parsed to.
///
/// The first refused entry decides the error; an array without entries is refused too. Every
/// other array names the addresses of its entries, listed in ascending order.
pub open spec fn entries_parse_to(
    entries: Seq<EntryView>,
    r: Result<FundSource, RpcError>,
) -> bool {
    match r {
        Err(e) => {
            ||| entries.len() == 0 && e@ == empty_array()
            ||| exists|i: int| #[trigger]
                first_refusal(entries, i) && entry_outcome(entries[i]) == Err::<
                    TransparentAddress,
                    error::RpcErrorView,
                >(e@)
        },
        Ok(source) => {
            &&& entries.len() > 0
            &&& forall|i: int| 0 <= i < entries.len() ==> entry_outcome(#[trigger] entries[i]) is Ok
            &&& source matches FundSource::Transparent(list)
            &&& transparent::strictly_ascending(transparent::nonempty_addresses(list))
            &&& transparent::nonempty_addresses(list).to_set() == named_addresses(entries)
        },
    }
}

/// What an item of a JSON array is as an entry, on the given network.
pub open spec fn entry_of(network: Network, item: JsonValue) -> EntryView {
    match item {
        JsonValue::String(text) => EntryView::Text {
            text: text@,
            decoded: transparent::address_decoding(network, text@),
        },
        _ => EntryView::NotText,
    }
}

/// Whether `r` is what `value` is parsed to on `network`.
pub open spec fn parses_to(
    value: JsonValue,
    network: Network,
    r: Result<FundSource, RpcError>,
) -> bool {
    match value {
        JsonValue::String(text) => if text@ == "orchard"@ {
            r == Ok::<_, RpcError>(FundSource::Orchard)
        } else if text@ == "sapling"@ {
            r == Ok::<_, RpcError>(FundSource::Sapling)
        } else if text@ == "any_transparent"@ {
            r == Ok::<_, RpcError>(FundSource::AnyTransparent)
        } else {
            r matches Err(e) && e@ == unknown_source(text@)
        },
        JsonValue::Array(items) => entries_parse_to(
            items@.map_values(|item: JsonValue| entry_of(network, item)),
            r,
        ),
        _ => r matches Err(e) && e@ == not_a_source(),
    }
}

/// Whether the items of a JSON array are the written forms of the given addresses, each with an
/// upper-case letter.
pub open spec fn writes_addresses(
    network: Network,
    items: Seq<JsonValue>,
    addresses: Seq<TransparentAddress>,
) -> bool {
    &&& items.len() == addresses.len()
    &&& forall|i: int|
        0 <= i < items.len() ==> ((#[trigger] items[i]) matches JsonValue::String(text)
            && transparent::has_upper_case(text@) && text@ == transparent::transparent_encoding(
            network,
            addresses[i],
        ))
}

/// Whether `r` is the source that draws upon the given addresses alone.
pub open spec fn draws_upon(
    addresses: Seq<TransparentAddress>,
    r: Result<FundSource, RpcError>,
) -> bool {
    r matches Ok(FundSource::Transparent(list)) && transparent::strictly_ascending(
        transparent::nonempty_addresses(list),
    ) && transparent::nonempty_addresses(list).to_set() == addresses.to_set()
}

/// What is found in the items of an array that writes addresses out is those addresses.
proof fn lemma_written_addresses_are_named(
    network: Network,
    items: Seq<JsonValue>,
    addresses: Seq<TransparentAddress>,
    r: Result<FundSource, RpcError>,
)
    requires
        items.len() > 0,
        writes_addresses(network, items, addresses),
        forall|i: int|
            0 <= i < items.len() ==> ((#[trigger] items[i]) matches JsonValue::String(text)
                ==> transparent::written_addresses_are_found(
                network,
                text@,
                transparent::address_decoding(network, text@),
            )),
        entries_parse_to(items.map_values(|item: JsonValue| entry_of(network, item)), r),
    ensures
        draws_upon(addresses, r),
{
    let entries = items.map_values(|item: JsonValue| entry_of(network, item));
    assert forall|i: int| 0 <= i < entries.len() implies entry_outcome(#[trigger] entries[i])
        == Ok::<TransparentAddress, error::RpcErrorView>(addresses[i]) by {
        let item = items[i];
        assert(item is String);
        assert(transparent::transparent_encoding(network, addresses[i]) == item->String_0@);
    }
    assert(entries.map_values(|entry: EntryView| entry_outcome(entry)->Ok_0) =~= addresses);
}

impl FundSource {
    /// Parses a `fund_source` JSON-RPC argument.
    ///
    /// Accepts either one of the strings `"orchard"`, `"sapling"`, `"any_transparent"`, or a
    /// non-empty array of transparent address strings. An array of written-out addresses draws
    /// upon those addresses alone.
    pub fn parse(value: &JsonValue, network: Network) -> (r: Result<Self, RpcError>)
        ensures
            parses_to(*value, network, r),
            value matches JsonValue::Array(items) ==> forall|addresses: Seq<TransparentAddress>|
                items@.len() > 0 && #[trigger] writes_addresses(network, items@, addresses)
                    ==> draws_upon(addresses, r),
    {
        match value {
            JsonValue::String(text) => {
                if str_eq(text.as_str(), "orchard") {
                    Ok(FundSource::Orchard)
                } else if str_eq(text.as_str(), "sapling") {
                    Ok(FundSource::Sapling)
                } else if str_eq(text.as_str(), "any_transparent") {
                    Ok(FundSource::AnyTransparent)
                } else {
                    Err(
                        LegacyCode::InvalidParameter.with_message(
                            Message::localized_with(
                                "err-fund-source-unknown",
                                "given",
                                text.as_str(),
                            ),
                        ),
                    )
                }
            },
            JsonValue::Array(items) => {
                let mut entries: Vec<SourceEntry> = Vec::new();
                let mut i: usize = 0;
                while i < items.len()
                    invariant
                        i <= items@.len(),
                        entries@.len() == i,
                        forall|j: int|
                            0 <= j < i ==> #[trigger] entries@[j]@ == entry_of(network, items@[j]),
                        forall|j: int|
                            0 <= j < i ==> ((#[trigger] items@[j]) matches JsonValue::String(text)
                                ==> transparent::written_addresses_are_found(
                                network,
                                text@,
                                transparent::address_decoding(network, text@),
                            )),
                    decreases items.len() - i,
                {
                    entries.push(
                        match &items[i] {
                            JsonValue::String(text) => SourceEntry::Text {
                                text: text.clone(),
                                decoded: decode_address(network, text.as_str()),
                            },
                            _ => SourceEntry::NotText,
                        },
                    );
                    i = i + 1;
                }
                assert(entries@.map_values(|entry: SourceEntry| entry@) =~= items@.map_values(
                    |item: JsonValue| entry_of(network, item),
                ));
                let r = FundSource::from_entries(&entries);
                proof {
                    assert forall|addresses: Seq<TransparentAddress>|
                        items@.len() > 0 && #[trigger] writes_addresses(
                            network,
                            items@,
                            addresses,
                        ) implies draws_upon(addresses, r) by {
                        lemma_written_addresses_are_named(network, items@, addresses, r);
                    }
                }
                r
            },
            _ => Err(
                LegacyCode::InvalidParameter.with_message(
                    Message::localized("err-fund-source-not-a-source"),
                ),
            ),
        }
    }

    /// Parses an array of addresses whose entries have been decoded.
    pub fn from_entries(entries: &Vec<SourceEntry>) -> (r: Result<Self, RpcError>)
        ensures
            entries_parse_to(entries@.map_values(|entry: SourceEntry| entry@), r),
    {
        let ghost views = entries@.map_values(|entry: SourceEntry| entry@);
        let ghost outcomes = views.map_values(|entry: EntryView| entry_outcome(entry)->Ok_0);
        let mut list: Vec<TransparentAddress> = Vec::new();
        let mut i: usize = 0;
        assert(list@.to_set() =~= outcomes.take(0).to_set());
        while i < entries.len()
            invariant
                i <= entries@.len(),
                views == entries@.map_values(|entry: SourceEntry| entry@),
                outcomes == views.map_values(|entry: EntryView| entry_outcome(entry)->Ok_0),
                transparent::strictly_ascending(list@),
                list@.to_set() == outcomes.take(i as int).to_set(),
                forall|j: int| 0 <= j < i ==> entry_outcome(#[trigger] views[j]) is Ok,
            decreases entries.len() - i,
        {
            assert(views[i as int] == entries@[i as int]@);
            let address = match &entries[i] {
                SourceEntry::NotText => {
                    assert(first_refusal(views, i as int));
                    return Err(
                        LegacyCode::InvalidParameter.with_message(
                            Message::localized("err-fund-source-non-string-entry"),
                        ),
                    );
                },
                SourceEntry::Text { text, decoded } => match decoded {
                    Some(DecodedAddress::Transparent(address)) => *address,
                    _ => {
                        assert(first_refusal(views, i as int));
                        return Err(
                            LegacyCode::InvalidParameter.with_message(
                                Message::localized_with(
                                    "err-fund-source-not-transparent",
                                    "address",
                                    text.as_str(),
                                ),
                            ),
                        );
                    },
                },
            };
            insert_ascending(&mut list, address);
            proof {
                assert(outcomes[i as int] == address);
                lemma_to_set_grows(outcomes, i as int);
            }
            i = i + 1;
        }
        assert(outcomes.take(i as int) =~= outcomes);
        if list.len() == 0 {
            proof {
                if entries@.len() > 0 {
                    assert(outcomes.contains(outcomes[0]));
                    assert(list@.to_set().contains(outcomes[0]));
                }
            }
            return Err(
                LegacyCode::InvalidParameter.with_message(
                    Message::localized("err-fund-source-empty-array"),
                ),
            );
        }
        let ghost all = list@;
        proof {
            assert(list@.to_set().contains(list@[0]));
        }
        let first = list.remove(0);
        let rest = list;
        assert(seq![first] + rest@ =~= all);
        Ok(FundSource::Transparent(nonempty_from(first, rest)))
    }

    /// The pools that this source permits notes to be drawn from.
    pub open spec fn pools(self) -> Set<ShieldedPool> {
        match self {
            FundSource::Orchard => set![ShieldedPool::Orchard, ShieldedPool::Ironwood],
            FundSource::Ironwood => set![ShieldedPool::Ironwood],
            FundSource::Sapling => set![ShieldedPool::Sapling],
            FundSource::AnyTransparent | FundSource::Transparent(_) => Set::empty(),
        }
    }

    /// What this source permits of transparent outputs. Coinbase outputs are never drawn upon.
    pub open spec fn transparent_rule(self) -> Option<spend_policy::TransparentRule> {
        match self {
            FundSource::Orchard | FundSource::Ironwood | FundSource::Sapling => None,
            FundSource::AnyTransparent => Some(
                spend_policy::TransparentRule {
                    source: spend_policy::TransparentSource::AnyAccountAddr,
                    coinbase: false,
                },
            ),
            FundSource::Transparent(list) => Some(
                spend_policy::TransparentRule {
                    source: spend_policy::TransparentSource::FromAddresses(
                        transparent::nonempty_addresses(list).to_set(),
                    ),
                    coinbase: false,
                },
            ),
        }
    }

    /// The sources of funds the proposal builder may draw upon for this `fund_source`.
    ///
    /// Each variant names exactly one kind of input and forbids the rest: naming `sapling`
    /// must not quietly spend an Orchard note, and naming a transparent address must not
    /// quietly spend a shielded one.
    ///
    /// `Orchard` permits the Ironwood pool as well. Ironwood notes are Orchard-shaped, and
    /// once NU6.3 activates an account's Orchard-receiver funds are held there.
    pub fn spend_policy(&self) -> (policy: SpendPolicy)
        ensures
            spend_policy::permitted_pools(policy) == self.pools(),
            spend_policy::permitted_transparent(policy) == self.transparent_rule(),
            spend_policy::leaves_out_locked(policy),
            spend_policy::selects_oldest_first(policy),
    {
        match self {
            FundSource::Orchard => {
                let pools = vec![ShieldedPool::Orchard, ShieldedPool::Ironwood];
                assert(pools@.to_set() =~= self.pools()) by {
                    assert(pools@[0] == ShieldedPool::Orchard);
                    assert(pools@[1] == ShieldedPool::Ironwood);
                }
                shielded_pools(pools)
            },
            FundSource::Ironwood => {
                let pools = vec![ShieldedPool::Ironwood];
                assert(pools@.to_set() =~= self.pools()) by {
                    assert(pools@[0] == ShieldedPool::Ironwood);
                }
                shielded_pools(pools)
            },
            FundSource::Sapling => {
                let pools = vec![ShieldedPool::Sapling];
                assert(pools@.to_set() =~= self.pools()) by {
                    assert(pools@[0] == ShieldedPool::Sapling);
                }
                shielded_pools(pools)
            },
            FundSource::AnyTransparent => {
                let pools: Vec<ShieldedPool> = Vec::new();
                assert(pools@.to_set() =~= self.pools());
                with_transparent(shielded_pools(pools), any_account_addr())
            },
            FundSource::Transparent(addresses) => {
                let pools: Vec<ShieldedPool> = Vec::new();
                assert(pools@.to_set() =~= self.pools());
                with_transparent(shielded_pools(pools), from_addresses(addresses))
            },
        }
    }
}

proof fn lemma_to_set_grows(s: Seq<TransparentAddress>, i: int)
    requires
        0 <= i < s.len(),
    ensures
        s.take(i + 1).to_set() == s.take(i).to_set().insert(s[i]),
{
    let (a, b) = (s.take(i), s.take(i + 1));
    assert forall|x: TransparentAddress| b.to_set().contains(x) == a.to_set().insert(s[i]).contains(
        x,
    ) by {
        if b.contains(x) {
            let k = choose|k: int| 0 <= k < b.len() && b[k] == x;
            if k < i {
                assert(a[k] == x);
            }
        }
        if a.contains(x) {
            let k = choose|k: int| 0 <= k < a.len() && a[k] == x;
            assert(b[k] == x);
        }
        assert(b[i] == s[i]);
    }
    assert(b.to_set() =~= a.to_set().insert(s[i]));
}

/// Each source permits exactly one kind of input: notes or transparent outputs, and of the
/// notes either Sapling's or Orchard-shaped ones. Coinbase outputs are never permitted.
pub proof fn sources_are_isolated(source: FundSource)
    ensures
        source.transparent_rule() is Some <==> source.pools() == Set::<ShieldedPool>::empty(),
        source.pools().contains(ShieldedPool::Sapling) ==> source.pools() == set![
            ShieldedPool::Sapling,
        ],
        source.transparent_rule() matches Some(rule) ==> !rule.coinbase,
{
    let pools = source.pools();
    match source {
        FundSource::Orchard => {
            assert(pools.contains(ShieldedPool::Orchard));
        },
        FundSource::Ironwood => {
            assert(pools.contains(ShieldedPool::Ironwood));
        },
        FundSource::Sapling => {
            assert(pools.contains(ShieldedPool::Sapling));
        },
        FundSource::AnyTransparent | FundSource::Transparent(_) => {},
    }
}

/// Two arrays that name the same addresses are the same source: neither the order of the
/// entries nor a repetition makes a difference.
pub proof fn arrays_of_the_same_addresses_are_the_same_source(
    a: Seq<EntryView>,
    b: Seq<EntryView>,
    source_a: FundSource,
    source_b: FundSource,
)
    requires
        entries_parse_to(a, Ok::<FundSource, RpcError>(source_a)),
        entries_parse_to(b, Ok::<FundSource, RpcError>(source_b)),
        named_addresses(a) == named_addresses(b),
    ensures
        source_a matches FundSource::Transparent(list_a) && source_b matches FundSource::Transparent(
            list_b,
        ) && transparent::nonempty_addresses(list_a) == transparent::nonempty_addresses(list_b),
        source_a.transparent_rule() == source_b.transparent_rule(),
{
    let list_a = source_a->Transparent_0;
    let list_b = source_b->Transparent_0;
    transparent::ascending_lists_with_equal_sets_are_equal(
        transparent::nonempty_addresses(list_a),
        transparent::nonempty_addresses(list_b),
    );
}

/// An array has one outcome: it is either refused, always with the same error, or it is
/// accepted.
pub proof fn an_array_has_one_outcome(
    entries: Seq<EntryView>,
    first: Result<FundSource, RpcError>,
    second: Result<FundSource, RpcError>,
)
    requires
        entries_parse_to(entries, first),
        entries_parse_to(entries, second),
    ensures
        first is Ok <==> second is Ok,
        first matches Err(a) ==> (second matches Err(b) && a@ == b@),
{
    if entries.len() > 0 && first is Err && second is Err {
        let e = first->Err_0@;
        let f = second->Err_0@;
        let i = choose|i: int| #[trigger]
            first_refusal(entries, i) && entry_outcome(entries[i]) == Err::<
                TransparentAddress,
                error::RpcErrorView,
            >(e);
        let j = choose|j: int| #[trigger]
            first_refusal(entries, j) && entry_outcome(entries[j]) == Err::<
                TransparentAddress,
                error::RpcErrorView,
            >(f);
        assert(first_refusal(entries, i) && first_refusal(entries, j));
        assert(i == j) by {
            if i < j {
                assert(entry_outcome(entries[i]) is Ok);
            } else if j < i {
                assert(entry_outcome(entries[j]) is Ok);
            }
        }
    }
}

/// An array of one address is the source that draws upon that address alone.
pub proof fn a_single_address_is_its_own_source(
    text: Seq<char>,
    address: TransparentAddress,
    source: FundSource,
)
    requires
        entries_parse_to(
            seq![EntryView::Text { text, decoded: Some(DecodedAddress::Transparent(address)) }],
            Ok::<FundSource, RpcError>(source),
        ),
    ensures
        source matches FundSource::Transparent(list) && transparent::nonempty_addresses(list)
            == seq![address],
{
    let entries = seq![
        EntryView::Text { text, decoded: Some(DecodedAddress::Transparent(address)) },
    ];
    let list = transparent::nonempty_addresses(source->Transparent_0);
    let outcomes = entries.map_values(|entry: EntryView| entry_outcome(entry)->Ok_0);
    assert(outcomes =~= seq![address]);
    assert(seq![address].to_set().contains(address)) by {
        assert(seq![address][0] == address);
    }
    assert(list.to_set() =~= seq![address].to_set());
    assert(transparent::strictly_ascending(seq![address]));
    transparent::ascending_lists_with_equal_sets_are_equal(list, seq![address]);
}

} // verus!
