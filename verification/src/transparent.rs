//! Transparent addresses: their order, their string forms and canonical sets of them.

use nonempty::NonEmpty;
use vstd::prelude::*;
use zcash_keys::address::Address;
use zcash_keys::encoding::AddressCodec;
use zcash_protocol::consensus::{MAIN_NETWORK, TEST_NETWORK};
use zcash_protocol::local_consensus::LocalNetwork;
use zcash_transparent::address::TransparentAddress as BackendAddress;

use crate::network::Network;

verus! {

/// A transparent address: the hash of a public key or of a script.
#[derive(Clone, Copy, Debug, PartialEq, Eq, PartialOrd, Ord, Hash)]
pub enum TransparentAddress {
    PublicKeyHash([u8; 20]),
    ScriptHash([u8; 20]),
}

/// What kind of address a string was found to encode.
#[derive(Clone, Copy, Debug, PartialEq, Eq)]
pub enum DecodedAddress {
    Sapling,
    Transparent(TransparentAddress),
    Unified,
    Tex,
}

/// How two addresses stand to each other in the order of addresses.
#[derive(Clone, Copy, Debug, PartialEq, Eq, Structural)]
pub enum Placement {
    Before,
    Same,
    After,
}

impl TransparentAddress {
    /// The bytes that addresses are ordered by: the kind, then the hash.
    pub open spec fn key(self) -> Seq<u8> {
        match self {
            TransparentAddress::PublicKeyHash(hash) => seq![0u8] + hash@,
            TransparentAddress::ScriptHash(hash) => seq![1u8] + hash@,
        }
    }
}

/// Whether `a` comes before `b` in the dictionary order of byte strings.
pub open spec fn lex_before(a: Seq<u8>, b: Seq<u8>) -> bool {
    exists|i: int|
        #![trigger a[i], b[i]]
        0 <= i < a.len() && i < b.len() && a[i] < b[i] && forall|j: int| 0 <= j < i ==> a[j] == b[j]
}

/// Whether `a` comes before `b`: public key hashes before script hashes, then by the hash.
#[verifier::opaque]
pub open spec fn address_before(a: TransparentAddress, b: TransparentAddress) -> bool {
    lex_before(a.key(), b.key())
}

/// Whether the addresses stand in ascending order, none of them twice.
pub open spec fn strictly_ascending(addresses: Seq<TransparentAddress>) -> bool {
    forall|i: int, j: int|
        #![trigger addresses[i], addresses[j]]
        0 <= i < j < addresses.len() ==> address_before(addresses[i], addresses[j])
}

proof fn lemma_key_determines_address(a: TransparentAddress, b: TransparentAddress)
    requires
        a.key() == b.key(),
    ensures
        a == b,
{
    assert(a.key()[0] == b.key()[0]);
    match (a, b) {
        (TransparentAddress::PublicKeyHash(x), TransparentAddress::PublicKeyHash(y)) => {
            assert(x@ =~= a.key().subrange(1, 21));
            assert(y@ =~= b.key().subrange(1, 21));
            assert(x =~= y);
        },
        (TransparentAddress::ScriptHash(x), TransparentAddress::ScriptHash(y)) => {
            assert(x@ =~= a.key().subrange(1, 21));
            assert(y@ =~= b.key().subrange(1, 21));
            assert(x =~= y);
        },
        (TransparentAddress::PublicKeyHash(_), TransparentAddress::ScriptHash(_)) => {
            assert(a.key()[0] == 0 && b.key()[0] == 1);
        },
        (TransparentAddress::ScriptHash(_), TransparentAddress::PublicKeyHash(_)) => {
            assert(a.key()[0] == 1 && b.key()[0] == 0);
        },
    }
}

proof fn lemma_before_is_irreflexive(a: TransparentAddress)
    ensures
        !address_before(a, a),
{
    reveal(address_before);
}

proof fn lemma_before_is_transitive(
    a: TransparentAddress,
    b: TransparentAddress,
    c: TransparentAddress,
)
    requires
        address_before(a, b),
        address_before(b, c),
    ensures
        address_before(a, c),
{
    reveal(address_before);
    let (x, y, z) = (a.key(), b.key(), c.key());
    let i = choose|i: int|
        #![trigger x[i], y[i]]
        0 <= i < x.len() && i < y.len() && x[i] < y[i] && forall|j: int|
            0 <= j < i ==> x[j] == y[j];
    let k = choose|k: int|
        #![trigger y[k], z[k]]
        0 <= k < y.len() && k < z.len() && y[k] < z[k] && forall|j: int|
            0 <= j < k ==> y[j] == z[j];
    let m = if i < k {
        i
    } else {
        k
    };
    assert(x[m] < z[m]);
    assert(forall|j: int| 0 <= j < m ==> x[j] == y[j] && y[j] == z[j]);
}

/// Canonical forms are unique: two ascending lists of the same addresses are the same list.
pub proof fn ascending_lists_with_equal_sets_are_equal(
    s: Seq<TransparentAddress>,
    t: Seq<TransparentAddress>,
)
    requires
        strictly_ascending(s),
        strictly_ascending(t),
        s.to_set() == t.to_set(),
    ensures
        s == t,
    decreases s.len(),
{
    if s.len() == 0 {
        if t.len() > 0 {
            assert(t.to_set().contains(t[0]));
            assert(s.contains(t[0]));
        }
        assert(s =~= t);
    } else {
        assert(s.to_set().contains(s[0]));
        assert(t.contains(s[0]));
        let k = choose|k: int| 0 <= k < t.len() && t[k] == s[0];
        assert(t.to_set().contains(t[0]));
        assert(s.contains(t[0]));
        let m = choose|m: int| 0 <= m < s.len() && s[m] == t[0];
        if k > 0 {
            assert(address_before(t[0], t[k]));
            if m > 0 {
                assert(address_before(s[0], s[m]));
                lemma_before_is_transitive(t[0], s[0], t[0]);
            }
            lemma_before_is_irreflexive(t[0]);
        }
        assert(s[0] == t[0]);
        let s1 = s.drop_first();
        let t1 = t.drop_first();
        assert forall|a: TransparentAddress| s1.to_set().contains(a) implies t1.to_set().contains(
            a,
        ) by {
            let i = choose|i: int| 0 <= i < s1.len() && s1[i] == a;
            assert(s[i + 1] == a);
            assert(s.to_set().contains(a));
            assert(t.contains(a));
            let j = choose|j: int| 0 <= j < t.len() && t[j] == a;
            assert(address_before(s[0], s[i + 1]));
            lemma_before_is_irreflexive(a);
            assert(t1[j - 1] == a);
        }
        assert forall|a: TransparentAddress| t1.to_set().contains(a) implies s1.to_set().contains(
            a,
        ) by {
            let i = choose|i: int| 0 <= i < t1.len() && t1[i] == a;
            assert(t[i + 1] == a);
            assert(t.to_set().contains(a));
            assert(s.contains(a));
            let j = choose|j: int| 0 <= j < s.len() && s[j] == a;
            assert(address_before(t[0], t[i + 1]));
            lemma_before_is_irreflexive(a);
            assert(s1[j - 1] == a);
        }
        assert(s1.to_set() =~= t1.to_set());
        assert(strictly_ascending(s1)) by {
            assert forall|i: int, j: int|
                #![trigger s1[i], s1[j]]
                0 <= i < j < s1.len() implies address_before(s1[i], s1[j]) by {
                assert(address_before(s[i + 1], s[j + 1]));
            }
        }
        assert(strictly_ascending(t1)) by {
            assert forall|i: int, j: int|
                #![trigger t1[i], t1[j]]
                0 <= i < j < t1.len() implies address_before(t1[i], t1[j]) by {
                assert(address_before(t[i + 1], t[j + 1]));
            }
        }
        ascending_lists_with_equal_sets_are_equal(s1, t1);
        assert(s =~= seq![s[0]] + s1);
        assert(t =~= seq![t[0]] + t1);
    }
}

/// Compares two hashes in dictionary order.
fn place_hash(a: &[u8; 20], b: &[u8; 20]) -> (r: Placement)
    ensures
        r == Placement::Before ==> lex_before(a@, b@),
        r == Placement::Same ==> a@ == b@,
        r == Placement::After ==> lex_before(b@, a@),
{
    let mut i: usize = 0;
    while i < 20
        invariant
            i <= 20,
            forall|j: int| 0 <= j < i ==> a@[j] == b@[j],
        decreases 20 - i,
    {
        let (x, y): (u8, u8) = (a[i], b[i]);
        if x < y {
            assert(a@[i as int] < b@[i as int]);
            return Placement::Before;
        }
        if y < x {
            assert(b@[i as int] < a@[i as int]);
            return Placement::After;
        }
        i = i + 1;
    }
    assert(a@ =~= b@);
    Placement::Same
}

proof fn lemma_lex_prefixed(p: u8, a: Seq<u8>, b: Seq<u8>)
    requires
        lex_before(a, b),
    ensures
        lex_before(seq![p] + a, seq![p] + b),
{
    let i = choose|i: int|
        #![trigger a[i], b[i]]
        0 <= i < a.len() && i < b.len() && a[i] < b[i] && forall|j: int|
            0 <= j < i ==> a[j] == b[j];
    let (x, y) = (seq![p] + a, seq![p] + b);
    assert(x[i + 1] < y[i + 1]);
    assert forall|j: int| 0 <= j < i + 1 implies x[j] == y[j] by {
        if j > 0 {
            assert(x[j] == a[j - 1] && y[j] == b[j - 1]);
        }
    }
}

/// Where `a` stands with respect to `b` in the order of addresses.
pub fn place(a: &TransparentAddress, b: &TransparentAddress) -> (r: Placement)
    ensures
        (r == Placement::Before) == address_before(*a, *b),
        (r == Placement::Same) == (a == b),
        (r == Placement::After) == address_before(*b, *a),
{
    reveal(address_before);
    let r = match (a, b) {
        (TransparentAddress::PublicKeyHash(x), TransparentAddress::PublicKeyHash(y)) => {
            let r = place_hash(x, y);
            proof {
                match r {
                    Placement::Before => lemma_lex_prefixed(0, x@, y@),
                    Placement::Same => lemma_key_determines_address(*a, *b),
                    Placement::After => lemma_lex_prefixed(0, y@, x@),
                }
            }
            r
        },
        (TransparentAddress::ScriptHash(x), TransparentAddress::ScriptHash(y)) => {
            let r = place_hash(x, y);
            proof {
                match r {
                    Placement::Before => lemma_lex_prefixed(1, x@, y@),
                    Placement::Same => lemma_key_determines_address(*a, *b),
                    Placement::After => lemma_lex_prefixed(1, y@, x@),
                }
            }
            r
        },
        (TransparentAddress::PublicKeyHash(_), TransparentAddress::ScriptHash(_)) => {
            assert(a.key()[0] < b.key()[0]);
            Placement::Before
        },
        (TransparentAddress::ScriptHash(_), TransparentAddress::PublicKeyHash(_)) => {
            assert(b.key()[0] < a.key()[0]);
            Placement::After
        },
    };
    proof {
        lemma_before_is_irreflexive(*a);
        lemma_before_is_irreflexive(*b);
        if address_before(*a, *b) && address_before(*b, *a) {
            lemma_before_is_transitive(*a, *b, *a);
        }
    }
    r
}

/// Adds `address` to an ascending list, keeping it ascending; an address that is already
/// there is not added again.
pub fn insert_ascending(list: &mut Vec<TransparentAddress>, address: TransparentAddress)
    requires
        strictly_ascending(old(list)@),
    ensures
        strictly_ascending(final(list)@),
        final(list)@.to_set() == old(list)@.to_set().insert(address),
{
    let mut i: usize = 0;
    while i < list.len()
        invariant_except_break
            list@ == old(list)@,
            strictly_ascending(list@),
            i <= list@.len(),
            forall|j: int| 0 <= j < i ==> address_before(#[trigger] list@[j], address),
        ensures
            list@ == old(list)@,
            strictly_ascending(list@),
            i <= list@.len(),
            forall|j: int| 0 <= j < i ==> address_before(#[trigger] list@[j], address),
            i < list@.len() ==> !address_before(list@[i as int], address),
        decreases list.len() - i,
    {
        match place(&list[i], &address) {
            Placement::Before => {
                i = i + 1;
            },
            _ => {
                break ;
            },
        }
    }
    let ghost before = list@;
    if i < list.len() {
        match place(&list[i], &address) {
            Placement::Same => {
                proof {
                    assert(before.contains(address)) by {
                        assert(before[i as int] == address);
                    }
                    assert(before.to_set() =~= before.to_set().insert(address));
                }
                return ;
            },
            _ => {},
        }
    }
    proof {
        lemma_insert_keeps_order(before, i as int, address);
        lemma_insert_adds_to_set(before, i as int, address);
    }
    list.insert(i, address);
}

proof fn lemma_insert_keeps_order(
    before: Seq<TransparentAddress>,
    i: int,
    address: TransparentAddress,
)
    requires
        strictly_ascending(before),
        0 <= i <= before.len(),
        forall|j: int| 0 <= j < i ==> address_before(#[trigger] before[j], address),
        i < before.len() ==> address_before(address, before[i]),
    ensures
        strictly_ascending(before.insert(i, address)),
{
    let after = before.insert(i, address);
    assert forall|x: int, y: int|
        #![trigger after[x], after[y]]
        0 <= x < y < after.len() implies address_before(after[x], after[y]) by {
        if y < i {
            assert(after[x] == before[x] && after[y] == before[y]);
        } else if y == i {
            assert(after[x] == before[x]);
        } else if x == i {
            assert(after[y] == before[y - 1]);
            if y - 1 > i {
                assert(address_before(before[i], before[y - 1]));
                lemma_before_is_transitive(address, before[i], before[y - 1]);
            }
        } else if x < i {
            assert(after[x] == before[x] && after[y] == before[y - 1]);
        } else {
            assert(after[x] == before[x - 1] && after[y] == before[y - 1]);
        }
    }
}

proof fn lemma_insert_adds_to_set(
    before: Seq<TransparentAddress>,
    i: int,
    address: TransparentAddress,
)
    requires
        0 <= i <= before.len(),
    ensures
        before.insert(i, address).to_set() == before.to_set().insert(address),
{
    let after = before.insert(i, address);
    assert forall|a: TransparentAddress| after.to_set().contains(a) == before.to_set().insert(
        address,
    ).contains(a) by {
        if after.contains(a) {
            let x = choose|x: int| 0 <= x < after.len() && after[x] == a;
            if x < i {
                assert(before[x] == a);
            } else if x > i {
                assert(before[x - 1] == a);
            }
        }
        if before.contains(a) {
            let x = choose|x: int| 0 <= x < before.len() && before[x] == a;
            if x < i {
                assert(after[x] == a);
            } else {
                assert(after[x + 1] == a);
            }
        }
        assert(after[i] == address);
    }
    assert(after.to_set() =~= before.to_set().insert(address));
}

/// The address that [`decode_address`] finds in a string on a network, if any.
pub uninterp spec fn address_decoding(network: Network, text: Seq<char>) -> Option<DecodedAddress>;

/// The string that [`encode_transparent`] writes an address as on a network.
pub uninterp spec fn transparent_encoding(
    network: Network,
    address: TransparentAddress,
) -> Seq<char>;

/// Whether a string holds an upper-case letter. A transparent address begins with a lower-case
/// one, and a string with letters of both cases cannot be taken for Bech32.
pub open spec fn has_upper_case(text: Seq<char>) -> bool {
    exists|i: int| 0 <= i < text.len() && 'A' <= #[trigger] text[i] && text[i] <= 'Z'
}

/// Whether `found` is the transparent address that `text` is the written form of, if it is the
/// written form of one and holds an upper-case letter.
pub open spec fn written_addresses_are_found(
    network: Network,
    text: Seq<char>,
    found: Option<DecodedAddress>,
) -> bool {
    forall|address: TransparentAddress|
        has_upper_case(text) && #[trigger] transparent_encoding(network, address) == text ==> found
            == Some(DecodedAddress::Transparent(address))
}

/// Calls `zcash_keys::address::Address::decode`.
///
/// Claimed: what comes back depends on the network and the string alone, and is named
/// [`address_decoding`]. Of every kind but the transparent one, only the kind is kept. The
/// written form of a transparent address gives that address, if it holds an upper-case letter.
/// Of the written forms without one nothing is claimed: Bech32 is tried before Base58Check, and
/// such a string is refused if it happens to be valid Bech32.
#[verifier::external_body]
pub(crate) fn decode_address(network: Network, text: &str) -> (found: Option<DecodedAddress>)
    ensures
        found == address_decoding(network, text@),
        written_addresses_are_found(network, text@, found),
{
    let regtest = LocalNetwork { overwinter: None, sapling: None, blossom: None, heartwood: None, canopy: None, nu5: None, nu6: None, nu6_1: None, nu6_2: None, nu6_3: None };
    let found = match network {
        Network::Main => Address::decode(&MAIN_NETWORK, text),
        Network::Test => Address::decode(&TEST_NETWORK, text),
        Network::Regtest => Address::decode(&regtest, text),
    };
    found.map(|address| match address {
        Address::Sapling(_) => DecodedAddress::Sapling,
        Address::Transparent(BackendAddress::PublicKeyHash(hash)) => DecodedAddress::Transparent(TransparentAddress::PublicKeyHash(hash)),
        Address::Transparent(BackendAddress::ScriptHash(hash)) => DecodedAddress::Transparent(TransparentAddress::ScriptHash(hash)),
        Address::Unified(_) => DecodedAddress::Unified,
        Address::Tex(_) => DecodedAddress::Tex,
    })
}

/// The transparent address that [`decode_transparent`] finds in a string on a network, if
/// any.
pub uninterp spec fn transparent_decoding(
    network: Network,
    text: Seq<char>,
) -> Option<TransparentAddress>;

/// Calls `zcash_keys::encoding::AddressCodec::decode` for a transparent address.
///
/// Claimed: what comes back depends on the network and the string alone, and is named
/// [`transparent_decoding`]; an error is `None`. A string that is decoded is the written form of
/// the address, as Base58Check has one string for each sequence of bytes.
#[verifier::external_body]
pub(crate) fn decode_transparent(network: Network, text: &str) -> (found: Option<TransparentAddress>)
    ensures
        found == transparent_decoding(network, text@),
        found matches Some(address) ==> transparent_encoding(network, address) == text@,
{
    let regtest = LocalNetwork { overwinter: None, sapling: None, blossom: None, heartwood: None, canopy: None, nu5: None, nu6: None, nu6_1: None, nu6_2: None, nu6_3: None };
    let found = match network {
        Network::Main => BackendAddress::decode(&MAIN_NETWORK, text),
        Network::Test => BackendAddress::decode(&TEST_NETWORK, text),
        Network::Regtest => BackendAddress::decode(&regtest, text),
    };
    found.ok().map(|address| match address {
        BackendAddress::PublicKeyHash(hash) => TransparentAddress::PublicKeyHash(hash),
        BackendAddress::ScriptHash(hash) => TransparentAddress::ScriptHash(hash),
    })
}

/// Calls `zcash_keys::encoding::AddressCodec::encode` for a transparent address.
///
/// Claimed: the string depends on the network and the address alone, and is named
/// [`transparent_encoding`]; decoding it as a transparent address of that network gives the
/// address back, and so does decoding it as an address of any kind, if it holds an upper-case
/// letter.
#[verifier::external_body]
pub(crate) fn encode_transparent(network: Network, address: TransparentAddress) -> (text: String)
    ensures
        text@ == transparent_encoding(network, address),
        transparent_decoding(network, text@) == Some(address),
        has_upper_case(text@) ==> address_decoding(network, text@) == Some(
            DecodedAddress::Transparent(address),
        ),
{
    let regtest = LocalNetwork { overwinter: None, sapling: None, blossom: None, heartwood: None, canopy: None, nu5: None, nu6: None, nu6_1: None, nu6_2: None, nu6_3: None };
    let address = match address {
        TransparentAddress::PublicKeyHash(hash) => BackendAddress::PublicKeyHash(hash),
        TransparentAddress::ScriptHash(hash) => BackendAddress::ScriptHash(hash),
    };
    match network {
        Network::Main => address.encode(&MAIN_NETWORK),
        Network::Test => address.encode(&TEST_NETWORK),
        Network::Regtest => address.encode(&regtest),
    }
}

/// Declares `nonempty::NonEmpty`.
#[verifier::external_type_specification]
#[verifier::external_body]
#[verifier::reject_recursive_types(T)]
pub struct ExNonEmpty<T>(NonEmpty<T>);

/// The addresses in a non-empty list, first to last.
pub uninterp spec fn nonempty_addresses(list: NonEmpty<TransparentAddress>) -> Seq<
    TransparentAddress,
>;

/// Calls `nonempty::NonEmpty::from` on a pair of a first item and the rest.
///
/// Claimed: the list holds the first item and then the rest, in order.
#[verifier::external_body]
pub(crate) fn nonempty_from(first: TransparentAddress, rest: Vec<TransparentAddress>) -> (list: NonEmpty<TransparentAddress>)
    ensures
        nonempty_addresses(list) == seq![first] + rest@,
{
    NonEmpty::from((first, rest))
}

} // verus!
