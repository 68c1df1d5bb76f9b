//! Identities of users and the web3 networks they live on.
use vstd::prelude::*;
use crate::hashing::{blake2_256, spec_blake2_256};

verus! {

/// A web3 network on which an identity can hold assets.
#[derive(Clone, Copy, Debug, PartialEq, Eq, Structural)]
pub enum Web3Network {
    Polkadot,
    Kusama,
    Litentry,
    Litmus,
    LitentryRococo,
    Khala,
    SubstrateTestnet,
    Ethereum,
    Polygon,
    BSC,
}

/// An account on the parentchain: 32 bytes.
pub type AccountId = [u8; 32];

/// A user identity: a web2 handle or a web3 address.
#[derive(Clone, Debug)]
pub enum Identity {
    Twitter(Vec<u8>),
    Discord(Vec<u8>),
    Github(Vec<u8>),
    Substrate([u8; 32]),
    Evm([u8; 20]),
}

/// The value of an identity: its kind and its bytes.
pub enum IdentityView {
    Twitter(Seq<u8>),
    Discord(Seq<u8>),
    Github(Seq<u8>),
    Substrate(Seq<u8>),
    Evm(Seq<u8>),
}

impl View for Identity {
    type V = IdentityView;

    open spec fn view(&self) -> IdentityView {
        match self {
            Identity::Twitter(h) => IdentityView::Twitter(h@),
            Identity::Discord(h) => IdentityView::Discord(h@),
            Identity::Github(h) => IdentityView::Github(h@),
            Identity::Substrate(a) => IdentityView::Substrate(a@),
            Identity::Evm(a) => IdentityView::Evm(a@),
        }
    }
}

/// The bytes that the EVM address mapping hashes: `"evm:"` and the address.
pub open spec fn evm_mapping_preimage(address: Seq<u8>) -> Seq<u8> {
    seq![101u8, 118u8, 109u8, 58u8] + address
}

/// The account that an identity controls on the parentchain: a substrate
/// address is the account itself, an EVM address maps to the BLAKE2-256 hash
/// of `"evm:"` and the address, and web2 identities control none.
pub open spec fn spec_to_account_id(id: IdentityView) -> Option<Seq<u8>> {
    match id {
        IdentityView::Substrate(a) => Some(a),
        IdentityView::Evm(a) => Some(spec_blake2_256(evm_mapping_preimage(a))),
        _ => None,
    }
}

/// Whether two byte strings are equal.
pub fn bytes_eq(a: &[u8], b: &[u8]) -> (r: bool)
    ensures
        r == (a@ == b@),
{
    if a.len() != b.len() {
        return false;
    }
    let n = a.len();
    let mut i: usize = 0;
    while i < n
        invariant
            n == a@.len(),
            n == b@.len(),
            i <= n,
            forall|j: int| 0 <= j < i ==> a@[j] == b@[j],
        decreases n - i,
    {
        if a[i] != b[i] {
            return false;
        }
        i = i + 1;
    }
    assert(a@ =~= b@);
    true
}

/// A copy of a byte vector.
pub fn copy_bytes(v: &Vec<u8>) -> (r: Vec<u8>)
    ensures
        r@ == v@,
{
    let mut r: Vec<u8> = Vec::new();
    let mut i: usize = 0;
    while i < v.len()
        invariant
            i <= v@.len(),
            r@ == v@.subrange(0, i as int),
        decreases v@.len() - i,
    {
        r.push(v[i]);
        i = i + 1;
        assert(r@ =~= v@.subrange(0, i as int));
    }
    assert(r@ =~= v@);
    r
}

impl Identity {
    /// Whether `self` and `other` are the same identity.
    pub fn same(&self, other: &Identity) -> (r: bool)
        ensures
            r == (self@ == other@),
    {
        match (self, other) {
            (Identity::Twitter(a), Identity::Twitter(b)) => bytes_eq(a.as_slice(), b.as_slice()),
            (Identity::Discord(a), Identity::Discord(b)) => bytes_eq(a.as_slice(), b.as_slice()),
            (Identity::Github(a), Identity::Github(b)) => bytes_eq(a.as_slice(), b.as_slice()),
            (Identity::Substrate(a), Identity::Substrate(b)) => bytes_eq(a.as_slice(), b.as_slice()),
            (Identity::Evm(a), Identity::Evm(b)) => bytes_eq(a.as_slice(), b.as_slice()),
            _ => false,
        }
    }

    /// A copy of this identity.
    pub fn duplicate(&self) -> (r: Identity)
        ensures
            r@ == self@,
    {
        match self {
            Identity::Twitter(h) => Identity::Twitter(copy_bytes(h)),
            Identity::Discord(h) => Identity::Discord(copy_bytes(h)),
            Identity::Github(h) => Identity::Github(copy_bytes(h)),
            Identity::Substrate(a) => Identity::Substrate(*a),
            Identity::Evm(a) => Identity::Evm(*a),
        }
    }

    /// The parentchain account that this identity controls, if any.
    pub fn to_account_id(&self) -> (r: Option<AccountId>)
        ensures
            r matches Some(acc) ==> spec_to_account_id(self@) == Some(acc@),
            r is None ==> spec_to_account_id(self@) is None,
    {
        match self {
            Identity::Substrate(a) => Some(*a),
            Identity::Evm(a) => {
                let mut data: Vec<u8> = Vec::new();
                data.push(101u8);
                data.push(118u8);
                data.push(109u8);
                data.push(58u8);
                let mut i: usize = 0;
                while i < 20
                    invariant
                        i <= 20,
                        data@ == evm_mapping_preimage(a@.subrange(0, i as int)),
                    decreases 20 - i,
                {
                    data.push(a[i]);
                    i = i + 1;
                    assert(data@ =~= evm_mapping_preimage(a@.subrange(0, i as int)));
                }
                assert(a@.subrange(0, 20) =~= a@);
                Some(blake2_256(data.as_slice()))
            },
            _ => None,
        }
    }
}

} // verus!
