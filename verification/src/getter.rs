//! Getters: read-only queries on the state of a shard.
//!
//! Public getters may be asked by anyone; trusted getters carry the
//! signature of the identity they ask about.  A getter answers with the
//! SCALE encoding of the value it reads, or nothing.
use vstd::prelude::*;
use crate::identity::{AccountId, Identity, IdentityView, bytes_eq, copy_bytes, evm_mapping_preimage, spec_to_account_id};
use crate::hashing::spec_blake2_256;
use crate::scale::{encode_u128, encode_u32, le_bytes};

verus! {

/// The balances and nonce of an account.
#[derive(Clone, Copy, Debug, PartialEq, Eq, Structural)]
pub struct AccountInfo {
    pub nonce: u32,
    pub free: u128,
    pub reserved: u128,
}

/// What an account holds before anything was written for it.
pub open spec fn default_account_info() -> AccountInfo {
    AccountInfo { nonce: 0, free: 0, reserved: 0 }
}

/// The runtime state that getters read: account data, users' shielding
/// keys, and the encoded identity graph of each identity.
pub struct RuntimeView {
    accounts: Vec<(AccountId, AccountInfo)>,
    shielding_keys: Vec<(Identity, [u8; 32])>,
    id_graphs: Vec<(Identity, Vec<u8>)>,
}

/// The value written last for account `id` among `entries`.
pub open spec fn lookup_account(entries: Seq<(AccountId, AccountInfo)>, id: Seq<u8>) -> Option<AccountInfo>
    decreases entries.len(),
{
    if entries.len() == 0 {
        None
    } else if entries.last().0@ == id {
        Some(entries.last().1)
    } else {
        lookup_account(entries.drop_last(), id)
    }
}

/// The key written last for identity `id` among `entries`.
pub open spec fn lookup_key(entries: Seq<(Identity, [u8; 32])>, id: IdentityView) -> Option<Seq<u8>>
    decreases entries.len(),
{
    if entries.len() == 0 {
        None
    } else if entries.last().0@ == id {
        Some(entries.last().1@)
    } else {
        lookup_key(entries.drop_last(), id)
    }
}

/// The encoded graph written last for identity `id` among `entries`.
pub open spec fn lookup_graph(entries: Seq<(Identity, Vec<u8>)>, id: IdentityView) -> Option<Seq<u8>>
    decreases entries.len(),
{
    if entries.len() == 0 {
        None
    } else if entries.last().0@ == id {
        Some(entries.last().1@)
    } else {
        lookup_graph(entries.drop_last(), id)
    }
}

/// SCALE encoding of an empty list: a zero length.
pub open spec fn empty_list_encoding() -> Seq<u8> {
    seq![0u8]
}

impl RuntimeView {
    /// The data of account `id`; zero when nothing was written.
    pub closed spec fn account_info(&self, id: Seq<u8>) -> AccountInfo {
        match lookup_account(self.accounts@, id) {
            Some(info) => info,
            None => default_account_info(),
        }
    }

    /// The shielding key of identity `id`, if it set one.
    pub closed spec fn shielding_key(&self, id: IdentityView) -> Option<Seq<u8>> {
        lookup_key(self.shielding_keys@, id)
    }

    /// The encoded identity graph of `id`; an empty graph when none was
    /// written.
    pub closed spec fn id_graph(&self, id: IdentityView) -> Seq<u8> {
        match lookup_graph(self.id_graphs@, id) {
            Some(g) => g,
            None => empty_list_encoding(),
        }
    }

    /// A state in which nothing was written.
    pub fn new() -> (v: RuntimeView)
        ensures
            forall|id: Seq<u8>| v.account_info(id) == default_account_info(),
            forall|id: IdentityView| v.shielding_key(id) is None,
            forall|id: IdentityView| v.id_graph(id) == empty_list_encoding(),
    {
        RuntimeView { accounts: Vec::new(), shielding_keys: Vec::new(), id_graphs: Vec::new() }
    }

    /// Writes the data of account `id`.
    pub fn set_account(&mut self, id: AccountId, info: AccountInfo)
        ensures
            final(self).account_info(id@) == info,
            forall|other: Seq<u8>| other != id@ ==> final(self).account_info(other) == old(self).account_info(other),
            forall|i: IdentityView| final(self).shielding_key(i) == old(self).shielding_key(i),
            forall|i: IdentityView| final(self).id_graph(i) == old(self).id_graph(i),
    {
        let ghost old_accounts = self.accounts@;
        self.accounts.push((id, info));
        assert(self.accounts@.drop_last() == old_accounts);
    }

    /// Writes the shielding key of identity `id`.
    pub fn set_shielding_key(&mut self, id: Identity, key: [u8; 32])
        ensures
            final(self).shielding_key(id@) == Some(key@),
            forall|other: IdentityView| other != id@ ==> final(self).shielding_key(other) == old(self).shielding_key(other),
            forall|a: Seq<u8>| final(self).account_info(a) == old(self).account_info(a),
            forall|i: IdentityView| final(self).id_graph(i) == old(self).id_graph(i),
    {
        let ghost old_keys = self.shielding_keys@;
        self.shielding_keys.push((id, key));
        assert(self.shielding_keys@.drop_last() == old_keys);
    }

    /// Writes the encoded identity graph of `id`.
    pub fn set_id_graph(&mut self, id: Identity, encoded: Vec<u8>)
        ensures
            final(self).id_graph(id@) == encoded@,
            forall|other: IdentityView| other != id@ ==> final(self).id_graph(other) == old(self).id_graph(other),
            forall|a: Seq<u8>| final(self).account_info(a) == old(self).account_info(a),
            forall|i: IdentityView| final(self).shielding_key(i) == old(self).shielding_key(i),
    {
        let ghost old_graphs = self.id_graphs@;
        self.id_graphs.push((id, encoded));
        assert(self.id_graphs@.drop_last() == old_graphs);
    }

    /// Reads the data of account `id`.
    pub fn account(&self, id: &AccountId) -> (info: AccountInfo)
        ensures
            info == self.account_info(id@),
    {
        let mut i = self.accounts.len();
        assert(self.accounts@.subrange(0, i as int) =~= self.accounts@);
        while i > 0
            invariant
                i <= self.accounts@.len(),
                lookup_account(self.accounts@, id@) == lookup_account(self.accounts@.subrange(0, i as int), id@),
            decreases i,
        {
            let ghost prefix = self.accounts@.subrange(0, i as int);
            if bytes_eq(self.accounts[i - 1].0.as_slice(), id.as_slice()) {
                return self.accounts[i - 1].1;
            }
            assert(prefix.drop_last() =~= self.accounts@.subrange(0, i - 1));
            i = i - 1;
        }
        AccountInfo { nonce: 0, free: 0, reserved: 0 }
    }

    /// Reads the shielding key of identity `id`.
    pub fn user_shielding_key(&self, id: &Identity) -> (key: Option<[u8; 32]>)
        ensures
            key matches Some(k) ==> self.shielding_key(id@) == Some(k@),
            key is None ==> self.shielding_key(id@) is None,
    {
        let mut i = self.shielding_keys.len();
        assert(self.shielding_keys@.subrange(0, i as int) =~= self.shielding_keys@);
        while i > 0
            invariant
                i <= self.shielding_keys@.len(),
                lookup_key(self.shielding_keys@, id@) == lookup_key(self.shielding_keys@.subrange(0, i as int), id@),
            decreases i,
        {
            let ghost prefix = self.shielding_keys@.subrange(0, i as int);
            if self.shielding_keys[i - 1].0.same(id) {
                return Some(self.shielding_keys[i - 1].1);
            }
            assert(prefix.drop_last() =~= self.shielding_keys@.subrange(0, i - 1));
            i = i - 1;
        }
        None
    }

    /// Reads the encoded identity graph of `id`.
    pub fn get_id_graph(&self, id: &Identity) -> (g: Vec<u8>)
        ensures
            g@ == self.id_graph(id@),
    {
        let mut i = self.id_graphs.len();
        assert(self.id_graphs@.subrange(0, i as int) =~= self.id_graphs@);
        while i > 0
            invariant
                i <= self.id_graphs@.len(),
                lookup_graph(self.id_graphs@, id@) == lookup_graph(self.id_graphs@.subrange(0, i as int), id@),
            decreases i,
        {
            let ghost prefix = self.id_graphs@.subrange(0, i as int);
            if self.id_graphs[i - 1].0.same(id) {
                return copy_bytes(&self.id_graphs[i - 1].1);
            }
            assert(prefix.drop_last() =~= self.id_graphs@.subrange(0, i - 1));
            i = i - 1;
        }
        let mut empty: Vec<u8> = Vec::new();
        empty.push(0u8);
        assert(empty@ =~= empty_list_encoding());
        empty
    }
}

/// A getter that anyone may ask.
#[allow(non_camel_case_types)]
#[derive(Clone, Debug)]
pub enum PublicGetter {
    some_value,
    nonce(Identity),
}

/// A getter that only the identity it names may ask.
#[allow(non_camel_case_types)]
#[derive(Clone, Debug)]
pub enum TrustedGetter {
    free_balance(Identity),
    reserved_balance(Identity),
    user_shielding_key(Identity),
    id_graph(Identity),
    id_graph_stats(Identity),
}

/// A trusted getter with the signature of its sender.
#[derive(Clone, Debug)]
pub struct TrustedGetterSigned {
    pub getter: TrustedGetter,
    pub signature: Vec<u8>,
}

/// A getter of either kind.
#[allow(non_camel_case_types)]
#[derive(Clone, Debug)]
pub enum Getter {
    public(PublicGetter),
    trusted(TrustedGetterSigned),
}

/// The answer as bytes.
pub open spec fn opt_bytes(o: Option<Vec<u8>>) -> Option<Seq<u8>> {
    match o {
        Some(v) => Some(v@),
        None => None,
    }
}

/// The identity that a trusted getter is about, who must have signed it.
pub open spec fn spec_sender(g: TrustedGetter) -> IdentityView {
    match g {
        TrustedGetter::free_balance(who) => who@,
        TrustedGetter::reserved_balance(who) => who@,
        TrustedGetter::user_shielding_key(who) => who@,
        TrustedGetter::id_graph(who) => who@,
        TrustedGetter::id_graph_stats(who) => who@,
    }
}

/// The answer of a public getter in state `v`.
pub open spec fn spec_public_execute(g: PublicGetter, v: RuntimeView) -> Option<Seq<u8>> {
    match g {
        PublicGetter::some_value => Some(le_bytes(42, 4)),
        PublicGetter::nonce(who) => match spec_to_account_id(who@) {
            Some(acc) => Some(le_bytes(v.account_info(acc).nonce as nat, 4)),
            None => None,
        },
    }
}

/// The answer of a trusted getter in state `v`.
pub open spec fn spec_trusted_execute(g: TrustedGetter, v: RuntimeView) -> Option<Seq<u8>> {
    match g {
        TrustedGetter::free_balance(who) => match spec_to_account_id(who@) {
            Some(acc) => Some(le_bytes(v.account_info(acc).free as nat, 16)),
            None => None,
        },
        TrustedGetter::reserved_balance(who) => match spec_to_account_id(who@) {
            Some(acc) => Some(le_bytes(v.account_info(acc).reserved as nat, 16)),
            None => None,
        },
        TrustedGetter::user_shielding_key(who) => v.shielding_key(who@),
        TrustedGetter::id_graph(who) => Some(v.id_graph(who@)),
        TrustedGetter::id_graph_stats(_who) => None,
    }
}

/// The answer of a getter in state `v`.
pub open spec fn spec_execute(g: Getter, v: RuntimeView) -> Option<Seq<u8>> {
    match g {
        Getter::public(p) => spec_public_execute(p, v),
        Getter::trusted(t) => spec_trusted_execute(t.getter, v),
    }
}

impl TrustedGetter {
    /// The identity this getter is about.
    pub fn sender_identity(&self) -> (who: &Identity)
        ensures
            who@ == spec_sender(*self),
    {
        match self {
            TrustedGetter::free_balance(sender_identity) => sender_identity,
            TrustedGetter::reserved_balance(sender_identity) => sender_identity,
            TrustedGetter::user_shielding_key(sender_identity) => sender_identity,
            TrustedGetter::id_graph(sender_identity) => sender_identity,
            TrustedGetter::id_graph_stats(sender_identity) => sender_identity,
        }
    }
}

impl TrustedGetterSigned {
    /// A getter with its signature.
    pub fn new(getter: TrustedGetter, signature: Vec<u8>) -> (s: TrustedGetterSigned)
        ensures
            s.getter == getter,
            s.signature == signature,
    {
        TrustedGetterSigned { getter, signature }
    }

    /// Answers the getter in state `view`.
    pub fn execute(self, view: &RuntimeView) -> (r: Option<Vec<u8>>)
        ensures
            opt_bytes(r) == spec_trusted_execute(self.getter, *view),
    {
        match self.getter {
            TrustedGetter::free_balance(who) => {
                if let Some(account_id) = who.to_account_id() {
                    let info = view.account(&account_id);
                    Some(encode_u128(info.free))
                } else {
                    None
                }
            },
            TrustedGetter::reserved_balance(who) => {
                if let Some(account_id) = who.to_account_id() {
                    let info = view.account(&account_id);
                    Some(encode_u128(info.reserved))
                } else {
                    None
                }
            },
            TrustedGetter::user_shielding_key(who) => {
                match view.user_shielding_key(&who) {
                    Some(key) => Some(key_bytes(&key)),
                    None => None,
                }
            },
            TrustedGetter::id_graph(who) => Some(view.get_id_graph(&who)),
            TrustedGetter::id_graph_stats(_who) => None,
        }
    }

    /// Storage entries of the parentchain to update before answering: none.
    pub fn get_storage_hashes_to_update(self) -> (r: Vec<Vec<u8>>)
        ensures
            r@.len() == 0,
    {
        Vec::new()
    }
}

/// SCALE encoding of a 32-byte key: the bytes themselves.
fn key_bytes(key: &[u8; 32]) -> (r: Vec<u8>)
    ensures
        r@ == key@,
{
    let mut r: Vec<u8> = Vec::new();
    let mut i: usize = 0;
    while i < 32
        invariant
            i <= 32,
            r@ == key@.subrange(0, i as int),
        decreases 32 - i,
    {
        r.push(key[i]);
        i = i + 1;
        assert(r@ =~= key@.subrange(0, i as int));
    }
    assert(r@ =~= key@);
    r
}

impl PublicGetter {
    /// Answers the getter in state `view`.
    pub fn execute(self, view: &RuntimeView) -> (r: Option<Vec<u8>>)
        ensures
            opt_bytes(r) == spec_public_execute(self, *view),
    {
        match self {
            PublicGetter::some_value => Some(encode_u32(42u32)),
            PublicGetter::nonce(identity) => {
                if let Some(account_id) = identity.to_account_id() {
                    let info = view.account(&account_id);
                    Some(encode_u32(info.nonce))
                } else {
                    None
                }
            },
        }
    }

    /// Storage entries of the parentchain to update before answering: none.
    pub fn get_storage_hashes_to_update(self) -> (r: Vec<Vec<u8>>)
        ensures
            r@.len() == 0,
    {
        Vec::new()
    }
}

impl Getter {
    /// Answers the getter in state `view`.
    pub fn execute(self, view: &RuntimeView) -> (r: Option<Vec<u8>>)
        ensures
            opt_bytes(r) == spec_execute(self, *view),
    {
        match self {
            Getter::trusted(g) => g.execute(view),
            Getter::public(g) => g.execute(view),
        }
    }

    /// Storage entries of the parentchain to update before answering: none.
    pub fn get_storage_hashes_to_update(self) -> (r: Vec<Vec<u8>>)
        ensures
            r@.len() == 0,
    {
        match self {
            Getter::trusted(g) => g.get_storage_hashes_to_update(),
            Getter::public(g) => g.get_storage_hashes_to_update(),
        }
    }
}

impl From<PublicGetter> for Getter {
    fn from(item: PublicGetter) -> (r: Getter) {
        Getter::public(item)
    }
}

impl vstd::std_specs::convert::FromSpecImpl<PublicGetter> for Getter {
    open spec fn obeys_from_spec() -> bool {
        true
    }

    open spec fn from_spec(item: PublicGetter) -> Getter {
        Getter::public(item)
    }
}

impl From<TrustedGetterSigned> for Getter {
    fn from(item: TrustedGetterSigned) -> (r: Getter) {
        Getter::trusted(item)
    }
}

impl vstd::std_specs::convert::FromSpecImpl<TrustedGetterSigned> for Getter {
    open spec fn obeys_from_spec() -> bool {
        true
    }

    open spec fn from_spec(item: TrustedGetterSigned) -> Getter {
        Getter::trusted(item)
    }
}

/// Law: the balance getters answer for the account that the identity
/// controls, the same account whose nonce the public getter reports.  A
/// substrate identity gets the free and reserved balance of its own
/// account, an EVM identity those of the account `blake2_256("evm:" ++
/// address)` (16 bytes, little endian), and an identity that controls no
/// account gets nothing.
pub proof fn lemma_balance_getters_follow_the_account(who: Identity, v: RuntimeView)
    ensures
        spec_trusted_execute(TrustedGetter::free_balance(who), v) is Some
            <==> spec_public_execute(PublicGetter::nonce(who), v) is Some,
        spec_trusted_execute(TrustedGetter::reserved_balance(who), v) is Some
            <==> spec_public_execute(PublicGetter::nonce(who), v) is Some,
        who@ matches IdentityView::Substrate(acc) ==> {
            &&& spec_trusted_execute(TrustedGetter::free_balance(who), v) == Some(le_bytes(v.account_info(acc).free as nat, 16))
            &&& spec_trusted_execute(TrustedGetter::reserved_balance(who), v) == Some(le_bytes(v.account_info(acc).reserved as nat, 16))
        },
        who@ matches IdentityView::Evm(address) ==> {
            let acc = spec_blake2_256(evm_mapping_preimage(address));
            &&& spec_trusted_execute(TrustedGetter::free_balance(who), v) == Some(le_bytes(v.account_info(acc).free as nat, 16))
            &&& spec_trusted_execute(TrustedGetter::reserved_balance(who), v) == Some(le_bytes(v.account_info(acc).reserved as nat, 16))
        },
        !(who@ is Substrate || who@ is Evm) ==> {
            &&& spec_trusted_execute(TrustedGetter::free_balance(who), v) is None
            &&& spec_trusted_execute(TrustedGetter::reserved_balance(who), v) is None
        },
{
}

/// Law: two identities that control the same account get the same answers
/// from the balance getters and the nonce getter.
pub proof fn lemma_balance_getters_agree_on_shared_accounts(a: Identity, b: Identity, v: RuntimeView)
    requires
        spec_to_account_id(a@) is Some,
        spec_to_account_id(a@) == spec_to_account_id(b@),
    ensures
        spec_trusted_execute(TrustedGetter::free_balance(a), v) == spec_trusted_execute(TrustedGetter::free_balance(b), v),
        spec_trusted_execute(TrustedGetter::reserved_balance(a), v) == spec_trusted_execute(TrustedGetter::reserved_balance(b), v),
        spec_public_execute(PublicGetter::nonce(a), v) == spec_public_execute(PublicGetter::nonce(b), v),
{
}

} // verus!
