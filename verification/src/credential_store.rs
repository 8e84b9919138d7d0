//! Persistence for subscription credentials.
//!
//! Credentials live in their own user-level file, separate from the
//! user-editable provider configuration, so editing or sharing
//! `providers.toml` can never expose a token. The file holds at most one
//! credential per provider and is shared by every jinn project on the machine.
//!
//! The stored document is a map from provider wire id to credential, kept in
//! increasing key order. Both stores run their reads and writes through it:
//! the in-memory store holds one, and the filesystem store loads one from its
//! file, changes it, and writes it back (the file work happens around this
//! module).

use vstd::prelude::*;

use crate::credential::{OAuthCredential, StoredCredential};
use crate::failures::CredentialStoreError;
use crate::provider_id::{provider_for_wire_id, provider_wire_id, AuthProviderId};
use crate::sorted_map::{folded_entries, strictly_increasing, SortedMap};
use crate::text::{chars_of, trim, trim_chars};

verus! {

impl OAuthCredential {
    /// A field-by-field copy.
    pub fn duplicate(&self) -> (c: OAuthCredential)
        ensures
            c == *self,
    {
        OAuthCredential {
            access_token: self.access_token.clone(),
            refresh_token: self.refresh_token.clone(),
            expires_at_ms: self.expires_at_ms,
            account_id: self.account_id.clone(),
        }
    }
}

impl StoredCredential {
    /// A field-by-field copy.
    pub fn duplicate(&self) -> (c: StoredCredential)
        ensures
            c == *self,
    {
        match self {
            StoredCredential::Oauth(credential) => StoredCredential::Oauth(credential.duplicate()),
        }
    }
}

/// Credentials keyed by provider wire id, in increasing key order: the
/// on-disk document.
pub struct CredentialDocument {
    map: SortedMap<StoredCredential>,
}

impl View for CredentialDocument {
    type V = Map<Seq<char>, StoredCredential>;

    closed spec fn view(&self) -> Map<Seq<char>, StoredCredential> {
        self.map@
    }
}

impl CredentialDocument {
    /// The document's invariant: its keys strictly increase.
    pub closed spec fn wf(self) -> bool {
        self.map.wf()
    }

    /// The keys in the order the document holds them.
    pub closed spec fn key_order(self) -> Seq<Seq<char>> {
        self.map.key_order()
    }

    /// The key order lists the document's keys, each once, increasing.
    pub proof fn lemma_key_order(self)
        requires
            self.wf(),
        ensures
            strictly_increasing(self.key_order()),
            forall|k: Seq<char>| self@.dom().contains(k) <==> self.key_order().contains(k),
    {
        self.map.lemma_key_order();
    }

    /// An empty document.
    pub fn new() -> (d: CredentialDocument)
        ensures
            d.wf(),
            d@ == Map::<Seq<char>, StoredCredential>::empty(),
            d.key_order().len() == 0,
    {
        CredentialDocument { map: SortedMap::new() }
    }

    /// Looks a key up.
    pub fn get(&self, key: &str) -> (r: Option<StoredCredential>)
        requires
            self.wf(),
        ensures
            match r {
                Some(c) => self@.dom().contains(key@) && self@[key@] == c,
                None => !self@.dom().contains(key@),
            },
    {
        match self.map.get(key) {
            Some(c) => Some(c.duplicate()),
            None => None,
        }
    }

    /// Writes (or replaces) the value of a key.
    pub fn insert(&mut self, key: String, value: StoredCredential)
        requires
            old(self).wf(),
        ensures
            final(self).wf(),
            final(self)@ == old(self)@.insert(key@, value),
    {
        self.map.insert(key, value);
    }

    /// Removes a key, returning its value if it was there.
    pub fn remove(&mut self, key: &str) -> (r: Option<StoredCredential>)
        requires
            old(self).wf(),
        ensures
            final(self).wf(),
            final(self)@ == old(self)@.remove(key@),
            match r {
                Some(c) => old(self)@.dom().contains(key@) && old(self)@[key@] == c,
                None => !old(self)@.dom().contains(key@),
            },
    {
        self.map.remove(key)
    }

    /// The keys, in increasing order.
    pub fn keys(&self) -> (r: Vec<String>)
        ensures
            r@.len() == self.key_order().len(),
            forall|i: int| 0 <= i < r@.len() ==> #[trigger] r@[i]@ == self.key_order()[i],
    {
        self.map.keys()
    }

    /// The entries, copied, in increasing key order.
    pub fn entries(&self) -> (r: Vec<(String, StoredCredential)>)
        requires
            self.wf(),
        ensures
            r@.len() == self.key_order().len(),
            forall|i: int|
                0 <= i < r@.len() ==> #[trigger] r@[i].0@ == self.key_order()[i]
                    && self@.dom().contains(r@[i].0@) && r@[i].1 == self@[r@[i].0@],
    {
        let mut out: Vec<(String, StoredCredential)> = Vec::new();
        let mut i: usize = 0;
        while i < self.map.len()
            invariant
                self.wf(),
                i <= self.key_order().len(),
                out@.len() == i,
                forall|j: int|
                    0 <= j < i ==> #[trigger] out@[j].0@ == self.key_order()[j]
                        && self@.dom().contains(out@[j].0@) && out@[j].1 == self@[out@[j].0@],
            decreases self.key_order().len() - i,
        {
            let (key, value) = self.map.entry_at(i);
            out.push((key.clone(), value.duplicate()));
            i = i + 1;
        }
        out
    }

    /// Builds a document from entries read in order; a later entry for the
    /// same key replaces an earlier one.
    pub fn from_entries(pairs: &Vec<(String, StoredCredential)>) -> (d: CredentialDocument)
        ensures
            d.wf(),
            d@ == folded_entries(pairs@),
    {
        let mut d = CredentialDocument::new();
        let mut i: usize = 0;
        assert(pairs@.take(0) =~= Seq::<(String, StoredCredential)>::empty());
        while i < pairs.len()
            invariant
                d.wf(),
                i <= pairs@.len(),
                d@ == folded_entries(pairs@.take(i as int)),
            decreases pairs@.len() - i,
        {
            let key = pairs[i].0.clone();
            let value = pairs[i].1.duplicate();
            d.insert(key, value);
            proof {
                assert(pairs@.take(i + 1).drop_last() =~= pairs@.take(i as int));
            }
            i = i + 1;
        }
        assert(pairs@.take(i as int) =~= pairs@);
        d
    }

    /// The credential stored for `provider`.
    pub fn read_provider(&self, provider: AuthProviderId) -> (r: Option<StoredCredential>)
        requires
            self.wf(),
        ensures
            match r {
                Some(c) => self@.dom().contains(provider_wire_id(provider))
                    && self@[provider_wire_id(provider)] == c,
                None => !self@.dom().contains(provider_wire_id(provider)),
            },
    {
        self.get(provider.as_str())
    }

    /// Writes (or replaces) the credential for `provider`.
    pub fn write_provider(&mut self, provider: AuthProviderId, credential: StoredCredential)
        requires
            old(self).wf(),
        ensures
            final(self).wf(),
            final(self)@ == old(self)@.insert(provider_wire_id(provider), credential),
    {
        self.insert(provider.as_str().to_owned(), credential);
    }

    /// Removes the credential for `provider`; says whether one was there, so
    /// an unchanged document need not be written back.
    pub fn delete_provider(&mut self, provider: AuthProviderId) -> (removed: bool)
        requires
            old(self).wf(),
        ensures
            final(self).wf(),
            final(self)@ == old(self)@.remove(provider_wire_id(provider)),
            removed == old(self)@.dom().contains(provider_wire_id(provider)),
    {
        self.remove(provider.as_str()).is_some()
    }

    /// The providers with a stored credential, in key order; keys that name
    /// no known provider are skipped.
    pub fn stored_providers(&self) -> (r: Vec<AuthProviderId>)
        ensures
            r@ == known_providers(self.key_order()),
    {
        let keys = self.keys();
        let ghost order = self.key_order();
        let mut out: Vec<AuthProviderId> = Vec::new();
        let mut i: usize = 0;
        while i < keys.len()
            invariant
                i <= keys@.len(),
                order == self.key_order(),
                keys@.len() == order.len(),
                forall|j: int| 0 <= j < keys@.len() ==> #[trigger] keys@[j]@ == order[j],
                out@ == known_providers(order.take(i as int)),
            decreases keys@.len() - i,
        {
            let parsed = AuthProviderId::from_wire_id(keys[i].as_str());
            proof {
                assert(order.take(i + 1).drop_last() =~= order.take(i as int));
                assert(order.take(i + 1).last() == keys@[i as int]@);
            }
            match parsed {
                Ok(provider) => out.push(provider),
                Err(_) => {},
            }
            i = i + 1;
        }
        assert(order.take(i as int) =~= order);
        out
    }
}

/// Whether file contents hold no document at all (empty or whitespace), which
/// reads as an empty store.
pub fn document_is_blank(contents: &str) -> (r: bool)
    ensures
        r == (trim(contents@).len() == 0),
{
    let cs = chars_of(contents);
    trim_chars(cs.as_slice()).len() == 0
}

/// Credential storage held in memory, for tests and ephemeral sessions.
pub struct InMemoryCredentialStore {
    document: CredentialDocument,
}

impl InMemoryCredentialStore {
    /// The store's invariant.
    pub closed spec fn wf(self) -> bool {
        self.document.wf()
    }

    /// What the store holds.
    pub closed spec fn contents(self) -> Map<Seq<char>, StoredCredential> {
        self.document@
    }

    /// The stored keys, in order.
    pub closed spec fn key_order(self) -> Seq<Seq<char>> {
        self.document.key_order()
    }

    /// Creates an empty store.
    pub fn new() -> (s: InMemoryCredentialStore)
        ensures
            s.wf(),
            s.contents() == Map::<Seq<char>, StoredCredential>::empty(),
    {
        InMemoryCredentialStore { document: CredentialDocument::new() }
    }

    /// Human-readable name for diagnostics.
    pub fn name(&self) -> (n: &'static str)
        ensures
            n@ == "in-memory"@,
    {
        "in-memory"
    }

    /// Reads the stored credential, which may be expired.
    pub fn read(&self, provider: AuthProviderId) -> (r: Result<
        Option<StoredCredential>,
        CredentialStoreError,
    >)
        requires
            self.wf(),
        ensures
            match r {
                Ok(Some(c)) => self.contents().dom().contains(provider_wire_id(provider))
                    && self.contents()[provider_wire_id(provider)] == c,
                Ok(None) => !self.contents().dom().contains(provider_wire_id(provider)),
                Err(_) => false,
            },
    {
        Ok(self.document.read_provider(provider))
    }

    /// Lists the providers that currently have a stored credential.
    pub fn list(&self) -> (r: Result<Vec<AuthProviderId>, CredentialStoreError>)
        ensures
            match r {
                Ok(v) => v@ == known_providers(self.key_order()),
                Err(_) => false,
            },
    {
        Ok(self.document.stored_providers())
    }

    /// Writes (or replaces) the credential for one provider.
    pub fn write(&mut self, provider: AuthProviderId, credential: StoredCredential) -> (r: Result<
        (),
        CredentialStoreError,
    >)
        requires
            old(self).wf(),
        ensures
            final(self).wf(),
            r is Ok,
            final(self).contents() == old(self).contents().insert(
                provider_wire_id(provider),
                credential,
            ),
    {
        self.document.write_provider(provider, credential);
        Ok(())
    }

    /// Removes the credential for one provider. Removing an absent credential
    /// succeeds.
    pub fn delete(&mut self, provider: AuthProviderId) -> (r: Result<(), CredentialStoreError>)
        requires
            old(self).wf(),
        ensures
            final(self).wf(),
            r is Ok,
            final(self).contents() == old(self).contents().remove(provider_wire_id(provider)),
    {
        let _ = self.document.delete_provider(provider);
        Ok(())
    }
}

/// Credential storage backed by a single JSON file at `path`.
///
/// The file is created owner-only and replaced atomically; its document is
/// read, changed through [`CredentialDocument`], and written back by the
/// caller that owns the file system.
#[derive(Debug, Clone, PartialEq, Eq)]
pub struct FilesystemCredentialStore {
    /// Where the credential document lives.
    pub path: String,
}

impl FilesystemCredentialStore {
    /// Creates a store backed by `path`. The file and its parent directory are
    /// created on first write.
    pub fn new(path: String) -> (s: FilesystemCredentialStore)
        ensures
            s.path@ == path@,
    {
        FilesystemCredentialStore { path }
    }

    /// Human-readable name for diagnostics.
    pub fn name(&self) -> (n: &'static str)
        ensures
            n@ == "filesystem"@,
    {
        "filesystem"
    }
}

/// A credential written for a provider is what a later read of that provider
/// returns, and a write leaves every other key as it was.
pub proof fn lemma_read_after_write(
    before: Map<Seq<char>, StoredCredential>,
    provider: AuthProviderId,
    credential: StoredCredential,
    other: Seq<char>,
)
    ensures
        ({
            let after = before.insert(provider_wire_id(provider), credential);
            &&& after.dom().contains(provider_wire_id(provider))
            &&& after[provider_wire_id(provider)] == credential
            &&& other != provider_wire_id(provider) ==> (after.dom().contains(other)
                == before.dom().contains(other) && (before.dom().contains(other) ==> after[other]
                == before[other]))
        }),
{
}

/// Logging in again replaces the stored record rather than adding a second
/// one: two writes for a provider leave exactly what the second wrote.
pub proof fn lemma_second_write_replaces(
    before: Map<Seq<char>, StoredCredential>,
    provider: AuthProviderId,
    first: StoredCredential,
    second: StoredCredential,
)
    ensures
        before.insert(provider_wire_id(provider), first).insert(provider_wire_id(provider), second)
            == before.insert(provider_wire_id(provider), second),
{
    assert(before.insert(provider_wire_id(provider), first).insert(
        provider_wire_id(provider),
        second,
    ) =~= before.insert(provider_wire_id(provider), second));
}

/// After a delete nothing is stored for the provider; deleting again, or
/// deleting an absent credential, changes nothing.
pub proof fn lemma_delete_is_idempotent(
    before: Map<Seq<char>, StoredCredential>,
    provider: AuthProviderId,
)
    ensures
        !before.remove(provider_wire_id(provider)).dom().contains(provider_wire_id(provider)),
        before.remove(provider_wire_id(provider)).remove(provider_wire_id(provider))
            == before.remove(provider_wire_id(provider)),
        !before.dom().contains(provider_wire_id(provider)) ==> before.remove(
            provider_wire_id(provider),
        ) == before,
{
    assert(before.remove(provider_wire_id(provider)).remove(provider_wire_id(provider))
        =~= before.remove(provider_wire_id(provider)));
    if !before.dom().contains(provider_wire_id(provider)) {
        assert(before.remove(provider_wire_id(provider)) =~= before);
    }
}

/// The known providers named by `keys`, in order.
pub open spec fn known_providers(keys: Seq<Seq<char>>) -> Seq<AuthProviderId>
    decreases keys.len(),
{
    if keys.len() == 0 {
        Seq::empty()
    } else {
        let rest = known_providers(keys.drop_last());
        match provider_for_wire_id(keys.last()) {
            Some(p) => rest.push(p),
            None => rest,
        }
    }
}

} // verus!

verus! {

/// A provider is among the known providers of a key list exactly when its
/// wire id is one of the keys.
pub proof fn lemma_known_providers(keys: Seq<Seq<char>>, p: AuthProviderId)
    ensures
        known_providers(keys).contains(p) <==> keys.contains(provider_wire_id(p)),
    decreases keys.len(),
{
    crate::provider_id::lemma_wire_id_round_trip(p, p);
    if keys.len() > 0 {
        lemma_known_providers(keys.drop_last(), p);
        let rest = known_providers(keys.drop_last());
        assert(keys =~= keys.drop_last().push(keys.last()));
        match provider_for_wire_id(keys.last()) {
            Some(q) => {
                crate::provider_id::lemma_wire_id_round_trip(q, p);
                assert(rest.push(q).contains(p) <==> (rest.contains(p) || q == p)) by {
                    if rest.push(q).contains(p) {
                        let i = choose|i: int| 0 <= i < rest.push(q).len() && rest.push(q)[i] == p;
                        if i < rest.len() {
                            assert(rest[i] == p);
                        }
                    }
                    if rest.contains(p) {
                        let i = choose|i: int| 0 <= i < rest.len() && rest[i] == p;
                        assert(rest.push(q)[i] == p);
                    }
                    if q == p {
                        assert(rest.push(q)[rest.len() as int] == p);
                    }
                }
                assert(provider_wire_id(q) == keys.last());
            },
            None => {},
        }
        assert(keys.contains(provider_wire_id(p)) <==> (keys.drop_last().contains(
            provider_wire_id(p),
        ) || keys.last() == provider_wire_id(p))) by {
            if keys.contains(provider_wire_id(p)) {
                let i = choose|i: int| 0 <= i < keys.len() && keys[i] == provider_wire_id(p);
                if i < keys.len() - 1 {
                    assert(keys.drop_last()[i] == provider_wire_id(p));
                }
            }
            if keys.drop_last().contains(provider_wire_id(p)) {
                let i = choose|i: int|
                    0 <= i < keys.drop_last().len() && keys.drop_last()[i] == provider_wire_id(p);
                assert(keys[i] == provider_wire_id(p));
            }
            if keys.last() == provider_wire_id(p) {
                assert(keys[keys.len() - 1] == provider_wire_id(p));
            }
        }
    }
}

/// The providers a document lists are exactly those it stores a credential
/// for.
pub proof fn lemma_listed_iff_stored(d: CredentialDocument, p: AuthProviderId)
    requires
        d.wf(),
    ensures
        known_providers(d.key_order()).contains(p) <==> d@.dom().contains(provider_wire_id(p)),
{
    d.lemma_key_order();
    lemma_known_providers(d.key_order(), p);
}

} // verus!
