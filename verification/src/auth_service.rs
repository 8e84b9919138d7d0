//! The shared entry point for subscription authentication.
//!
//! [`AuthService`] knows the registered providers, publishes which ones have
//! stored credentials, and settles logins and logouts against the credential
//! document. Running a provider's interactive login, and reading or writing
//! the file behind the document, happen around it.

use vstd::prelude::*;

use crate::credential::{OAuthCredential, StoredCredential};
use crate::credential_store::{known_providers, lemma_listed_iff_stored, CredentialDocument};
use crate::failures::{
    login_failure_as_operation, map_login_failure, AuthOperationFailure, CredentialStoreError,
    LoginFailure,
};
use crate::login_method::LoginMethod;
use crate::provider_id::{provider_wire_id, AuthProviderId};

verus! {

/// The providers with stored credentials, in the order providers sort.
pub open spec fn presence_order(stored: Set<AuthProviderId>) -> Seq<AuthProviderId> {
    if stored.contains(AuthProviderId::OpenAiCodex) {
        seq![AuthProviderId::OpenAiCodex]
    } else {
        Seq::empty()
    }
}

/// A synchronous snapshot of which providers have stored credentials.
///
/// Availability is read on the render path and while building picker rows,
/// where a storage read would be inappropriate. "Stored" means exactly that:
/// a credential is on disk, not that a fresh request would succeed.
#[derive(Debug, Clone, PartialEq, Eq)]
pub struct CredentialPresence {
    stored: Vec<AuthProviderId>,
}

impl View for CredentialPresence {
    type V = Set<AuthProviderId>;

    closed spec fn view(&self) -> Set<AuthProviderId> {
        self.stored@.to_set()
    }
}

impl CredentialPresence {
    /// The snapshot's invariant: providers listed in order, once each.
    pub closed spec fn wf(self) -> bool {
        self.stored@ == presence_order(self.stored@.to_set())
    }

    /// Creates an empty snapshot.
    pub fn new() -> (p: CredentialPresence)
        ensures
            p.wf(),
            p@ == Set::<AuthProviderId>::empty(),
    {
        let p = CredentialPresence { stored: Vec::new() };
        assert(p.stored@.to_set() =~= Set::<AuthProviderId>::empty());
        p
    }

    /// Whether `provider` has a stored credential.
    pub fn has_credentials(&self, provider: AuthProviderId) -> (r: bool)
        ensures
            r == self@.contains(provider),
    {
        let mut i: usize = 0;
        while i < self.stored.len()
            invariant
                i <= self.stored@.len(),
                forall|j: int| 0 <= j < i ==> self.stored@[j] != provider,
            decreases self.stored@.len() - i,
        {
            if self.stored[i] == provider {
                assert(self.stored@.to_set().contains(self.stored@[i as int]));
                return true;
            }
            i = i + 1;
        }
        false
    }

    /// The providers that have stored credentials, in order.
    pub fn stored_providers(&self) -> (r: Vec<AuthProviderId>)
        requires
            self.wf(),
        ensures
            r@ == presence_order(self@),
    {
        self.stored.clone()
    }

    /// Replaces the snapshot with the given providers.
    pub fn publish(&mut self, providers: Vec<AuthProviderId>)
        ensures
            final(self).wf(),
            final(self)@ == providers@.to_set(),
    {
        let mut stored: Vec<AuthProviderId> = Vec::new();
        let mut seen = false;
        let mut i: usize = 0;
        while i < providers.len()
            invariant
                i <= providers@.len(),
                seen == providers@.take(i as int).contains(AuthProviderId::OpenAiCodex),
            decreases providers@.len() - i,
        {
            if providers[i] == AuthProviderId::OpenAiCodex {
                seen = true;
            }
            proof {
                let t = providers@.take(i + 1);
                assert(t.drop_last() =~= providers@.take(i as int));
                if t.contains(AuthProviderId::OpenAiCodex) && !providers@.take(i as int).contains(
                    AuthProviderId::OpenAiCodex,
                ) {
                    let j = choose|j: int|
                        0 <= j < t.len() && t[j] == AuthProviderId::OpenAiCodex;
                    if j < i {
                        assert(providers@.take(i as int)[j] == AuthProviderId::OpenAiCodex);
                    }
                }
                if providers@.take(i as int).contains(AuthProviderId::OpenAiCodex) {
                    let j = choose|j: int|
                        0 <= j < i && providers@.take(i as int)[j] == AuthProviderId::OpenAiCodex;
                    assert(t[j] == AuthProviderId::OpenAiCodex);
                }
                if providers@[i as int] == AuthProviderId::OpenAiCodex {
                    assert(t[i as int] == AuthProviderId::OpenAiCodex);
                }
            }
            i = i + 1;
        }
        if seen {
            stored.push(AuthProviderId::OpenAiCodex);
        }
        proof {
            assert(providers@.take(i as int) =~= providers@);
            assert forall|p: AuthProviderId| stored@.to_set().contains(p) == providers@.to_set().contains(
                p,
            ) by {
                match p {
                    AuthProviderId::OpenAiCodex => {
                        if seen {
                            assert(stored@[0] == p);
                        }
                    },
                }
            }
            assert(stored@.to_set() =~= providers@.to_set());
            if seen {
                assert(stored@.to_set().contains(AuthProviderId::OpenAiCodex)) by {
                    assert(stored@[0] == AuthProviderId::OpenAiCodex);
                }
                assert(stored@ =~= seq![AuthProviderId::OpenAiCodex]);
            } else {
                assert(stored@ =~= Seq::<AuthProviderId>::empty());
            }
        }
        self.stored = stored;
    }
}

/// A registered subscription provider: its id and the login methods its
/// adapter offers, in presentation order.
#[derive(Debug, Clone)]
pub struct ProviderRegistration {
    /// The provider.
    pub id: AuthProviderId,
    /// Its login methods, in presentation order.
    pub methods: Vec<LoginMethod>,
}

/// The methods registered for `p`: the last registration for it wins.
pub open spec fn registered_methods(r: Seq<ProviderRegistration>, p: AuthProviderId) -> Option<
    Seq<LoginMethod>,
>
    decreases r.len(),
{
    if r.len() == 0 {
        None
    } else if r.last().id == p {
        Some(r.last().methods@)
    } else {
        registered_methods(r.drop_last(), p)
    }
}

/// Registered subscription providers plus the credential snapshot.
pub struct AuthService {
    registrations: Vec<ProviderRegistration>,
    presence: CredentialPresence,
}

impl AuthService {
    /// The service's invariant.
    pub closed spec fn wf(self) -> bool {
        self.presence.wf()
    }

    /// The registrations, in the order they were given.
    pub closed spec fn registry(self) -> Seq<ProviderRegistration> {
        self.registrations@
    }

    /// The providers currently published as having stored credentials.
    pub closed spec fn stored(self) -> Set<AuthProviderId> {
        self.presence@
    }

    /// Registers `providers`; a later registration for the same provider
    /// replaces an earlier one. Nothing is published as stored until
    /// [`AuthService::refresh_presence`] runs.
    pub fn new(providers: Vec<ProviderRegistration>) -> (s: AuthService)
        ensures
            s.wf(),
            s.registry() == providers@,
            s.stored() == Set::<AuthProviderId>::empty(),
    {
        AuthService { registrations: providers, presence: CredentialPresence::new() }
    }

    /// The login methods `provider` supports, or none when it is not
    /// registered.
    pub fn methods(&self, provider: AuthProviderId) -> (r: Vec<LoginMethod>)
        ensures
            r@ == (match registered_methods(self.registry(), provider) {
                Some(m) => m,
                None => Seq::empty(),
            }),
    {
        let mut i: usize = self.registrations.len();
        while i > 0
            invariant
                i <= self.registrations@.len(),
                registered_methods(self.registrations@, provider) == registered_methods(
                    self.registrations@.take(i as int),
                    provider,
                ),
            decreases i,
        {
            let ghost t = self.registrations@.take(i as int);
            proof {
                assert(t.drop_last() =~= self.registrations@.take(i - 1));
                assert(t.last() == self.registrations@[i - 1]);
            }
            if self.registrations[i - 1].id == provider {
                return self.registrations[i - 1].methods.clone();
            }
            i = i - 1;
        }
        Vec::new()
    }

    /// Whether `provider` is registered.
    pub fn is_registered(&self, provider: AuthProviderId) -> (r: bool)
        ensures
            r == (registered_methods(self.registry(), provider) is Some),
    {
        let mut i: usize = self.registrations.len();
        while i > 0
            invariant
                i <= self.registrations@.len(),
                registered_methods(self.registrations@, provider) == registered_methods(
                    self.registrations@.take(i as int),
                    provider,
                ),
            decreases i,
        {
            let ghost t = self.registrations@.take(i as int);
            proof {
                assert(t.drop_last() =~= self.registrations@.take(i - 1));
            }
            if self.registrations[i - 1].id == provider {
                return true;
            }
            i = i - 1;
        }
        false
    }

    /// The providers the login picker offers, in presentation order.
    pub fn provider_ids(&self) -> (r: Vec<AuthProviderId>)
        ensures
            r@ == (if registered_methods(self.registry(), AuthProviderId::OpenAiCodex) is Some {
                seq![AuthProviderId::OpenAiCodex]
            } else {
                Seq::empty()
            }),
    {
        let mut ids: Vec<AuthProviderId> = Vec::new();
        if self.is_registered(AuthProviderId::OpenAiCodex) {
            ids.push(AuthProviderId::OpenAiCodex);
        }
        ids
    }

    /// The shared snapshot of which providers have stored credentials.
    pub fn presence(&self) -> (p: &CredentialPresence)
        ensures
            p@ == self.stored(),
    {
        &self.presence
    }

    /// Whether `provider` currently has a stored credential.
    pub fn has_credentials(&self, provider: AuthProviderId) -> (r: bool)
        ensures
            r == self.stored().contains(provider),
    {
        self.presence.has_credentials(provider)
    }

    /// Republishes the snapshot from a storage listing; a failed listing
    /// leaves the snapshot as it was.
    pub fn refresh_presence(&mut self, listed: Result<Vec<AuthProviderId>, CredentialStoreError>) -> (r:
        Result<(), AuthOperationFailure>)
        requires
            old(self).wf(),
        ensures
            final(self).wf(),
            final(self).registry() == old(self).registry(),
            match listed {
                Ok(v) => r is Ok && final(self).stored() == v@.to_set(),
                Err(_) => r == Err::<(), AuthOperationFailure>(AuthOperationFailure::Storage)
                    && final(self).stored() == old(self).stored(),
            },
    {
        match listed {
            Ok(providers) => {
                self.presence.publish(providers);
                Ok(())
            },
            Err(_) => Err(AuthOperationFailure::Storage),
        }
    }

    /// Republishes the snapshot from a document.
    fn publish_from(&mut self, document: &CredentialDocument)
        requires
            old(self).wf(),
            document.wf(),
        ensures
            final(self).wf(),
            final(self).registry() == old(self).registry(),
            forall|p: AuthProviderId|
                #[trigger] final(self).stored().contains(p) == document@.dom().contains(
                    provider_wire_id(p),
                ),
    {
        let listed = document.stored_providers();
        self.presence.publish(listed);
        proof {
            assert forall|p: AuthProviderId|
                #[trigger] self.presence@.contains(p) == document@.dom().contains(
                    provider_wire_id(p),
                ) by {
                lemma_listed_iff_stored(*document, p);
                assert(known_providers(document.key_order()).to_set().contains(p)
                    == known_providers(document.key_order()).contains(p));
            }
        }
    }

    /// Checks that a login may start: the provider must be registered.
    pub fn begin_login(&self, provider: AuthProviderId) -> (r: Result<(), AuthOperationFailure>)
        ensures
            r is Ok <==> registered_methods(self.registry(), provider) is Some,
            r is Err ==> r == Err::<(), AuthOperationFailure>(AuthOperationFailure::UnknownProvider),
    {
        if self.is_registered(provider) {
            Ok(())
        } else {
            Err(AuthOperationFailure::UnknownProvider)
        }
    }

    /// Settles a login once the provider has answered. `cancelled` says
    /// whether the attempt was cancelled before its result could be stored.
    /// Storage is written only when the provider returned a credential and
    /// the attempt was not cancelled, so a failed or cancelled attempt leaves
    /// any previous login untouched.
    pub fn complete_login(
        &mut self,
        document: &mut CredentialDocument,
        provider: AuthProviderId,
        outcome: Result<OAuthCredential, LoginFailure>,
        cancelled: bool,
    ) -> (r: Result<(), AuthOperationFailure>)
        requires
            old(self).wf(),
            old(document).wf(),
        ensures
            final(self).wf(),
            final(document).wf(),
            final(self).registry() == old(self).registry(),
            match outcome {
                Err(f) => r == Err::<(), AuthOperationFailure>(login_failure_as_operation(f))
                    && final(document)@ == old(document)@ && final(self).stored() == old(self).stored(),
                Ok(c) => if cancelled {
                    r == Err::<(), AuthOperationFailure>(AuthOperationFailure::Cancelled)
                        && final(document)@ == old(document)@ && final(self).stored() == old(self).stored()
                } else {
                    &&& r is Ok
                    &&& final(document)@ == old(document)@.insert(
                        provider_wire_id(provider),
                        StoredCredential::Oauth(c),
                    )
                    &&& forall|p: AuthProviderId|
                        #[trigger] final(self).stored().contains(p) == final(document)@.dom().contains(provider_wire_id(p))
                },
            },
    {
        let credential = match outcome {
            Ok(credential) => credential,
            Err(failure) => return Err(map_login_failure(failure)),
        };
        if cancelled {
            return Err(AuthOperationFailure::Cancelled);
        }
        document.write_provider(provider, StoredCredential::Oauth(credential));
        self.publish_from(document);
        Ok(())
    }

    /// Removes the stored credential for `provider` and republishes the
    /// snapshot; says whether the document changed and must be written back.
    pub fn logout(&mut self, document: &mut CredentialDocument, provider: AuthProviderId) -> (changed:
        bool)
        requires
            old(self).wf(),
            old(document).wf(),
        ensures
            final(self).wf(),
            final(document).wf(),
            final(self).registry() == old(self).registry(),
            final(document)@ == old(document)@.remove(provider_wire_id(provider)),
            changed == old(document)@.dom().contains(provider_wire_id(provider)),
            !final(self).stored().contains(provider),
            forall|p: AuthProviderId|
                #[trigger] final(self).stored().contains(p) == final(document)@.dom().contains(
                    provider_wire_id(p),
                ),
    {
        let changed = document.delete_provider(provider);
        self.publish_from(document);
        changed
    }
}

} // verus!
