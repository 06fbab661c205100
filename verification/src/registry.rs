use vstd::prelude::*;
use crate::error::{RegistryError, SignInError, SignOutError, StorageError};
use crate::provider::{OidcProvider, OIDC_PROVIDER_ID};
use crate::sign_in::{SignInRequest, SignInStep, SignOutRequest};
use crate::subprovider::OidcSubprovider;

verus! {

/// A registered provider, by protocol family.
pub enum Provider {
    Oidc(OidcProvider),
}

impl Provider {
    /// The provider's identifier, as characters.
    pub open spec fn spec_id(&self) -> Seq<char> {
        match self {
            Provider::Oidc(_) => OIDC_PROVIDER_ID@,
        }
    }

    /// The OpenID Connect provider inside.
    pub open spec fn oidc(&self) -> OidcProvider {
        match self {
            Provider::Oidc(p) => *p,
        }
    }

    pub fn id(&self) -> (id: String)
        ensures
            id@ == self.spec_id(),
    {
        match self {
            Provider::Oidc(p) => p.id(),
        }
    }

    /// Every subprovider of the provider, static entries first.
    pub fn subproviders(&self) -> (all: Result<Vec<OidcSubprovider>, StorageError>)
        ensures
            self.oidc().lists(all),
    {
        match self {
            Provider::Oidc(p) => p.subproviders(),
        }
    }

    /// Resolves a subprovider, static entries first.
    pub fn subprovider_by_id(&self, subprovider_id: &str) -> (found: Result<
        Option<OidcSubprovider>,
        StorageError,
    >)
        ensures
            self.oidc().resolves(subprovider_id@, found),
    {
        match self {
            Provider::Oidc(p) => p.subprovider_by_id(subprovider_id),
        }
    }

    /// Starts a sign-in attempt with the provider.
    pub fn sign_in(&self, request: SignInRequest) -> (out: Result<SignInStep, SignInError>)
        ensures
            self.oidc().signs_in(request, out),
    {
        match self {
            Provider::Oidc(p) => p.sign_in(request),
        }
    }

    /// Signs out of a subprovider of the provider.
    pub fn sign_out(&self, request: SignOutRequest) -> (out: Result<(), SignOutError>)
        ensures
            self.oidc().signs_out(request, out),
    {
        match self {
            Provider::Oidc(p) => p.sign_out(request),
        }
    }
}

/// Whether some provider of `list` has the identifier `id`.
pub open spec fn is_registered(list: Seq<Provider>, id: Seq<char>) -> bool {
    exists|i: int| 0 <= i < list.len() && (#[trigger] list[i]).spec_id() == id
}

/// Whether no two providers of `list` share an identifier.
pub open spec fn distinct_ids(list: Seq<Provider>) -> bool {
    forall|i: int, j: int|
        0 <= i < j < list.len() ==> (#[trigger] list[i]).spec_id() != (#[trigger] list[j]).spec_id()
}

/// The identifier that a registration was rejected for.
pub open spec fn rejected_id(e: RegistryError) -> Seq<char> {
    match e {
        RegistryError::DuplicateProvider(id) => id@,
    }
}

/// The registry of providers. It is filled once, before requests arrive, and
/// only read afterwards.
pub struct Shield {
    providers: Vec<Provider>,
}

impl Shield {
    /// The registered providers, in registration order.
    pub closed spec fn providers(&self) -> Seq<Provider> {
        self.providers@
    }

    /// No two registered providers share an identifier.
    pub open spec fn wf(&self) -> bool {
        distinct_ids(self.providers())
    }

    pub fn new() -> (shield: Self)
        ensures
            shield.wf(),
            shield.providers() == Seq::<Provider>::empty(),
    {
        Shield { providers: Vec::new() }
    }

    /// The position of the provider with the given identifier.
    fn position(&self, id: &str) -> (at: Option<usize>)
        ensures
            match at {
                Some(i) => i < self.providers().len() && self.providers()[i as int].spec_id()
                    == id@,
                None => !is_registered(self.providers(), id@),
            },
    {
        let wanted = id.to_owned();
        let mut i: usize = 0;
        while i < self.providers.len()
            invariant
                i <= self.providers.len(),
                wanted@ == id@,
                forall|j: int| 0 <= j < i ==> (#[trigger] self.providers@[j]).spec_id() != id@,
            decreases self.providers.len() - i,
        {
            let candidate = self.providers[i].id();
            if candidate == wanted {
                return Some(i);
            }
            i += 1;
        }
        None
    }

    /// Registers a provider. One whose identifier is taken is rejected, and
    /// the registry stays as it was.
    pub fn register(&mut self, provider: Provider) -> (out: Result<(), RegistryError>)
        requires
            old(self).wf(),
        ensures
            final(self).wf(),
            is_registered(old(self).providers(), provider.spec_id()) ==> out is Err
                && rejected_id(out->Err_0) == provider.spec_id() && final(self).providers() == old(self).providers(),
            !is_registered(old(self).providers(), provider.spec_id()) ==> out is Ok
                && final(self).providers() == old(self).providers().push(provider),
    {
        let id = provider.id();
        match self.position(id.as_str()) {
            Some(_) => Err(RegistryError::DuplicateProvider(id)),
            None => {
                self.providers.push(provider);
                Ok(())
            },
        }
    }

    /// The provider with the given identifier.
    pub fn provider_by_id(&self, id: &str) -> (found: Option<&Provider>)
        ensures
            match found {
                Some(p) => p.spec_id() == id@ && self.providers().contains(*p),
                None => !is_registered(self.providers(), id@),
            },
    {
        match self.position(id) {
            Some(i) => Some(&self.providers[i]),
            None => None,
        }
    }
}

/// Why `register` chooses as it does: a list with distinct identifiers keeps
/// them distinct when a provider with a new identifier is added at its end,
/// and loses that when one with a taken identifier is added. So a rejected
/// registration leaves the list as it was, and an accepted one is whole.
pub proof fn registration_keeps_ids_distinct(list: Seq<Provider>, provider: Provider)
    requires
        distinct_ids(list),
    ensures
        !is_registered(list, provider.spec_id()) ==> distinct_ids(list.push(provider)),
        is_registered(list, provider.spec_id()) ==> !distinct_ids(list.push(provider)),
{
    let next = list.push(provider);
    if is_registered(list, provider.spec_id()) {
        let i = choose|i: int| 0 <= i < list.len() && (#[trigger] list[i]).spec_id() == provider.spec_id();
        assert(next[i].spec_id() == next[list.len() as int].spec_id());
    } else {
        assert forall|i: int, j: int| 0 <= i < j < next.len() implies (#[trigger] next[i]).spec_id()
            != (#[trigger] next[j]).spec_id() by {
            if j < list.len() {
                assert(list[i].spec_id() != list[j].spec_id());
            } else {
                assert(list[i].spec_id() != provider.spec_id());
            }
        }
    }
}

} // verus!
