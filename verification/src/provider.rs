use vstd::prelude::*;
use crate::error::{SignInError, SignOutError, StorageError};
use crate::sign_in::{
    begins, continue_sign_in, continue_sign_out, continues, ends, requested_for_sign_in,
    requested_for_sign_out, SignInRequest, SignInStep, SignOutRequest,
};
use crate::storage::OidcStorage;
use crate::subprovider::{models, OidcSubprovider, OidcSubproviderModel};

verus! {

pub const OIDC_PROVIDER_ID: &'static str = "oidc";

/// Whether some entry of `list` has the identifier `id`.
pub open spec fn has_match(list: Seq<OidcSubproviderModel>, id: Seq<char>) -> bool {
    exists|i: int| 0 <= i < list.len() && (#[trigger] list[i]).id == id
}

/// Whether `i` is the position of the first entry of `list` with the
/// identifier `id`.
pub open spec fn is_first_match(list: Seq<OidcSubproviderModel>, id: Seq<char>, i: int) -> bool {
    &&& 0 <= i < list.len()
    &&& list[i].id == id
    &&& forall|j: int| 0 <= j < i ==> (#[trigger] list[j]).id != id
}

/// A storage backend as the delegate that a provider holds.
pub open spec fn as_delegate<S: OidcStorage + 'static>(storage: S) -> Box<dyn OidcStorage> {
    Box::new(storage)
}

/// The OpenID Connect provider: its statically configured subproviders, in
/// configuration order, and an optional storage delegate.
pub struct OidcProvider {
    subproviders: Vec<OidcSubprovider>,
    storage: Option<Box<dyn OidcStorage>>,
}

impl OidcProvider {
    /// What a lookup owes: the first static entry with the identifier where
    /// there is one, whatever the storage delegate holds; nothing where there
    /// is neither such an entry nor a delegate. Otherwise the delegate
    /// decides.
    pub open spec fn resolves(
        &self,
        id: Seq<char>,
        found: Result<Option<OidcSubprovider>, StorageError>,
    ) -> bool {
        &&& has_match(self.statics(), id) ==> found is Ok && found->Ok_0 is Some && exists|i: int|
            is_first_match(self.statics(), id, i) && found->Ok_0->0@ == self.statics()[i]
        &&& !has_match(self.statics(), id) && !self.has_storage() ==> found is Ok
            && found->Ok_0 is None
    }

    /// What a listing owes: the static entries first, in configuration
    /// order, and nothing else where no delegate is attached; in any case
    /// what `lists_from` says of some answer of the delegate.
    pub open spec fn lists(&self, all: Result<Vec<OidcSubprovider>, StorageError>) -> bool {
        &&& !self.has_storage() ==> all is Ok && models(all->Ok_0@) == self.statics()
        &&& all is Ok ==> self.statics().is_prefix_of(models(all->Ok_0@))
        &&& exists|stored: Result<Vec<OidcSubprovider>, StorageError>| #[trigger]
            self.lists_from(stored, all)
    }

    /// What a listing owes once the delegate has answered: the static
    /// entries followed by the stored ones, or the delegate's fault as it
    /// came.
    pub open spec fn lists_from(
        &self,
        stored: Result<Vec<OidcSubprovider>, StorageError>,
        all: Result<Vec<OidcSubprovider>, StorageError>,
    ) -> bool {
        match stored {
            Ok(list) => all is Ok && models(all->Ok_0@) == self.statics() + models(list@),
            Err(e) => all == Err::<Vec<OidcSubprovider>, StorageError>(e),
        }
    }

    /// What a sign-in attempt owes: `SubproviderMissing` without an
    /// identifier; with one, what `continues` says of some lookup that meets
    /// `resolves`. So the attempt goes on with the first static entry with
    /// the identifier where there is one, fails with `SubproviderNotFound`
    /// where there is neither such an entry nor a delegate, and else goes on
    /// from what the delegate answered.
    pub open spec fn signs_in(
        &self,
        request: SignInRequest,
        out: Result<SignInStep, SignInError>,
    ) -> bool {
        match request.subprovider_id {
            None => out == Err::<SignInStep, SignInError>(SignInError::SubproviderMissing),
            Some(id) => {
                &&& has_match(self.statics(), id@) ==> exists|i: int|
                    is_first_match(self.statics(), id@, i) && begins(self.statics()[i], out)
                &&& !has_match(self.statics(), id@) && !self.has_storage() ==> out == Err::<
                    SignInStep,
                    SignInError,
                >(SignInError::SubproviderNotFound(id))
                &&& exists|lookup: Result<Option<OidcSubprovider>, StorageError>|
                    self.resolves(id@, lookup) && #[trigger] continues(id, lookup, out)
            },
        }
    }

    /// What a sign-out attempt owes: `SubproviderMissing` without an
    /// identifier; with one, what `ends` says of some lookup that meets
    /// `resolves`. So it succeeds where a static entry has the identifier,
    /// fails with `SubproviderNotFound` where there is neither such an entry
    /// nor a delegate, and else ends on what the delegate answered.
    pub open spec fn signs_out(&self, request: SignOutRequest, out: Result<(), SignOutError>) -> bool {
        match request.subprovider_id {
            None => out == Err::<(), SignOutError>(SignOutError::SubproviderMissing),
            Some(id) => {
                &&& has_match(self.statics(), id@) ==> out is Ok
                &&& !has_match(self.statics(), id@) && !self.has_storage() ==> out == Err::<
                    (),
                    SignOutError,
                >(SignOutError::SubproviderNotFound(id))
                &&& exists|lookup: Result<Option<OidcSubprovider>, StorageError>|
                    self.resolves(id@, lookup) && #[trigger] ends(id, lookup, out)
            },
        }
    }

    /// The statically configured subproviders, in configuration order.
    pub closed spec fn statics(&self) -> Seq<OidcSubproviderModel> {
        models(self.subproviders@)
    }

    /// Whether a storage delegate is attached.
    pub open spec fn has_storage(&self) -> bool {
        self.delegate() is Some
    }

    /// The storage delegate, if one is attached.
    pub closed spec fn delegate(&self) -> Option<Box<dyn OidcStorage>> {
        self.storage
    }

    pub fn new() -> (provider: Self)
        ensures
            provider.statics() == Seq::<OidcSubproviderModel>::empty(),
            !provider.has_storage(),
    {
        let provider = OidcProvider { subproviders: Vec::new(), storage: None };
        proof {
            assert(provider.statics() =~= Seq::<OidcSubproviderModel>::empty());
        }
        provider
    }

    pub fn with_storage<S: OidcStorage + 'static>(self, storage: S) -> (provider: Self)
        ensures
            provider.statics() == self.statics(),
            provider.has_storage(),
            provider.delegate() == Some(as_delegate(storage)),
    {
        let boxed: Box<dyn OidcStorage> = Box::new(storage);
        OidcProvider { subproviders: self.subproviders, storage: Some(boxed) }
    }

    pub fn with_subproviders(self, subproviders: Vec<OidcSubprovider>) -> (provider: Self)
        ensures
            provider.statics() == models(subproviders@),
            provider.delegate() == self.delegate(),
    {
        OidcProvider { subproviders, storage: self.storage }
    }

    /// The first statically configured subprovider with the given identifier.
    pub fn static_subprovider_by_id(&self, subprovider_id: &str) -> (found: Option<OidcSubprovider>)
        ensures
            match found {
                Some(s) => exists|i: int|
                    is_first_match(self.statics(), subprovider_id@, i) && s@ == self.statics()[i],
                None => !has_match(self.statics(), subprovider_id@),
            },
    {
        let wanted = subprovider_id.to_owned();
        let mut i: usize = 0;
        while i < self.subproviders.len()
            invariant
                i <= self.subproviders.len(),
                wanted@ == subprovider_id@,
                forall|j: int| 0 <= j < i ==> (#[trigger] self.statics()[j]).id != subprovider_id@,
            decreases self.subproviders.len() - i,
        {
            if self.subproviders[i].id == wanted {
                let copy = self.subproviders[i].clone();
                proof {
                    assert(is_first_match(self.statics(), subprovider_id@, i as int));
                }
                return Some(copy);
            }
            i += 1;
        }
        None
    }

    /// Resolves a subprovider: the static list first, the storage delegate
    /// only where the list has no entry with this identifier.
    pub fn oidc_subprovider_by_id(&self, subprovider_id: &str) -> (found: Result<
        Option<OidcSubprovider>,
        StorageError,
    >)
        ensures
            self.resolves(subprovider_id@, found),
    {
        match self.static_subprovider_by_id(subprovider_id) {
            Some(s) => Ok(Some(s)),
            None => match &self.storage {
                Some(storage) => storage.oidc_subprovider_by_id(subprovider_id),
                None => Ok(None),
            },
        }
    }

    /// The provider's identifier.
    pub fn id(&self) -> (id: String)
        ensures
            id@ == OIDC_PROVIDER_ID@,
    {
        OIDC_PROVIDER_ID.to_owned()
    }

    /// The static subproviders, in configuration order, followed by the given
    /// stored ones, in the order given. Entries that share an identifier are
    /// all kept.
    pub fn merged_subproviders(&self, stored: Vec<OidcSubprovider>) -> (all: Vec<OidcSubprovider>)
        ensures
            models(all@) == self.statics() + models(stored@),
    {
        let mut all: Vec<OidcSubprovider> = Vec::new();
        let mut i: usize = 0;
        while i < self.subproviders.len()
            invariant
                i <= self.subproviders.len(),
                all@.len() == i,
                forall|j: int| 0 <= j < i ==> (#[trigger] all@[j])@ == self.subproviders@[j]@,
            decreases self.subproviders.len() - i,
        {
            all.push(self.subproviders[i].clone());
            i += 1;
        }
        let mut stored = stored;
        let ghost stored_before = stored@;
        let ghost copied = all@;
        all.append(&mut stored);
        proof {
            assert(all@ == copied + stored_before);
            assert(models(all@) =~= self.statics() + models(stored_before));
        }
        all
    }

    /// Every subprovider: the static ones first, then what the storage
    /// delegate lists. A storage fault is handed on.
    pub fn subproviders(&self) -> (all: Result<Vec<OidcSubprovider>, StorageError>)
        ensures
            self.lists(all),
    {
        let stored: Result<Vec<OidcSubprovider>, StorageError> = match &self.storage {
            Some(storage) => storage.oidc_subproviders(),
            None => Ok(Vec::new()),
        };
        let all = self.listed(stored);
        proof {
            assert(self.lists_from(stored, all));
            if stored is Ok {
                assert(self.statics().is_prefix_of(models(all->Ok_0@)));
            }
            if !self.has_storage() {
                assert(models(stored->Ok_0@) =~= Seq::<OidcSubproviderModel>::empty());
                assert(models(all->Ok_0@) =~= self.statics());
            }
        }
        all
    }

    /// The listing for a given answer of the storage delegate: the static
    /// entries followed by the stored ones, or the fault handed on.
    pub fn listed(&self, stored: Result<Vec<OidcSubprovider>, StorageError>) -> (all: Result<
        Vec<OidcSubprovider>,
        StorageError,
    >)
        ensures
            self.lists_from(stored, all),
    {
        match stored {
            Ok(list) => Ok(self.merged_subproviders(list)),
            Err(e) => Err(e),
        }
    }

    /// Resolves a subprovider as `oidc_subprovider_by_id` does.
    pub fn subprovider_by_id(&self, subprovider_id: &str) -> (found: Result<
        Option<OidcSubprovider>,
        StorageError,
    >)
        ensures
            self.resolves(subprovider_id@, found),
    {
        self.oidc_subprovider_by_id(subprovider_id)
    }

    /// Starts a sign-in attempt: resolves the subprovider, then decides the
    /// next step. Without an identifier the request fails before anything is
    /// looked up.
    pub fn sign_in(&self, request: SignInRequest) -> (out: Result<SignInStep, SignInError>)
        ensures
            self.signs_in(request, out),
    {
        match requested_for_sign_in(request) {
            Err(e) => Err(e),
            Ok(subprovider_id) => {
                let lookup = self.oidc_subprovider_by_id(subprovider_id.as_str());
                let out = continue_sign_in(subprovider_id, lookup);
                proof {
                    assert(self.resolves(subprovider_id@, lookup) && continues(
                        subprovider_id,
                        lookup,
                        out,
                    ));
                }
                out
            },
        }
    }

    /// Signs out of a subprovider. The subprovider is resolved as for sign-in;
    /// a subprovider of this kind names no revocation endpoint, so nothing
    /// further is done.
    pub fn sign_out(&self, request: SignOutRequest) -> (out: Result<(), SignOutError>)
        ensures
            self.signs_out(request, out),
    {
        match requested_for_sign_out(request) {
            Err(e) => Err(e),
            Ok(subprovider_id) => {
                let lookup = self.subprovider_by_id(subprovider_id.as_str());
                let out = continue_sign_out(subprovider_id, lookup);
                proof {
                    assert(self.resolves(subprovider_id@, lookup) && ends(
                        subprovider_id,
                        lookup,
                        out,
                    ));
                }
                out
            },
        }
    }
}

impl Default for OidcProvider {
    fn default() -> (provider: Self)
        ensures
            provider.statics() == Seq::<OidcSubproviderModel>::empty(),
            !provider.has_storage(),
    {
        OidcProvider::new()
    }
}

/// Static precedence: a lookup that meets `resolves` for an identifier that
/// the static list holds is the first static entry with that identifier.
/// Nothing is asked of the storage delegate, so this holds whatever it keeps
/// under the same identifier.
pub proof fn static_entry_takes_precedence(
    provider: OidcProvider,
    id: Seq<char>,
    i: int,
    found: Result<Option<OidcSubprovider>, StorageError>,
)
    requires
        provider.resolves(id, found),
        is_first_match(provider.statics(), id, i),
    ensures
        found is Ok,
        found->Ok_0 is Some,
        found->Ok_0->0@ == provider.statics()[i],
{
    let list = provider.statics();
    assert(has_match(list, id));
    let j = choose|j: int| is_first_match(list, id, j) && found->Ok_0->0@ == list[j];
    if i < j {
        assert(list[i].id != id);
    }
    if j < i {
        assert(list[j].id != id);
    }
}

/// A sign-in request without an identifier fails with `SubproviderMissing`
/// at every provider, whatever it holds; one with an identifier that neither
/// the static list nor a delegate can resolve fails with
/// `SubproviderNotFound` of that identifier.
pub proof fn unresolved_requests_fail(
    provider: OidcProvider,
    request: SignInRequest,
    out: Result<SignInStep, SignInError>,
)
    requires
        provider.signs_in(request, out),
    ensures
        request.subprovider_id is None ==> out == Err::<SignInStep, SignInError>(
            SignInError::SubproviderMissing,
        ),
        request.subprovider_id is Some && !provider.has_storage() && !has_match(
            provider.statics(),
            request.subprovider_id->0@,
        ) ==> out == Err::<SignInStep, SignInError>(
            SignInError::SubproviderNotFound(request.subprovider_id->0),
        ),
{
}

/// `SubproviderMissing` comes at sign-in exactly when the request names no
/// identifier, whatever the provider holds and whatever its delegate answers.
pub proof fn missing_only_without_identifier(
    provider: OidcProvider,
    request: SignInRequest,
    out: Result<SignInStep, SignInError>,
)
    requires
        provider.signs_in(request, out),
    ensures
        (out is Err && out->Err_0 is SubproviderMissing) <==> request.subprovider_id is None,
{
}

/// `SubproviderMissing` comes at sign-out exactly when the request names no
/// identifier, whatever the provider holds and whatever its delegate answers.
pub proof fn sign_out_missing_only_without_identifier(
    provider: OidcProvider,
    request: SignOutRequest,
    out: Result<(), SignOutError>,
)
    requires
        provider.signs_out(request, out),
    ensures
        (out is Err && out->Err_0 is SubproviderMissing) <==> request.subprovider_id is None,
{
}

/// A sign-in with an identifier that the lookup does not resolve fails with
/// `SubproviderNotFound` of that identifier, with or without a delegate.
pub proof fn unknown_identifier_is_not_found(
    id: String,
    lookup: Result<Option<OidcSubprovider>, StorageError>,
    out: Result<SignInStep, SignInError>,
)
    requires
        lookup == Ok::<Option<OidcSubprovider>, StorageError>(None),
        continues(id, lookup, out),
    ensures
        out == Err::<SignInStep, SignInError>(SignInError::SubproviderNotFound(id)),
{
}

} // verus!
