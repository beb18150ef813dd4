//! A small key management core: a scoped key-value backend for secrets,
//! cryptographic providers that act on the secrets of one key path, identity
//! checks, and a host for WebAssembly context providers.
use std::sync::Arc;
use vstd::hash_map::StringHashMap;
use vstd::prelude::*;
use vstd::string::*;

use crate::backend::hashmap_backend::HashMapBackend;
use crate::backend::{Backend, Entries, ScopedBackend};
use crate::id_manager::disabled_id_manager::DisabledIdentityManager;
use crate::id_manager::{bytes_view, share, IdentityManager, IdentityManagerError, User};
use crate::processor::{PreProcessor, PreProcessorContext, PreProcessorError};
use crate::provider::libcrux_ed25519::LibCruxEd25519Provider;
use crate::provider::{answer_view, ActionRequest, Provider, ProviderError};

pub mod backend;
pub mod context_provider;
pub mod crypto_provider;
pub mod id_manager;
pub mod id_provider;
pub mod plugin;
pub mod processor;
pub mod provider;
pub mod secret_provider;
pub mod user;
pub mod wasm_guest;

verus! {

/// Where a path is joined with a child path: the child replaces the base when
/// it is absolute (starts with `/`); otherwise the two are joined by one `/`,
/// unless the base is empty or already ends with `/`.
pub open spec fn path_join(base: Seq<char>, child: Seq<char>) -> Seq<char> {
    if child.len() > 0 && child[0] == '/' {
        child
    } else if base.len() == 0 || base.last() == '/' {
        base + child
    } else {
        base + seq!['/'] + child
    }
}

/// Whether two texts are equal, character by character.
pub fn text_eq(a: &str, b: &str) -> (r: bool)
    ensures
        r == (a@ == b@),
{
    let n = a.unicode_len();
    if n != b.unicode_len() {
        return false;
    }
    let mut i: usize = 0;
    while i < n
        invariant
            n == a@.len(),
            n == b@.len(),
            i <= n,
            forall|j: int| 0 <= j < i ==> a@[j] == b@[j],
        decreases n - i,
    {
        if a.get_char(i) != b.get_char(i) {
            return false;
        }
        i = i + 1;
    }
    assert(a@ =~= b@);
    true
}

/// A child path that is not absolute stays under the scope it is joined to:
/// the scope is a prefix of the joined path.
pub proof fn lemma_relative_join_stays_in_scope(scope: Seq<char>, child: Seq<char>)
    requires
        !(child.len() > 0 && child[0] == '/'),
    ensures
        path_join(scope, child).take(scope.len() as int) == scope,
{
    assert(path_join(scope, child).take(scope.len() as int) =~= scope);
}

/// Joining a child path that is not absolute to a non-empty base that does
/// not end with `/` gives the base, one `/`, and then the child.
pub proof fn lemma_join_adds_one_separator(base: Seq<char>, child: Seq<char>)
    requires
        !(child.len() > 0 && child[0] == '/'),
        base.len() > 0,
        base[base.len() - 1] != '/',
    ensures
        path_join(base, child) == base + seq!['/'] + child,
        path_join(base, child).len() == base.len() + 1 + child.len(),
        path_join(base, child)[base.len() as int] == '/',
{
}

/// Joining a child path that is not absolute to a base that is empty or ends
/// with `/` puts the child right after the base; an absolute child replaces
/// the base.
pub proof fn lemma_join_without_separator(base: Seq<char>, child: Seq<char>)
    ensures
        child.len() > 0 && child[0] == '/' ==> path_join(base, child) == child,
        !(child.len() > 0 && child[0] == '/') && (base.len() == 0 || base[base.len() - 1] == '/')
            ==> path_join(base, child) == base + child,
{
}

/// Under one base, different child paths that are not absolute join to
/// different paths.
pub proof fn lemma_join_keeps_children_apart(base: Seq<char>, c1: Seq<char>, c2: Seq<char>)
    requires
        !(c1.len() > 0 && c1[0] == '/'),
        !(c2.len() > 0 && c2[0] == '/'),
        path_join(base, c1) == path_join(base, c2),
    ensures
        c1 == c2,
{
    let j = path_join(base, c1);
    let n: int = if base.len() == 0 || base.last() == '/' {
        base.len() as int
    } else {
        base.len() + 1int
    };
    assert(j.skip(n) =~= c1);
    assert(path_join(base, c2).skip(n) =~= c2);
}

/// The path of a key in the store, held as its text.
#[derive(Debug, Clone, PartialEq, Eq, Hash)]
pub struct KeyPath(String);

impl View for KeyPath {
    type V = Seq<char>;

    closed spec fn view(&self) -> Seq<char> {
        self.0@
    }
}

impl KeyPath {
    /// The path as text.
    pub fn as_str(&self) -> (r: &str)
        ensures
            r@ == self@,
    {
        self.0.as_str()
    }

    /// A second key path with the same text.
    pub fn duplicate(&self) -> (r: KeyPath)
        ensures
            r@ == self@,
    {
        KeyPath(self.0.clone())
    }

    /// `child` placed under `self`, as a path is joined on Unix.
    pub fn join(&self, child: &KeyPath) -> (r: KeyPath)
        ensures
            r@ == path_join(self@, child@),
            !(child@.len() > 0 && child@[0] == '/') && self@.len() > 0 && self@[self@.len() - 1] != '/'
                ==> r@ == self@ + seq!['/'] + child@,
            !(child@.len() > 0 && child@[0] == '/') && (self@.len() == 0 || self@[self@.len() - 1] == '/')
                ==> r@ == self@ + child@,
            child@.len() > 0 && child@[0] == '/' ==> r@ == child@,
    {
        let c = child.0.as_str();
        if !c.is_empty() && c.get_char(0) == '/' {
            return KeyPath(c.to_string());
        }
        let b = self.0.as_str();
        let blen = b.unicode_len();
        let mut joined = b.to_string();
        if blen > 0 && b.get_char(blen - 1) != '/' {
            let sep = "/";
            proof {
                reveal_strlit("/");
            }
            joined.append(sep);
        }
        joined.append(c);
        proof {
            if blen > 0 {
                assert(b@.last() == b@[blen - 1]);
            }
        }
        KeyPath(joined)
    }
}

impl From<&str> for KeyPath {
    /// The key path whose text is `value`.
    fn from(value: &str) -> (r: Self)
        ensures
            r@ == value@,
    {
        KeyPath(value.to_string())
    }
}

/// The conversion from text is stated over the view of the result (in the
/// `ensures` of `from`): the text of a key path has no spec-level constructor.
impl vstd::std_specs::convert::FromSpecImpl<&str> for KeyPath {
    open spec fn obeys_from_spec() -> bool {
        false
    }

    open spec fn from_spec(v: &str) -> KeyPath {
        arbitrary()
    }
}

#[derive(Debug)]
#[allow(inconsistent_fields)]
pub enum KeyStackError {
    PreProcessorError { source: PreProcessorError },
    ProviderError { source: ProviderError },
    PreProcessorNotFound { id: String },
    ProviderNotFound { id: String },
    IdentityManagerError { source: IdentityManagerError },
}

impl From<IdentityManagerError> for KeyStackError {
    fn from(source: IdentityManagerError) -> (r: Self) {
        KeyStackError::IdentityManagerError { source }
    }
}

impl vstd::std_specs::convert::FromSpecImpl<IdentityManagerError> for KeyStackError {
    open spec fn obeys_from_spec() -> bool {
        true
    }

    open spec fn from_spec(v: IdentityManagerError) -> KeyStackError {
        KeyStackError::IdentityManagerError { source: v }
    }
}

pub enum KeyStackRequest {
    Action {
        key_path: KeyPath,
        pre_processor_ids: Vec<String>,
        action_id: String,
        payload: Vec<u8>,
        provider_id: String,
        auth_data: Option<Vec<u8>>,
        user_id: Option<String>,
    },
}

pub enum KeyStackResponse {
    Action {
        action_id: String,
        pre_processor_context: StringHashMap<Vec<u8>>,
        provider_response: Vec<u8>,
    },
}

/// The texts of a list of strings.
pub open spec fn texts(v: Seq<String>) -> Seq<Seq<char>> {
    v.map_values(|s: String| s@)
}

/// Every id of `ids` is among `registered`.
pub open spec fn all_registered(ids: Seq<Seq<char>>, registered: Set<Seq<char>>) -> bool {
    forall|i: int| 0 <= i < ids.len() ==> registered.contains(#[trigger] ids[i])
}

/// `id` is the first id of `ids` that is not among `registered`.
pub open spec fn first_missing(ids: Seq<Seq<char>>, registered: Set<Seq<char>>, id: Seq<char>) -> bool {
    exists|k: int|
        0 <= k < ids.len() && #[trigger] ids[k] == id && !registered.contains(id)
            && all_registered(ids.take(k), registered)
}

/// The id under which a request authenticates: its user id, or the empty id.
pub open spec fn request_user(user_id: Option<String>) -> Seq<char> {
    match user_id {
        Some(u) => u@,
        None => Seq::empty(),
    }
}

/// The authentication data of a request.
pub open spec fn request_auth(auth_data: Option<Vec<u8>>) -> Option<Seq<u8>> {
    match auth_data {
        Some(a) => Some(a@),
        None => None,
    }
}

/// Each of the first `k` pre-processors of `chain` gave the answer that
/// `answers` records under its id, for the user id, key path, action id and
/// payload.
pub open spec fn answered_with<IM: IdentityManager>(
    pre_processors: Map<Seq<char>, Arc<dyn PreProcessor<IM>>>,
    chain: Seq<Seq<char>>,
    k: int,
    user_id: Seq<char>,
    key_path: Seq<char>,
    action_id: Seq<char>,
    payload: Seq<u8>,
    answers: Map<Seq<char>, Seq<u8>>,
) -> bool {
    forall|j: int|
        0 <= j < k ==> answers.contains_key(#[trigger] chain[j]) && pre_processors[chain[j]].pre_process_meets(
            user_id,
            key_path,
            action_id,
            payload,
            Ok(answers[chain[j]]),
        )
}

/// Answers recorded under each of the first `k` ids of `chain`, each of which
/// its pre-processor may give for the request, are how those pre-processors
/// answered.
proof fn lemma_recorded_answers<IM: IdentityManager>(
    pre_processors: Map<Seq<char>, Arc<dyn PreProcessor<IM>>>,
    chain: Seq<Seq<char>>,
    k: int,
    key_path: Seq<char>,
    action_id: Seq<char>,
    payload: Seq<u8>,
    results: Map<Seq<char>, Vec<u8>>,
)
    requires
        0 <= k <= chain.len(),
        results.dom() == chain.take(k).to_set(),
        forall|id: Seq<char>|
            #[trigger] results.contains_key(id) ==> pre_processors[id].pre_process_meets(
                "default-user"@,
                key_path,
                action_id,
                payload,
                Ok(results[id]@),
            ),
    ensures
        answered_with(
            pre_processors,
            chain,
            k,
            "default-user"@,
            key_path,
            action_id,
            payload,
            results.map_values(|v: Vec<u8>| v@),
        ),
{
    let answers = results.map_values(|v: Vec<u8>| v@);
    assert forall|j: int| 0 <= j < k implies answers.contains_key(#[trigger] chain[j])
        && pre_processors[chain[j]].pre_process_meets(
        "default-user"@,
        key_path,
        action_id,
        payload,
        Ok(answers[chain[j]]),
    ) by {
        assert(chain.take(k)[j] == chain[j]);
        assert(chain.take(k).to_set().contains(chain[j]));
        assert(results.contains_key(chain[j]));
    }
}

/// The key store: it authenticates a request, runs the pre-processors that it
/// requires and those that the request names, then hands the action to the
/// provider that the request names, on the key at the request's path.
#[verifier::reject_recursive_types(IM)]
#[verifier::reject_recursive_types(P)]
pub struct KeyStack<B: Backend, IM: IdentityManager, P: Provider> {
    required_pre_processors: Vec<String>,
    backend: B,
    pre_processors: StringHashMap<Arc<dyn PreProcessor<IM>>>,
    providers: StringHashMap<P>,
    identity_manager: Arc<IM>,
}

impl<B: Backend, IM: IdentityManager, P: Provider> KeyStack<B, IM, P> {
    /// The pre-processors that every request runs first, in order.
    pub closed spec fn required_ids(&self) -> Seq<Seq<char>> {
        texts(self.required_pre_processors@)
    }

    /// What the key store's backend holds.
    pub closed spec fn entries(&self) -> Entries {
        self.backend.entries()
    }

    /// The ids under which pre-processors are registered.
    pub closed spec fn pre_processor_ids(&self) -> Set<Seq<char>> {
        self.pre_processors@.dom()
    }

    /// The providers, by id.
    pub closed spec fn providers(&self) -> Map<Seq<char>, P> {
        self.providers@
    }

    /// The pre-processors, by id.
    pub closed spec fn pre_processors(&self) -> Map<Seq<char>, Arc<dyn PreProcessor<IM>>> {
        self.pre_processors@
    }

    /// The identity manager.
    pub closed spec fn identity(&self) -> IM {
        *self.identity_manager
    }

    /// The pre-processors that a request naming `requested` runs, in order.
    pub open spec fn chain(&self, requested: Seq<Seq<char>>) -> Seq<Seq<char>> {
        self.required_ids() + requested
    }

    /// Handles one request: authenticates its user, runs the pre-processors of
    /// the chain in order on a context for the user "default-user", then hands
    /// the action to the provider. The configuration of the key store is left as
    /// it was; only the provider's action changes what the backend holds.
    #[verifier::loop_isolation(false)]
    pub fn handle_request(&mut self, request: KeyStackRequest) -> (r: Result<KeyStackResponse, KeyStackError>)
        ensures
            final(self).required_ids() == old(self).required_ids(),
            final(self).pre_processor_ids() == old(self).pre_processor_ids(),
            final(self).providers() == old(self).providers(),
            final(self).identity() == old(self).identity(),
            ({
                let chain = old(self).chain(texts(request->pre_processor_ids@));
                let registered = old(self).pre_processor_ids();
                let pid = request->provider_id@;
                let user = request_user(request->user_id);
                let auth = request_auth(request->auth_data);
                let admitted = old(self).identity().admits(user, auth);
                let ran = |id: Seq<char>, answer: Result<Seq<u8>, PreProcessorError>|
                    old(self).pre_processors()[id].pre_process_meets(
                        "default-user"@,
                        request->key_path@,
                        request->action_id@,
                        request->payload@,
                        answer,
                    );
                &&& !(r matches Err(KeyStackError::IdentityManagerError { .. })) ==> old(
                    self,
                ).identity().authenticate_meets(user, auth, Ok(true))
                &&& match r {
                    Ok(KeyStackResponse::Action { action_id, pre_processor_context, provider_response }) => {
                        &&& all_registered(chain, registered)
                        &&& old(self).providers().contains_key(pid)
                        &&& action_id@ == request->action_id@
                        &&& pre_processor_context@.dom() == chain.to_set()
                        &&& forall|id: Seq<char>|
                            #[trigger] pre_processor_context@.contains_key(id) ==> ran(
                                id,
                                Ok(pre_processor_context@[id]@),
                            )
                        &&& old(self).providers()[pid].outcome(
                            request->action_id@,
                            request->payload@,
                            request->key_path@,
                            old(self).entries(),
                            final(self).entries(),
                            Ok(provider_response@),
                        )
                    },
                    Err(KeyStackError::IdentityManagerError { source }) => {
                        &&& !admitted
                        &&& old(self).identity().authenticate_meets(user, auth, Err(source)) || (
                        old(self).identity().authenticate_meets(user, auth, Ok(false))
                            && source is AuthenticationFailed)
                        &&& final(self).entries() == old(self).entries()
                    },
                    Err(KeyStackError::PreProcessorNotFound { id }) => {
                        &&& first_missing(chain, registered, id@)
                        &&& exists|k: int, answers: Map<Seq<char>, Seq<u8>>|
                            0 <= k < chain.len() && chain[k] == id@ && #[trigger] answered_with(
                                old(self).pre_processors(),
                                chain,
                                k,
                                "default-user"@,
                                request->key_path@,
                                request->action_id@,
                                request->payload@,
                                answers,
                            )
                        &&& final(self).entries() == old(self).entries()
                    },
                    Err(KeyStackError::PreProcessorError { source }) => {
                        &&& exists|k: int|
                            0 <= k < chain.len() && all_registered(#[trigger] chain.take(k + 1), registered)
                                && ran(chain[k], Err(source)) && exists|answers: Map<Seq<char>, Seq<u8>>|
                                #[trigger] answered_with(
                                    old(self).pre_processors(),
                                    chain,
                                    k,
                                    "default-user"@,
                                    request->key_path@,
                                    request->action_id@,
                                    request->payload@,
                                    answers,
                                )
                        &&& final(self).entries() == old(self).entries()
                    },
                    Err(KeyStackError::ProviderNotFound { id }) => {
                        &&& id@ == pid
                        &&& all_registered(chain, registered)
                        &&& !old(self).providers().contains_key(pid)
                        &&& final(self).entries() == old(self).entries()
                    },
                    Err(KeyStackError::ProviderError { source }) => {
                        &&& all_registered(chain, registered)
                        &&& old(self).providers().contains_key(pid)
                        &&& old(self).providers()[pid].outcome(
                            request->action_id@,
                            request->payload@,
                            request->key_path@,
                            old(self).entries(),
                            final(self).entries(),
                            Err(source),
                        )
                    },
                }
                &&& admitted && !all_registered(chain, registered) ==> (r matches Err(e) && (
                    e is PreProcessorNotFound || e is PreProcessorError))
                &&& admitted && all_registered(chain, registered) && !old(self).providers().contains_key(pid)
                    ==> (r matches Err(e) && (e is ProviderNotFound || e is PreProcessorError))
                &&& admitted && chain.len() == 0 && old(self).providers().contains_key(pid) ==> (r is Ok
                    || r matches Err(KeyStackError::ProviderError { .. }))
            }),
    {
        let KeyStackRequest::Action {
            key_path,
            pre_processor_ids,
            action_id,
            payload,
            provider_id,
            auth_data,
            user_id,
        } = request;
        let ghost requested = texts(pre_processor_ids@);
        let ghost chain = self.chain(requested);
        let ghost registered = self.pre_processor_ids();

        let authenticated_id: String = match &user_id {
            Some(u) => u.clone(),
            None => String::new(),
        };
        let extra: Option<&[u8]> = match &auth_data {
            Some(a) => Some(a.as_slice()),
            None => None,
        };
        assert(bytes_view(extra) == request_auth(auth_data));
        match self.identity_manager.user_authenticate(authenticated_id.as_str(), extra) {
            Ok(true) => {},
            Ok(false) => {
                return Err(
                    KeyStackError::IdentityManagerError { source: IdentityManagerError::AuthenticationFailed },
                );
            },
            Err(e) => {
                return Err(KeyStackError::IdentityManagerError { source: e });
            },
        }

        let user = User::new("default-user".to_string(), share(&self.identity_manager));

        let mut all_pre_processor_ids: Vec<String> = Vec::new();
        let mut i: usize = 0;
        while i < self.required_pre_processors.len()
            invariant
                i <= self.required_pre_processors@.len(),
                all_pre_processor_ids@.len() == i,
                texts(all_pre_processor_ids@) == texts(self.required_pre_processors@).take(i as int),
            decreases self.required_pre_processors@.len() - i,
        {
            let id = self.required_pre_processors[i].clone();
            assert(id@ == self.required_pre_processors@[i as int]@);
            let ghost before = all_pre_processor_ids@;
            all_pre_processor_ids.push(id);
            assert(all_pre_processor_ids@ == before.push(id));
            i = i + 1;
            assert forall|j: int| 0 <= j < i implies #[trigger] texts(all_pre_processor_ids@)[j] == texts(self.required_pre_processors@).take(i as int)[j] by {
                if j < i - 1 {
                    assert(texts(before)[j] == texts(self.required_pre_processors@).take(i - 1)[j]);
                }
            }
            assert(texts(all_pre_processor_ids@) =~= texts(self.required_pre_processors@).take(i as int));
        }
        let mut i: usize = 0;
        while i < pre_processor_ids.len()
            invariant
                i <= pre_processor_ids@.len(),
                all_pre_processor_ids@.len() == self.required_pre_processors@.len() + i,
                texts(all_pre_processor_ids@) == texts(self.required_pre_processors@) + texts(pre_processor_ids@).take(i as int),
            decreases pre_processor_ids@.len() - i,
        {
            let id = pre_processor_ids[i].clone();
            assert(id@ == pre_processor_ids@[i as int]@);
            let ghost before = all_pre_processor_ids@;
            all_pre_processor_ids.push(id);
            i = i + 1;
            assert(texts(all_pre_processor_ids@).len() == texts(before).len() + 1);
            assert forall|j: int| 0 <= j < all_pre_processor_ids@.len() implies #[trigger] texts(all_pre_processor_ids@)[j] == (texts(self.required_pre_processors@) + texts(pre_processor_ids@).take(i as int))[j] by {
                if j < all_pre_processor_ids@.len() - 1 {
                    assert(texts(before)[j] == (texts(self.required_pre_processors@) + texts(pre_processor_ids@).take(i - 1))[j]);
                }
            }
            assert(texts(all_pre_processor_ids@) =~= texts(self.required_pre_processors@) + texts(pre_processor_ids@).take(i as int));
        }
        assert(texts(pre_processor_ids@).take(pre_processor_ids@.len() as int) =~= texts(pre_processor_ids@));
        assert(texts(all_pre_processor_ids@) == chain);

        let context = PreProcessorContext {
            user,
            key_path: key_path.duplicate(),
            action_id: action_id.clone(),
            payload: payload.clone(),
        };

        let mut pre_processor_results: StringHashMap<Vec<u8>> = StringHashMap::new();
        let mut i: usize = 0;
        while i < all_pre_processor_ids.len()
            invariant
                i <= all_pre_processor_ids@.len(),
                texts(all_pre_processor_ids@) == chain,
                self.pre_processors@.dom() == registered,
                self.pre_processors@ == old(self).pre_processors(),
                all_registered(chain.take(i as int), registered),
                pre_processor_results@.dom() == chain.take(i as int).to_set(),
                context.user.spec_id() == "default-user"@,
                context.key_path@ == key_path@,
                context.action_id@ == action_id@,
                context.payload@ == payload@,
                forall|id: Seq<char>|
                    #[trigger] pre_processor_results@.contains_key(id) ==> self.pre_processors@[id].pre_process_meets(
                        "default-user"@,
                        key_path@,
                        action_id@,
                        payload@,
                        Ok(pre_processor_results@[id]@),
                    ),
            decreases all_pre_processor_ids@.len() - i,
        {
            let id = &all_pre_processor_ids[i];
            assert(chain[i as int] == id@);
            let pre_processor = match self.pre_processors.get(id.as_str()) {
                Some(p) => p,
                None => {
                    assert(first_missing(chain, registered, id@));
                    proof {
                        lemma_recorded_answers(
                            old(self).pre_processors(),
                            chain,
                            i as int,
                            key_path@,
                            action_id@,
                            payload@,
                            pre_processor_results@,
                        );
                    }
                    return Err(KeyStackError::PreProcessorNotFound { id: id.clone() });
                },
            };
            assert(chain.take(i + 1) =~= chain.take(i as int).push(id@));
            let result = match pre_processor.pre_process(&context) {
                Ok(result) => result,
                Err(e) => {
                    assert(all_registered(chain.take(i + 1), registered));
                    proof {
                        lemma_recorded_answers(
                            old(self).pre_processors(),
                            chain,
                            i as int,
                            key_path@,
                            action_id@,
                            payload@,
                            pre_processor_results@,
                        );
                    }
                    return Err(KeyStackError::PreProcessorError { source: e });
                },
            };
            let ghost before = pre_processor_results@.dom();
            let ghost answer = result@;
            pre_processor_results.insert(id.clone(), result);
            assert(pre_processor_results@[id@]@ == answer);
            i = i + 1;
            assert forall|a: Seq<char>| #[trigger] chain.take(i as int).contains(a) <==> (chain.take(i - 1).contains(a) || a == id@) by {
                if chain.take(i as int).contains(a) {
                    let j = choose|j: int| 0 <= j < i && #[trigger] chain.take(i as int)[j] == a;
                    if a != id@ {
                        assert(chain.take(i - 1)[j] == a);
                    }
                }
                if a == id@ {
                    assert(chain.take(i as int)[i - 1] == a);
                }
                if chain.take(i - 1).contains(a) {
                    let j = choose|j: int| 0 <= j < i - 1 && #[trigger] chain.take(i - 1)[j] == a;
                    assert(chain.take(i as int)[j] == a);
                }
            }
            assert(pre_processor_results@.dom() =~= chain.take(i as int).to_set());
        }
        assert(chain.take(chain.len() as int) =~= chain);

        let provider = match self.providers.get(provider_id.as_str()) {
            Some(p) => p,
            None => {
                return Err(KeyStackError::ProviderNotFound { id: provider_id });
            },
        };

        let scoped_backend = ScopedBackend::new(&mut self.backend, key_path);
        let mut action_request = ActionRequest {
            action_id: action_id.clone(),
            scoped_backend,
            payload,
        };
        let provider_response = match provider.do_action(&mut action_request) {
            Ok(response) => response,
            Err(e) => {
                return Err(KeyStackError::ProviderError { source: e });
            },
        };

        Ok(
            KeyStackResponse::Action {
                action_id,
                pre_processor_context: pre_processor_results,
                provider_response,
            },
        )
    }
}

impl Default for KeyStack<HashMapBackend, DisabledIdentityManager, LibCruxEd25519Provider> {
    /// A key store with an empty in-memory backend, the Ed25519 provider under
    /// its name, no pre-processors, and the identity manager that admits only
    /// the anonymous user.
    fn default() -> (r: Self)
        ensures
            r.required_ids().len() == 0,
            r.entries() == Map::<Seq<char>, Seq<u8>>::empty(),
            r.pre_processor_ids() == Set::<Seq<char>>::empty(),
            r.providers() == Map::<Seq<char>, LibCruxEd25519Provider>::empty().insert(
                "builtin-libcrux-ed25519"@,
                LibCruxEd25519Provider,
            ),
            r.identity() == DisabledIdentityManager,
    {
        let ed25519_provider = LibCruxEd25519Provider;
        let mut providers = StringHashMap::new();
        providers.insert(ed25519_provider.name(), ed25519_provider);
        let backend = HashMapBackend { store: StringHashMap::new() };
        assert(backend.entries() =~= Map::<Seq<char>, Seq<u8>>::empty());
        KeyStack {
            identity_manager: Arc::new(DisabledIdentityManager),
            required_pre_processors: Vec::new(),
            backend,
            pre_processors: StringHashMap::new(),
            providers,
        }
    }
}

} // verus!
