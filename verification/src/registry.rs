//! The backends, by name, with what is known of each one's setup.

use vstd::prelude::*;
use vstd::string::StringExecFns;
use crate::error::{ErrorKind, UpmError};
use crate::name_map::NameMap;
use crate::privilege::{effective_user_is_root, BackendSetup};
use crate::rpc::server::Router;
use crate::rpc::{
    HandeshakeParams, HandeshakeResult, OutdatedParams, OutdatedResult, UpdateParams,
    UpdateResult, UpgradeParams, UpgradeResult,
};

verus! {

/// The backend of the package manager. Nothing is claimed of what an
/// implementation returns: the registry passes it on.
pub trait UpmBackend {
    /// Get the permission requirements of the package manager's method, by
    /// probing for the native tool.
    fn setup(&self) -> Result<BackendSetup, UpmError>;

    /// Update packages index.
    fn update(&self) -> Result<(), UpmError>;

    /// List upgradable packages.
    fn outdated(&self) -> Result<OutdatedResult, UpmError>;

    /// Upgrade packages.
    fn upgrade(&self) -> Result<(), UpmError>;
}

/// What a probe ended with.
pub type Probe = Result<BackendSetup, UpmError>;

/// The message of the error for a name that no backend is registered under.
pub open spec fn not_found_text(name: Seq<char>) -> Seq<char> {
    "backend '"@ + name + "' not found."@
}

/// The error for a name that no backend is registered under. It quotes the
/// name as it was given.
pub fn not_found(name: &str) -> (e: UpmError)
    ensures
        e.says(ErrorKind::Dispatch, not_found_text(name@)),
{
    let mut message = String::from_str("backend '");
    message.append(name);
    message.append("' not found.");
    UpmError { kind: ErrorKind::Dispatch, message }
}

/// The not-found message holds the name as it was given, between the
/// quotes.
pub proof fn lemma_not_found_quotes_name(name: Seq<char>)
    ensures
        not_found_text(name).len() == name.len() + 21,
        not_found_text(name).subrange(9, 9 + name.len() as int) == name,
{
    reveal_strlit("backend '");
    reveal_strlit("' not found.");
    assert(not_found_text(name).subrange(9, 9 + name.len() as int) =~= name);
}

/// The cached probe of `name`, if there is one.
pub open spec fn cached_in(cache: Map<Seq<char>, Probe>, name: Seq<char>) -> Option<Probe> {
    if cache.dom().contains(name) {
        Some(cache[name])
    } else {
        None
    }
}

/// One setup lookup, as a relation between the cache before, the answer and
/// the cache after.
///
/// A name that is not registered is answered with the not-found error and
/// leaves no trace. For a registered name, a cached probe is the answer and
/// the cache stays as it is; without one the backend is probed and the
/// probe, success or failure, is both the answer and the new cache entry.
pub open spec fn lookup_step(
    names: Seq<Seq<char>>,
    before: Map<Seq<char>, Probe>,
    name: Seq<char>,
    answer: Probe,
    after: Map<Seq<char>, Probe>,
) -> bool {
    if !names.contains(name) {
        &&& after == before
        &&& answer matches Err(e) && e.says(ErrorKind::Dispatch, not_found_text(name))
    } else {
        match cached_in(before, name) {
            Some(probe) => answer == probe && after == before,
            None => after == before.insert(name, answer),
        }
    }
}

/// Looking a registered backend up a second time gives the answer of the
/// first time and changes nothing: the backend was probed once.
pub proof fn lemma_second_lookup_is_cached(
    names: Seq<Seq<char>>,
    c0: Map<Seq<char>, Probe>,
    name: Seq<char>,
    first: Probe,
    c1: Map<Seq<char>, Probe>,
    second: Probe,
    c2: Map<Seq<char>, Probe>,
)
    requires
        names.contains(name),
        lookup_step(names, c0, name, first, c1),
        lookup_step(names, c1, name, second, c2),
    ensures
        second == first,
        c2 == c1,
        cached_in(c1, name) == Some(first),
{
}

/// A lookup changes no cache entry but that of the name looked up, and never
/// takes an entry away.
pub proof fn lemma_lookup_keeps_cache(
    names: Seq<Seq<char>>,
    before: Map<Seq<char>, Probe>,
    name: Seq<char>,
    answer: Probe,
    after: Map<Seq<char>, Probe>,
    other: Seq<char>,
)
    requires
        lookup_step(names, before, name, answer, after),
    ensures
        other != name ==> cached_in(after, other) == cached_in(before, other),
        cached_in(before, other) is Some ==> cached_in(after, other) == cached_in(before, other),
{
}

/// What an update of a backend that ended with `outcome` comes to.
pub open spec fn update_answer(outcome: Result<(), UpmError>) -> Result<UpdateResult, UpmError> {
    match outcome {
        Ok(_) => Ok(UpdateResult {  }),
        Err(e) => Err(e),
    }
}

/// What an upgrade of a backend that ended with `outcome` comes to.
pub open spec fn upgrade_answer(outcome: Result<(), UpmError>) -> Result<UpgradeResult, UpmError> {
    match outcome {
        Ok(_) => Ok(UpgradeResult {  }),
        Err(e) => Err(e),
    }
}

/// The answer to an update request, for the backend's own outcome: success
/// as it is, and the backend's error as it is.
pub fn update_result(outcome: Result<(), UpmError>) -> (r: Result<UpdateResult, UpmError>)
    ensures
        r == update_answer(outcome),
{
    match outcome {
        Ok(()) => Ok(UpdateResult {  }),
        Err(e) => Err(e),
    }
}

/// The answer to an upgrade request, for the backend's own outcome: success
/// as it is, and the backend's error as it is.
pub fn upgrade_result(outcome: Result<(), UpmError>) -> (r: Result<UpgradeResult, UpmError>)
    ensures
        r == upgrade_answer(outcome),
{
    match outcome {
        Ok(()) => Ok(UpgradeResult {  }),
        Err(e) => Err(e),
    }
}

/// The backends, each under its name, and the probes made so far.
///
/// The registry owns its backends. A backend is probed the first time its
/// setup is asked for; the answer is kept and given again from then on.
/// Only registered backends have an answer kept.
pub struct WorkerRouter<B> {
    backends: NameMap<B>,
    info: NameMap<Probe>,
}

impl<B> WorkerRouter<B> {
    #[verifier::type_invariant]
    spec fn inv(self) -> bool {
        &&& self.backends.wf()
        &&& self.info.wf()
        &&& forall|name: Seq<char>| #[trigger]
            self.info.contains(name) ==> self.backends.contains(name)
    }
}

impl<B: UpmBackend> WorkerRouter<B> {
    /// The registered names, in the order of their registration.
    pub closed spec fn names(&self) -> Seq<Seq<char>> {
        self.backends.keys()
    }

    /// The backend that stands under `name`.
    pub closed spec fn backend(&self, name: Seq<char>) -> B {
        self.backends.value_of(name)
    }

    /// The probes made so far, by backend name.
    pub closed spec fn cache(&self) -> Map<Seq<char>, Probe> {
        self.info.to_map()
    }

    /// Whether a backend is registered under `name`.
    pub open spec fn has(&self, name: Seq<char>) -> bool {
        self.names().contains(name)
    }

    /// The cached probe of `name`, if there is one.
    pub open spec fn cached(&self, name: Seq<char>) -> Option<Probe> {
        cached_in(self.cache(), name)
    }

    /// `answer` is what the backend under `name` gave when it was probed, if
    /// a lookup of `name` has to probe: that is, if the name is registered
    /// and has no cached probe.
    pub open spec fn probes(&self, name: Seq<char>, answer: Probe) -> bool {
        self.has(name) && self.cached(name) is None ==> call_ensures(
            B::setup,
            (&self.backend(name),),
            answer,
        )
    }

    /// The same backends stand under the same names.
    pub open spec fn same_backends(&self, other: &Self) -> bool {
        &&& self.names() == other.names()
        &&& forall|name: Seq<char>| self.has(name) ==> #[trigger] self.backend(name) == other.backend(name)
    }

    /// A registry without backends.
    pub fn empty() -> (r: WorkerRouter<B>)
        ensures
            r.names() == Seq::<Seq<char>>::empty(),
            r.cache() == Map::<Seq<char>, Probe>::empty(),
    {
        WorkerRouter { backends: NameMap::new(), info: NameMap::new() }
    }

    /// The registry of the three native package managers, under the names
    /// `apt`, `brew` and `flatpak`. Nothing is probed yet.
    pub fn new(apt: B, brew: B, flatpak: B) -> (r: WorkerRouter<B>)
        ensures
            r.names() == seq!["apt"@, "brew"@, "flatpak"@],
            r.backend("apt"@) == apt,
            r.backend("brew"@) == brew,
            r.backend("flatpak"@) == flatpak,
            r.cache() == Map::<Seq<char>, Probe>::empty(),
    {
        proof {
            reveal_strlit("apt");
            reveal_strlit("brew");
            reveal_strlit("flatpak");
            assert("apt"@.len() == 3);
            assert("brew"@.len() == 4);
            assert("flatpak"@.len() == 7);
        }
        let mut backends: NameMap<B> = NameMap::new();
        backends.add(String::from_str("apt"), apt);
        assert(!backends.contains("brew"@)) by {
            assert(backends.keys() =~= seq!["apt"@]);
        }
        backends.add(String::from_str("brew"), brew);
        assert(!backends.contains("flatpak"@)) by {
            assert(backends.keys() =~= seq!["apt"@, "brew"@]);
        }
        backends.add(String::from_str("flatpak"), flatpak);
        assert(backends.keys() =~= seq!["apt"@, "brew"@, "flatpak"@]);
        let info: NameMap<Probe> = NameMap::new();
        assert forall|name: Seq<char>| #[trigger] info.contains(name) implies backends.contains(
            name,
        ) by {
            assert(info.to_map().dom().contains(name));
        }
        WorkerRouter { backends, info }
    }

    /// Registers `backend` under `name`. A name that is taken keeps its
    /// backend, and the one offered comes back.
    pub fn register(&mut self, name: &str, backend: B) -> (r: Result<(), B>)
        ensures
            final(self).cache() == old(self).cache(),
            forall|other: Seq<char>|
                old(self).has(other) ==> #[trigger] final(self).backend(other) == old(self).backend(
                    other,
                ),
            match r {
                Ok(()) => !old(self).has(name@) && final(self).names() == old(self).names().push(
                    name@,
                ) && final(self).backend(name@) == backend,
                Err(back) => old(self).has(name@) && back == backend && final(self).names() == old(
                    self,
                ).names(),
            },
    {
        proof {
            use_type_invariant(&*self);
        }
        match self.backends.find(name) {
            Some(_) => Err(backend),
            None => {
                let mut info: NameMap<Probe> = NameMap::new();
                let mut backends: NameMap<B> = NameMap::new();
                core::mem::swap(&mut self.info, &mut info);
                core::mem::swap(&mut self.backends, &mut backends);
                backends.add(String::from_str(name), backend);
                core::mem::swap(&mut self.backends, &mut backends);
                assert forall|k: Seq<char>| #[trigger] info.contains(k) implies self.backends.contains(
                    k,
                ) by {
                    assert(old(self).backends.contains(k));
                    assert(self.backends.value_of(k) == old(self).backends.value_of(k));
                }
                core::mem::swap(&mut self.info, &mut info);
                Ok(())
            },
        }
    }

    /// Whether a backend is registered under `name`.
    pub fn contains(&self, name: &str) -> (b: bool)
        ensures
            b == self.has(name@),
    {
        proof {
            use_type_invariant(self);
        }
        self.backends.find(name).is_some()
    }

    /// The registered names, in the order of their registration. No name
    /// occurs twice.
    pub fn backend_names(&self) -> (names: Vec<String>)
        ensures
            names@.map_values(|s: String| s@) == self.names(),
            self.names().no_duplicates(),
    {
        proof {
            use_type_invariant(self);
        }
        let mut names: Vec<String> = Vec::new();
        let n = self.backends.len();
        let mut i: usize = 0;
        while i < n
            invariant
                self.backends.wf(),
                n == self.backends.keys().len(),
                i <= n,
                names@.map_values(|s: String| s@) == self.backends.keys().take(i as int),
            decreases n - i,
        {
            let name = self.backends.name_at(i).clone();
            names.push(name);
            assert(names@.map_values(|s: String| s@) =~= self.backends.keys().take(i as int).push(
                self.backends.keys()[i as int],
            ));
            assert(self.backends.keys().take(i as int + 1) =~= self.backends.keys().take(
                i as int,
            ).push(self.backends.keys()[i as int]));
            i = i + 1;
        }
        assert(self.backends.keys().take(n as int) =~= self.backends.keys());
        names
    }

    /// The cached probe of `name`, if there is one. Nothing is probed. A
    /// name that is not registered has none.
    pub fn cached_info(&self, name: &str) -> (r: Option<Probe>)
        ensures
            r == self.cached(name@),
            !self.has(name@) ==> r is None,
    {
        proof {
            use_type_invariant(self);
        }
        match self.info.find(name) {
            Some(i) => Some(copy_probe(self.info.value_at(i))),
            None => None,
        }
    }

    /// The setup of the backend `name`: from the cache if it was probed
    /// before, else by probing it now, with its own `setup`, and keeping the
    /// answer, success or failure. A name that is not registered is a
    /// dispatch error that quotes the name. The backends stay as they are.
    pub fn info(&mut self, name: &str) -> (r: Probe)
        ensures
            old(self).same_backends(final(self)),
            lookup_step(old(self).names(), old(self).cache(), name@, r, final(self).cache()),
            old(self).probes(name@, r),
    {
        proof {
            use_type_invariant(&*self);
        }
        if let Some(i) = self.info.find(name) {
            return copy_probe(self.info.value_at(i));
        }
        let place = match self.backends.find(name) {
            Some(place) => place,
            None => {
                return Err(not_found(name));
            },
        };
        let probe = self.backends.value_at(place).setup();
        let answer = copy_probe(&probe);
        let ghost registered = self.backends;
        let mut info: NameMap<Probe> = NameMap::new();
        core::mem::swap(&mut self.info, &mut info);
        info.add(String::from_str(name), probe);
        assert forall|k: Seq<char>| #[trigger] info.contains(k) implies registered.contains(k) by {}
        core::mem::swap(&mut self.info, &mut info);
        answer
    }
}

/// A copy of a probe's outcome.
pub fn copy_probe(probe: &Probe) -> (r: Probe)
    ensures
        r == *probe,
{
    match probe {
        Ok(setup) => Ok(*setup),
        Err(e) => Err(e.duplicate()),
    }
}

/// The answer to a handshake from a process that is, or is not, privileged.
/// The caller's pid plays no part.
pub fn handshake_result(params: HandeshakeParams, is_root: bool) -> (r: HandeshakeResult)
    ensures
        r.privilige == is_root,
{
    HandeshakeResult { privilige: is_root }
}

impl<B: UpmBackend> Router for WorkerRouter<B> {
    /// Reports whether this process holds elevated privilege. Always
    /// succeeds.
    fn handshake(&self, params: HandeshakeParams) -> (r: Result<HandeshakeResult, UpmError>)
        ensures
            r is Ok,
    {
        Ok(handshake_result(params, effective_user_is_root()))
    }

    /// Updates the named backend's index. An unregistered name is a dispatch
    /// error that quotes it. For a registered name the backend's own
    /// `update` decides, and its error is passed on as it is.
    fn update(&self, params: UpdateParams) -> (r: Result<UpdateResult, UpmError>)
        ensures
            !self.has(params.backend_name@) ==> (r matches Err(e) && e.says(
                ErrorKind::Dispatch,
                not_found_text(params.backend_name@),
            )),
            self.has(params.backend_name@) ==> exists|outcome: Result<(), UpmError>|
                #[trigger] call_ensures(
                    B::update,
                    (&self.backend(params.backend_name@),),
                    outcome,
                ) && r == update_answer(outcome),
    {
        proof {
            use_type_invariant(self);
        }
        match self.backends.find(params.backend_name.as_str()) {
            None => Err(not_found(params.backend_name.as_str())),
            Some(place) => {
                let outcome = self.backends.value_at(place).update();
                assert(call_ensures(
                    B::update,
                    (&self.backend(params.backend_name@),),
                    outcome,
                ));
                update_result(outcome)
            },
        }
    }

    /// Lists the named backend's outdated packages. An unregistered name is
    /// a dispatch error that quotes it. For a registered name the answer is
    /// what the backend's own `outdated` gives.
    fn outdated(&self, params: OutdatedParams) -> (r: Result<OutdatedResult, UpmError>)
        ensures
            !self.has(params.backend_name@) ==> (r matches Err(e) && e.says(
                ErrorKind::Dispatch,
                not_found_text(params.backend_name@),
            )),
            self.has(params.backend_name@) ==> call_ensures(
                B::outdated,
                (&self.backend(params.backend_name@),),
                r,
            ),
    {
        proof {
            use_type_invariant(self);
        }
        match self.backends.find(params.backend_name.as_str()) {
            None => Err(not_found(params.backend_name.as_str())),
            Some(place) => self.backends.value_at(place).outdated(),
        }
    }

    /// Upgrades the named backend's packages. An unregistered name is a
    /// dispatch error that quotes it. For a registered name the backend's
    /// own `upgrade` decides, and its error is passed on as it is.
    fn upgrade(&self, params: UpgradeParams) -> (r: Result<UpgradeResult, UpmError>)
        ensures
            !self.has(params.backend_name@) ==> (r matches Err(e) && e.says(
                ErrorKind::Dispatch,
                not_found_text(params.backend_name@),
            )),
            self.has(params.backend_name@) ==> exists|outcome: Result<(), UpmError>|
                #[trigger] call_ensures(
                    B::upgrade,
                    (&self.backend(params.backend_name@),),
                    outcome,
                ) && r == upgrade_answer(outcome),
    {
        proof {
            use_type_invariant(self);
        }
        match self.backends.find(params.backend_name.as_str()) {
            None => Err(not_found(params.backend_name.as_str())),
            Some(place) => {
                let outcome = self.backends.value_at(place).upgrade();
                assert(call_ensures(
                    B::upgrade,
                    (&self.backend(params.backend_name@),),
                    outcome,
                ));
                upgrade_result(outcome)
            },
        }
    }
}

} // verus!
