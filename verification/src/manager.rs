use vstd::prelude::*;
use std::path::PathBuf;
use vstd::std_specs::convert::TryIntoSpec;
use crate::config::NetworkConfig;
use crate::ledger::{open_memory_store, AccountCiphertext, AccountKey, LedgerTransaction, MemoryStore};
use crate::model::{opening, Answer};
use crate::resolution::{begin, faithful, outcome_view, resolve_with, Lookup, ResolveError, ResolvedProgram, Step};
use crate::resolvers::Backend;
use crate::runs::settle;
use crate::error::{from_upstream, ManagerError};
use crate::identity::{identity_of, Identity};
use crate::resolvers::{
    checked_directory, hybrid_of, AleoNetworkResolver, FileSystemResolver, HybridResolver, Resolver,
};

verus! {

/// Loads programs for building, execution and deployment on behalf of one
/// identity.
///
/// A manager owns its identity, an optional network configuration, a
/// resolver and a virtual machine `V` over a store of its own. None of them
/// changes after construction.
pub struct ProgramManager<V, R: Resolver> {
    vm: V,
    identity: Identity,
    network_config: Option<NetworkConfig>,
    resolver: R,
}

/// What a broadcast comes to under a given configuration. Without one it
/// is refused with the error that no network is configured, whatever the
/// transaction. With one, the result is what `submit` reported for that
/// configuration and that transaction: success, or its failure unchanged.
pub open spec fn send_outcome<F: FnOnce(&NetworkConfig, LedgerTransaction) -> Result<(), anyhow::Error>>(
    r: Result<(), ManagerError>,
    network_config: Option<NetworkConfig>,
    transaction: LedgerTransaction,
    submit: F,
) -> bool {
    match network_config {
        None => r == Err::<(), ManagerError>(ManagerError::NoApiClient),
        Some(config) => match r {
            Ok(_) => submit.ensures((&config, transaction), Ok(())),
            Err(e) => e matches ManagerError::Upstream(cause) && submit.ensures(
                (&config, transaction),
                Err(cause),
            ),
        },
    }
}

/// The directory that a path-like value converts to, or the error that it
/// is not a valid path.
pub open spec fn directory_of<E>(converted: Result<PathBuf, E>) -> Result<PathBuf, ManagerError> {
    match converted {
        Ok(directory) => Ok(directory),
        Err(_) => Err(ManagerError::InvalidPath),
    }
}

/// Whether `m` is exactly what construction from these parts gives.
pub open spec fn made_of<V, R: Resolver>(
    m: ProgramManager<V, R>,
    identity: Identity,
    network_config: Option<NetworkConfig>,
    resolver: R,
) -> bool {
    &&& m.identity_spec() == identity
    &&& m.network_config_spec() == network_config
    &&& m.resolver_spec() == resolver
}

/// What starting the machine comes to once the store has been opened or
/// has failed to open: the failure to open, or whatever `start` makes of
/// the store.
pub open spec fn started_on<V, F: FnOnce(MemoryStore) -> Result<V, anyhow::Error>>(
    r: Result<V, anyhow::Error>,
    opened: Result<MemoryStore, anyhow::Error>,
    start: F,
) -> bool {
    match opened {
        Ok(store) => start.ensures((store,), r),
        Err(e) => r == Err::<V, anyhow::Error>(e),
    }
}

/// What `new` returns for the given arguments: the identity error when
/// the two forms are not exactly one; otherwise a manager made of the
/// arguments around the machine that `start` produced over a store, or the
/// failure of a collaborator, unchanged.
pub open spec fn new_outcome<V, R: Resolver, F: FnOnce(MemoryStore) -> Result<V, anyhow::Error>>(
    r: Result<ProgramManager<V, R>, ManagerError>,
    private_key: Option<AccountKey>,
    private_key_ciphertext: Option<AccountCiphertext>,
    network_config: Option<NetworkConfig>,
    resolver: R,
    start: F,
) -> bool {
    match identity_of(private_key, private_key_ciphertext) {
        Err(e) => r == Err::<ProgramManager<V, R>, ManagerError>(e),
        Ok(identity) => exists|opened: Result<MemoryStore, anyhow::Error>, vm: Result<V, anyhow::Error>|
            #![trigger started_on(vm, opened, start)]
            started_on(vm, opened, start) && assembled(r, identity, network_config, resolver, vm),
    }
}

/// What putting a manager together comes to: a manager made of the parts
/// around the machine, or the failure to start one, unchanged.
pub open spec fn assembled<V, R: Resolver>(
    r: Result<ProgramManager<V, R>, ManagerError>,
    identity: Identity,
    network_config: Option<NetworkConfig>,
    resolver: R,
    vm: Result<V, anyhow::Error>,
) -> bool {
    match vm {
        Ok(machine) => r matches Ok(m) && m.vm_spec() == machine && made_of(
            m,
            identity,
            network_config,
            resolver,
        ),
        Err(e) => r == Err::<ProgramManager<V, R>, ManagerError>(ManagerError::Upstream(e)),
    }
}

/// What construction returns once the resolver has been built or has
/// failed: the resolver's failure, or what `new` returns with it.
pub open spec fn over_resolver<V, R: Resolver, F: FnOnce(MemoryStore) -> Result<V, anyhow::Error>>(
    r: Result<ProgramManager<V, R>, ManagerError>,
    private_key: Option<AccountKey>,
    private_key_ciphertext: Option<AccountCiphertext>,
    network_config: Option<NetworkConfig>,
    resolver: Result<R, ManagerError>,
    start: F,
) -> bool {
    match resolver {
        Err(e) => r == Err::<ProgramManager<V, R>, ManagerError>(e),
        Ok(built) => new_outcome(
            r,
            private_key,
            private_key_ciphertext,
            network_config,
            built,
            start,
        ),
    }
}

/// What the local factory may return. A path that did not convert is
/// reported before anything else is looked at; then the directory is
/// probed, and only a usable one leads on to `new`.
pub open spec fn local_outcome<V, F: FnOnce(MemoryStore) -> Result<V, anyhow::Error>>(
    r: Result<ProgramManager<V, FileSystemResolver>, ManagerError>,
    private_key: Option<AccountKey>,
    private_key_ciphertext: Option<AccountCiphertext>,
    directory: Result<PathBuf, ManagerError>,
    network_config: Option<NetworkConfig>,
    start: F,
) -> bool {
    match directory {
        Err(e) => r == Err::<ProgramManager<V, FileSystemResolver>, ManagerError>(e),
        Ok(d) => {
            ||| over_resolver(
                r,
                private_key,
                private_key_ciphertext,
                network_config,
                checked_directory(d, true),
                start,
            )
            ||| over_resolver(
                r,
                private_key,
                private_key_ciphertext,
                network_config,
                checked_directory(d, false),
                start,
            )
        },
    }
}

/// What the hybrid factory may return: as the local factory, with the
/// hybrid resolver in place of the local one and the configuration kept for
/// broadcast.
pub open spec fn hybrid_outcome<V, F: FnOnce(MemoryStore) -> Result<V, anyhow::Error>>(
    r: Result<ProgramManager<V, HybridResolver>, ManagerError>,
    private_key: Option<AccountKey>,
    private_key_ciphertext: Option<AccountCiphertext>,
    directory: Result<PathBuf, ManagerError>,
    network_config: NetworkConfig,
    start: F,
) -> bool {
    match directory {
        Err(e) => r == Err::<ProgramManager<V, HybridResolver>, ManagerError>(e),
        Ok(d) => {
            ||| over_resolver(
                r,
                private_key,
                private_key_ciphertext,
                Some(network_config),
                hybrid_of(network_config, checked_directory(d, true)),
                start,
            )
            ||| over_resolver(
                r,
                private_key,
                private_key_ciphertext,
                Some(network_config),
                hybrid_of(network_config, checked_directory(d, false)),
                start,
            )
        },
    }
}

/// Whether the machine may have to be started for a path-like value: the
/// value converts, as far as its conversion is specified.
pub open spec fn may_convert<P: TryInto<PathBuf>>(local_directory: P) -> bool {
    P::obeys_try_into_spec() ==> local_directory.try_into_spec() is Ok
}

/// Turns a converted path into the directory to use.
pub fn directory_from<E>(converted: Result<PathBuf, E>) -> (r: Result<PathBuf, ManagerError>)
    ensures
        r == directory_of(converted),
{
    match converted {
        Ok(directory) => Ok(directory),
        Err(_) => Err(ManagerError::InvalidPath),
    }
}

impl<V, R: Resolver> ProgramManager<V, R> {
    /// The identity under which the manager acts.
    pub closed spec fn identity_spec(&self) -> Identity {
        self.identity
    }

    /// The network configuration, if the manager has one.
    pub closed spec fn network_config_spec(&self) -> Option<NetworkConfig> {
        self.network_config
    }

    /// The resolver chosen at construction.
    pub closed spec fn resolver_spec(&self) -> R {
        self.resolver
    }

    /// The virtual machine of this manager.
    pub closed spec fn vm_spec(&self) -> V {
        self.vm
    }

    /// Puts a manager together once the virtual machine has been started, or
    /// reports why it could not be. Either a whole manager comes back or
    /// none.
    pub fn assemble(
        identity: Identity,
        network_config: Option<NetworkConfig>,
        resolver: R,
        vm: Result<V, anyhow::Error>,
    ) -> (r: Result<Self, ManagerError>)
        ensures
            assembled(r, identity, network_config, resolver, vm),
    {
        match vm {
            Ok(machine) => Ok(ProgramManager { vm: machine, identity, network_config, resolver }),
            Err(e) => Err(ManagerError::Upstream(e)),
        }
    }

    /// Starts the machine over the store that was opened, or passes the
    /// failure to open it on. `start` is called only for a store that was
    /// opened.
    pub fn start_machine<F: FnOnce(MemoryStore) -> Result<V, anyhow::Error>>(
        opened: Result<MemoryStore, anyhow::Error>,
        start: F,
    ) -> (r: Result<V, anyhow::Error>)
        requires
            opened matches Ok(store) ==> start.requires((store,)),
        ensures
            started_on(r, opened, start),
    {
        match opened {
            Ok(store) => start(store),
            Err(e) => Err(e),
        }
    }

    /// Creates a manager from a private key or its ciphertext, an optional
    /// network configuration and a resolver.
    ///
    /// Exactly one of `private_key` and `private_key_ciphertext` must be
    /// present. For an identity that was accepted a fresh store is opened
    /// in memory, and `start` starts the virtual machine over it. The
    /// identity is judged first, and `start` is called only for an identity
    /// that was accepted: it need not even be callable otherwise.
    pub fn new<F: FnOnce(MemoryStore) -> Result<V, anyhow::Error>>(
        private_key: Option<AccountKey>,
        private_key_ciphertext: Option<AccountCiphertext>,
        network_config: Option<NetworkConfig>,
        resolver: R,
        start: F,
    ) -> (r: Result<Self, ManagerError>)
        requires
            identity_of(private_key, private_key_ciphertext) is Ok ==> forall|store: MemoryStore|
                #[trigger] start.requires((store,)),
        ensures
            new_outcome(r, private_key, private_key_ciphertext, network_config, resolver, start),
    {
        match Identity::from_options(private_key, private_key_ciphertext) {
            Err(e) => Err(e),
            Ok(identity) => {
                let opened = open_memory_store();
                let vm = Self::start_machine(opened, start);
                let r = Self::assemble(identity, network_config, resolver, vm);
                proof {
                    assert(started_on(vm, opened, start));
                }
                r
            },
        }
    }

    /// Creates a manager that resolves programs from a local directory.
    ///
    /// `local_directory` is converted to a path first; a value that does
    /// not convert is refused before the directory or the identity is
    /// looked at. `start` is called only when the path converted, the
    /// directory is usable and the identity was accepted.
    pub fn program_manager_with_local_resource_resolution<
        P: TryInto<PathBuf>,
        F: FnOnce(MemoryStore) -> Result<V, anyhow::Error>,
    >(
        private_key: Option<AccountKey>,
        private_key_ciphertext: Option<AccountCiphertext>,
        local_directory: P,
        network_config: Option<NetworkConfig>,
        start: F,
    ) -> (r: Result<ProgramManager<V, FileSystemResolver>, ManagerError>)
        requires
            may_convert(local_directory) && identity_of(private_key, private_key_ciphertext) is Ok
                ==> forall|store: MemoryStore| #[trigger] start.requires((store,)),
        ensures
            P::obeys_try_into_spec() ==> local_outcome(
                r,
                private_key,
                private_key_ciphertext,
                directory_of(local_directory.try_into_spec()),
                network_config,
                start,
            ),
            r == Err::<ProgramManager<V, FileSystemResolver>, ManagerError>(ManagerError::InvalidPath)
                || exists|d: PathBuf|
                local_outcome(r, private_key, private_key_ciphertext, Ok(d), network_config, start),
    {
        let directory = match directory_from(local_directory.try_into()) {
            Ok(d) => d,
            Err(e) => {
                return Err(e);
            },
        };
        let resolver = match FileSystemResolver::new(directory) {
            Ok(built) => built,
            Err(e) => {
                proof {
                    assert(local_outcome(
                        Err::<ProgramManager<V, FileSystemResolver>, ManagerError>(e),
                        private_key,
                        private_key_ciphertext,
                        Ok(directory),
                        network_config,
                        start,
                    ));
                }
                return Err(e);
            },
        };
        let r = ProgramManager::<V, FileSystemResolver>::new(
            private_key,
            private_key_ciphertext,
            network_config,
            resolver,
            start,
        );
        proof {
            assert(local_outcome(
                r,
                private_key,
                private_key_ciphertext,
                Ok(directory),
                network_config,
                start,
            ));
        }
        r
    }

    /// Creates a manager that resolves programs from the network. The same
    /// configuration serves the resolver and later broadcasts.
    pub fn program_manager_with_network_resolution<F: FnOnce(MemoryStore) -> Result<V, anyhow::Error>>(
        private_key: Option<AccountKey>,
        private_key_ciphertext: Option<AccountCiphertext>,
        network_config: NetworkConfig,
        start: F,
    ) -> (r: Result<ProgramManager<V, AleoNetworkResolver>, ManagerError>)
        requires
            identity_of(private_key, private_key_ciphertext) is Ok ==> forall|store: MemoryStore|
                #[trigger] start.requires((store,)),
        ensures
            new_outcome(
                r,
                private_key,
                private_key_ciphertext,
                Some(network_config),
                AleoNetworkResolver::asking(network_config),
                start,
            ),
    {
        let resolver = AleoNetworkResolver::new(&network_config);
        ProgramManager::<V, AleoNetworkResolver>::new(
            private_key,
            private_key_ciphertext,
            Some(network_config),
            resolver,
            start,
        )
    }

    /// Creates a manager that resolves programs from a local directory and
    /// falls back to the network. The same configuration serves the
    /// resolver and later broadcasts.
    ///
    /// `local_directory` is converted to a path first; a value that does
    /// not convert is refused before the directory or the identity is
    /// looked at. `start` is called only when the path converted, the
    /// directory is usable and the identity was accepted.
    pub fn program_manager_with_hybrid_resolution<
        P: TryInto<PathBuf>,
        F: FnOnce(MemoryStore) -> Result<V, anyhow::Error>,
    >(
        private_key: Option<AccountKey>,
        private_key_ciphertext: Option<AccountCiphertext>,
        local_directory: P,
        network_config: NetworkConfig,
        start: F,
    ) -> (r: Result<ProgramManager<V, HybridResolver>, ManagerError>)
        requires
            may_convert(local_directory) && identity_of(private_key, private_key_ciphertext) is Ok
                ==> forall|store: MemoryStore| #[trigger] start.requires((store,)),
        ensures
            P::obeys_try_into_spec() ==> hybrid_outcome(
                r,
                private_key,
                private_key_ciphertext,
                directory_of(local_directory.try_into_spec()),
                network_config,
                start,
            ),
            r == Err::<ProgramManager<V, HybridResolver>, ManagerError>(ManagerError::InvalidPath)
                || exists|d: PathBuf|
                hybrid_outcome(r, private_key, private_key_ciphertext, Ok(d), network_config, start),
    {
        let directory = match directory_from(local_directory.try_into()) {
            Ok(d) => d,
            Err(e) => {
                return Err(e);
            },
        };
        let resolver = match HybridResolver::new(&network_config, directory) {
            Ok(built) => built,
            Err(e) => {
                proof {
                    assert(hybrid_outcome(
                        Err::<ProgramManager<V, HybridResolver>, ManagerError>(e),
                        private_key,
                        private_key_ciphertext,
                        Ok(directory),
                        network_config,
                        start,
                    ));
                }
                return Err(e);
            },
        };
        let r = ProgramManager::<V, HybridResolver>::new(
            private_key,
            private_key_ciphertext,
            Some(network_config),
            resolver,
            start,
        );
        proof {
            assert(hybrid_outcome(
                r,
                private_key,
                private_key_ciphertext,
                Ok(directory),
                network_config,
                start,
            ));
        }
        r
    }

    /// The plaintext private key, where the identity is one.
    pub fn private_key(&self) -> (r: Option<&AccountKey>)
        ensures
            r == (match self.identity_spec().private_key_spec() {
                Some(key) => Some(&key),
                None => None,
            }),
    {
        self.identity.private_key()
    }

    /// The encrypted private key, where the identity is one.
    pub fn private_key_ciphertext(&self) -> (r: Option<&AccountCiphertext>)
        ensures
            r == (match self.identity_spec().ciphertext_spec() {
                Some(ciphertext) => Some(&ciphertext),
                None => None,
            }),
    {
        self.identity.private_key_ciphertext()
    }

    /// The identity under which the manager acts.
    pub fn identity(&self) -> (r: &Identity)
        ensures
            *r == self.identity_spec(),
    {
        &self.identity
    }

    /// The network configuration, if the manager has one.
    pub fn network_config(&self) -> (r: Option<&NetworkConfig>)
        ensures
            r == (match self.network_config_spec() {
                Some(config) => Some(&config),
                None => None,
            }),
    {
        self.network_config.as_ref()
    }

    /// The resolver chosen at construction.
    pub fn resolver(&self) -> (r: &R)
        ensures
            *r == self.resolver_spec(),
    {
        &self.resolver
    }

    /// The virtual machine of this manager.
    pub fn vm(&self) -> (r: &V)
        ensures
            *r == self.vm_spec(),
    {
        &self.vm
    }

    /// Starts the resolution of `program` with the manager's resolver.
    pub fn begin_resolution(&self, program: &str) -> (r: Step)
        ensures
            r@ == opening(self.resolver_spec().route(), program@),
    {
        begin(&self.resolver, program)
    }

    /// Resolves `program` and everything it imports with the manager's
    /// resolver, putting each question to `ask`, and at most `limit`
    /// questions in all. `None` means that the questions ran out.
    pub fn resolve_program<F: Fn(Backend, &str) -> Lookup>(
        &self,
        program: &str,
        ask: F,
        limit: usize,
    ) -> (r: Option<Result<ResolvedProgram, ResolveError>>)
        requires
            forall|backend: Backend, name: &str| #[trigger] ask.requires((backend, name)),
        ensures
            forall|answers: spec_fn(Backend, Seq<char>) -> Answer| #[trigger]
                faithful(ask, answers) ==> outcome_view(r) == settle(
                    opening(self.resolver_spec().route(), program@),
                    answers,
                    limit as nat,
                ),
    {
        resolve_with(&self.resolver, program, ask, limit)
    }

    /// Broadcasts `transaction` through `submit`, which hands it to the
    /// client of the network that the manager is configured for.
    ///
    /// A manager without a configuration refuses, whatever the transaction,
    /// and `submit` is not called: it need not even be callable then. The
    /// transaction is not examined, and a failed submission is not tried
    /// again.
    pub fn send_transaction<F: FnOnce(&NetworkConfig, LedgerTransaction) -> Result<(), anyhow::Error>>(
        &self,
        transaction: LedgerTransaction,
        submit: F,
    ) -> (r: Result<(), ManagerError>)
        requires
            self.network_config_spec() matches Some(config) ==> submit.requires((&config, transaction)),
        ensures
            send_outcome(r, self.network_config_spec(), transaction, submit),
    {
        match &self.network_config {
            Some(config) => from_upstream(submit(config, transaction)),
            None => Err(ManagerError::NoApiClient),
        }
    }
}

/// Construction judges the identity before anything else. With both forms
/// it fails with the error for both, with neither with the error for
/// neither. With exactly one it fails only if a collaborator does, and the
/// manager then holds that form and no other, with the configuration and
/// the resolver that were handed in.
pub proof fn lemma_new_judges_identity<V, R: Resolver, F: FnOnce(MemoryStore) -> Result<V, anyhow::Error>>(
    r: Result<ProgramManager<V, R>, ManagerError>,
    private_key: Option<AccountKey>,
    private_key_ciphertext: Option<AccountCiphertext>,
    network_config: Option<NetworkConfig>,
    resolver: R,
    start: F,
)
    requires
        new_outcome(r, private_key, private_key_ciphertext, network_config, resolver, start),
    ensures
        private_key is Some && private_key_ciphertext is Some ==> r == Err::<
            ProgramManager<V, R>,
            ManagerError,
        >(ManagerError::BothIdentities),
        private_key is None && private_key_ciphertext is None ==> r == Err::<
            ProgramManager<V, R>,
            ManagerError,
        >(ManagerError::NoIdentity),
        (private_key is Some) != (private_key_ciphertext is Some) ==> match r {
            Ok(m) => {
                &&& m.identity_spec().private_key_spec() == private_key
                &&& m.identity_spec().ciphertext_spec() == private_key_ciphertext
                &&& m.network_config_spec() == network_config
                &&& m.resolver_spec() == resolver
            },
            Err(e) => e is Upstream,
        },
{
}

/// Once the store is open, construction with exactly one identity form
/// succeeds exactly when the machine starts: a `start` that cannot fail
/// always leads to a manager.
pub proof fn lemma_assembly_follows_the_machine<V, R: Resolver>(
    r: Result<ProgramManager<V, R>, ManagerError>,
    identity: Identity,
    network_config: Option<NetworkConfig>,
    resolver: R,
    vm: Result<V, anyhow::Error>,
)
    requires
        assembled(r, identity, network_config, resolver, vm),
    ensures
        r is Ok <==> vm is Ok,
        vm matches Err(e) ==> r == Err::<ProgramManager<V, R>, ManagerError>(ManagerError::Upstream(e)),
{
}

/// A manager without a network configuration refuses every broadcast with
/// the same error, whatever the transaction and whatever would have
/// submitted it. A manager that the local factory built without a
/// configuration is such a manager.
pub proof fn lemma_local_only_cannot_broadcast<
    V,
    F: FnOnce(MemoryStore) -> Result<V, anyhow::Error>,
    S: FnOnce(&NetworkConfig, LedgerTransaction) -> Result<(), anyhow::Error>,
>(
    built: Result<ProgramManager<V, FileSystemResolver>, ManagerError>,
    private_key: Option<AccountKey>,
    private_key_ciphertext: Option<AccountCiphertext>,
    directory: Result<PathBuf, ManagerError>,
    start: F,
    sent: Result<(), ManagerError>,
    transaction: LedgerTransaction,
    submit: S,
)
    requires
        local_outcome(built, private_key, private_key_ciphertext, directory, None, start),
        built matches Ok(m) && send_outcome(sent, m.network_config_spec(), transaction, submit),
    ensures
        sent == Err::<(), ManagerError>(ManagerError::NoApiClient),
{
}

/// A path-like value that does not convert ends both factories with the
/// error for an invalid path, whatever the identity, the configuration and
/// the machine would have been. Nothing can have been started for it: the
/// factories ask that `start` can be called only for a value that converts.
pub proof fn lemma_unconverted_path_comes_first<V, E, F: FnOnce(MemoryStore) -> Result<V, anyhow::Error>>(
    local: Result<ProgramManager<V, FileSystemResolver>, ManagerError>,
    hybrid: Result<ProgramManager<V, HybridResolver>, ManagerError>,
    private_key: Option<AccountKey>,
    private_key_ciphertext: Option<AccountCiphertext>,
    failure: E,
    optional_config: Option<NetworkConfig>,
    config: NetworkConfig,
    start: F,
)
    requires
        local_outcome(
            local,
            private_key,
            private_key_ciphertext,
            directory_of(Err::<PathBuf, E>(failure)),
            optional_config,
            start,
        ),
        hybrid_outcome(
            hybrid,
            private_key,
            private_key_ciphertext,
            directory_of(Err::<PathBuf, E>(failure)),
            config,
            start,
        ),
    ensures
        local == Err::<ProgramManager<V, FileSystemResolver>, ManagerError>(ManagerError::InvalidPath),
        hybrid == Err::<ProgramManager<V, HybridResolver>, ManagerError>(ManagerError::InvalidPath),
{
}

} // verus!
