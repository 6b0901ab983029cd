use vstd::prelude::*;
use std::path::PathBuf;
use crate::config::NetworkConfig;
use crate::error::ManagerError;

verus! {

/// `std::path::PathBuf`. A path is carried through unopened; only the
/// file system can say what it names.
#[verifier::external_type_specification]
#[verifier::external_body]
pub struct ExPathBuf(PathBuf);

/// `Path::is_dir`: whether the path names a directory that exists and can be
/// reached now. The answer depends on the file system, so nothing is claimed
/// about it.
#[verifier::external_body]
fn is_directory(path: &PathBuf) -> (r: bool)
{
    path.is_dir()
}

/// A place where programs are looked for.
#[derive(Clone, Copy, Debug, PartialEq, Eq, Structural)]
pub enum Backend {
    /// A directory of the local file system.
    Local,
    /// The remote network, asked through its API client.
    Network,
}

/// A strategy for locating programs: the backends to consult, in order. A
/// later backend is consulted only when the one before it does not have
/// what was asked for.
pub trait Resolver {
    /// The backends this resolver consults, first to last.
    spec fn route(&self) -> Seq<Backend>;

    /// The backends this resolver consults, first to last.
    fn backends(&self) -> (r: Vec<Backend>)
        ensures
            r@ == self.route(),
    ;
}

/// Resolves programs from one local directory.
pub struct FileSystemResolver {
    directory: PathBuf,
}

/// What construction over `directory` yields, given whether the directory
/// turned out to be usable.
pub open spec fn checked_directory(directory: PathBuf, usable: bool) -> Result<
    FileSystemResolver,
    ManagerError,
> {
    if usable {
        Ok(FileSystemResolver::over(directory))
    } else {
        Err(ManagerError::UnusableDirectory)
    }
}

impl FileSystemResolver {
    /// The resolver that reads from `directory`.
    pub closed spec fn over(directory: PathBuf) -> Self {
        FileSystemResolver { directory }
    }

    /// The directory that programs are read from.
    pub closed spec fn directory_spec(&self) -> PathBuf {
        self.directory
    }

    /// A resolver is known by its directory.
    pub proof fn lemma_over_directory(self)
        ensures
            self == Self::over(self.directory_spec()),
            forall|d: PathBuf| #[trigger] Self::over(d).directory_spec() == d,
    {
    }

    /// Builds the resolver once the directory has been probed: a usable
    /// directory gives a resolver over it, any other an error.
    pub fn checked(directory: PathBuf, usable: bool) -> (r: Result<Self, ManagerError>)
        ensures
            r == checked_directory(directory, usable),
    {
        if usable {
            Ok(FileSystemResolver { directory })
        } else {
            Err(ManagerError::UnusableDirectory)
        }
    }

    /// Builds a resolver over `directory`, which must be a directory that
    /// can be used at this moment; otherwise construction fails at once.
    pub fn new(directory: PathBuf) -> (r: Result<Self, ManagerError>)
        ensures
            r == checked_directory(directory, true) || r == checked_directory(directory, false),
    {
        let usable = is_directory(&directory);
        Self::checked(directory, usable)
    }

    /// The directory that programs are read from.
    pub fn directory(&self) -> (r: &PathBuf)
        ensures
            *r == self.directory_spec(),
    {
        &self.directory
    }
}

impl Resolver for FileSystemResolver {
    open spec fn route(&self) -> Seq<Backend> {
        seq![Backend::Local]
    }

    fn backends(&self) -> (r: Vec<Backend>) {
        vec![Backend::Local]
    }
}

/// Resolves programs by asking the remote network.
pub struct AleoNetworkResolver {
    config: NetworkConfig,
}

impl AleoNetworkResolver {
    /// The resolver that asks the network described by `config`.
    pub closed spec fn asking(config: NetworkConfig) -> Self {
        AleoNetworkResolver { config }
    }

    /// The configuration of the network that is asked.
    pub closed spec fn config_spec(&self) -> NetworkConfig {
        self.config
    }

    /// A network resolver is known by its configuration.
    pub proof fn lemma_asking_config(self)
        ensures
            self == Self::asking(self.config_spec()),
            forall|c: NetworkConfig| #[trigger] Self::asking(c).config_spec() == c,
    {
    }

    /// Builds a resolver that asks the network described by `config`.
    pub fn new(config: &NetworkConfig) -> (r: Self)
        ensures
            r == Self::asking(*config),
    {
        AleoNetworkResolver { config: config.duplicate() }
    }

    /// The configuration of the network that is asked.
    pub fn config(&self) -> (r: &NetworkConfig)
        ensures
            *r == self.config_spec(),
    {
        &self.config
    }
}

impl Resolver for AleoNetworkResolver {
    open spec fn route(&self) -> Seq<Backend> {
        seq![Backend::Network]
    }

    fn backends(&self) -> (r: Vec<Backend>) {
        vec![Backend::Network]
    }
}

/// Resolves programs from a local directory first, and from the network
/// where the directory does not have them.
pub struct HybridResolver {
    local: FileSystemResolver,
    network: AleoNetworkResolver,
}

/// What hybrid construction yields from the outcome of its local half: both
/// halves when the local one was built, and otherwise the local failure.
pub open spec fn hybrid_of(
    config: NetworkConfig,
    local: Result<FileSystemResolver, ManagerError>,
) -> Result<HybridResolver, ManagerError> {
    match local {
        Ok(resolver) => Ok(HybridResolver::pair(resolver, config)),
        Err(e) => Err(e),
    }
}

impl HybridResolver {
    /// The hybrid of a local resolver and a resolver for the network that
    /// `config` describes.
    pub closed spec fn pair(local: FileSystemResolver, config: NetworkConfig) -> Self {
        HybridResolver { local, network: AleoNetworkResolver::asking(config) }
    }

    /// The local half.
    pub closed spec fn local_spec(&self) -> FileSystemResolver {
        self.local
    }

    /// The network half.
    pub closed spec fn network_spec(&self) -> AleoNetworkResolver {
        self.network
    }

    /// A hybrid is known by its two halves.
    pub proof fn lemma_pair_halves(self)
        ensures
            self == Self::pair(self.local_spec(), self.network_spec().config_spec()),
            forall|l: FileSystemResolver, c: NetworkConfig|
                #![trigger Self::pair(l, c)]
                Self::pair(l, c).local_spec() == l && Self::pair(l, c).network_spec().config_spec()
                    == c,
    {
    }

    /// Joins an already built local half, or its failure, with a resolver
    /// for the network.
    pub fn joined(config: &NetworkConfig, local: Result<FileSystemResolver, ManagerError>) -> (r:
        Result<Self, ManagerError>)
        ensures
            r == hybrid_of(*config, local),
    {
        match local {
            Ok(resolver) => Ok(HybridResolver { local: resolver, network: AleoNetworkResolver::new(config) }),
            Err(e) => Err(e),
        }
    }

    /// Builds a hybrid resolver over `directory` and the network that
    /// `config` describes. It fails when the local half cannot be built.
    pub fn new(config: &NetworkConfig, directory: PathBuf) -> (r: Result<Self, ManagerError>)
        ensures
            r == hybrid_of(*config, checked_directory(directory, true)) || r == hybrid_of(
                *config,
                checked_directory(directory, false),
            ),
    {
        let local = FileSystemResolver::new(directory);
        Self::joined(config, local)
    }

    /// The local half.
    pub fn local(&self) -> (r: &FileSystemResolver)
        ensures
            *r == self.local_spec(),
    {
        &self.local
    }

    /// The network half.
    pub fn network(&self) -> (r: &AleoNetworkResolver)
        ensures
            *r == self.network_spec(),
    {
        &self.network
    }
}

impl Resolver for HybridResolver {
    open spec fn route(&self) -> Seq<Backend> {
        seq![Backend::Local, Backend::Network]
    }

    fn backends(&self) -> (r: Vec<Backend>) {
        vec![Backend::Local, Backend::Network]
    }
}

} // verus!
