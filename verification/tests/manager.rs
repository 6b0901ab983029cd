use std::cell::Cell;
use std::path::PathBuf;
use std::str::FromStr;

use program_manager::config::NetworkConfig;
use program_manager::error::{from_upstream, ManagerError};
use program_manager::identity::Identity;
use program_manager::ledger::{AccountCiphertext, AccountKey, LedgerTransaction, MemoryStore};
use program_manager::manager::{directory_from, ProgramManager};
use program_manager::resolvers::{AleoNetworkResolver, FileSystemResolver, HybridResolver};
use snarkvm_console::account::PrivateKey;
use snarkvm_console::network::{Network, Testnet3};
use snarkvm_console::prelude::{FromBytes, FromFields};
use snarkvm_console::program::Ciphertext;
use snarkvm_console::types::Field;
use snarkvm_synthesizer::Block;

const KEY: &str = "APrivateKey1zkp8cC4jgHEBnbtu3xxs1Ndja2EMizcvTRDq5Nikdkukg1p";

/// Stands in for the virtual machine.
#[derive(Debug, PartialEq)]
struct Machine(u32);

/// A path-like value that never converts.
struct NotAPath;

impl TryFrom<NotAPath> for PathBuf {
    type Error = ();

    fn try_from(_: NotAPath) -> Result<PathBuf, ()> {
        Err(())
    }
}

fn key() -> AccountKey {
    AccountKey(PrivateKey::<Testnet3>::from_str(KEY).unwrap())
}

fn ciphertext() -> AccountCiphertext {
    let fields = [Field::<Testnet3>::from_u64(7), Field::<Testnet3>::from_u64(11)];
    AccountCiphertext(Ciphertext::<Testnet3>::from_fields(&fields).unwrap())
}

fn transaction() -> LedgerTransaction {
    let block = Block::<Testnet3>::read_le(Testnet3::genesis_bytes()).unwrap();
    let first = block.transactions().iter().next().unwrap().clone();
    LedgerTransaction(first)
}

fn testnet() -> NetworkConfig {
    NetworkConfig::new("testnet3".to_string(), "https://vm.aleo.org/api".to_string())
}

fn started(_: MemoryStore) -> Result<Machine, anyhow::Error> {
    Ok(Machine(1))
}

#[test]
fn both_identity_forms_are_refused() {
    let resolver = AleoNetworkResolver::new(&testnet());
    let r = ProgramManager::<Machine, AleoNetworkResolver>::new(
        Some(key()),
        Some(ciphertext()),
        None,
        resolver,
        started,
    );
    match r {
        Err(e) => {
            assert!(matches!(e, ManagerError::BothIdentities));
            assert_eq!(e.message(), "Cannot have both private key and private key ciphertext");
        }
        Ok(_) => panic!("both forms were accepted"),
    }
}

#[test]
fn no_identity_form_is_refused() {
    let resolver = AleoNetworkResolver::new(&testnet());
    let r = ProgramManager::<Machine, AleoNetworkResolver>::new(None, None, None, resolver, started);
    match r {
        Err(e) => {
            assert!(matches!(e, ManagerError::NoIdentity));
            assert_eq!(e.message(), "Must have either private key or private key ciphertext");
        }
        Ok(_) => panic!("no form was accepted"),
    }
}

#[test]
fn a_private_key_alone_is_accepted() {
    let resolver = AleoNetworkResolver::new(&testnet());
    let m = ProgramManager::<Machine, AleoNetworkResolver>::new(Some(key()), None, None, resolver, started)
        .unwrap();
    assert_eq!(m.private_key().unwrap().0.to_string(), KEY);
    assert!(m.private_key_ciphertext().is_none());
    assert!(matches!(m.identity(), Identity::PrivateKey(_)));
    assert!(m.network_config().is_none());
    assert_eq!(m.vm(), &Machine(1));
}

#[test]
fn a_ciphertext_alone_is_accepted() {
    let resolver = AleoNetworkResolver::new(&testnet());
    let m = ProgramManager::<Machine, AleoNetworkResolver>::new(
        None,
        Some(ciphertext()),
        Some(testnet()),
        resolver,
        started,
    )
    .unwrap();
    assert!(m.private_key().is_none());
    assert_eq!(m.private_key_ciphertext().unwrap().0.to_string(), ciphertext().0.to_string());
    assert!(matches!(m.identity(), Identity::Ciphertext(_)));
    assert_eq!(m.network_config().unwrap().network_id(), "testnet3");
    assert_eq!(m.network_config().unwrap().peer_address(), "https://vm.aleo.org/api");
}

#[test]
fn identity_from_options_covers_all_four_cases() {
    assert!(matches!(Identity::from_options(Some(key()), None), Ok(Identity::PrivateKey(_))));
    assert!(matches!(Identity::from_options(None, Some(ciphertext())), Ok(Identity::Ciphertext(_))));
    assert!(matches!(
        Identity::from_options(Some(key()), Some(ciphertext())),
        Err(ManagerError::BothIdentities)
    ));
    assert!(matches!(Identity::from_options(None, None), Err(ManagerError::NoIdentity)));
}

#[test]
fn the_machine_is_not_started_for_a_refused_identity() {
    let starts = Cell::new(0u32);
    let start = |_: MemoryStore| {
        starts.set(starts.get() + 1);
        Ok(Machine(2))
    };
    let resolver = AleoNetworkResolver::new(&testnet());
    let r = ProgramManager::<Machine, AleoNetworkResolver>::new(None, None, None, resolver, start);
    assert!(r.is_err());
    assert_eq!(starts.get(), 0);
}

#[test]
fn the_machine_is_started_once_for_an_accepted_identity() {
    let starts = Cell::new(0u32);
    let start = |_: MemoryStore| {
        starts.set(starts.get() + 1);
        Ok(Machine(2))
    };
    let resolver = AleoNetworkResolver::new(&testnet());
    let r = ProgramManager::<Machine, AleoNetworkResolver>::new(Some(key()), None, None, resolver, start);
    assert_eq!(r.unwrap().vm(), &Machine(2));
    assert_eq!(starts.get(), 1);
}

#[test]
fn a_failed_start_is_passed_on_unchanged() {
    let resolver = AleoNetworkResolver::new(&testnet());
    let r = ProgramManager::<Machine, AleoNetworkResolver>::new(Some(key()), None, None, resolver, |_: MemoryStore| {
        Err(anyhow::Error::msg("machine could not be started"))
    });
    match r {
        Err(e) => {
            assert_eq!(e.message(), "machine could not be started");
            let cause = e.into_upstream().unwrap();
            assert_eq!(cause.to_string(), "machine could not be started");
        }
        Ok(_) => panic!("a manager was built without a machine"),
    }
}

#[test]
fn the_machine_is_started_over_a_fresh_store() {
    let resolver = AleoNetworkResolver::new(&testnet());
    let m = ProgramManager::<Option<u16>, AleoNetworkResolver>::new(
        Some(key()),
        None,
        None,
        resolver,
        |store: MemoryStore| Ok(store.0.dev()),
    )
    .unwrap();
    assert_eq!(m.vm(), &None);
}

#[test]
fn start_machine_needs_an_open_store() {
    let starts = Cell::new(0u32);
    let r = ProgramManager::<Machine, AleoNetworkResolver>::start_machine(
        Err(anyhow::Error::msg("store could not be opened")),
        |_: MemoryStore| {
            starts.set(starts.get() + 1);
            Ok(Machine(4))
        },
    );
    assert_eq!(r.unwrap_err().to_string(), "store could not be opened");
    assert_eq!(starts.get(), 0);
}

#[test]
fn assemble_gives_a_whole_manager_or_none() {
    let resolver = AleoNetworkResolver::new(&testnet());
    let identity = Identity::from_options(Some(key()), None).unwrap();
    let m = ProgramManager::<Machine, AleoNetworkResolver>::assemble(identity, None, resolver, Ok(Machine(9)))
        .unwrap();
    assert_eq!(m.vm(), &Machine(9));
    let resolver = AleoNetworkResolver::new(&testnet());
    let identity = Identity::from_options(Some(key()), None).unwrap();
    let r = ProgramManager::<Machine, AleoNetworkResolver>::assemble(
        identity,
        None,
        resolver,
        Err(anyhow::Error::msg("no machine")),
    );
    assert!(matches!(r, Err(ManagerError::Upstream(_))));
}

#[test]
fn local_factory_builds_over_a_directory() {
    let m = ProgramManager::<Machine, FileSystemResolver>::program_manager_with_local_resource_resolution(
        Some(key()),
        None,
        ".",
        None,
        started,
    )
    .unwrap();
    assert_eq!(m.resolver().directory(), &PathBuf::from("."));
    assert!(m.network_config().is_none());
    assert!(m.private_key().is_some());
}

#[test]
fn local_factory_keeps_an_optional_configuration() {
    let m = ProgramManager::<Machine, FileSystemResolver>::program_manager_with_local_resource_resolution(
        Some(key()),
        None,
        ".",
        Some(testnet()),
        started,
    )
    .unwrap();
    assert_eq!(m.network_config().unwrap().network_id(), "testnet3");
}

#[test]
fn local_factory_refuses_what_is_no_directory() {
    let r = ProgramManager::<Machine, FileSystemResolver>::program_manager_with_local_resource_resolution(
        Some(key()),
        None,
        "/no/such/directory/anywhere",
        None,
        started,
    );
    match r {
        Err(e) => {
            assert!(matches!(e, ManagerError::UnusableDirectory));
            assert_eq!(e.message(), "Path specified is not a usable directory");
        }
        Ok(_) => panic!("a missing directory was accepted"),
    }
}

#[test]
fn local_factory_reports_a_path_that_does_not_convert_first() {
    let starts = Cell::new(0u32);
    let start = |_: MemoryStore| {
        starts.set(starts.get() + 1);
        Ok(Machine(3))
    };
    let r = ProgramManager::<Machine, FileSystemResolver>::program_manager_with_local_resource_resolution(
        Some(key()),
        Some(ciphertext()),
        NotAPath,
        None,
        start,
    );
    match r {
        Err(e) => {
            assert!(matches!(e, ManagerError::InvalidPath));
            assert_eq!(e.message(), "Path specified was not valid");
        }
        Ok(_) => panic!("a value that is no path was accepted"),
    }
    assert_eq!(starts.get(), 0);
}

#[test]
fn hybrid_factory_reports_a_path_that_does_not_convert_first() {
    let starts = Cell::new(0u32);
    let start = |_: MemoryStore| {
        starts.set(starts.get() + 1);
        Ok(Machine(3))
    };
    let r = ProgramManager::<Machine, HybridResolver>::program_manager_with_hybrid_resolution(
        None,
        None,
        NotAPath,
        testnet(),
        start,
    );
    assert!(matches!(r, Err(ManagerError::InvalidPath)));
    assert_eq!(starts.get(), 0);
}

#[test]
fn hybrid_factory_refuses_what_is_no_directory() {
    let starts = Cell::new(0u32);
    let start = |_: MemoryStore| {
        starts.set(starts.get() + 1);
        Ok(Machine(3))
    };
    let r = ProgramManager::<Machine, HybridResolver>::program_manager_with_hybrid_resolution(
        Some(key()),
        None,
        "/no/such/directory/anywhere",
        testnet(),
        start,
    );
    assert!(matches!(r, Err(ManagerError::UnusableDirectory)));
    assert_eq!(starts.get(), 0);
}

#[test]
fn hybrid_factory_threads_the_configuration() {
    let m = ProgramManager::<Machine, HybridResolver>::program_manager_with_hybrid_resolution(
        None,
        Some(ciphertext()),
        ".",
        testnet(),
        started,
    )
    .unwrap();
    assert_eq!(m.network_config().unwrap().peer_address(), "https://vm.aleo.org/api");
    assert_eq!(m.resolver().network().config().peer_address(), "https://vm.aleo.org/api");
    assert_eq!(m.resolver().network().config().network_id(), "testnet3");
    assert_eq!(m.resolver().local().directory(), &PathBuf::from("."));
}

#[test]
fn network_factory_threads_the_configuration() {
    let m = ProgramManager::<Machine, AleoNetworkResolver>::program_manager_with_network_resolution(
        Some(key()),
        None,
        testnet(),
        started,
    )
    .unwrap();
    assert_eq!(m.network_config().unwrap().network_id(), "testnet3");
    assert_eq!(m.resolver().config().network_id(), "testnet3");
    assert_eq!(m.resolver().config().peer_address(), "https://vm.aleo.org/api");
}

#[test]
fn network_factory_judges_the_identity() {
    let r = ProgramManager::<Machine, AleoNetworkResolver>::program_manager_with_network_resolution(
        Some(key()),
        Some(ciphertext()),
        testnet(),
        started,
    );
    assert!(matches!(r, Err(ManagerError::BothIdentities)));
    let r = ProgramManager::<Machine, AleoNetworkResolver>::program_manager_with_network_resolution(
        None,
        None,
        testnet(),
        started,
    );
    assert!(matches!(r, Err(ManagerError::NoIdentity)));
}

#[test]
fn send_transaction_without_configuration_is_refused() {
    let m = ProgramManager::<Machine, FileSystemResolver>::program_manager_with_local_resource_resolution(
        Some(key()),
        None,
        ".",
        None,
        started,
    )
    .unwrap();
    let submissions = Cell::new(0u32);
    let r = m.send_transaction(transaction(), |_: &NetworkConfig, _: LedgerTransaction| {
        submissions.set(submissions.get() + 1);
        Ok(())
    });
    match r {
        Err(e) => {
            assert!(matches!(e, ManagerError::NoApiClient));
            assert_eq!(e.message(), "No API client found");
        }
        Ok(()) => panic!("a broadcast was made without a network"),
    }
    assert_eq!(submissions.get(), 0);
}

#[test]
fn send_transaction_submits_to_the_configured_network() {
    let m = ProgramManager::<Machine, AleoNetworkResolver>::program_manager_with_network_resolution(
        Some(key()),
        None,
        testnet(),
        started,
    )
    .unwrap();
    let sent = transaction();
    let id = sent.0.id();
    let submissions = Cell::new(0u32);
    let r = m.send_transaction(sent, |config: &NetworkConfig, transaction: LedgerTransaction| {
        submissions.set(submissions.get() + 1);
        assert_eq!(config.network_id(), "testnet3");
        assert_eq!(config.peer_address(), "https://vm.aleo.org/api");
        assert_eq!(transaction.0.id(), id);
        Ok(())
    });
    assert!(r.is_ok());
    assert_eq!(submissions.get(), 1);
    assert_eq!(m.network_config().unwrap().network_id(), "testnet3");
}

#[test]
fn send_transaction_passes_a_refusal_on_unchanged() {
    let m = ProgramManager::<Machine, HybridResolver>::program_manager_with_hybrid_resolution(
        Some(key()),
        None,
        ".",
        testnet(),
        started,
    )
    .unwrap();
    let submissions = Cell::new(0u32);
    let r = m.send_transaction(transaction(), |_: &NetworkConfig, _: LedgerTransaction| {
        submissions.set(submissions.get() + 1);
        Err(anyhow::Error::msg("rejected by peer"))
    });
    match r {
        Err(e) => assert_eq!(e.into_upstream().unwrap().to_string(), "rejected by peer"),
        Ok(()) => panic!("a rejected submission was reported as accepted"),
    }
    assert_eq!(submissions.get(), 1);
}

#[test]
fn upstream_outcomes_pass_through() {
    assert_eq!(from_upstream(Ok::<u8, anyhow::Error>(5)).unwrap(), 5);
    let r = from_upstream(Err::<u8, anyhow::Error>(anyhow::Error::msg("down")));
    assert!(matches!(r, Err(ManagerError::Upstream(_))));
}

#[test]
fn directory_from_maps_a_failed_conversion() {
    assert_eq!(directory_from(Ok::<PathBuf, ()>(PathBuf::from("/tmp"))).unwrap(), PathBuf::from("/tmp"));
    assert!(matches!(directory_from(Err::<PathBuf, u8>(3)), Err(ManagerError::InvalidPath)));
}

#[test]
fn configuration_keeps_its_parts() {
    let config = NetworkConfig::new("testnet3".to_string(), "http://localhost:3030".to_string());
    assert_eq!(config.network_id(), "testnet3");
    assert_eq!(config.peer_address(), "http://localhost:3030");
    let copy = config.duplicate();
    assert_eq!(copy.network_id(), "testnet3");
    assert_eq!(copy.peer_address(), "http://localhost:3030");
}
