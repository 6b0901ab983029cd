use std::path::PathBuf;

use program_manager::config::NetworkConfig;
use program_manager::error::ManagerError;
use program_manager::resolvers::{AleoNetworkResolver, Backend, FileSystemResolver, HybridResolver, Resolver};

fn testnet() -> NetworkConfig {
    NetworkConfig::new("testnet3".to_string(), "https://vm.aleo.org/api".to_string())
}

#[test]
fn a_probed_directory_decides_construction() {
    let built = FileSystemResolver::checked(PathBuf::from("/programs"), true).unwrap();
    assert_eq!(built.directory(), &PathBuf::from("/programs"));
    assert!(matches!(
        FileSystemResolver::checked(PathBuf::from("/programs"), false),
        Err(ManagerError::UnusableDirectory)
    ));
}

#[test]
fn file_system_resolver_needs_a_directory_that_exists() {
    assert!(FileSystemResolver::new(PathBuf::from(".")).is_ok());
    assert!(matches!(
        FileSystemResolver::new(PathBuf::from("/no/such/directory/anywhere")),
        Err(ManagerError::UnusableDirectory)
    ));
}

#[test]
fn file_system_resolver_refuses_a_file() {
    assert!(matches!(
        FileSystemResolver::new(PathBuf::from("Cargo.toml/not-a-directory")),
        Err(ManagerError::UnusableDirectory)
    ));
}

#[test]
fn network_resolver_keeps_its_configuration() {
    let resolver = AleoNetworkResolver::new(&testnet());
    assert_eq!(resolver.config().network_id(), "testnet3");
    assert_eq!(resolver.config().peer_address(), "https://vm.aleo.org/api");
    assert_eq!(resolver.backends(), vec![Backend::Network]);
}

#[test]
fn hybrid_resolver_needs_both_halves() {
    let local = FileSystemResolver::checked(PathBuf::from("/programs"), true);
    let hybrid = HybridResolver::joined(&testnet(), local).unwrap();
    assert_eq!(hybrid.local().directory(), &PathBuf::from("/programs"));
    assert_eq!(hybrid.network().config().network_id(), "testnet3");
    assert_eq!(hybrid.backends(), vec![Backend::Local, Backend::Network]);
    let local = FileSystemResolver::checked(PathBuf::from("/programs"), false);
    assert!(matches!(HybridResolver::joined(&testnet(), local), Err(ManagerError::UnusableDirectory)));
    assert!(matches!(
        HybridResolver::new(&testnet(), PathBuf::from("/no/such/directory/anywhere")),
        Err(ManagerError::UnusableDirectory)
    ));
    assert!(HybridResolver::new(&testnet(), PathBuf::from(".")).is_ok());
}
