//! Target addressing: parsing actor identifiers through the real key
//! decoder and the same-variant-only equality.

use nkeys::KeyPair;
use wasi_cloud_core::{ActorIdentifier, TargetEntity, TargetInterface};

#[test]
fn module_public_key_parses_as_key_identity() {
    let key = KeyPair::new_module().public_key();
    match ActorIdentifier::parse(&key) {
        ActorIdentifier::Key(k) => assert_eq!(k, key),
        ActorIdentifier::Alias(_) => panic!("a module public key must parse as a key identity"),
    }
}

#[test]
fn non_module_key_and_plain_text_parse_as_alias() {
    // A well-formed public key of another kind is not a module identity.
    let account = KeyPair::new_account().public_key();
    assert!(matches!(ActorIdentifier::parse(&account), ActorIdentifier::Alias(a) if a == account));
    // Ordinary text is an alias.
    assert!(matches!(
        ActorIdentifier::parse("my-actor-alias"),
        ActorIdentifier::Alias(a) if a == "my-actor-alias"
    ));
}

#[test]
fn equality_never_compares_across_variants() {
    let key = KeyPair::new_module().public_key();
    let as_key = ActorIdentifier::Key(key.clone());
    let as_alias = ActorIdentifier::Alias(key.clone());
    assert_ne!(as_key, as_alias);
    assert_eq!(as_key, ActorIdentifier::Key(key.clone()));
    assert_eq!(as_alias, ActorIdentifier::Alias(key));
    assert_ne!(
        ActorIdentifier::Alias("a".to_string()),
        ActorIdentifier::Alias("b".to_string())
    );
}

#[test]
fn from_str_never_fails_and_agrees_with_parse() {
    let key = KeyPair::new_module().public_key();
    let parsed: ActorIdentifier = key.parse().unwrap();
    assert_eq!(parsed, ActorIdentifier::parse(&key));
    let parsed: ActorIdentifier = "alias".parse().unwrap();
    assert_eq!(parsed, ActorIdentifier::Alias("alias".to_string()));
}

#[test]
fn parsing_the_same_string_twice_gives_equal_identities() {
    let key = KeyPair::new_module().public_key();
    assert_eq!(ActorIdentifier::parse(&key), ActorIdentifier::parse(&key));
    assert_eq!(ActorIdentifier::parse("alias"), ActorIdentifier::parse("alias"));
}

#[test]
fn target_entities_compare_by_their_contents() {
    let link_default = TargetEntity::Link(None);
    let link_named = TargetEntity::Link(Some("east".to_string()));
    assert_ne!(link_default, link_named);
    assert_eq!(link_named, TargetEntity::Link(Some("east".to_string())));
    let actor = TargetEntity::Actor(ActorIdentifier::Alias("a".to_string()));
    assert_ne!(actor, link_default);
    assert_eq!(actor, TargetEntity::Actor(ActorIdentifier::Alias("a".to_string())));
}

#[test]
fn target_interfaces_distinguish_well_known_and_custom() {
    assert_ne!(TargetInterface::WasiKeyvalueAtomic, TargetInterface::WasiKeyvalueEventual);
    let custom = TargetInterface::Custom {
        namespace: "acme".to_string(),
        package: "billing".to_string(),
        interface: "ledger".to_string(),
    };
    assert_eq!(
        custom,
        TargetInterface::Custom {
            namespace: "acme".to_string(),
            package: "billing".to_string(),
            interface: "ledger".to_string(),
        }
    );
    assert_ne!(custom, TargetInterface::WasiLoggingLogging);
}

#[test]
fn error_context_wraps_messages() {
    let e = wasi_cloud_core::with_context(
        "failed to list objects",
        wasi_cloud_core::CapabilityError::BackendFault("timeout".to_string()),
    );
    assert_eq!(e.message(), "failed to list objects: timeout");
}
