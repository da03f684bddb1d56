use base58::ToBase58;

use identity_verifier::address::{Account, NetAccount, NetworkAddress};
use identity_verifier::aggregate::{
    ConcurrencyConflict, Event, EventStore, EventType, VerifierAggregate, VerifierCommand,
};
use identity_verifier::identity::{IdentityField, IdentityState};
use identity_verifier::tokens::{AccountType, Judgement};

/// A decodable Schnorr network address backed by a fresh keypair.
fn fresh_address() -> NetworkAddress {
    loop {
        let pair = schnorrkel::Keypair::generate();
        let key = pair.public.to_bytes();
        if key[0] == 48 {
            let mut bytes = vec![0u8];
            bytes.extend_from_slice(&key);
            return NetworkAddress::decode(NetAccount::new(bytes.to_base58())).unwrap();
        }
    }
}

fn identity(address: &NetworkAddress, name: &str, email: &str) -> IdentityState {
    IdentityState::new(
        address.duplicate(),
        vec![
            IdentityField::new(AccountType::LegalName, Account::new(name.to_string())),
            IdentityField::new(AccountType::Email, Account::new(email.to_string())),
        ],
        Judgement::Reasonable,
    )
}

#[test]
fn insert_identities() {
    let mut store = EventStore::new();

    let alice = identity(&fresh_address(), "Alice", "alice@email.com");
    let bob = identity(&fresh_address(), "Bob", "bob@email.com");

    let version = store.version();
    let mut root = VerifierAggregate::from_events(&store.events());

    // Execute commands.
    root.handle(VerifierCommand::InsertIdentity(alice.clone()));
    root.handle(VerifierCommand::InsertIdentity(bob.clone()));

    // Commit changes.
    store.append(version, root.take_pending()).unwrap();

    // Check the resulting events.
    let expected = [
        Event::new(EventType::IdentityInserted(alice.clone())),
        Event::new(EventType::IdentityInserted(bob.clone())),
    ];
    let events = store.events();
    assert_eq!(events.len(), expected.len());
    for (expected, event) in expected.iter().zip(events.iter()) {
        assert!(expected.body == event.body);
    }

    // Check the resulting state.
    let root = VerifierAggregate::from_events(&store.events());
    assert!(root.contains(&alice));
    assert!(root.contains(&bob));
}

#[test]
fn insert_identities_duplicate() {
    let mut store = EventStore::new();

    let alice = identity(&fresh_address(), "Alice", "alice@email.com");
    let bob = identity(&fresh_address(), "Bob", "bob@email.com");

    let version = store.version();
    let mut root = VerifierAggregate::from_events(&store.events());

    // Execute commands.
    root.handle(VerifierCommand::InsertIdentity(alice.clone()));

    // Add duplicate identity.
    root.handle(VerifierCommand::InsertIdentity(alice.clone()));

    root.handle(VerifierCommand::InsertIdentity(bob.clone()));

    // Commit changes.
    store.append(version, root.take_pending()).unwrap();

    // Add duplicate identity after committed changes.
    let version = store.version();
    let mut root = VerifierAggregate::from_events(&store.events());
    root.handle(VerifierCommand::InsertIdentity(alice.clone()));

    // Commit changes.
    store.append(version, root.take_pending()).unwrap();

    // Check the resulting events.
    let expected = [
        Event::new(EventType::IdentityInserted(alice.clone())),
        Event::new(EventType::IdentityInserted(bob.clone())),
    ];
    let events = store.events();
    assert_eq!(events.len(), expected.len());
    for (expected, event) in expected.iter().zip(events.iter()) {
        assert!(expected.body == event.body);
    }

    // Check the resulting state.
    let root = VerifierAggregate::from_events(&store.events());
    assert!(root.contains(&alice));
    assert!(root.contains(&bob));
}

#[test]
fn insert_identities_state_change() {
    let mut store = EventStore::new();

    let alice_address = fresh_address();
    let alice = identity(&alice_address, "Alice", "alice@email.com");
    let bob = identity(&fresh_address(), "Bob", "bob@email.com");

    // Execute commands.
    let version = store.version();
    let mut root = VerifierAggregate::from_events(&store.events());
    root.handle(VerifierCommand::InsertIdentity(alice.clone()));
    root.handle(VerifierCommand::InsertIdentity(bob.clone()));

    // Commit changes.
    store.append(version, root.take_pending()).unwrap();

    // Modify entry of identity: a changed field makes a new state.
    let alice_new = alice.with_field(IdentityField::new(
        AccountType::Email,
        Account::new("alice_new@email.com".to_string()),
    ));
    assert!(alice_new != alice);
    assert_eq!(
        alice_new
            .field(&AccountType::Email)
            .unwrap()
            .value()
            .as_str(),
        "alice_new@email.com"
    );
    assert_eq!(
        alice.field(&AccountType::Email).unwrap().value().as_str(),
        "alice@email.com"
    );
    assert!(alice.field(&AccountType::Web).is_none());

    // Execute commands with new identity state.
    let version = store.version();
    let mut root = VerifierAggregate::from_events(&store.events());
    root.handle(VerifierCommand::InsertIdentity(alice_new.clone()));

    // Commit changes.
    store.append(version, root.take_pending()).unwrap();

    // Check the resulting events.
    let expected = [
        Event::new(EventType::IdentityInserted(alice.clone())),
        Event::new(EventType::IdentityInserted(bob.clone())),
        Event::new(EventType::IdentityInserted(alice_new.clone())),
    ];
    let events = store.events();
    assert_eq!(events.len(), expected.len());
    for (expected, event) in expected.iter().zip(events.iter()) {
        assert!(expected.body == event.body);
    }

    // Check the resulting state.
    let root = VerifierAggregate::from_events(&store.events());
    assert!(!root.contains(&alice));
    assert!(root.contains(&bob));
    assert!(root.contains(&alice_new));
}

#[test]
fn replay_matches_live_state() {
    let mut store = EventStore::new();

    let alice_address = fresh_address();
    let alice = identity(&alice_address, "Alice", "alice@email.com");
    let bob = identity(&fresh_address(), "Bob", "bob@email.com");
    let alice_new = alice.with_field(IdentityField::new(
        AccountType::Email,
        Account::new("alice_new@email.com".to_string()),
    ));

    let version = store.version();
    let mut root = VerifierAggregate::from_events(&store.events());
    root.handle(VerifierCommand::InsertIdentity(alice.clone()));
    root.handle(VerifierCommand::InsertIdentity(bob.clone()));
    root.handle(VerifierCommand::InsertIdentity(alice.clone()));
    root.handle(VerifierCommand::InsertIdentity(alice_new.clone()));
    store.append(version, root.take_pending()).unwrap();

    // The live projection equals the projection folded from the log.
    let replayed = VerifierAggregate::from_events(&store.events());
    assert!(root.state() == replayed.state());

    // Read-your-own-writes held before commit too.
    assert!(!root.contains(&alice));
    assert!(root.contains(&bob));
    assert!(root.contains(&alice_new));
}

#[test]
fn replay_is_idempotent() {
    let mut store = EventStore::new();

    let alice = identity(&fresh_address(), "Alice", "alice@email.com");
    let bob = identity(&fresh_address(), "Bob", "bob@email.com");

    let version = store.version();
    let mut root = VerifierAggregate::from_events(&store.events());
    root.handle(VerifierCommand::InsertIdentity(alice.clone()));
    root.handle(VerifierCommand::InsertIdentity(bob.clone()));
    store.append(version, root.take_pending()).unwrap();

    let (first, _) = store.load();
    let (second, _) = store.load();
    assert!(first.state() == second.state());
    assert_eq!(first.state().len(), 2);
}

#[test]
fn append_records_are_sequenced_from_one() {
    let mut store = EventStore::new();

    let alice = identity(&fresh_address(), "Alice", "alice@email.com");
    let bob = identity(&fresh_address(), "Bob", "bob@email.com");

    let version = store.version();
    let mut root = VerifierAggregate::from_events(&store.events());
    root.handle(VerifierCommand::InsertIdentity(alice.clone()));
    root.handle(VerifierCommand::InsertIdentity(bob.clone()));
    store.append(version, root.take_pending()).unwrap();

    let records = store.records();
    assert_eq!(records.len(), 2);
    assert_eq!(records[0].sequence, 1);
    assert_eq!(records[1].sequence, 2);
    assert!(records[0].event.body == EventType::IdentityInserted(alice));
    assert!(records[1].event.body == EventType::IdentityInserted(bob));
}

#[test]
fn append_conflicts_on_stale_version() {
    let mut store = EventStore::new();

    let alice = identity(&fresh_address(), "Alice", "alice@email.com");
    let bob = identity(&fresh_address(), "Bob", "bob@email.com");

    // Two loads at the same version.
    let (mut first, version) = store.load();
    let (mut second, second_version) = store.load();
    assert_eq!(version, second_version);

    first.handle(VerifierCommand::InsertIdentity(alice.clone()));
    second.handle(VerifierCommand::InsertIdentity(bob.clone()));

    // The first commit wins; the second must reload and retry.
    store.append(version, first.take_pending()).unwrap();
    let stale = second.take_pending();
    assert_eq!(store.append(version, stale), Err(ConcurrencyConflict));
    assert_eq!(store.version(), 1);

    // Reload, re-derive, retry.
    let fresh_version = store.version();
    let mut second = VerifierAggregate::from_events(&store.events());
    second.handle(VerifierCommand::InsertIdentity(bob.clone()));
    store.append(fresh_version, second.take_pending()).unwrap();
    assert_eq!(store.version(), 2);

    let root = VerifierAggregate::from_events(&store.events());
    assert!(root.contains(&alice));
    assert!(root.contains(&bob));
}
