use near_sdk::test_utils::VMContextBuilder;
use near_sdk::{MockedBlockchain, NearToken, RuntimeFeesConfig};
use vote_proxy::store::is_storable;
use vote_proxy::{Contract, ContractError, Worker};

/// Lets the host serve the next calls as made by `caller`, with the storage
/// written so far.
fn serve_call_from(caller: &str) {
    let context = VMContextBuilder::new()
        .current_account_id("proxy.testnet".parse().unwrap())
        .predecessor_account_id(caller.parse().unwrap())
        .account_balance(NearToken::from_near(7))
        .build();
    let storage = near_sdk::mock::with_mocked_blockchain(|host| host.take_storage());
    near_sdk::env::set_blockchain_interface(MockedBlockchain::new(
        context,
        near_sdk::test_vm_config(),
        RuntimeFeesConfig::test(),
        Vec::new(),
        storage,
        Default::default(),
        None,
    ));
}

fn text(s: &str) -> String {
    s.to_string()
}

#[test]
fn init_sets_owner_and_empty_containers() {
    let contract = Contract::init(text("alice"));
    assert_eq!(contract.owner_id, "alice");
    assert_eq!(contract.approved_count(), 0);
    assert_eq!(contract.worker_count(), 0);
    assert!(!contract.is_approved(&text("hash123")));
    assert!(!contract.is_registered(&text("alice")));
}

#[test]
fn end_to_end_owner_and_worker() {
    let mut contract = Contract::init(text("alice"));

    serve_call_from("bob");
    assert!(contract.register_agent(text("hash123")));
    assert_eq!(contract.get_agent(text("bob")), Ok(Worker::new(text("hash123"))));
    assert_eq!(contract.get_agent(text("bob")).unwrap().codehash(), "hash123");

    assert_eq!(contract.approve_codehash(text("hash123")), Err(ContractError::NotOwner));
    assert!(!contract.is_approved(&text("hash123")));
    assert_eq!(contract.approved_count(), 0);

    serve_call_from("alice");
    assert_eq!(contract.approve_codehash(text("hash123")), Ok(()));
    assert!(contract.is_approved(&text("hash123")));
    assert_eq!(contract.approved_count(), 1);
}

#[test]
fn approve_by_anyone_but_the_owner_is_refused() {
    let mut contract = Contract::init(text("alice"));
    assert_eq!(contract.approve_codehash_as(&text("alice"), text("first")), Ok(()));

    for caller in ["bob", "alic", "alice.near", "Alice", ""] {
        assert_eq!(
            contract.approve_codehash_as(&text(caller), text("second")),
            Err(ContractError::NotOwner)
        );
        assert_eq!(contract.approved_count(), 1);
        assert!(contract.is_approved(&text("first")));
        assert!(!contract.is_approved(&text("second")));
        assert_eq!(contract.worker_count(), 0);
        assert_eq!(contract.owner_id, "alice");
    }
}

#[test]
fn approving_twice_keeps_the_size() {
    let mut contract = Contract::init(text("alice"));
    let alice = text("alice");
    assert_eq!(contract.approve_codehash_as(&alice, text("hash123")), Ok(()));
    assert_eq!(contract.approved_count(), 1);
    assert_eq!(contract.approve_codehash_as(&alice, text("hash123")), Ok(()));
    assert_eq!(contract.approved_count(), 1);
    assert!(contract.is_approved(&text("hash123")));

    assert_eq!(contract.approve_codehash_as(&alice, text("hash456")), Ok(()));
    assert_eq!(contract.approved_count(), 2);
    assert!(contract.is_approved(&text("hash123")));
    assert!(contract.is_approved(&text("hash456")));
    assert!(!contract.is_approved(&text("hash")));
}

#[test]
fn approve_takes_any_string() {
    let mut contract = Contract::init(text("alice"));
    let alice = text("alice");
    assert_eq!(contract.approve_codehash_as(&alice, text("")), Ok(()));
    assert_eq!(contract.approve_codehash_as(&alice, text("not a hash \u{2705}")), Ok(()));
    assert!(contract.is_approved(&text("")));
    assert!(contract.is_approved(&text("not a hash \u{2705}")));
    assert_eq!(contract.approved_count(), 2);
}

#[test]
fn register_always_succeeds_and_overwrites() {
    let mut contract = Contract::init(text("alice"));

    assert!(contract.register_agent_as(text("bob"), text("one")));
    assert_eq!(contract.worker_count(), 1);
    assert_eq!(contract.get_agent(text("bob")), Ok(Worker::new(text("one"))));

    assert!(contract.register_agent_as(text("bob"), text("two")));
    assert_eq!(contract.worker_count(), 1);
    assert_eq!(contract.get_agent(text("bob")), Ok(Worker::new(text("two"))));

    assert!(contract.register_agent_as(text("carol"), text("")));
    assert_eq!(contract.worker_count(), 2);
    assert_eq!(contract.get_agent(text("carol")), Ok(Worker::new(text(""))));
    assert_eq!(contract.get_agent(text("bob")), Ok(Worker::new(text("two"))));

    // The owner registers like anyone else, and no approval is asked for.
    assert!(contract.register_agent_as(text("alice"), text("unapproved")));
    assert_eq!(contract.worker_count(), 3);
    assert_eq!(contract.approved_count(), 0);
}

#[test]
fn register_enters_the_caller_that_the_host_names() {
    let mut contract = Contract::init(text("alice"));

    serve_call_from("carol.testnet");
    assert!(contract.register_agent(text("hash-c")));
    serve_call_from("dave.testnet");
    assert!(contract.register_agent(text("hash-d")));
    serve_call_from("carol.testnet");
    assert!(contract.register_agent(text("hash-c2")));

    assert_eq!(contract.worker_count(), 2);
    assert_eq!(contract.get_agent(text("carol.testnet")), Ok(Worker::new(text("hash-c2"))));
    assert_eq!(contract.get_agent(text("dave.testnet")), Ok(Worker::new(text("hash-d"))));
    assert!(contract.is_registered(&text("dave.testnet")));
    assert!(!contract.is_registered(&text("hash-d")));
}

#[test]
fn get_agent_of_an_unregistered_account_is_refused() {
    let mut contract = Contract::init(text("alice"));
    assert_eq!(contract.get_agent(text("bob")), Err(ContractError::NoWorkerFound));
    assert_eq!(contract.get_agent(text("alice")), Err(ContractError::NoWorkerFound));

    assert!(contract.register_agent_as(text("bob"), text("hash123")));
    assert_eq!(contract.get_agent(text("bo")), Err(ContractError::NoWorkerFound));
    assert_eq!(contract.get_agent(text("hash123")), Err(ContractError::NoWorkerFound));
    assert_eq!(contract.get_agent(text("")), Err(ContractError::NoWorkerFound));
}

#[test]
fn approved_codehash_check_tells_its_three_outcomes() {
    let mut contract = Contract::init(text("alice"));
    assert_eq!(
        contract.require_approved_codehash_as(text("bob")),
        Err(ContractError::NoWorkerFound)
    );

    assert!(contract.register_agent_as(text("bob"), text("hash123")));
    assert_eq!(
        contract.require_approved_codehash_as(text("bob")),
        Err(ContractError::CodehashNotApproved)
    );

    assert_eq!(contract.approve_codehash_as(&text("alice"), text("hash123")), Ok(()));
    assert_eq!(contract.require_approved_codehash_as(text("bob")), Ok(()));

    assert!(contract.register_agent_as(text("bob"), text("other")));
    assert_eq!(
        contract.require_approved_codehash_as(text("bob")),
        Err(ContractError::CodehashNotApproved)
    );
}

#[test]
fn approved_codehash_check_asks_the_host_for_the_caller() {
    let mut contract = Contract::init(text("alice"));
    assert!(contract.register_agent_as(text("bob"), text("hash123")));
    assert_eq!(contract.approve_codehash_as(&text("alice"), text("hash123")), Ok(()));

    serve_call_from("bob");
    assert_eq!(contract.require_approved_codehash(), Ok(()));
    serve_call_from("carol");
    assert_eq!(contract.require_approved_codehash(), Err(ContractError::NoWorkerFound));
    assert_eq!(contract.worker_count(), 1);
    assert_eq!(contract.approved_count(), 1);
}

#[test]
fn room_is_there_while_the_containers_are_small() {
    let mut contract = Contract::init(text("alice"));
    assert!(contract.can_approve(&text("hash123")));
    assert!(contract.can_register(&text("bob"), &text("hash123")));
    assert!(contract.register_agent_as(text("bob"), text("hash123")));
    assert_eq!(contract.approve_codehash_as(&text("alice"), text("hash123")), Ok(()));
    assert!(contract.can_approve(&text("hash123")));
    assert!(contract.can_approve(&text("hash456")));
    assert!(contract.can_approve(&text("")));
    assert!(contract.can_register(&text("bob"), &text("other")));
    assert!(contract.can_register(&text("carol"), &text("")));
}

#[test]
fn storage_takes_texts_of_ordinary_length() {
    assert!(is_storable(&String::new()));
    assert!(is_storable(&text("hash123")));
    assert!(is_storable(&text("\u{2705} \u{1F5F3}\u{FE0F}")));
    assert!(is_storable(&"x".repeat(100_000)));
}

#[test]
fn long_texts_are_kept_as_they_are() {
    let mut contract = Contract::init(text("alice"));
    let long_hash = "0123456789abcdef".repeat(64);
    assert!(contract.can_register(&text("bob"), &long_hash));
    assert!(contract.register_agent_as(text("bob"), long_hash.clone()));
    assert_eq!(contract.get_agent(text("bob")).unwrap().codehash(), &long_hash);
    assert_eq!(contract.approve_codehash_as(&text("alice"), long_hash.clone()), Ok(()));
    assert!(contract.is_approved(&long_hash));
    assert!(!contract.is_approved(&long_hash[1..].to_string()));
    assert_eq!(contract.require_approved_codehash_as(text("bob")), Ok(()));
}

#[test]
fn balance_is_what_the_host_reports() {
    let contract = Contract::init(text("alice"));
    serve_call_from("bob");
    assert_eq!(contract.get_contract_balance(), 7_000_000_000_000_000_000_000_000);
    assert_eq!(contract.get_contract_balance(), near_sdk::env::account_balance().as_yoctonear());
}

#[test]
fn errors_carry_the_text_of_the_abort() {
    assert_eq!(ContractError::NoWorkerFound.message(), "no worker found");
    assert_eq!(ContractError::NotOwner.message(), "require! assertion failed");
    assert_eq!(ContractError::CodehashNotApproved.message(), "require! assertion failed");
    assert_eq!(ContractError::ContainerFull.message(), "Index out of bounds");
    assert_eq!(ContractError::TextTooLong.message(), "");
}
