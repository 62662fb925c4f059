use cosmwasm_std::testing::{mock_dependencies, mock_env, mock_info, MockApi, MockStorage};
use cosmwasm_std::{attr, Order, Response, StdError, Storage};

use poll_ledger::contract::{
    can_execute, execute, execute_create_poll, execute_vote, instantiate, instantiate_validated,
    query, query_get_poll, record_admin, try_execute, CONTRACT_NAME, CONTRACT_VERSION,
};
use poll_ledger::error::{ContractError, Record};
use poll_ledger::keys::poll_storage_key;
use poll_ledger::msg::{ExecuteMsg, GetPollResponse, InstantiateMsg, QueryMsg, QueryResponse};
use poll_ledger::state::{Config, Poll};
use poll_ledger::store::save_poll;

fn entries(storage: &MockStorage) -> Vec<(Vec<u8>, Vec<u8>)> {
    storage.range(None, None, Order::Ascending).collect()
}

fn init(storage: &mut MockStorage, admin_address: &str) -> Result<Response, ContractError> {
    instantiate(
        storage,
        &MockApi::default(),
        mock_env(),
        mock_info("addr", &[]),
        InstantiateMsg {
            admin_address: admin_address.to_string(),
        },
    )
}

fn create(storage: &mut MockStorage, question: &str) -> Result<Response, ContractError> {
    execute(
        storage,
        mock_env(),
        mock_info("addr", &[]),
        ExecuteMsg::CreatePoll {
            question: question.to_string(),
        },
    )
}

fn vote(storage: &mut MockStorage, question: &str, choice: &str) -> Result<Response, ContractError> {
    execute(
        storage,
        mock_env(),
        mock_info("addr", &[]),
        ExecuteMsg::Vote {
            question: question.to_string(),
            choise: choice.to_string(),
        },
    )
}

fn get_poll(storage: &MockStorage, question: &str) -> Option<Poll> {
    let answer = query(
        storage,
        mock_env(),
        QueryMsg::GetPoll {
            question: question.to_string(),
        },
    );
    match answer {
        Ok(QueryResponse::Poll(GetPollResponse { poll })) => poll,
        other => panic!("not an answer to the query for a poll: {:?}", other),
    }
}

fn get_config(storage: &MockStorage) -> Result<QueryResponse, ContractError> {
    query(storage, mock_env(), QueryMsg::GetConfig {})
}

fn poll(question: &str, yes_votes: u64, no_votes: u64) -> Poll {
    Poll {
        question: question.to_string(),
        yes_votes,
        no_votes,
    }
}

fn config_answer(admin_address: &str) -> Result<QueryResponse, ContractError> {
    Ok(QueryResponse::Config(Config {
        admin_address: admin_address.to_string(),
    }))
}

#[test]
fn instantiate_then_get_config_returns_the_address() {
    for address in ["addr", "abc", "cosmos1qypqxpq9qcrsszg2pvxq6rs0zqg3yyc5lzv7xu"] {
        let mut storage = MockStorage::new();
        let response = init(&mut storage, address).unwrap();
        assert_eq!(response, Response::new().add_attribute("action", "instantiate"));
        assert_eq!(get_config(&storage), config_answer(address));
    }
}

#[test]
fn instantiate_tags_the_store() {
    let mut storage = MockStorage::new();
    init(&mut storage, "addr").unwrap();
    let tag = cw2::get_contract_version(&storage).unwrap();
    assert_eq!(tag.contract, CONTRACT_NAME);
    assert_eq!(tag.version, CONTRACT_VERSION);
    assert_eq!(CONTRACT_NAME, "crates.io:poll_ledger");
    assert_eq!(CONTRACT_VERSION, "0.1.0");
}

#[test]
fn instantiate_writes_two_entries() {
    let mut storage = MockStorage::new();
    init(&mut storage, "addr").unwrap();
    let written = entries(&storage);
    assert_eq!(written.len(), 2);
    assert_eq!(written[0], (b"config".to_vec(), b"\x01addr".to_vec()));
    assert_eq!(written[1].0, b"contract_info".to_vec());
}

#[test]
fn instantiate_rejects_an_invalid_address() {
    for address in ["", "ab", "ADDR", "Addr"] {
        let mut storage = MockStorage::new();
        assert_eq!(init(&mut storage, address), Err(ContractError::InvalidAddress));
        assert_eq!(entries(&storage), vec![]);
        assert_eq!(
            get_config(&storage),
            Err(ContractError::NotFound(Record::Config))
        );
    }
}

#[test]
fn instantiate_rejects_an_address_that_is_too_long() {
    let mut storage = MockStorage::new();
    let long = "a".repeat(91);
    assert_eq!(init(&mut storage, &long), Err(ContractError::InvalidAddress));
    assert_eq!(entries(&storage), vec![]);
    let longest = "a".repeat(90);
    assert!(init(&mut storage, &longest).is_ok());
    assert_eq!(get_config(&storage), config_answer(&longest));
}

#[test]
fn failed_instantiate_keeps_the_earlier_admin() {
    let mut storage = MockStorage::new();
    init(&mut storage, "addr").unwrap();
    let before = entries(&storage);
    assert_eq!(init(&mut storage, "x"), Err(ContractError::InvalidAddress));
    assert_eq!(entries(&storage), before);
    assert_eq!(get_config(&storage), config_answer("addr"));
}

#[test]
fn second_instantiate_replaces_the_admin() {
    let mut storage = MockStorage::new();
    init(&mut storage, "addr").unwrap();
    init(&mut storage, "other").unwrap();
    assert_eq!(get_config(&storage), config_answer("other"));
    assert_eq!(entries(&storage).len(), 2);
}

#[test]
fn instantiate_leaves_the_polls() {
    let mut storage = MockStorage::new();
    create(&mut storage, "tea?").unwrap();
    vote(&mut storage, "tea?", "no").unwrap();
    init(&mut storage, "addr").unwrap();
    assert_eq!(get_poll(&storage, "tea?"), Some(poll("tea?", 0, 1)));
}

#[test]
fn instantiate_validated_takes_the_verdict_as_given() {
    let mut storage = MockStorage::new();
    let response = instantiate_validated(&mut storage, Ok("x".to_string())).unwrap();
    assert_eq!(response.attributes, vec![attr("action", "instantiate")]);
    assert_eq!(get_config(&storage), config_answer("x"));

    let before = entries(&storage);
    let refused = instantiate_validated(&mut storage, Err(StdError::generic_err("refused")));
    assert_eq!(refused, Err(ContractError::InvalidAddress));
    assert_eq!(entries(&storage), before);
}

#[test]
fn instantiate_validated_accepts_an_empty_address() {
    let mut storage = MockStorage::new();
    instantiate_validated(&mut storage, Ok(String::new())).unwrap();
    assert_eq!(get_config(&storage), config_answer(""));
}

#[test]
fn record_admin_fails_where_the_tag_failed() {
    let mut storage = MockStorage::new();
    let failed = record_admin(
        &mut storage,
        Err(StdError::generic_err("full")),
        "addr".to_string(),
    );
    assert_eq!(failed, Err(ContractError::StorageWriteFailure));
    assert_eq!(entries(&storage), vec![]);

    let done = record_admin(&mut storage, Ok(()), "addr".to_string()).unwrap();
    assert_eq!(done, Response::new().add_attribute("action", "instantiate"));
    assert_eq!(entries(&storage), vec![(b"config".to_vec(), b"\x01addr".to_vec())]);
}

#[test]
fn get_config_before_instantiate_is_not_found() {
    let storage = MockStorage::new();
    assert_eq!(
        get_config(&storage),
        Err(ContractError::NotFound(Record::Config))
    );
}

#[test]
fn get_config_of_unreadable_bytes_is_a_read_failure() {
    let mut storage = MockStorage::new();
    storage.set(b"config", b"{\"admin_address\":\"addr\"}");
    assert_eq!(get_config(&storage), Err(ContractError::StorageReadFailure));
}

#[test]
fn create_poll_then_get_poll_returns_it_without_votes() {
    for question in ["Do you like Cosmos?", "", "tea?", "\u{e9}t\u{e9} ?", "a\nb"] {
        let mut storage = MockStorage::new();
        let response = create(&mut storage, question).unwrap();
        assert_eq!(response, Response::new().add_attribute("action", "create_poll"));
        assert_eq!(get_poll(&storage, question), Some(poll(question, 0, 0)));
    }
}

#[test]
fn create_poll_needs_no_instantiate_and_no_admin() {
    let mut storage = MockStorage::new();
    let response = execute(
        &mut storage,
        mock_env(),
        mock_info("somebody", &[]),
        ExecuteMsg::CreatePoll {
            question: "tea?".to_string(),
        },
    );
    assert!(response.is_ok());
}

#[test]
fn create_poll_twice_fails_and_changes_nothing() {
    let mut storage = MockStorage::new();
    create(&mut storage, "tea?").unwrap();
    vote(&mut storage, "tea?", "yes").unwrap();
    let before = entries(&storage);

    assert_eq!(create(&mut storage, "tea?"), Err(ContractError::DuplicateKey));

    assert_eq!(entries(&storage), before);
    assert_eq!(get_poll(&storage, "tea?"), Some(poll("tea?", 1, 0)));
}

#[test]
fn create_poll_on_a_taken_key_fails_even_if_unreadable() {
    let mut storage = MockStorage::new();
    storage.set(&poll_storage_key("tea?"), b"junk");
    assert_eq!(create(&mut storage, "tea?"), Err(ContractError::DuplicateKey));
    assert_eq!(storage.get(&poll_storage_key("tea?")), Some(b"junk".to_vec()));
}

#[test]
fn questions_are_told_apart_exactly() {
    let mut storage = MockStorage::new();
    create(&mut storage, "tea?").unwrap();
    create(&mut storage, "Tea?").unwrap();
    create(&mut storage, "tea? ").unwrap();
    vote(&mut storage, "Tea?", "yes").unwrap();
    assert_eq!(get_poll(&storage, "tea?"), Some(poll("tea?", 0, 0)));
    assert_eq!(get_poll(&storage, "Tea?"), Some(poll("Tea?", 1, 0)));
    assert_eq!(get_poll(&storage, "tea? "), Some(poll("tea? ", 0, 0)));
    assert_eq!(get_poll(&storage, " tea?"), None);
}

#[test]
fn vote_yes_raises_yes_by_one() {
    let mut storage = MockStorage::new();
    save_poll(&mut storage, &poll("tea?", 7, 4));
    let response = vote(&mut storage, "tea?", "yes").unwrap();
    assert_eq!(response, Response::new().add_attribute("action", "vote"));
    assert_eq!(get_poll(&storage, "tea?"), Some(poll("tea?", 8, 4)));
}

#[test]
fn vote_no_raises_no_by_one() {
    let mut storage = MockStorage::new();
    save_poll(&mut storage, &poll("tea?", 7, 4));
    let response = vote(&mut storage, "tea?", "no").unwrap();
    assert_eq!(response.attributes, vec![attr("action", "vote")]);
    assert_eq!(get_poll(&storage, "tea?"), Some(poll("tea?", 7, 5)));
}

#[test]
fn votes_add_up_and_anybody_may_vote_again() {
    let mut storage = MockStorage::new();
    create(&mut storage, "tea?").unwrap();
    for _ in 0..5 {
        vote(&mut storage, "tea?", "yes").unwrap();
    }
    for _ in 0..3 {
        vote(&mut storage, "tea?", "no").unwrap();
    }
    assert_eq!(get_poll(&storage, "tea?"), Some(poll("tea?", 5, 3)));
}

#[test]
fn vote_changes_no_other_record() {
    let mut storage = MockStorage::new();
    init(&mut storage, "addr").unwrap();
    create(&mut storage, "tea?").unwrap();
    create(&mut storage, "coffee?").unwrap();
    vote(&mut storage, "coffee?", "no").unwrap();
    vote(&mut storage, "tea?", "yes").unwrap();
    assert_eq!(get_poll(&storage, "coffee?"), Some(poll("coffee?", 0, 1)));
    assert_eq!(get_config(&storage), config_answer("addr"));
    assert_eq!(entries(&storage).len(), 4);
}

#[test]
fn vote_with_another_choice_fails_and_changes_nothing() {
    for choice in ["Maybe", "", "Yes", "YES", "No", " yes", "yes ", "y", "yesno", "n\u{f6}"] {
        let mut storage = MockStorage::new();
        create(&mut storage, "tea?").unwrap();
        vote(&mut storage, "tea?", "yes").unwrap();
        let before = entries(&storage);

        assert_eq!(
            vote(&mut storage, "tea?", choice),
            Err(ContractError::InvalidChoice)
        );

        assert_eq!(entries(&storage), before);
        assert_eq!(get_poll(&storage, "tea?"), Some(poll("tea?", 1, 0)));
    }
}

#[test]
fn vote_on_an_unknown_poll_is_not_found() {
    for choice in ["yes", "no", "Maybe"] {
        let mut storage = MockStorage::new();
        create(&mut storage, "tea?").unwrap();
        let before = entries(&storage);

        assert_eq!(
            vote(&mut storage, "coffee?", choice),
            Err(ContractError::NotFound(Record::Poll))
        );

        assert_eq!(entries(&storage), before);
        assert_eq!(get_poll(&storage, "coffee?"), None);
    }
}

#[test]
fn vote_on_an_unreadable_poll_is_a_read_failure() {
    for choice in ["yes", "Maybe"] {
        let mut storage = MockStorage::new();
        storage.set(&poll_storage_key("tea?"), b"junk");
        assert_eq!(
            vote(&mut storage, "tea?", choice),
            Err(ContractError::StorageReadFailure)
        );
        assert_eq!(storage.get(&poll_storage_key("tea?")), Some(b"junk".to_vec()));
    }
}

#[test]
fn get_poll_of_an_unknown_question_is_absent_not_an_error() {
    let mut storage = MockStorage::new();
    assert_eq!(
        query(
            &storage,
            mock_env(),
            QueryMsg::GetPoll {
                question: "tea?".to_string()
            }
        ),
        Ok(QueryResponse::Poll(GetPollResponse { poll: None }))
    );
    create(&mut storage, "coffee?").unwrap();
    assert_eq!(
        query_get_poll(&storage, mock_env(), "tea?".to_string()),
        Ok(QueryResponse::Poll(GetPollResponse { poll: None }))
    );
}

#[test]
fn get_poll_of_unreadable_bytes_is_a_read_failure() {
    let mut storage = MockStorage::new();
    storage.set(&poll_storage_key("tea?"), &[0u8; 17]);
    assert_eq!(
        query_get_poll(&storage, mock_env(), "tea?".to_string()),
        Err(ContractError::StorageReadFailure)
    );
}

#[test]
fn queries_change_nothing() {
    let mut storage = MockStorage::new();
    init(&mut storage, "addr").unwrap();
    create(&mut storage, "tea?").unwrap();
    let before = entries(&storage);
    let _ = get_poll(&storage, "tea?");
    let _ = get_poll(&storage, "coffee?");
    let _ = get_config(&storage);
    assert_eq!(entries(&storage), before);
}

#[test]
fn scenario_create_vote_get() {
    let mut deps = mock_dependencies();
    init(&mut deps.storage, "addr").unwrap();
    create(&mut deps.storage, "Do you like Cosmos?").unwrap();
    vote(&mut deps.storage, "Do you like Cosmos?", "yes").unwrap();
    assert_eq!(
        get_poll(&deps.storage, "Do you like Cosmos?"),
        Some(poll("Do you like Cosmos?", 1, 0))
    );
}

#[test]
fn scenario_failed_votes_keep_the_tally() {
    let mut deps = mock_dependencies();
    init(&mut deps.storage, "addr").unwrap();
    create(&mut deps.storage, "Do you like Cosmos?").unwrap();
    vote(&mut deps.storage, "Do you like Cosmos?", "yes").unwrap();

    assert_eq!(
        vote(&mut deps.storage, "Do you like ETH?", "no"),
        Err(ContractError::NotFound(Record::Poll))
    );
    assert_eq!(
        vote(&mut deps.storage, "Do you like Cosmos?", "Maybe"),
        Err(ContractError::InvalidChoice)
    );

    assert_eq!(
        get_poll(&deps.storage, "Do you like Cosmos?"),
        Some(poll("Do you like Cosmos?", 1, 0))
    );
    assert_eq!(get_poll(&deps.storage, "Do you like ETH?"), None);
}

#[test]
fn handlers_can_be_called_directly() {
    let mut storage = MockStorage::new();
    let created = execute_create_poll(
        &mut storage,
        mock_env(),
        mock_info("addr", &[]),
        "tea?".to_string(),
    );
    assert_eq!(created.unwrap().attributes, vec![attr("action", "create_poll")]);
    let voted = execute_vote(
        &mut storage,
        mock_env(),
        mock_info("addr", &[]),
        "tea?".to_string(),
        "no".to_string(),
    );
    assert_eq!(voted.unwrap().attributes, vec![attr("action", "vote")]);
    assert_eq!(get_poll(&storage, "tea?"), Some(poll("tea?", 0, 1)));
}

#[test]
fn a_full_counter_cannot_be_raised() {
    let mut storage = MockStorage::new();
    save_poll(&mut storage, &poll("tea?", u64::MAX, 6));
    let yes = ExecuteMsg::Vote {
        question: "tea?".to_string(),
        choise: "yes".to_string(),
    };
    let before = entries(&storage);

    assert!(!can_execute(&storage, &yes));
    assert_eq!(
        try_execute(&mut storage, mock_env(), mock_info("addr", &[]), yes),
        None
    );
    assert_eq!(entries(&storage), before);
}

#[test]
fn the_other_counter_of_a_full_poll_can_be_raised() {
    let mut storage = MockStorage::new();
    save_poll(&mut storage, &poll("tea?", u64::MAX, 6));
    let no = ExecuteMsg::Vote {
        question: "tea?".to_string(),
        choise: "no".to_string(),
    };
    assert!(can_execute(&storage, &no));
    let done = try_execute(&mut storage, mock_env(), mock_info("addr", &[]), no);
    assert_eq!(done, Some(Ok(Response::new().add_attribute("action", "vote"))));
    assert_eq!(get_poll(&storage, "tea?"), Some(poll("tea?", u64::MAX, 7)));

    save_poll(&mut storage, &poll("tea?", 6, u64::MAX));
    let no_again = ExecuteMsg::Vote {
        question: "tea?".to_string(),
        choise: "no".to_string(),
    };
    assert!(!can_execute(&storage, &no_again));
    let last = ExecuteMsg::Vote {
        question: "tea?".to_string(),
        choise: "yes".to_string(),
    };
    assert!(can_execute(&storage, &last));
}

#[test]
fn the_last_step_to_the_largest_count_is_counted() {
    let mut storage = MockStorage::new();
    save_poll(&mut storage, &poll("tea?", u64::MAX - 1, 0));
    vote(&mut storage, "tea?", "yes").unwrap();
    assert_eq!(get_poll(&storage, "tea?"), Some(poll("tea?", u64::MAX, 0)));
}

#[test]
fn commands_that_fail_anyway_can_always_be_tried() {
    let mut storage = MockStorage::new();
    save_poll(&mut storage, &poll("tea?", u64::MAX, u64::MAX));
    storage.set(&poll_storage_key("junk?"), b"junk");
    let commands = [
        (
            ExecuteMsg::CreatePoll {
                question: "tea?".to_string(),
            },
            Err(ContractError::DuplicateKey),
        ),
        (
            ExecuteMsg::Vote {
                question: "tea?".to_string(),
                choise: "Maybe".to_string(),
            },
            Err(ContractError::InvalidChoice),
        ),
        (
            ExecuteMsg::Vote {
                question: "coffee?".to_string(),
                choise: "yes".to_string(),
            },
            Err(ContractError::NotFound(Record::Poll)),
        ),
        (
            ExecuteMsg::Vote {
                question: "junk?".to_string(),
                choise: "yes".to_string(),
            },
            Err(ContractError::StorageReadFailure),
        ),
    ];
    for (command, expected) in commands {
        assert!(can_execute(&storage, &command));
        assert_eq!(
            try_execute(&mut storage, mock_env(), mock_info("addr", &[]), command),
            Some(expected)
        );
    }
}

#[test]
fn try_execute_does_what_execute_does() {
    let mut tried = MockStorage::new();
    let mut done = MockStorage::new();
    let commands = [
        ExecuteMsg::CreatePoll {
            question: "tea?".to_string(),
        },
        ExecuteMsg::Vote {
            question: "tea?".to_string(),
            choise: "yes".to_string(),
        },
        ExecuteMsg::Vote {
            question: "tea?".to_string(),
            choise: "no".to_string(),
        },
        ExecuteMsg::CreatePoll {
            question: "tea?".to_string(),
        },
    ];
    for command in commands {
        let left = try_execute(&mut tried, mock_env(), mock_info("addr", &[]), command.clone());
        let right = execute(&mut done, mock_env(), mock_info("addr", &[]), command);
        assert_eq!(left, Some(right));
        assert_eq!(entries(&tried), entries(&done));
    }
}
