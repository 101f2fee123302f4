use classifieds::models::{
    ClassesOrEvents, Community, Condition, EmploymentType, ForSale, GarageOrMovingSales, Housing,
    HousingType, Job, PerTimeRange,
};
use classifieds::{authorize, AuthorizationError, Contract, Details, ItemInfo};

fn account(name: &str) -> near_sdk::AccountId {
    name.parse().unwrap()
}

fn post(post_id: u64, title: &str) -> ItemInfo {
    ItemInfo {
        creator: account("alice.near"),
        post_id,
        date: 1_700_000_000_000_000_000,
        category: "for sale".to_string(),
        title: title.to_string(),
        description: "as new".to_string(),
        image: None,
        location: None,
        price: Some(25),
        details: None,
    }
}

fn titles(listings: &[ItemInfo]) -> Vec<String> {
    listings.iter().map(|l| l.title.clone()).collect()
}

fn sign_as(name: &str) {
    let context = near_sdk::test_utils::VMContextBuilder::new()
        .signer_account_id(account(name))
        .build();
    near_sdk::env::set_blockchain_interface(near_sdk::MockedBlockchain::new(
        context,
        near_sdk::test_vm_config(),
        near_sdk::RuntimeFeesConfig::test(),
        Vec::new(),
        Default::default(),
        Default::default(),
        None,
    ));
}

fn signer() -> String {
    "carol.near".to_string()
}

#[test]
fn a_fresh_store_has_no_listing() {
    let contract = Contract::default();
    assert_eq!(contract.get_items("community".to_string()), Vec::new());
    assert_eq!(contract.get_item("community".to_string(), 1), None);
}

#[test]
fn filing_appends_and_grows_the_board_by_one() {
    let mut contract = Contract::default();
    contract.set_items("bikes".to_string(), post(1, "road bike"));
    let before = contract.get_items("bikes".to_string());

    contract.set_items("bikes".to_string(), post(2, "tandem"));
    let after = contract.get_items("bikes".to_string());

    assert_eq!(after.len(), before.len() + 1);
    assert_eq!(after[..before.len()], before[..]);
    assert_eq!(after[before.len()], post(2, "tandem"));
    assert!(after.contains(&post(2, "tandem")));
}

#[test]
fn filing_opens_a_board_for_an_unseen_group() {
    let mut contract = Contract::default();
    contract.set_items("".to_string(), post(7, "nameless"));
    assert_eq!(
        contract.get_items("".to_string()),
        vec![post(7, "nameless")]
    );
    assert_eq!(contract.get_items(" ".to_string()), Vec::new());
}

#[test]
fn groups_do_not_share_listings() {
    let mut contract = Contract::default();
    contract.set_items("bikes".to_string(), post(1, "road bike"));
    contract.set_items("boats".to_string(), post(1, "dinghy"));
    contract.set_items("bikes".to_string(), post(2, "tandem"));

    assert_eq!(
        titles(&contract.get_items("bikes".to_string())),
        vec!["road bike", "tandem"]
    );
    assert_eq!(
        titles(&contract.get_items("boats".to_string())),
        vec!["dinghy"]
    );
    assert_eq!(
        contract.get_item("boats".to_string(), 1),
        Some(post(1, "dinghy"))
    );
    assert_eq!(contract.get_item("boats".to_string(), 2), None);

    let removed = contract.remove_items_signed_by("boats".to_string(), signer(), &signer(), 1);
    assert_eq!(removed, Ok(Some(post(1, "dinghy"))));
    assert_eq!(contract.get_items("boats".to_string()), Vec::new());
    assert_eq!(
        titles(&contract.get_items("bikes".to_string())),
        vec!["road bike", "tandem"]
    );
}

#[test]
fn lookup_finds_nothing_without_a_match() {
    let mut contract = Contract::default();
    assert_eq!(contract.get_item("bikes".to_string(), 3), None);

    contract.set_items("bikes".to_string(), post(1, "road bike"));
    contract.set_items("bikes".to_string(), post(2, "tandem"));
    assert_eq!(contract.get_item("bikes".to_string(), 3), None);
    assert_eq!(contract.get_item("boats".to_string(), 1), None);
    assert_eq!(contract.get_item("bikes".to_string(), 0), None);
    assert_eq!(contract.get_item("bikes".to_string(), u64::MAX), None);
}

#[test]
fn lookup_returns_the_matching_listing() {
    let mut contract = Contract::default();
    contract.set_items("bikes".to_string(), post(1, "road bike"));
    contract.set_items("bikes".to_string(), post(u64::MAX, "tandem"));

    assert_eq!(
        contract.get_item("bikes".to_string(), u64::MAX),
        Some(post(u64::MAX, "tandem"))
    );
    assert_eq!(
        contract.get_item("bikes".to_string(), 1),
        Some(post(1, "road bike"))
    );
    assert_eq!(contract.get_items("bikes".to_string()).len(), 2);
}

#[test]
fn removal_in_another_name_is_refused_and_changes_nothing() {
    let mut contract = Contract::default();
    contract.set_items("bikes".to_string(), post(1, "road bike"));
    contract.set_items("bikes".to_string(), post(2, "tandem"));
    let before = contract.get_items("bikes".to_string());

    let outcome = contract.remove_items_signed_by(
        "bikes".to_string(),
        "alice.near".to_string(),
        &signer(),
        1,
    );

    assert_eq!(outcome, Err(AuthorizationError));
    assert_eq!(contract.get_items("bikes".to_string()), before);

    let missing = contract.remove_items_signed_by(
        "boats".to_string(),
        "alice.near".to_string(),
        &signer(),
        1,
    );
    assert_eq!(missing, Err(AuthorizationError));
}

#[test]
fn removal_asks_for_the_signer_not_for_the_creator() {
    let mut contract = Contract::default();
    contract.set_items("bikes".to_string(), post(1, "road bike"));

    let outcome = contract.remove_items_signed_by("bikes".to_string(), signer(), &signer(), 1);

    assert_eq!(outcome, Ok(Some(post(1, "road bike"))));
    assert_eq!(contract.get_items("bikes".to_string()), Vec::new());
}

#[test]
fn removal_follows_the_signer_that_the_host_reports() {
    sign_as("dave.near");
    let mut contract = Contract::default();
    contract.set_items("bikes".to_string(), post(1, "road bike"));

    let refused = contract.remove_items("bikes".to_string(), "bob.near".to_string(), 1);
    assert_eq!(refused, Err(AuthorizationError));
    assert_eq!(
        contract.get_items("bikes".to_string()),
        vec![post(1, "road bike")]
    );

    let done = contract.remove_items("bikes".to_string(), "dave.near".to_string(), 1);
    assert_eq!(done, Ok(Some(post(1, "road bike"))));
    assert_eq!(contract.get_items("bikes".to_string()), Vec::new());
}

#[test]
fn removal_returns_the_match_and_shortens_the_board_by_one() {
    let mut contract = Contract::default();
    contract.set_items("bikes".to_string(), post(1, "road bike"));
    contract.set_items("bikes".to_string(), post(2, "tandem"));
    contract.set_items("bikes".to_string(), post(3, "unicycle"));

    let first = contract.remove_items_signed_by("bikes".to_string(), signer(), &signer(), 2);
    assert_eq!(first, Ok(Some(post(2, "tandem"))));
    assert_eq!(contract.get_items("bikes".to_string()).len(), 2);
    assert_eq!(contract.get_item("bikes".to_string(), 2), None);

    let second = contract.remove_items_signed_by("bikes".to_string(), signer(), &signer(), 2);
    assert_eq!(second, Ok(None));
    assert_eq!(contract.get_items("bikes".to_string()).len(), 2);
}

#[test]
fn removal_puts_the_last_listing_in_the_vacated_place() {
    let mut contract = Contract::default();
    contract.set_items("bikes".to_string(), post(1, "road bike"));
    contract.set_items("bikes".to_string(), post(2, "tandem"));
    contract.set_items("bikes".to_string(), post(3, "unicycle"));
    contract.set_items("bikes".to_string(), post(4, "trike"));

    let outcome = contract.remove_items_signed_by("bikes".to_string(), signer(), &signer(), 1);

    assert_eq!(outcome, Ok(Some(post(1, "road bike"))));
    assert_eq!(
        titles(&contract.get_items("bikes".to_string())),
        vec!["trike", "tandem", "unicycle"]
    );
}

#[test]
fn removal_of_the_last_listing_moves_nothing() {
    let mut contract = Contract::default();
    contract.set_items("bikes".to_string(), post(1, "road bike"));
    contract.set_items("bikes".to_string(), post(2, "tandem"));
    contract.set_items("bikes".to_string(), post(3, "unicycle"));

    let outcome = contract.remove_items_signed_by("bikes".to_string(), signer(), &signer(), 3);

    assert_eq!(outcome, Ok(Some(post(3, "unicycle"))));
    assert_eq!(
        titles(&contract.get_items("bikes".to_string())),
        vec!["road bike", "tandem"]
    );
}

#[test]
fn a_board_emptied_by_removal_can_be_filled_again() {
    let mut contract = Contract::default();
    contract.set_items("bikes".to_string(), post(1, "road bike"));

    let outcome = contract.remove_items_signed_by("bikes".to_string(), signer(), &signer(), 1);
    assert_eq!(outcome, Ok(Some(post(1, "road bike"))));
    assert_eq!(contract.get_items("bikes".to_string()), Vec::new());
    assert_eq!(contract.get_item("bikes".to_string(), 1), None);

    contract.set_items("bikes".to_string(), post(2, "tandem"));
    assert_eq!(
        contract.get_items("bikes".to_string()),
        vec![post(2, "tandem")]
    );
}

#[test]
fn removal_without_a_board_or_a_match_returns_nothing() {
    let mut contract = Contract::default();
    let no_board = contract.remove_items_signed_by("bikes".to_string(), signer(), &signer(), 1);
    assert_eq!(no_board, Ok(None));
    assert_eq!(contract.get_items("bikes".to_string()), Vec::new());

    contract.set_items("bikes".to_string(), post(1, "road bike"));
    let no_match = contract.remove_items_signed_by("bikes".to_string(), signer(), &signer(), 9);
    assert_eq!(no_match, Ok(None));
    assert_eq!(
        contract.get_items("bikes".to_string()),
        vec![post(1, "road bike")]
    );
}

#[test]
fn listings_with_one_identifier_are_both_kept() {
    let mut contract = Contract::default();
    contract.set_items("bikes".to_string(), post(5, "first"));
    contract.set_items("bikes".to_string(), post(5, "second"));

    assert_eq!(
        contract.get_items("bikes".to_string()),
        vec![post(5, "first"), post(5, "second")]
    );
    assert_eq!(
        contract.get_item("bikes".to_string(), 5),
        Some(post(5, "first"))
    );

    let one = contract.remove_items_signed_by("bikes".to_string(), signer(), &signer(), 5);
    assert_eq!(one, Ok(Some(post(5, "first"))));
    assert_eq!(
        contract.get_item("bikes".to_string(), 5),
        Some(post(5, "second"))
    );

    let two = contract.remove_items_signed_by("bikes".to_string(), signer(), &signer(), 5);
    assert_eq!(two, Ok(Some(post(5, "second"))));
    assert_eq!(contract.get_item("bikes".to_string(), 5), None);
}

#[test]
fn lookup_goes_by_the_stored_order_after_a_removal() {
    let mut contract = Contract::default();
    contract.set_items("bikes".to_string(), post(2, "tandem"));
    contract.set_items("bikes".to_string(), post(1, "older"));
    contract.set_items("bikes".to_string(), post(1, "newer"));
    assert_eq!(
        contract.get_item("bikes".to_string(), 1),
        Some(post(1, "older"))
    );

    let outcome = contract.remove_items_signed_by("bikes".to_string(), signer(), &signer(), 2);

    assert_eq!(outcome, Ok(Some(post(2, "tandem"))));
    assert_eq!(
        titles(&contract.get_items("bikes".to_string())),
        vec!["newer", "older"]
    );
    assert_eq!(
        contract.get_item("bikes".to_string(), 1),
        Some(post(1, "newer"))
    );
}

#[test]
fn a_listing_comes_back_as_it_was_filed() {
    let filed = || ItemInfo {
        creator: account("erin.near"),
        post_id: 42,
        date: 1_650_000_000_000_000_000,
        category: "housing".to_string(),
        title: "Loft by the river".to_string(),
        description: "Two rooms, one cat".to_string(),
        image: Some(vec!["ipfs://a".to_string(), "ipfs://b".to_string()]),
        location: Some("Lisbon".to_string()),
        price: Some(u32::MAX),
        details: Some(Details {
            for_sale: Some(ForSale {
                make_or_manufacturer: Some("Acme".to_string()),
                model_name_or_number: Some("X-1".to_string()),
                size_dimensions: None,
                condition: Some(Condition::LikeNew),
            }),
            community: Some(Community {
                garage_sale: Some(GarageOrMovingSales {
                    garage_sale_start_time: Some("09:00".to_string()),
                    garage_sale_dates: Some(vec!["2024-05-01".to_string()]),
                }),
                class_or_event: Some(ClassesOrEvents {
                    event_venue: Some("Town hall".to_string()),
                    event_start_date: None,
                    event_duration: Some(3),
                    event_features: Some(vec!["music".to_string(), "food".to_string()]),
                }),
                lost_or_found: Some(false),
                rideshare: None,
            }),
            housing: Some(Housing {
                rent: Some(900),
                per_time_range: Some(PerTimeRange::Month),
                sqft: Some(640),
                pet: Some(true),
                air_conditioning: None,
                private_room: Some(false),
                housing_type: Some(HousingType::Loft),
                laundry: Some(true),
                parking: Some(false),
                available_date: Some("2024-06-01".to_string()),
                open_house_dates: Some(vec![]),
            }),
            jobs: Some(Job {
                employment_type: Some(EmploymentType::ContractWork),
                job_title: Some("Caretaker".to_string()),
                compensation: Some(0),
                company_name: None,
            }),
        }),
    };
    let mut contract = Contract::default();
    contract.set_items("housing".to_string(), filed());

    assert_eq!(contract.get_item("housing".to_string(), 42), Some(filed()));
    assert_eq!(contract.get_items("housing".to_string()), vec![filed()]);
    assert_eq!(
        contract.get_item("housing".to_string(), 42).unwrap().creator,
        account("erin.near")
    );

    let removed = contract.remove_items_signed_by("housing".to_string(), signer(), &signer(), 42);
    assert_eq!(removed, Ok(Some(filed())));
}

#[test]
fn a_copy_of_a_listing_equals_the_listing() {
    let filed = post(11, "road bike");
    let copy = filed.clone();
    assert_eq!(copy, filed);
    assert_eq!(copy.creator, account("alice.near"));
    assert_eq!(copy.price, Some(25));
}

#[test]
fn the_guard_compares_account_and_signer_as_text() {
    let bob = "bob.near".to_string();
    assert_eq!(authorize(&bob, &"bob.near".to_string()), Ok(()));
    assert_eq!(
        authorize(&bob, &"alice.near".to_string()),
        Err(AuthorizationError)
    );
    assert_eq!(
        authorize(&"Bob.near".to_string(), &bob),
        Err(AuthorizationError)
    );
    assert_eq!(
        authorize(&bob, &"bob.near ".to_string()),
        Err(AuthorizationError)
    );
    assert_eq!(authorize(&String::new(), &String::new()), Ok(()));
}

#[test]
fn removal_by_the_default_signer_of_the_host() {
    let caller = near_sdk::env::signer_account_id().to_string();
    assert_eq!(caller, "bob.near");
    let mut contract = Contract::default();
    contract.set_items("bikes".to_string(), post(1, "road bike"));

    let refused = contract.remove_items("bikes".to_string(), "alice.near".to_string(), 1);
    assert_eq!(refused, Err(AuthorizationError));
    assert_eq!(contract.get_items("bikes".to_string()).len(), 1);

    let done = contract.remove_items("bikes".to_string(), caller, 1);
    assert_eq!(done, Ok(Some(post(1, "road bike"))));
}
