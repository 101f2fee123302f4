use classifieds::{Contract, ItemInfo};

fn listing(post_id: u64) -> ItemInfo {
    ItemInfo {
        creator: near_sdk::env::current_account_id(),
        post_id,
        date: near_sdk::env::block_timestamp(),
        category: "finance".to_string(),
        title: "Looking for a financal tech".to_string(),
        description:
            "This job is looking for a person to do all the money making I sit back and watch"
                .to_string(),
        image: None,
        location: Some("remote".to_string()),
        price: None,
        details: None,
    }
}

#[test]
fn get_one_item_post_id() {
    let mut contract = Contract::default();
    contract.set_items("community".to_string(), listing(365416516352));
    contract.set_items("community".to_string(), listing(654612352));

    let x = contract.get_item("community".to_string(), 65612352);

    assert_eq!(x, None);
}

#[test]
fn set_items_check() {
    let mut contract = Contract::default();
    contract.set_items("community".to_string(), listing(365416516352));
    contract.set_items("community".to_string(), listing(654612352));

    let check_len = contract.get_items("community".to_string());
    assert_eq!(check_len.len(), 2);
}

#[test]
fn remove_item_post_id() {
    let mut contract = Contract::default();
    contract.set_items("community".to_string(), listing(365416516352));
    contract.set_items("community".to_string(), listing(654612352));

    let x = contract.get_item("community".to_string(), 654612352);
    let y = contract
        .remove_items(
            "community".to_string(),
            near_sdk::env::signer_account_id().to_string(),
            654612352,
        )
        .unwrap();
    let check_len = contract.get_items("community".to_string());
    let y_2 = contract
        .remove_items(
            "community".to_string(),
            near_sdk::env::signer_account_id().to_string(),
            654612352,
        )
        .unwrap();

    assert_ne!(x, None);
    assert_ne!(y, None);
    assert_eq!(check_len.len(), 1);
    assert_eq!(y_2, None)
}

#[test]
fn community_board_from_filing_to_removal() {
    let caller = near_sdk::env::signer_account_id().to_string();
    let mut contract = Contract::default();
    contract.set_items("community".to_string(), listing(365416516352));
    contract.set_items("community".to_string(), listing(654612352));

    assert_eq!(contract.get_item("community".to_string(), 65612352), None);
    assert_eq!(contract.get_items("community".to_string()).len(), 2);

    let removed = contract.remove_items("community".to_string(), caller.clone(), 654612352);
    assert_eq!(removed, Ok(Some(listing(654612352))));
    assert_eq!(
        contract.get_items("community".to_string()),
        vec![listing(365416516352)]
    );

    let again = contract.remove_items("community".to_string(), caller, 654612352);
    assert_eq!(again, Ok(None));
    assert_eq!(contract.get_items("community".to_string()).len(), 1);
}
