use obvia::common::time::Timestamp;
use obvia::tenant::customers::model::{CustomerFull, CustomerResolved};
use obvia::tenant::address::dto::{AddressUserInput, AddressUserInputHelper};
use obvia::tenant::customers::repository::{
    plan_address_change, plan_form_address_change, AddressChange,
};
use obvia::tenant::customers::service::{address_ids, join_addresses};

fn customer(id: u128, billing: Option<u128>, mailing: Option<u128>) -> CustomerResolved {
    let at = Timestamp { secs: 1_700_000_000, nanos: 0 };
    CustomerResolved {
        id,
        name: format!("Vevő {id}"),
        contact_name: None,
        email: format!("vevo{id}@example.hu"),
        phone_number: None,
        status: "active".to_string(),
        customer_type: "natural".to_string(),
        created_by_id: 99,
        created_by: "Test User".to_string(),
        created_at: at,
        updated_at: at,
        deleted_at: None,
        billing_address: billing,
        mailing_address: mailing,
    }
}

fn addresses(of: &[CustomerFull]) -> Vec<(Option<String>, Option<String>)> {
    of.iter()
        .map(|c| (c.billing_address.clone(), c.mailing_address.clone()))
        .collect()
}

#[test]
fn address_ids_in_customer_order() {
    let page = vec![
        customer(1, Some(10), Some(11)),
        customer(2, None, Some(20)),
        customer(3, None, None),
        customer(4, Some(40), None),
    ];
    assert_eq!(address_ids(&page), vec![10, 11, 20, 40]);
    assert_eq!(address_ids(&vec![]), Vec::<u128>::new());
}

#[test]
fn join_gives_each_customer_its_addresses() {
    let page = vec![
        customer(1, Some(10), Some(11)),
        customer(2, None, Some(20)),
        customer(3, None, None),
        customer(4, Some(40), Some(41)),
    ];
    let fetched = vec![
        (20, "Szeged".to_string()),
        (10, "Budapest".to_string()),
        (11, "Győr".to_string()),
        (40, "Pécs".to_string()),
    ];
    let joined = join_addresses(page.clone(), fetched);
    assert_eq!(joined.len(), 4);
    assert_eq!(
        addresses(&joined),
        vec![
            (Some("Budapest".to_string()), Some("Győr".to_string())),
            (None, Some("Szeged".to_string())),
            (None, None),
            (Some("Pécs".to_string()), None),
        ]
    );
    for (full, resolved) in joined.iter().zip(page.iter()) {
        assert_eq!(full.id, resolved.id);
        assert_eq!(full.name, resolved.name);
        assert_eq!(full.created_by, resolved.created_by);
    }
}

#[test]
fn join_hands_out_a_shared_address_once() {
    let page = vec![
        customer(1, Some(10), Some(10)),
        customer(2, Some(10), None),
    ];
    let joined = join_addresses(page, vec![(10, "Budapest".to_string())]);
    assert_eq!(
        addresses(&joined),
        vec![(Some("Budapest".to_string()), None), (None, None)]
    );
}

#[test]
fn join_keeps_the_last_fetched_duplicate() {
    let page = vec![customer(1, Some(10), None)];
    let joined = join_addresses(
        page,
        vec![(10, "régi".to_string()), (10, "új".to_string())],
    );
    assert_eq!(joined[0].billing_address, Some("új".to_string()));
}

#[test]
fn single_customer_join() {
    let c = customer(7, None, Some(70));
    let ids = address_ids(&vec![c.clone()]);
    assert_eq!(ids, vec![70]);
    let full = join_addresses(vec![c.clone()], vec![(70, "Debrecen".to_string())]);
    assert_eq!(
        full[0],
        c.into_full(None, Some("Debrecen".to_string()))
    );
}

#[test]
fn address_change_plans() {
    assert_eq!(plan_address_change(None, None), AddressChange::Nothing);
    assert_eq!(plan_address_change(None, Some(None)), AddressChange::Insert);
    assert_eq!(plan_address_change(None, Some(Some(5))), AddressChange::Insert);
    assert_eq!(plan_address_change(Some(5), None), AddressChange::Delete(5));
    assert_eq!(plan_address_change(Some(5), Some(Some(5))), AddressChange::Update);
    assert_eq!(plan_address_change(Some(5), Some(Some(6))), AddressChange::Mismatch);
    assert_eq!(plan_address_change(Some(5), Some(None)), AddressChange::Mismatch);
}

fn submitted(id: Option<&str>) -> Option<AddressUserInput> {
    Some(
        AddressUserInput::from_helper(AddressUserInputHelper {
            id: id.map(String::from),
            address_type: String::from(""),
            country_code: String::from("HU"),
            postal_code: String::from("6720"),
            settlement: String::from("Szeged"),
            mailbox: String::from(""),
            topographic_number: String::from(""),
            name_of_public_space: String::from(""),
            type_of_public_space: String::from(""),
            house_number: String::from(""),
            building: String::from(""),
            stairway: String::from(""),
            floor: String::from(""),
            door: String::from(""),
        })
        .unwrap(),
    )
}

#[test]
fn form_address_change_plans() {
    let stored: u128 = 0x0195d6a2_7c43_7b4e_9f1a_2b3c4d5e6f70;
    let same = submitted(Some("0195d6a2-7c43-7b4e-9f1a-2b3c4d5e6f70"));
    let other = submitted(Some("0195d6a2-7c43-7b4e-9f1a-2b3c4d5e6f71"));
    let fresh = submitted(None);
    assert_eq!(plan_form_address_change(None, &None), AddressChange::Nothing);
    assert_eq!(plan_form_address_change(None, &fresh), AddressChange::Insert);
    assert_eq!(plan_form_address_change(Some(stored), &None), AddressChange::Delete(stored));
    assert_eq!(plan_form_address_change(Some(stored), &same), AddressChange::Update);
    assert_eq!(plan_form_address_change(Some(stored), &other), AddressChange::Mismatch);
    assert_eq!(plan_form_address_change(Some(stored), &fresh), AddressChange::Mismatch);
}
