use risein::{PaymentContract, PaymentInstance};

#[test]
fn gets_balance() {
    let mut client = PaymentContract::new();
    client.initialize();

    let address = 1u64;
    let user = PaymentContract::create_user(100);
    client.add_user(user, address);

    let balance = client.get_balance(address);
    assert_eq!(balance, 100);
}

#[test]
fn makes_transaction() {
    let mut client = PaymentContract::new();
    client.initialize();

    let from_address = 1u64;
    let to_address = 2u64;
    let from = PaymentContract::create_user(1000);
    let to = PaymentContract::create_user(200);

    let mut users = client.get_users();
    users.insert(from_address, from);
    users.insert(to_address, to);

    client.set_users(users);

    assert!(!client.make_transaction(from_address, to_address, 1001));

    assert!(client.make_transaction(from_address, to_address, 100));
    assert_eq!(client.get_balance(from_address), 900);
    assert_eq!(client.get_balance(to_address), 300);

    assert!(!client.make_transaction(from_address, to_address, 1000));

    assert!(client.make_transaction(from_address, to_address, 900));
    assert_eq!(client.get_balance(from_address), 0);
    assert_eq!(client.get_balance(to_address), 1200);
}

#[test]
fn makes_payment() {
    let mut client = PaymentContract::new();
    client.initialize();

    let from_address = 1u64;
    let to_address = 2u64;
    let from = PaymentContract::create_user(30000);
    let to = PaymentContract::create_user(100);

    let mut users = client.get_users();
    users.insert(from_address, from);
    users.insert(to_address, to);
    client.set_users(users);
    let payment = PaymentContract::create_payment(from_address, to_address, 2500, "HeyUser1".to_string());
    client.make_payment(payment);

    assert_eq!(client.get_balance(from_address), 27500);
    assert_eq!(client.get_balance(to_address), 2600);
}

#[test]
fn makes_multiple_payments() {
    let mut client = PaymentContract::new();
    client.initialize();

    let from_address = 1u64;
    let to_address_1 = 2u64;
    let to_address_2 = 3u64;
    let to_address_3 = 4u64;
    let from = PaymentContract::create_user(30000);
    let to_1 = PaymentContract::create_user(100);
    let to_2 = PaymentContract::create_user(200000);
    let to_3 = PaymentContract::create_user(0);

    let mut users = client.get_users();
    users.insert(from_address, from);
    users.insert(to_address_1, to_1);
    users.insert(to_address_2, to_2);
    users.insert(to_address_3, to_3);
    client.set_users(users);
    let payments: Vec<PaymentInstance> = vec![
        PaymentContract::create_payment(from_address, to_address_1, 2500, "HeyUser1".to_string()),
        PaymentContract::create_payment(from_address, to_address_2, 0, "HeyUser2".to_string()),
        PaymentContract::create_payment(from_address, to_address_3, 500, "HeyUser3".to_string()),
        PaymentContract::create_payment(from_address, to_address_3, 25, "HeyAgain3".to_string()),
        PaymentContract::create_payment(from_address, to_address_1, 10000, "GettingRichUser1".to_string()),
    ];

    client.make_payments(payments);

    assert_eq!(client.get_balance(from_address), 16975);
    assert_eq!(client.get_balance(to_address_1), 12600);
    assert_eq!(client.get_balance(to_address_2), 200000);
    assert_eq!(client.get_balance(to_address_3), 525);

    assert_eq!(client.get_past_messages(to_address_1).unwrap()[0], "HeyUser1".to_string());
    assert_eq!(client.get_past_messages(to_address_1).unwrap()[1], "GettingRichUser1".to_string());
    assert_eq!(client.get_past_payments(to_address_2).unwrap().len(), 0);
    assert_eq!(client.get_past_payments(to_address_3).unwrap().len(), 2);
}
