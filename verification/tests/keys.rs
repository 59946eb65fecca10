use order_service::orders::{Order, Orderline};

#[test]
fn test_generate_salt_same_seed() {
    let inputseed = "Buddingevej 260, 2860 Soborg";
    let first = Order::generate_salt(inputseed);
    let second = Order::generate_salt(inputseed);
    assert_eq!(first, second, "Output changed between first and second salt generation");
}

#[test]
fn test_generate_salt_different_seed() {
    let first = Order::generate_salt("Buddingevej 260, 2860 Soborg");
    let second = Order::generate_salt("Espegårdsvej 20, 2880 Bagsværd");
    assert_ne!(first, second, "Output was the same with both salt generations");
}

#[test]
fn test_generate_salt_single_character_difference() {
    let first = Order::generate_salt("Buddingevej 260, 2860 Soborg");
    let second = Order::generate_salt("Buddingevej 260, 2860 Sobore");
    assert_ne!(first, second, "Output was the same with both salt generations");
}

#[test]
fn test_generate_row_key_different_cust_rest() {
    let order1 = Order::new(Vec::new(), "addr".into(), "addr2".into(), "custid".into(), "restid".into());
    let order2 = Order::new(Vec::new(), "addr".into(), "addr2".into(), "diffcustid".into(), "diffrestid".into());
    let rkey1 = Order::generate_o_id(&order1.c_id, &order1.r_id, &order1.ordertime, &order1.orderlines);
    let rkey2 = Order::generate_o_id(&order2.c_id, &order2.r_id, &order2.ordertime, &order2.orderlines);
    assert_ne!(rkey1, rkey2, "Row key was the same");
}

#[test]
fn test_generate_row_key_same() {
    let order1 = Order::new(Vec::new(), "addr".into(), "addr2".into(), "custid".into(), "restid".into());
    let order2 = order1.clone();
    let rkey1 = Order::generate_o_id(&order1.c_id, &order1.r_id, &order1.ordertime, &order1.orderlines);
    let rkey2 = Order::generate_o_id(&order2.c_id, &order2.r_id, &order2.ordertime, &order2.orderlines);
    assert_eq!(rkey1, rkey2, "Row key was generated differently with same input");
}

#[test]
fn test_generate_row_key_front_same() {
    let restid = "restid".to_string();
    let order1 = Order::new(Vec::new(), "addr".into(), "addr2".into(), "custid".into(), restid.clone());
    let front = Order::generate_salt(&restid);
    let rkey1 = Order::generate_o_id(&order1.c_id, &order1.r_id, &order1.ordertime, &order1.orderlines);
    assert_eq!(rkey1[0..front.len()], front, "salt was not appended to front.");
}

#[test]
fn test_generate_salt_is_byte_decimal() {
    let salt = Order::generate_salt("restid");
    let value: u8 = salt.parse().expect("salt is not the decimal of a byte");
    assert_eq!(value.to_string(), salt);
}

#[test]
fn test_hash_is_32_bytes() {
    let digest = Order::hash("custid", "restid", "time", &Vec::new());
    assert_eq!(digest.len(), 32);
    let other = Order::hash("custid", "restid", "time2", &Vec::new());
    assert_eq!(other.len(), 32);
    assert_ne!(digest, other);
}

#[test]
fn test_hash_covers_orderlines() {
    let empty = Order::hash("custid", "restid", "time", &Vec::new());
    let lines = vec![Orderline { item_num: 10, price: 5 }];
    let filled = Order::hash("custid", "restid", "time", &lines);
    assert_ne!(empty, filled);
}

#[test]
fn test_to_u32_least_significant_bits() {
    assert_eq!(order_service::orders::to_u32(&[]), 0);
    assert_eq!(order_service::orders::to_u32(&[1]), 1);
    assert_eq!(order_service::orders::to_u32(&[0, 1]), 2);
    assert_eq!(order_service::orders::to_u32(&[1, 0, 1]), 5);
    assert_eq!(order_service::orders::to_u32(&[2, 4, 8]), 0);
    assert_eq!(order_service::orders::to_u32(&[255, 255, 3]), 7);
    assert_eq!(order_service::orders::to_u32(&[1u8; 32]), u32::MAX);
}

#[test]
fn test_to_u32_ignores_bytes_after_weight_wraps() {
    let mut bytes = vec![0u8; 32];
    bytes.push(1);
    assert_eq!(order_service::orders::to_u32(&bytes), 0);
}

#[test]
fn test_row_key_is_salt_then_folded_digest() {
    let lines = vec![Orderline { item_num: 10, price: 5 }];
    let key = Order::generate_o_id("custid", "restid", "time", &lines);
    let salt = Order::generate_salt("restid");
    let digest = Order::hash("custid", "restid", "time", &lines);
    let folded = order_service::orders::to_u32(&digest);
    assert_eq!(key, format!("{}{}", salt, folded));
}
