use rust_bag::codec::{
    condition_name, decode, encode_bag, encode_owner, encode_request, parse_condition,
    read_u32, request_from_fields, DecodeError, Field, Operation, Request,
};
use rust_bag::handlers::{
    create_bag, create_owner, get_bag, get_owner, transfer_bag, update_bag_price, Reply,
    STATUS_BAD_ARGS, STATUS_OK, STATUS_REFUSED,
};
use rust_bag::ledger::{Bag, Condition, Ledger, Owner};

fn args(s: &str) -> Option<Vec<u8>> {
    Some(s.as_bytes().to_vec())
}

fn text(r: &Reply) -> String {
    String::from_utf8(r.value.clone().unwrap()).unwrap()
}

#[test]
fn decode_create_bag() {
    let r = decode(
        Operation::CreateBag,
        &args(r#"{"owner_id": 1, "item_id": 2, "price": 10, "condition": "New"}"#),
    );
    assert_eq!(
        r,
        Ok(Request::CreateBag { owner_id: 1, bag_id: 2, price: 10, condition: Condition::New })
    );
}

#[test]
fn decode_unavailable_and_malformed() {
    assert_eq!(decode(Operation::GetOwner, &None), Err(DecodeError::Unavailable));
    assert_eq!(decode(Operation::GetOwner, &args(r#"{"owner_id": 1"#)), Err(DecodeError::Malformed));
    assert_eq!(decode(Operation::GetOwner, &args("")), Err(DecodeError::Malformed));
    assert_eq!(decode(Operation::GetOwner, &Some(vec![0xff, 0x00])), Err(DecodeError::Malformed));
}

#[test]
fn decode_missing_or_wrong_type() {
    let bad = Err(DecodeError::MissingOrWrongType);
    assert_eq!(decode(Operation::GetBag, &args(r#"{"owner_id": 1}"#)), bad);
    assert_eq!(decode(Operation::GetBag, &args(r#"{"item_id": "1"}"#)), bad);
    assert_eq!(decode(Operation::GetBag, &args(r#"{"item_id": -1}"#)), bad);
    assert_eq!(decode(Operation::GetBag, &args(r#"{"item_id": 1.5}"#)), bad);
    assert_eq!(decode(Operation::GetBag, &args(r#"{"item_id": 4294967296}"#)), bad);
    assert_eq!(decode(Operation::GetBag, &args("[1]")), bad);
    assert_eq!(
        decode(
            Operation::CreateBag,
            &args(r#"{"owner_id": 1, "item_id": 2, "price": 10, "condition": "shiny"}"#)
        ),
        bad
    );
    assert_eq!(
        decode(Operation::CreateBag, &args(r#"{"owner_id": 1, "item_id": 2, "price": 10}"#)),
        bad
    );
}

#[test]
fn decode_largest_id() {
    assert_eq!(
        decode(Operation::GetBag, &args(r#"{"item_id": 4294967295}"#)),
        Ok(Request::GetBag { bag_id: u32::MAX })
    );
}

#[test]
fn condition_is_case_insensitive() {
    assert_eq!(parse_condition("DeStRoYeD"), Some(Condition::Destroyed));
    assert_eq!(parse_condition("GOOD"), Some(Condition::Good));
    assert_eq!(parse_condition("bad"), Some(Condition::Bad));
    assert_eq!(parse_condition("worn"), None);
    assert_eq!(condition_name(Condition::Good), "good");
}

#[test]
fn fields_to_request() {
    let fs = vec![Field::Unsigned(3), Field::Unsigned(4)];
    assert_eq!(
        request_from_fields(Operation::TransferBag, &fs),
        Ok(Request::TransferBag { bag_id: 3, owner_id: 4 })
    );
    assert_eq!(
        request_from_fields(Operation::GetOwner, &fs),
        Err(DecodeError::MissingOrWrongType)
    );
    assert_eq!(read_u32(&Field::Unsigned(1 << 32)), None);
    assert_eq!(read_u32(&Field::Text("1".to_string())), None);
}

#[test]
fn encode_responses() {
    let o = Owner { id: 5, bags: vec![3, 1] };
    assert_eq!(encode_owner(&o).unwrap(), br#"{"items":[3,1],"ownerID":5}"#.to_vec());
    let b = Bag { id: 9, price: 10, owner_id: 5, num_transfers: 0, condition: Condition::Bad };
    assert_eq!(
        encode_bag(&b).unwrap(),
        br#"{"ID":9,"condition":"bad","ownerID":5,"price":10}"#.to_vec()
    );
}

#[test]
fn decode_then_encode_round_trip() {
    let input = args(r#"{"condition": "GOOD", "price": 7, "item_id": 2, "owner_id": 1, "x": null}"#);
    let req = decode(Operation::CreateBag, &input).unwrap();
    let bytes = encode_request(&req).unwrap();
    assert_eq!(
        bytes,
        br#"{"condition":"good","item_id":2,"owner_id":1,"price":7}"#.to_vec()
    );
    assert_eq!(decode(Operation::CreateBag, &Some(bytes)), Ok(req));
    let t = Request::TransferBag { bag_id: 8, owner_id: 9 };
    let bytes = encode_request(&t).unwrap();
    assert_eq!(decode(Operation::TransferBag, &Some(bytes)), Ok(t));
}

#[test]
fn handlers_report_status_codes() {
    let mut l = Ledger::new();
    assert_eq!(create_owner(&mut l, args(r#"{"owner_id": 1}"#)), STATUS_OK);
    assert_eq!(create_owner(&mut l, args(r#"{"owner_id": 1}"#)), STATUS_REFUSED);
    assert_eq!(create_owner(&mut l, args("nope")), STATUS_BAD_ARGS);
    assert_eq!(create_owner(&mut l, None), STATUS_BAD_ARGS);
    assert_eq!(
        create_bag(&mut l, args(r#"{"owner_id": 2, "item_id": 7, "price": 10, "condition": "new"}"#)),
        STATUS_REFUSED
    );
    assert_eq!(
        create_bag(&mut l, args(r#"{"owner_id": 1, "item_id": 7, "price": 10, "condition": "new"}"#)),
        STATUS_OK
    );
    let r = get_bag(&l, args(r#"{"item_id": 7}"#));
    assert_eq!(r.status, STATUS_OK);
    assert_eq!(text(&r), r#"{"ID":7,"condition":"new","ownerID":1,"price":10}"#);
    let r = get_owner(&l, args(r#"{"owner_id": 1}"#));
    assert_eq!(text(&r), r#"{"items":[7],"ownerID":1}"#);
}

#[test]
fn handlers_transfer_and_price() {
    let mut l = Ledger::new();
    create_owner(&mut l, args(r#"{"owner_id": 1}"#));
    create_owner(&mut l, args(r#"{"owner_id": 2}"#));
    create_bag(&mut l, args(r#"{"owner_id": 1, "item_id": 7, "price": 10, "condition": "Good"}"#));
    assert_eq!(transfer_bag(&mut l, args(r#"{"item_id": 7, "owner_id": 3}"#)), STATUS_REFUSED);
    assert_eq!(transfer_bag(&mut l, args(r#"{"item_id": 7, "owner_id": 2}"#)), STATUS_OK);
    assert_eq!(update_bag_price(&mut l, args(r#"{"item_id": 7, "price": 99}"#)), STATUS_OK);
    assert_eq!(update_bag_price(&mut l, args(r#"{"item_id": 8, "price": 99}"#)), STATUS_REFUSED);
    assert_eq!(update_bag_price(&mut l, args(r#"{"item_id": 7}"#)), STATUS_BAD_ARGS);
    let r = get_bag(&l, args(r#"{"item_id": 7}"#));
    assert_eq!(text(&r), r#"{"ID":7,"condition":"good","ownerID":2,"price":99}"#);
    assert_eq!(text(&get_owner(&l, args(r#"{"owner_id": 1}"#))), r#"{"items":[],"ownerID":1}"#);
    assert_eq!(text(&get_owner(&l, args(r#"{"owner_id": 2}"#))), r#"{"items":[7],"ownerID":2}"#);
    let missing = get_owner(&l, args(r#"{"owner_id": 3}"#));
    assert_eq!((missing.status, missing.value), (STATUS_REFUSED, None));
}
