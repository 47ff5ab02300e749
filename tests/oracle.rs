use smart_contracts::address::Address;
use smart_contracts::amount::BigUint;
use smart_contracts::context::CallContext;
use smart_contracts::error::ContractError;
use smart_contracts::oracle::{AiOracleContract, OracleEvent, RequestStatus};

fn addr(b: u8) -> Address {
    Address::new([b; 32])
}

fn amount(n: u8) -> BigUint {
    BigUint::from_bytes_be(vec![n])
}

fn call(caller: u8, ts: u64, payment: u8) -> CallContext {
    CallContext::new(addr(caller), ts, amount(payment))
}

fn oracle_with_fee(fee: u8) -> AiOracleContract {
    let mut o = AiOracleContract::new(addr(0xA));
    o.set_oracle_fee(&call(0xA, 0, 0), amount(fee)).unwrap();
    o
}

fn submit(o: &mut AiOracleContract, caller: u8, payment: u8, prompt: &[u8]) -> Result<u64, ContractError> {
    o.submit_ai_request(
        &call(caller, 7, payment),
        prompt.to_vec(),
        b"code".to_vec(),
        addr(0xC),
        b"onResult".to_vec(),
    )
}

#[test]
fn fresh_oracle_counter_starts_at_one() {
    let o = AiOracleContract::new(addr(0xA));
    assert_eq!(o.get_request_counter(), 1);
    assert_eq!(o.get_oracle_fee().bytes, Vec::<u8>::new());
    assert!(o.events().is_empty());
}

#[test]
fn scenario_submit_fulfill_refulfill() {
    let mut o = oracle_with_fee(100);
    let id = submit(&mut o, 0xB, 100, b"p1").unwrap();
    assert_eq!(id, 1);
    let r = o.get_ai_request(1).unwrap();
    assert_eq!(r.status, RequestStatus::Pending);

    assert_eq!(o.fulfill_ai_request(&call(0xA, 9, 0), 1, b"answer".to_vec()), Ok(()));
    let r = o.get_ai_request(1).unwrap();
    assert_eq!(r.status, RequestStatus::Fulfilled);
    assert_eq!(r.response, b"answer".to_vec());

    let before = format!("{:?}", o.get_ai_request(1).unwrap());
    let events_before = o.events().len();
    assert_eq!(
        o.fulfill_ai_request(&call(0xA, 10, 0), 1, b"x".to_vec()),
        Err(ContractError::InvalidState)
    );
    assert_eq!(format!("{:?}", o.get_ai_request(1).unwrap()), before);
    assert_eq!(o.events().len(), events_before);
}

#[test]
fn scenario_underpayment_rejected() {
    let mut o = oracle_with_fee(100);
    assert_eq!(submit(&mut o, 0xB, 50, b"p"), Err(ContractError::InsufficientPayment));
    assert_eq!(o.get_request_counter(), 1);
    assert_eq!(o.get_ai_request(1).unwrap_err(), ContractError::NotFound);
    assert!(o.events().is_empty());
}

#[test]
fn ids_are_consecutive_from_one() {
    let mut o = oracle_with_fee(10);
    let mut ids = Vec::new();
    for k in 0..5u8 {
        if k == 2 {
            assert!(submit(&mut o, 0xB, 1, b"low").is_err());
        }
        ids.push(submit(&mut o, 0xB, 10 + k, b"p").unwrap());
    }
    assert_eq!(ids, vec![1, 2, 3, 4, 5]);
    assert_eq!(o.get_request_counter(), 6);
}

#[test]
fn overpayment_is_accepted() {
    let mut o = oracle_with_fee(100);
    assert_eq!(submit(&mut o, 0xB, 255, b"p"), Ok(1));
}

#[test]
fn get_after_submit_round_trip() {
    let mut o = oracle_with_fee(0);
    let id = o
        .submit_ai_request(
            &call(0xB, 1234, 0),
            b"draw a cat".to_vec(),
            b"image".to_vec(),
            addr(0xC),
            b"deliver".to_vec(),
        )
        .unwrap();
    let r = o.get_ai_request(id).unwrap();
    assert_eq!(r.id, id);
    assert_eq!(r.requester, addr(0xB));
    assert_eq!(r.prompt, b"draw a cat".to_vec());
    assert_eq!(r.generation_type, b"image".to_vec());
    assert_eq!(r.callback_contract, addr(0xC));
    assert_eq!(r.callback_function, b"deliver".to_vec());
    assert_eq!(r.status, RequestStatus::Pending);
    assert_eq!(r.created_at, 1234);
    assert!(r.response.is_empty());
}

#[test]
fn only_admin_fulfills() {
    let mut o = oracle_with_fee(0);
    submit(&mut o, 0xB, 0, b"p").unwrap();
    assert_eq!(
        o.fulfill_ai_request(&call(0xB, 1, 0), 1, b"r".to_vec()),
        Err(ContractError::Unauthorized)
    );
    assert_eq!(o.get_ai_request(1).unwrap().status, RequestStatus::Pending);
    assert_eq!(o.events().len(), 1);
}

#[test]
fn only_admin_sets_fee() {
    let mut o = oracle_with_fee(5);
    assert_eq!(o.set_oracle_fee(&call(0xB, 1, 0), amount(1)), Err(ContractError::Unauthorized));
    assert_eq!(o.get_oracle_fee().bytes, vec![5]);
    assert_eq!(o.set_oracle_fee(&call(0xA, 1, 0), amount(9)), Ok(()));
    assert_eq!(o.get_oracle_fee().bytes, vec![9]);
}

#[test]
fn fulfill_unknown_id_not_found() {
    let mut o = oracle_with_fee(0);
    assert_eq!(
        o.fulfill_ai_request(&call(0xA, 1, 0), 1, b"r".to_vec()),
        Err(ContractError::NotFound)
    );
    assert_eq!(
        o.fulfill_ai_request(&call(0xA, 1, 0), 0, b"r".to_vec()),
        Err(ContractError::NotFound)
    );
}

#[test]
fn events_follow_the_lifecycle() {
    let mut o = oracle_with_fee(0);
    submit(&mut o, 0xB, 0, b"p1").unwrap();
    o.fulfill_ai_request(&call(0xA, 2, 0), 1, b"done".to_vec()).unwrap();
    let ev = o.events();
    assert_eq!(ev.len(), 3);
    match &ev[0] {
        OracleEvent::AiRequestSubmitted { request_id, requester, prompt, generation_type } => {
            assert_eq!(*request_id, 1);
            assert_eq!(*requester, addr(0xB));
            assert_eq!(prompt, &b"p1".to_vec());
            assert_eq!(generation_type, &b"code".to_vec());
        }
        other => panic!("unexpected event {:?}", other),
    }
    match &ev[1] {
        OracleEvent::CallbackExecuted { request_id, callback_contract } => {
            assert_eq!(*request_id, 1);
            assert_eq!(*callback_contract, addr(0xC));
        }
        other => panic!("unexpected event {:?}", other),
    }
    match &ev[2] {
        OracleEvent::AiRequestFulfilled { request_id, response } => {
            assert_eq!(*request_id, 1);
            assert_eq!(response, &b"done".to_vec());
        }
        other => panic!("unexpected event {:?}", other),
    }
}

#[test]
fn error_messages_are_readable() {
    assert_eq!(ContractError::InsufficientPayment.message(), "Insufficient fee");
    assert_eq!(ContractError::InvalidState.message(), "Request already fulfilled");
}
