use smart_contracts::address::Address;
use smart_contracts::amount::BigUint;
use smart_contracts::context::CallContext;
use smart_contracts::error::ContractError;
use smart_contracts::factory::{FactoryEvent, ProjectFactoryContract};

fn addr(b: u8) -> Address {
    Address::new([b; 32])
}

fn call(caller: u8, payment: u8) -> CallContext {
    CallContext::new(addr(caller), 1, BigUint::from_bytes_be(vec![payment]))
}

fn factory() -> ProjectFactoryContract {
    ProjectFactoryContract::new(addr(0xA), addr(0xF))
}

#[test]
fn register_and_get_template() {
    let mut f = factory();
    assert_eq!(
        f.register_template(&call(0xA, 0), b"dapp".to_vec(), b"wasm".to_vec(), b"meta".to_vec()),
        Ok(())
    );
    let t = f.get_template(&b"dapp".to_vec()).unwrap();
    assert_eq!(t.name, b"dapp".to_vec());
    assert_eq!(t.code, b"wasm".to_vec());
    assert_eq!(t.metadata, b"meta".to_vec());
    assert!(t.active);
    assert_eq!(f.get_template(&b"other".to_vec()).unwrap_err(), ContractError::NotFound);
}

#[test]
fn reregistering_replaces_template() {
    let mut f = factory();
    f.register_template(&call(0xA, 0), b"dapp".to_vec(), b"v1".to_vec(), b"m".to_vec()).unwrap();
    f.register_template(&call(0xA, 0), b"game".to_vec(), b"g".to_vec(), b"m".to_vec()).unwrap();
    f.register_template(&call(0xA, 0), b"dapp".to_vec(), b"v2".to_vec(), b"m".to_vec()).unwrap();
    assert_eq!(f.get_template(&b"dapp".to_vec()).unwrap().code, b"v2".to_vec());
    assert_eq!(f.get_template(&b"game".to_vec()).unwrap().code, b"g".to_vec());
}

#[test]
fn only_admin_registers() {
    let mut f = factory();
    assert_eq!(
        f.register_template(&call(0xB, 0), b"dapp".to_vec(), b"w".to_vec(), b"m".to_vec()),
        Err(ContractError::Unauthorized)
    );
    assert!(f.get_template(&b"dapp".to_vec()).is_err());
    assert!(f.events().is_empty());
}

#[test]
fn deploy_checks_fee() {
    let mut f = factory();
    f.set_deployment_fee(&call(0xA, 0), BigUint::from_bytes_be(vec![50])).unwrap();
    assert_eq!(f.get_deployment_fee().bytes, vec![50]);
    assert_eq!(
        f.deploy_project(&call(0xB, 49), b"dapp".to_vec(), vec![]),
        Err(ContractError::InsufficientPayment)
    );
    assert!(f.events().is_empty());
    assert_eq!(f.deploy_project(&call(0xB, 50), b"dapp".to_vec(), vec![]), Ok(addr(0xF)));
    match &f.events()[0] {
        FactoryEvent::ProjectDeployed { deployer, template_type } => {
            assert_eq!(*deployer, addr(0xB));
            assert_eq!(template_type, &b"dapp".to_vec());
        }
        other => panic!("unexpected event {:?}", other),
    }
}

#[test]
fn only_admin_sets_deployment_fee() {
    let mut f = factory();
    assert_eq!(
        f.set_deployment_fee(&call(0xB, 0), BigUint::from_bytes_be(vec![1])),
        Err(ContractError::Unauthorized)
    );
    assert_eq!(f.get_admin(), addr(0xA));
}
