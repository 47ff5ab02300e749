use smart_contracts::address::Address;
use smart_contracts::amount::BigUint;
use smart_contracts::builder::{AutoBuilderContract, BuilderEvent};
use smart_contracts::context::CallContext;
use smart_contracts::error::ContractError;

fn addr(b: u8) -> Address {
    Address::new([b; 32])
}

fn call(caller: u8, ts: u64) -> CallContext {
    CallContext::new(addr(caller), ts, BigUint::zero())
}

fn create(c: &mut AutoBuilderContract, owner: u8, name: &[u8]) -> u64 {
    c.create_project(
        &call(owner, 100),
        name.to_vec(),
        b"desc".to_vec(),
        b"web".to_vec(),
        b"{}".to_vec(),
    )
}

#[test]
fn created_project_is_draft() {
    let mut c = AutoBuilderContract::new(addr(0xA));
    assert_eq!(c.get_project_counter(), 1);
    let id = create(&mut c, 0xB, b"site");
    assert_eq!(id, 1);
    assert_eq!(c.get_project_counter(), 2);
    let p = c.get_project(1).unwrap();
    assert_eq!(p.owner, addr(0xB));
    assert_eq!(p.name, b"site".to_vec());
    assert_eq!(p.status, b"DRAFT".to_vec());
    assert_eq!(p.created_at, 100);
    assert_eq!(p.updated_at, 100);
    assert_eq!(c.events().len(), 1);
}

#[test]
fn owner_updates_status() {
    let mut c = AutoBuilderContract::new(addr(0xA));
    create(&mut c, 0xB, b"site");
    assert_eq!(c.update_project_status(&call(0xB, 200), 1, b"LIVE".to_vec()), Ok(()));
    let p = c.get_project(1).unwrap();
    assert_eq!(p.status, b"LIVE".to_vec());
    assert_eq!(p.updated_at, 200);
    assert_eq!(p.created_at, 100);
    match &c.events()[1] {
        BuilderEvent::ProjectStatusUpdated { project_id, status } => {
            assert_eq!(*project_id, 1);
            assert_eq!(status, &b"LIVE".to_vec());
        }
        other => panic!("unexpected event {:?}", other),
    }
}

#[test]
fn stranger_cannot_update_status() {
    let mut c = AutoBuilderContract::new(addr(0xA));
    create(&mut c, 0xB, b"site");
    assert_eq!(
        c.update_project_status(&call(0xA, 200), 1, b"LIVE".to_vec()),
        Err(ContractError::Unauthorized)
    );
    assert_eq!(c.get_project(1).unwrap().status, b"DRAFT".to_vec());
    assert_eq!(
        c.update_project_status(&call(0xB, 200), 2, b"LIVE".to_vec()),
        Err(ContractError::NotFound)
    );
}

#[test]
fn ai_generation_is_owner_only() {
    let mut c = AutoBuilderContract::new(addr(0xA));
    create(&mut c, 0xB, b"site");
    assert_eq!(
        c.request_ai_generation(&call(0xC, 1), 1, b"p".to_vec(), b"code".to_vec()),
        Err(ContractError::Unauthorized)
    );
    assert_eq!(
        c.request_ai_generation(&call(0xB, 1), 1, b"p".to_vec(), b"code".to_vec()),
        Ok(())
    );
    assert_eq!(c.events().len(), 2);
    assert_eq!(
        c.request_ai_generation(&call(0xB, 1), 9, b"p".to_vec(), b"code".to_vec()),
        Err(ContractError::NotFound)
    );
}

#[test]
fn user_projects_index() {
    let mut c = AutoBuilderContract::new(addr(0xA));
    create(&mut c, 0xB, b"a");
    create(&mut c, 0xC, b"b");
    create(&mut c, 0xB, b"c");
    assert_eq!(c.get_user_projects(&addr(0xB)), vec![1, 3]);
    assert_eq!(c.get_user_projects(&addr(0xC)), vec![2]);
    assert_eq!(c.get_user_projects(&addr(0xD)), Vec::<u64>::new());
}

#[test]
fn only_admin_sets_oracle() {
    let mut c = AutoBuilderContract::new(addr(0xA));
    assert_eq!(c.set_ai_oracle(&call(0xB, 1), addr(0xE)), Err(ContractError::Unauthorized));
    assert!(c.get_ai_oracle().is_none());
    assert_eq!(c.set_ai_oracle(&call(0xA, 1), addr(0xE)), Ok(()));
    assert_eq!(c.get_ai_oracle(), Some(addr(0xE)));
}
