use casper_ledger::{AccessControl, AccessControlEvent, Address, Error, U256};

fn admin() -> Address {
    Address::account([9u8; 32])
}

fn ali() -> Address {
    Address::account([1u8; 32])
}

fn bob() -> Address {
    Address::contract([2u8; 32])
}

fn minter() -> U256 {
    U256::from_u64(7)
}

#[test]
fn deployment_grants_default_admin_role() {
    let ac = AccessControl::new(admin());
    assert!(ac.has_role(AccessControl::default_admin_role(), admin()));
    assert!(ac.ret_has_role(U256::zero(), admin()));
    assert!(!ac.has_role(U256::zero(), ali()));
    assert_eq!(ac.get_role_admin(minter()), U256::zero());
    assert!(ac.events().is_empty());
}

#[test]
fn grant_requires_the_admin_role() {
    let mut ac = AccessControl::new(admin());
    assert_eq!(ac.grant_role(ali(), minter(), bob()), Err(Error::InvalidPermission));
    assert!(!ac.has_role(minter(), bob()));
    assert!(ac.events().is_empty());

    ac.grant_role(admin(), minter(), bob()).unwrap();
    assert!(ac.has_role(minter(), bob()));
    assert_eq!(
        ac.events(),
        &vec![AccessControlEvent::RoleGranted {
            role: minter(),
            account: bob(),
            sender: admin()
        }]
    );
    assert_eq!(ac.events()[0].event_type(), "role_granted");
}

#[test]
fn granting_a_held_role_is_a_checked_no_op() {
    let mut ac = AccessControl::new(admin());
    ac.grant_role(admin(), minter(), bob()).unwrap();
    ac.grant_role(admin(), minter(), bob()).unwrap();
    assert!(ac.has_role(minter(), bob()));
    assert_eq!(ac.events().len(), 1);
    assert_eq!(ac.grant_role(bob(), minter(), bob()), Err(Error::InvalidPermission));
}

#[test]
fn revoke_requires_the_admin_role() {
    let mut ac = AccessControl::new(admin());
    ac.grant_role(admin(), minter(), bob()).unwrap();
    assert_eq!(ac.revoke_role(bob(), minter(), bob()), Err(Error::InvalidPermission));
    assert!(ac.has_role(minter(), bob()));
    ac.revoke_role(admin(), minter(), bob()).unwrap();
    assert!(!ac.has_role(minter(), bob()));
    assert_eq!(ac.events()[1].event_type(), "role_revoked");
    ac.revoke_role(admin(), minter(), bob()).unwrap();
    assert_eq!(ac.events().len(), 2);
}

#[test]
fn renounce_is_for_oneself_only() {
    let mut ac = AccessControl::new(admin());
    ac.grant_role(admin(), minter(), bob()).unwrap();
    assert_eq!(ac.renounce_role(admin(), minter(), bob()), Err(Error::InvalidPermission));
    assert_eq!(ac.renounce_role(ali(), minter(), ali()), Ok(()));
    assert_eq!(ac.renounce_role(ali(), minter(), bob()), Err(Error::InvalidPermission));
    assert!(ac.has_role(minter(), bob()));
    ac.renounce_role(bob(), minter(), bob()).unwrap();
    assert!(!ac.has_role(minter(), bob()));
    assert_eq!(
        ac.events().last(),
        Some(&AccessControlEvent::RoleRevoked {
            role: minter(),
            account: bob(),
            sender: bob()
        })
    );
}

#[test]
fn role_admin_can_be_reassigned_and_cycle() {
    let mut ac = AccessControl::new(admin());
    let other = U256::from_u64(8);
    ac.grant_role(admin(), minter(), ali()).unwrap();
    assert_eq!(ac.set_role_admin(bob(), minter(), other), Err(Error::InvalidPermission));
    ac.set_role_admin(ali(), minter(), minter()).unwrap();
    assert_eq!(ac.get_role_admin(minter()), minter());
    assert_eq!(ac.ret_role_admin(minter()), minter());
    assert_eq!(
        ac.events().last(),
        Some(&AccessControlEvent::RoleAdminChanged {
            role: minter(),
            previous_admin_role: U256::zero(),
            new_admin_role: minter()
        })
    );
    assert_eq!(ac.events().last().unwrap().event_type(), "role_admin_changed");
    // a member of a role that is its own admin can now grant it
    ac.grant_role(ali(), minter(), bob()).unwrap();
    assert!(ac.has_role(minter(), bob()));
    // the default admin no longer administers it
    assert_eq!(ac.revoke_role(admin(), minter(), bob()), Err(Error::InvalidPermission));

    ac._set_role_admin(other, minter());
    ac._set_role_admin(minter(), other);
    assert_eq!(ac.get_role_admin(other), minter());
    assert_eq!(ac.get_role_admin(minter()), other);
}

#[test]
fn role_checks() {
    let mut ac = AccessControl::new(admin());
    assert_eq!(ac.check_role(U256::zero(), admin()), Ok(()));
    assert_eq!(ac.check_role(minter(), admin()), Err(Error::InvalidPermission));
    assert_eq!(ac.check_only_role(ali(), U256::zero()), Err(Error::InvalidPermission));
    ac._grant_role(minter(), ali(), admin());
    assert_eq!(ac.check_only_role(ali(), minter()), Ok(()));
    ac._revoke_role(minter(), ali(), admin());
    assert_eq!(ac.check_only_role(ali(), minter()), Err(Error::InvalidPermission));
}
