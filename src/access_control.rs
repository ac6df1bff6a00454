use vstd::prelude::*;

use crate::address::Address;
use crate::error::{outcome, Error};
use crate::keys::{address_encoding, base64_of, decimal_of, join_underscore, key_to_str, u256_to_decimal};
use crate::table::{Table, TableKey};
use crate::uint::{zero_u256, U256};

verus! {

/// The key of a membership: a role and an account.
#[derive(Clone, Copy, Debug, PartialEq, Eq)]
pub struct MemberKey {
    pub role: U256,
    pub account: Address,
}

impl TableKey for MemberKey {
    fn key_eq(&self, other: &Self) -> (r: bool) {
        self.role.same(&other.role) && self.account.same(&other.account)
    }
}

/// A record of a change of membership or of a role's admin.
#[derive(Clone, Copy, Debug, PartialEq, Eq)]
pub enum AccessControlEvent {
    RoleGranted { role: U256, account: Address, sender: Address },
    RoleRevoked { role: U256, account: Address, sender: Address },
    RoleAdminChanged { role: U256, previous_admin_role: U256, new_admin_role: U256 },
}

impl AccessControlEvent {
    /// The event-type tag that the record is published under.
    pub fn event_type(&self) -> (r: String)
        ensures
            self is RoleGranted ==> r@ == "role_granted"@,
            self is RoleRevoked ==> r@ == "role_revoked"@,
            self is RoleAdminChanged ==> r@ == "role_admin_changed"@,
    {
        match self {
            AccessControlEvent::RoleGranted { .. } => "role_granted".to_string(),
            AccessControlEvent::RoleRevoked { .. } => "role_revoked".to_string(),
            AccessControlEvent::RoleAdminChanged { .. } => "role_admin_changed".to_string(),
        }
    }
}

/// The abstract state of the registry: memberships (absent means not a
/// member), each role's admin role (absent means the default admin role),
/// and the events recorded so far.
pub struct AccessControlModel {
    pub members: Map<MemberKey, bool>,
    pub admins: Map<U256, U256>,
    pub events: Seq<AccessControlEvent>,
}

impl AccessControlModel {
    pub open spec fn has_role(self, role: U256, account: Address) -> bool {
        let k = MemberKey { role, account };
        self.members.contains_key(k) && self.members[k]
    }

    pub open spec fn role_admin(self, role: U256) -> U256 {
        if self.admins.contains_key(role) {
            self.admins[role]
        } else {
            zero_u256()
        }
    }
}

/// Making `account` a member of `role`; nothing changes where it already is.
pub open spec fn grant_spec(m: AccessControlModel, role: U256, account: Address, sender: Address) -> AccessControlModel {
    if m.has_role(role, account) {
        m
    } else {
        AccessControlModel {
            members: m.members.insert(MemberKey { role, account }, true),
            events: m.events.push(AccessControlEvent::RoleGranted { role, account, sender }),
            ..m
        }
    }
}

/// Ending the membership of `account` in `role`; nothing changes where there
/// is none.
pub open spec fn revoke_spec(m: AccessControlModel, role: U256, account: Address, sender: Address) -> AccessControlModel {
    if m.has_role(role, account) {
        AccessControlModel {
            members: m.members.insert(MemberKey { role, account }, false),
            events: m.events.push(AccessControlEvent::RoleRevoked { role, account, sender }),
            ..m
        }
    } else {
        m
    }
}

/// Making `admin_role` the admin of `role`.
pub open spec fn set_role_admin_spec(m: AccessControlModel, role: U256, admin_role: U256) -> AccessControlModel {
    AccessControlModel {
        admins: m.admins.insert(role, admin_role),
        events: m.events.push(
            AccessControlEvent::RoleAdminChanged {
                role,
                previous_admin_role: m.role_admin(role),
                new_admin_role: admin_role,
            },
        ),
        ..m
    }
}

/// A grant by `caller`, who must hold the admin role of `role`.
pub open spec fn grant_role_spec(m: AccessControlModel, caller: Address, role: U256, account: Address) -> Result<
    AccessControlModel,
    Error,
> {
    if !m.has_role(m.role_admin(role), caller) {
        Err(Error::InvalidPermission)
    } else {
        Ok(grant_spec(m, role, account, caller))
    }
}

/// A revocation by `caller`, who must hold the admin role of `role`.
pub open spec fn revoke_role_spec(m: AccessControlModel, caller: Address, role: U256, account: Address) -> Result<
    AccessControlModel,
    Error,
> {
    if !m.has_role(m.role_admin(role), caller) {
        Err(Error::InvalidPermission)
    } else {
        Ok(revoke_spec(m, role, account, caller))
    }
}

/// `caller` giving up its own membership; no one may renounce for another.
pub open spec fn renounce_role_spec(m: AccessControlModel, caller: Address, role: U256, account: Address) -> Result<
    AccessControlModel,
    Error,
> {
    if caller != account {
        Err(Error::InvalidPermission)
    } else {
        Ok(revoke_spec(m, role, account, caller))
    }
}

/// A change of admin by `caller`, who must hold `role` itself.
pub open spec fn set_role_admin_checked_spec(
    m: AccessControlModel,
    caller: Address,
    role: U256,
    admin_role: U256,
) -> Result<AccessControlModel, Error> {
    if !m.has_role(role, caller) {
        Err(Error::InvalidPermission)
    } else {
        Ok(set_role_admin_spec(m, role, admin_role))
    }
}

} // verus!

verus! {

/// Role membership with a per-role admin hierarchy. The admin mapping is not
/// required to be acyclic: a role may be its own admin.
pub struct AccessControl {
    members: Table<MemberKey, bool>,
    admins: Table<U256, U256>,
    events: Vec<AccessControlEvent>,
}

impl View for AccessControl {
    type V = AccessControlModel;

    closed spec fn view(&self) -> AccessControlModel {
        AccessControlModel { members: self.members@, admins: self.admins@, events: self.events@ }
    }
}

impl AccessControl {
    /// The name of the host dictionary that holds memberships.
    pub const ACCESS_ROLE_MEMBER_KEY: &'static str = "_access_control_members";
    /// The name of the host dictionary that holds each role's admin.
    pub const ACCESS_ROLE_ADMIN_KEY: &'static str = "_access_control_admin";

    /// The host dictionary key of a membership: the account's text form and
    /// the role in decimal, joined by an underscore.
    pub fn get_role_members_key(role: U256, account: Address) -> (r: String)
        ensures
            r@ == base64_of(address_encoding(account)) + "_"@ + decimal_of(role.value()),
    {
        let role_text = u256_to_decimal(&role);
        join_underscore(key_to_str(&account), &role_text)
    }

    /// The host dictionary key of a role's admin: the role in decimal.
    pub fn get_role_admin_key(role: U256) -> (r: String)
        ensures
            r@ == decimal_of(role.value()),
    {
        u256_to_decimal(&role)
    }

    pub closed spec fn wf(self) -> bool {
        self.members.wf() && self.admins.wf()
    }

    /// The reserved role id zero: the admin of every role whose admin was
    /// never set.
    pub fn default_admin_role() -> (r: U256)
        ensures
            r == zero_u256(),
            r.value() == 0,
    {
        U256::zero()
    }

    /// Deployment: `default_admin` holds the default admin role, granted
    /// without a permission check and without an event.
    pub fn new(default_admin: Address) -> (r: AccessControl)
        ensures
            r.wf(),
            r@ == (AccessControlModel {
                members: map![MemberKey { role: zero_u256(), account: default_admin } => true],
                admins: Map::empty(),
                events: Seq::empty(),
            }),
    {
        let mut members = Table::new();
        members.insert(MemberKey { role: AccessControl::default_admin_role(), account: default_admin }, true);
        let r = AccessControl { members, admins: Table::new(), events: Vec::new() };
        assert(r@.members =~= map![MemberKey { role: zero_u256(), account: default_admin } => true]);
        r
    }

    pub fn has_role(&self, role: U256, account: Address) -> (r: bool)
        requires
            self.wf(),
        ensures
            r == self@.has_role(role, account),
    {
        match self.members.get(&MemberKey { role, account }) {
            Some(b) => b,
            None => false,
        }
    }

    /// Membership, as the `has_role` entry point returns it.
    pub fn ret_has_role(&self, role: U256, account: Address) -> (r: bool)
        requires
            self.wf(),
        ensures
            r == self@.has_role(role, account),
    {
        self.has_role(role, account)
    }

    pub fn get_role_admin(&self, role: U256) -> (r: U256)
        requires
            self.wf(),
        ensures
            r == self@.role_admin(role),
    {
        match self.admins.get(&role) {
            Some(a) => a,
            None => U256::zero(),
        }
    }

    /// The admin role, as the `get_role_admin` entry point returns it.
    pub fn ret_role_admin(&self, role: U256) -> (r: U256)
        requires
            self.wf(),
        ensures
            r == self@.role_admin(role),
    {
        self.get_role_admin(role)
    }

    /// The events recorded so far, oldest first.
    pub fn events(&self) -> (r: &Vec<AccessControlEvent>)
        ensures
            r@ == self@.events,
    {
        &self.events
    }

    /// Records an event.
    pub fn emit(&mut self, event: AccessControlEvent)
        ensures
            final(self)@ == (AccessControlModel {
                events: old(self)@.events.push(event),
                ..old(self)@
            }),
            final(self).wf() == old(self).wf(),
    {
        self.events.push(event);
    }

    /// Passes where `caller` holds `role`.
    pub fn check_only_role(&self, caller: Address, role: U256) -> (r: Result<(), Error>)
        requires
            self.wf(),
        ensures
            r == (if self@.has_role(role, caller) {
                Ok::<(), Error>(())
            } else {
                Err(Error::InvalidPermission)
            }),
    {
        if self.has_role(role, caller) {
            Ok(())
        } else {
            Err(Error::InvalidPermission)
        }
    }

    /// Passes where `account` holds `role`.
    pub fn check_role(&self, role: U256, account: Address) -> (r: Result<(), Error>)
        requires
            self.wf(),
        ensures
            r == (if self@.has_role(role, account) {
                Ok::<(), Error>(())
            } else {
                Err(Error::InvalidPermission)
            }),
    {
        self.check_only_role(account, role)
    }

    /// Makes `account` a member of `role` without a permission check, as at
    /// deployment; `sender` is named in the event.
    pub fn _grant_role(&mut self, role: U256, account: Address, sender: Address)
        requires
            old(self).wf(),
        ensures
            final(self).wf(),
            final(self)@ == grant_spec(old(self)@, role, account, sender),
    {
        if !self.has_role(role, account) {
            self.members.insert(MemberKey { role, account }, true);
            self.emit(AccessControlEvent::RoleGranted { role, account, sender });
        }
    }

    /// Ends the membership of `account` in `role` without a permission check;
    /// `sender` is named in the event.
    pub fn _revoke_role(&mut self, role: U256, account: Address, sender: Address)
        requires
            old(self).wf(),
        ensures
            final(self).wf(),
            final(self)@ == revoke_spec(old(self)@, role, account, sender),
    {
        if self.has_role(role, account) {
            self.members.insert(MemberKey { role, account }, false);
            self.emit(AccessControlEvent::RoleRevoked { role, account, sender });
        }
    }

    /// Makes `admin_role` the admin of `role` without a permission check.
    pub fn _set_role_admin(&mut self, role: U256, admin_role: U256)
        requires
            old(self).wf(),
        ensures
            final(self).wf(),
            final(self)@ == set_role_admin_spec(old(self)@, role, admin_role),
    {
        let previous_admin_role = self.get_role_admin(role);
        self.admins.insert(role, admin_role);
        self.emit(
            AccessControlEvent::RoleAdminChanged { role, previous_admin_role, new_admin_role: admin_role },
        );
    }

    /// The caller, who must hold the admin role of `role`, makes `account` a
    /// member of it.
    pub fn grant_role(&mut self, caller: Address, role: U256, account: Address) -> (r: Result<(), Error>)
        requires
            old(self).wf(),
        ensures
            final(self).wf(),
            outcome(r, old(self)@, final(self)@, grant_role_spec(old(self)@, caller, role, account)),
    {
        let admin = self.get_role_admin(role);
        if !self.has_role(admin, caller) {
            return Err(Error::InvalidPermission);
        }
        self._grant_role(role, account, caller);
        Ok(())
    }

    /// The caller, who must hold the admin role of `role`, ends the
    /// membership of `account` in it.
    pub fn revoke_role(&mut self, caller: Address, role: U256, account: Address) -> (r: Result<(), Error>)
        requires
            old(self).wf(),
        ensures
            final(self).wf(),
            outcome(r, old(self)@, final(self)@, revoke_role_spec(old(self)@, caller, role, account)),
    {
        let admin = self.get_role_admin(role);
        if !self.has_role(admin, caller) {
            return Err(Error::InvalidPermission);
        }
        self._revoke_role(role, account, caller);
        Ok(())
    }

    /// The caller gives up its own membership in `role`; `account` must be
    /// the caller.
    pub fn renounce_role(&mut self, caller: Address, role: U256, account: Address) -> (r: Result<(), Error>)
        requires
            old(self).wf(),
        ensures
            final(self).wf(),
            outcome(r, old(self)@, final(self)@, renounce_role_spec(old(self)@, caller, role, account)),
    {
        if !account.same(&caller) {
            return Err(Error::InvalidPermission);
        }
        self._revoke_role(role, account, caller);
        Ok(())
    }

    /// The caller, who must hold `role`, makes `admin_role` its admin.
    pub fn set_role_admin(&mut self, caller: Address, role: U256, admin_role: U256) -> (r: Result<(), Error>)
        requires
            old(self).wf(),
        ensures
            final(self).wf(),
            outcome(
                r,
                old(self)@,
                final(self)@,
                set_role_admin_checked_spec(old(self)@, caller, role, admin_role),
            ),
    {
        if self.check_only_role(caller, role).is_err() {
            return Err(Error::InvalidPermission);
        }
        self._set_role_admin(role, admin_role);
        Ok(())
    }
}

} // verus!

verus! {

/// A grant by a caller without the admin role of `role` is refused with
/// `InvalidPermission`; by one with it, `account` becomes a member, and where
/// it was not one already, exactly one `RoleGranted` event is recorded.
pub proof fn lemma_grant_gated(m: AccessControlModel, caller: Address, role: U256, account: Address)
    ensures
        !m.has_role(m.role_admin(role), caller) ==> grant_role_spec(m, caller, role, account)
            == Err::<AccessControlModel, Error>(Error::InvalidPermission),
        m.has_role(m.role_admin(role), caller) ==> grant_role_spec(m, caller, role, account) is Ok
            && (grant_role_spec(m, caller, role, account)->Ok_0).has_role(role, account),
        m.has_role(m.role_admin(role), caller) && !m.has_role(role, account) ==> (grant_role_spec(
            m,
            caller,
            role,
            account,
        )->Ok_0).events == m.events.push(
            AccessControlEvent::RoleGranted { role, account, sender: caller },
        ),
{
}

/// No caller can renounce a role for another account, whatever the
/// memberships.
pub proof fn lemma_renounce_self_only(m: AccessControlModel, caller: Address, role: U256, account: Address)
    requires
        caller != account,
    ensures
        renounce_role_spec(m, caller, role, account) == Err::<AccessControlModel, Error>(
            Error::InvalidPermission,
        ),
{
}

} // verus!
