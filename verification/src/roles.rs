//! The closed set of user roles and the two account statuses, with
//! their wire names and the parsing of a role name.

use vstd::prelude::*;
use crate::text::str_eq;

verus! {

/// The fixed set of roles a user can hold.
#[derive(Clone, Copy, Debug, PartialEq, Eq, Structural)]
pub enum UserRole {
    Root,
    GeneralManager,
    Manager,
    Customer,
    Waiter,
    Cook,
    Barman,
    CashRegister,
}

/// Whether an account may authenticate.
#[derive(Clone, Copy, Debug, PartialEq, Eq, Structural)]
pub enum UserStatus {
    Active,
    Inactive,
}

/// The wire name of each role.
pub open spec fn role_name_spec(r: UserRole) -> Seq<char> {
    match r {
        UserRole::Root => "ROOT"@,
        UserRole::GeneralManager => "GENERAL_MANAGER"@,
        UserRole::Manager => "MANAGER"@,
        UserRole::Customer => "CUSTOMER"@,
        UserRole::Waiter => "WAITER"@,
        UserRole::Cook => "COOK"@,
        UserRole::Barman => "BARMAN"@,
        UserRole::CashRegister => "CASH_REGISTER"@,
    }
}

/// The role a wire name denotes, if any.
pub open spec fn role_from_name_spec(s: Seq<char>) -> Option<UserRole> {
    if s == "ROOT"@ {
        Some(UserRole::Root)
    } else if s == "GENERAL_MANAGER"@ {
        Some(UserRole::GeneralManager)
    } else if s == "MANAGER"@ {
        Some(UserRole::Manager)
    } else if s == "CUSTOMER"@ {
        Some(UserRole::Customer)
    } else if s == "WAITER"@ {
        Some(UserRole::Waiter)
    } else if s == "COOK"@ {
        Some(UserRole::Cook)
    } else if s == "BARMAN"@ {
        Some(UserRole::Barman)
    } else if s == "CASH_REGISTER"@ {
        Some(UserRole::CashRegister)
    } else {
        None
    }
}

/// The wire name of each status.
pub open spec fn status_name_spec(s: UserStatus) -> Seq<char> {
    match s {
        UserStatus::Active => "ACTIVE"@,
        UserStatus::Inactive => "INACTIVE"@,
    }
}

/// The status a wire name denotes, if any.
pub open spec fn status_from_name_spec(s: Seq<char>) -> Option<UserStatus> {
    if s == "ACTIVE"@ {
        Some(UserStatus::Active)
    } else if s == "INACTIVE"@ {
        Some(UserStatus::Inactive)
    } else {
        None
    }
}

impl UserRole {
    /// The role's wire name.
    pub fn name(&self) -> (s: String)
        ensures
            s@ == role_name_spec(*self),
    {
        match self {
            UserRole::Root => "ROOT".to_owned(),
            UserRole::GeneralManager => "GENERAL_MANAGER".to_owned(),
            UserRole::Manager => "MANAGER".to_owned(),
            UserRole::Customer => "CUSTOMER".to_owned(),
            UserRole::Waiter => "WAITER".to_owned(),
            UserRole::Cook => "COOK".to_owned(),
            UserRole::Barman => "BARMAN".to_owned(),
            UserRole::CashRegister => "CASH_REGISTER".to_owned(),
        }
    }

    /// Parses a role from its wire name.
    pub fn from_name(s: &str) -> (r: Option<UserRole>)
        ensures
            r == role_from_name_spec(s@),
    {
        if str_eq(s, "ROOT") {
            Some(UserRole::Root)
        } else if str_eq(s, "GENERAL_MANAGER") {
            Some(UserRole::GeneralManager)
        } else if str_eq(s, "MANAGER") {
            Some(UserRole::Manager)
        } else if str_eq(s, "CUSTOMER") {
            Some(UserRole::Customer)
        } else if str_eq(s, "WAITER") {
            Some(UserRole::Waiter)
        } else if str_eq(s, "COOK") {
            Some(UserRole::Cook)
        } else if str_eq(s, "BARMAN") {
            Some(UserRole::Barman)
        } else if str_eq(s, "CASH_REGISTER") {
            Some(UserRole::CashRegister)
        } else {
            None
        }
    }
}

impl UserStatus {
    /// The status's wire name.
    pub fn name(&self) -> (s: String)
        ensures
            s@ == status_name_spec(*self),
    {
        match self {
            UserStatus::Active => "ACTIVE".to_owned(),
            UserStatus::Inactive => "INACTIVE".to_owned(),
        }
    }

    /// Parses a status from its wire name.
    pub fn from_name(s: &str) -> (r: Option<UserStatus>)
        ensures
            r == status_from_name_spec(s@),
    {
        if str_eq(s, "ACTIVE") {
            Some(UserStatus::Active)
        } else if str_eq(s, "INACTIVE") {
            Some(UserStatus::Inactive)
        } else {
            None
        }
    }
}

/// Whether a string names one of the fixed roles.
pub fn is_valid_role(role: &str) -> (r: bool)
    ensures
        r == (role_from_name_spec(role@) is Some),
{
    UserRole::from_name(role).is_some()
}

} // verus!
