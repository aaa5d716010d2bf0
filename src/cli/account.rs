//! The `account` command: the choice of action and the requests it sends.

use vstd::prelude::*;

verus! {

/// Arguments of the `account` command (it has none).
pub struct Cli {}

/// Base of the account endpoints.
pub const ACCOUNTS_API: &'static str = "https://customs-server.vercel.app/api/accounts/";

/// Message shown when a failed reply names no error.
pub const INTERNAL_ERROR: &'static str = "Internal error";

#[derive(Clone, Copy, Debug, PartialEq, Eq, Structural)]
pub enum AccountAction {
    Create,
    Delete,
    Login,
    Logout,
    View,
}

pub open spec fn action_at(index: usize) -> Option<AccountAction> {
    if index == 0 {
        Some(AccountAction::Create)
    } else if index == 1 {
        Some(AccountAction::Delete)
    } else if index == 2 {
        Some(AccountAction::Login)
    } else if index == 3 {
        Some(AccountAction::Logout)
    } else if index == 4 {
        Some(AccountAction::View)
    } else {
        None
    }
}

/// The menu that `account` offers, in order.
pub fn menu() -> (r: Vec<&'static str>)
    ensures
        r@.len() == 5,
        forall|i: int| 0 <= i < 5 ==> (#[trigger] r@[i])@ == (action_at(i as usize)->0).name(),
{
    vec![
        AccountAction::Create.as_str(),
        AccountAction::Delete.as_str(),
        AccountAction::Login.as_str(),
        AccountAction::Logout.as_str(),
        AccountAction::View.as_str(),
    ]
}

/// The action chosen as the `index`-th menu item.
pub fn action_for(index: usize) -> (r: Option<AccountAction>)
    ensures
        r == action_at(index),
{
    if index == 0 {
        Some(AccountAction::Create)
    } else if index == 1 {
        Some(AccountAction::Delete)
    } else if index == 2 {
        Some(AccountAction::Login)
    } else if index == 3 {
        Some(AccountAction::Logout)
    } else if index == 4 {
        Some(AccountAction::View)
    } else {
        None
    }
}

impl AccountAction {
    pub open spec fn name(self) -> Seq<char> {
        match self {
            AccountAction::Create => "create"@,
            AccountAction::Delete => "delete"@,
            AccountAction::Login => "login"@,
            AccountAction::Logout => "logout"@,
            AccountAction::View => "view"@,
        }
    }

    /// The action's name, as the menu and the endpoints spell it.
    pub fn as_str(self) -> (r: &'static str)
        ensures
            r@ == self.name(),
    {
        match self {
            AccountAction::Create => "create",
            AccountAction::Delete => "delete",
            AccountAction::Login => "login",
            AccountAction::Logout => "logout",
            AccountAction::View => "view",
        }
    }
}

pub open spec fn endpoint(action: AccountAction, username: Seq<char>, password: Seq<char>) -> Seq<char> {
    ACCOUNTS_API@ + action.name() + "/"@ + username + "/"@ + password
}

/// The URL that `action` sends the credentials to.
pub fn account_url(action: AccountAction, username: &str, password: &str) -> (r: String)
    ensures
        r@ == endpoint(action, username@, password@),
{
    let mut r = String::from_str(ACCOUNTS_API);
    r.append(action.as_str());
    r.append("/");
    r.append(username);
    r.append("/");
    r.append(password);
    r
}

/// The message for a failed reply: the error the server named, else a
/// generic one.
pub fn failure_message(error: Option<String>) -> (r: String)
    ensures
        match error {
            Some(e) => r == e,
            None => r@ == INTERNAL_ERROR@,
        },
{
    match error {
        Some(e) => e,
        None => String::from_str(INTERNAL_ERROR),
    }
}

} // verus!
