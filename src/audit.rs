use vstd::prelude::*;
use vstd::string::*;
use crate::error::MyError;
use crate::text::{decimal, decimal_string, join, join_strings, views};

verus! {

/// Severity of an audit entry.
#[derive(Clone, Copy, Debug, PartialEq, Eq, Structural)]
pub enum LogLevel {
    Informational,
    Successful,
    Failure,
}

/// One line for the audit sink.
pub struct AuditEntry {
    pub message: String,
    pub level: LogLevel,
}

impl View for AuditEntry {
    type V = (Seq<char>, LogLevel);

    open spec fn view(&self) -> (Seq<char>, LogLevel) {
        (self.message@, self.level)
    }
}

/// Whether `part` occurs in `whole` as a contiguous stretch.
pub open spec fn contains_text(whole: Seq<char>, part: Seq<char>) -> bool {
    exists|i: int| 0 <= i && i + part.len() <= whole.len() && #[trigger] whole.subrange(i, i + part.len()) == part
}

/// Audit text of a failure that concerns the account of `token`.
pub open spec fn user_failure_text(token: Seq<char>, e: MyError, detail: Seq<char>) -> Seq<char> {
    "Error with a user\n\ntoken: "@ + token + "\n\n"@ + e.text() + ": "@ + detail
}

/// Audit text of a failure that concerns no account.
pub open spec fn internal_failure_text(e: MyError, detail: Seq<char>) -> Seq<char> {
    e.text() + ": "@ + detail
}

/// What the caller is told after a successful synchronization.
pub open spec fn roles_reply_text(roles: Seq<Seq<char>>) -> Seq<char> {
    if roles.len() == 0 {
        "The request was successful, but you've already gained all of the possible roles with your current progress"@
    } else {
        "The request was successful, you've gained the following roles: "@ + join(roles, ", "@)
    }
}

/// What the audit sink is told after a successful synchronization.
pub open spec fn roles_log_text(external_id: nat, roles: Seq<Seq<char>>) -> Seq<char> {
    if roles.len() == 0 {
        "user with ID "@ + decimal(external_id) + " had a successful request but gained no roles"@
    } else {
        "user with ID "@ + decimal(external_id) + " gained the following roles: "@ + join(roles, ", "@)
    }
}

/// What the audit sink is told after a creation with caller-given attributes.
pub open spec fn created_log_text(external_id: nat) -> Seq<char> {
    "created userdata for user of id '"@ + decimal(external_id) + "'"@
}

/// The detail recorded when a lookup found a conflicting record.
pub open spec fn found_text(external_id: nat) -> Seq<char> {
    "found a record with external id "@ + decimal(external_id)
}

/// The detail recorded when a lookup found a conflicting record.
pub fn found_detail(external_id: u64) -> (r: String)
    ensures
        r@ == found_text(external_id as nat),
{
    let mut s = String::from_str("found a record with external id ");
    let id = decimal_string(external_id);
    s.append(id.as_str());
    s
}

/// The failure entry for the account of `token`.
pub fn user_failure(token: &String, e: MyError, detail: &String) -> (r: AuditEntry)
    ensures
        r@ == (user_failure_text(token@, e, detail@), LogLevel::Failure),
{
    let mut s = String::from_str("Error with a user\n\ntoken: ");
    s.append(token.as_str());
    s.append("\n\n");
    s.append(e.message());
    s.append(": ");
    s.append(detail.as_str());
    AuditEntry { message: s, level: LogLevel::Failure }
}

/// The failure entry for a failure that concerns no account.
pub fn internal_failure(e: MyError, detail: &String) -> (r: AuditEntry)
    ensures
        r@ == (internal_failure_text(e, detail@), LogLevel::Failure),
{
    let mut s = String::from_str(e.message());
    s.append(": ");
    s.append(detail.as_str());
    AuditEntry { message: s, level: LogLevel::Failure }
}

/// The caller's message for the roles newly gained, in the order given.
pub fn roles_reply(roles: &Vec<String>) -> (r: String)
    ensures
        r@ == roles_reply_text(views(roles@)),
{
    if roles.len() == 0 {
        String::from_str(
            "The request was successful, but you've already gained all of the possible roles with your current progress",
        )
    } else {
        let mut s = String::from_str("The request was successful, you've gained the following roles: ");
        let joined = join_strings(roles, ", ");
        s.append(joined.as_str());
        s
    }
}

/// The audit entry for the roles that the account of `external_id` gained.
pub fn roles_log(external_id: u64, roles: &Vec<String>) -> (r: AuditEntry)
    ensures
        r@ == (roles_log_text(external_id as nat, views(roles@)), LogLevel::Informational),
{
    let mut s = String::from_str("user with ID ");
    let id = decimal_string(external_id);
    s.append(id.as_str());
    if roles.len() == 0 {
        s.append(" had a successful request but gained no roles");
    } else {
        s.append(" gained the following roles: ");
        let joined = join_strings(roles, ", ");
        s.append(joined.as_str());
    }
    AuditEntry { message: s, level: LogLevel::Informational }
}

/// The audit entry for a creation with caller-given attributes.
pub fn created_log(external_id: u64) -> (r: AuditEntry)
    ensures
        r@ == (created_log_text(external_id as nat), LogLevel::Successful),
{
    let mut s = String::from_str("created userdata for user of id '");
    let id = decimal_string(external_id);
    s.append(id.as_str());
    s.append("'");
    AuditEntry { message: s, level: LogLevel::Successful }
}

} // verus!
