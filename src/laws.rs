use vstd::prelude::*;
use crate::audit::{contains_text, roles_reply_text, LogLevel};
use crate::error::{ErrorKind, MyError};
use crate::text::{decimal, join};
use crate::workflow::{accepts, transition, ActionView, EventView, ReplyView, SessionView, StepView};

verus! {

/// Whether `e` reports a collaborator failure.
pub open spec fn is_failure(e: EventView) -> bool {
    e is ConnectFailed || e is LookupFailed || e is Conflict || e is StoreFailed || e is RolesFailed
}

/// The severity of a step's audit entry, if it has one.
pub open spec fn entry_level(st: StepView) -> Option<LogLevel> {
    match st.log {
        Some((_, level)) => Some(level),
        None => None,
    }
}

/// The text of a step's audit entry (empty if it has none).
pub open spec fn entry_text(st: StepView) -> Seq<char> {
    match st.log {
        Some((text, _)) => text,
        None => Seq::empty(),
    }
}

/// A second create for a token that is already linked finds the record and
/// ends in a conflict: "already linked" when the external id is the same,
/// "bound to another id" otherwise. It writes nothing, and records the
/// failure with the token.
pub proof fn lemma_create_twice_rejected(s: SessionView, id: u64)
    requires
        s.flow is Create,
        s.stage is CheckingToken,
    ensures
        transition(s, EventView::Found(id)).0.stage is Done,
        !transition(s, EventView::Found(id)).1.action.writes(),
        entry_level(transition(s, EventView::Found(id)).1) == Some(LogLevel::Failure),
        transition(s, EventView::Found(id)).1.action == ActionView::Finish(
            Err(
                if id == s.external_id {
                    MyError::AlreadyLinked
                } else {
                    MyError::TokenBoundElsewhere
                },
            ),
        ),
{
}

/// A create writes only the record of its own token and external id, and
/// only after both lookups (by token, then by external id) reported that no
/// record matches; a failed lookup ends the request.
pub proof fn lemma_create_writes_only_when_unbound(s: SessionView, e: EventView)
    requires
        s.flow is Create,
        accepts(s.stage, e),
    ensures
        transition(s, e).1.action.writes() ==> s.stage is CheckingId && e is Missing,
        transition(s, e).0.stage is CheckingId && !(s.stage is CheckingId) ==> s.stage is CheckingToken
            && e is Missing,
        e is LookupFailed ==> transition(s, e).0.stage is Done && !transition(s, e).1.action.writes(),
        transition(s, e).1.action.writes() ==> transition(s, e).1.action == ActionView::Create(
            s.token,
            s.external_id,
            s.beta,
        ),
{
}

/// A create whose external id already belongs to a record fails with a
/// bad-request conflict and writes nothing.
pub proof fn lemma_create_with_bound_id_rejected(s: SessionView, id: u64)
    requires
        s.flow is Create,
        s.stage is CheckingId,
    ensures
        transition(s, EventView::Found(id)).0.stage is Done,
        transition(s, EventView::Found(id)).1.action == ActionView::Finish(Err(MyError::IdBoundElsewhere)),
        MyError::IdBoundElsewhere.spec_kind() == ErrorKind::BadRequest,
        !transition(s, EventView::Found(id)).1.action.writes(),
{
}

/// An update (plain or legacy) of a token with no record fails with an
/// internal error; an update never creates a record, and it writes only
/// after the lookup by token found one.
pub proof fn lemma_update_requires_record(s: SessionView, e: EventView)
    requires
        s.flow is Update || s.flow is LegacyUpdate,
        s.wf(),
        accepts(s.stage, e),
    ensures
        s.stage is CheckingToken && (e is Missing || e is LookupFailed) ==> transition(s, e).1.action
            == ActionView::Finish(Err(MyError::NotLinked)),
        MyError::NotLinked.spec_kind() == ErrorKind::InternalError,
        !(transition(s, e).1.action is Create),
        transition(s, e).1.action.writes() ==> s.stage is CheckingToken && e is Found,
{
}

/// The caller's message after a synchronization: "no new roles" when the
/// authority granted none, otherwise the roles in the authority's order,
/// joined by ", ".
pub proof fn lemma_role_reply(s: SessionView, roles: Seq<Seq<char>>)
    requires
        s.stage is Syncing,
    ensures
        transition(s, EventView::Roles(roles)).1.action == ActionView::Finish(
            Ok(ReplyView::Message(roles_reply_text(roles))),
        ),
        roles.len() == 0 ==> roles_reply_text(roles)
            == "The request was successful, but you've already gained all of the possible roles with your current progress"@,
        roles.len() > 0 ==> roles_reply_text(roles)
            == "The request was successful, you've gained the following roles: "@ + join(roles, ", "@),
{
}

proof fn lemma_contains_middle(a: Seq<char>, b: Seq<char>, c: Seq<char>)
    ensures
        contains_text(a + b + c, b),
{
    let w = a + b + c;
    assert(w.subrange(a.len() as int, (a.len() + b.len()) as int) =~= b);
}

/// Every collaborator failure is recorded at failure severity; every request
/// that ends in a classified error once it has its identity token records
/// that error at failure severity with the token; every successful update or
/// create is recorded at informational or successful severity with the
/// account's external id.
pub proof fn lemma_audit_parity(s: SessionView, e: EventView)
    requires
        accepts(s.stage, e),
    ensures
        is_failure(e) ==> entry_level(transition(s, e).1) == Some(LogLevel::Failure),
        !(s.stage is Connecting) && transition(s, e).1.action is Finish && transition(s, e).1.action->Finish_0 is Err
            ==> entry_level(transition(s, e).1) == Some(LogLevel::Failure) && contains_text(
            entry_text(transition(s, e).1),
            s.token,
        ),
        is_failure(e) && !(s.stage is Connecting) ==> contains_text(entry_text(transition(s, e).1), s.token),
        !(s.flow is Delete) && transition(s, e).1.action is Finish && transition(s, e).1.action->Finish_0 is Ok
            ==> (entry_level(transition(s, e).1) == Some(LogLevel::Informational) || entry_level(
            transition(s, e).1,
        ) == Some(LogLevel::Successful)) && contains_text(
            entry_text(transition(s, e).1),
            decimal(transition(s, e).0.external_id as nat),
        ),
{
    if !(s.stage is Connecting) && (is_failure(e) || (transition(s, e).1.action is Finish
        && transition(s, e).1.action->Finish_0 is Err)) {
        let log = entry_text(transition(s, e).1);
        let rest = log.subrange(("Error with a user\n\ntoken: "@ + s.token).len() as int, log.len() as int);
        assert(log =~= "Error with a user\n\ntoken: "@ + s.token + rest);
        lemma_contains_middle("Error with a user\n\ntoken: "@, s.token, rest);
    }
    let n = transition(s, e).0;
    if !(s.flow is Delete) && transition(s, e).1.action is Finish && transition(s, e).1.action->Finish_0 is Ok {
        let log = entry_text(transition(s, e).1);
        let id = decimal(n.external_id as nat);
        if s.stage is Syncing {
            let head = "user with ID "@;
            let rest = log.subrange((head + id).len() as int, log.len() as int);
            assert(log =~= head + id + rest);
            lemma_contains_middle(head, id, rest);
        } else {
            lemma_contains_middle("created userdata for user of id '"@, id, "'"@);
        }
    }
}

/// A delete never writes, and for a linked token it succeeds with an empty
/// answer, so the record stays retrievable.
pub proof fn lemma_delete_non_destructive(s: SessionView, e: EventView)
    requires
        s.flow is Delete,
        s.wf(),
        accepts(s.stage, e),
    ensures
        !transition(s, e).1.action.writes(),
        s.stage is CheckingToken && e is Found ==> transition(s, e).1.action == ActionView::Finish(
            Ok(ReplyView::NoContent),
        ),
{
}

} // verus!
