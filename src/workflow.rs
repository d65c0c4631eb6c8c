use vstd::prelude::*;
use vstd::string::*;
use crate::audit::{
    created_log, created_log_text, found_detail, found_text, internal_failure, internal_failure_text, roles_log,
    roles_log_text, roles_reply, roles_reply_text, user_failure, user_failure_text, AuditEntry,
    LogLevel,
};
use crate::error::MyError;
use crate::text::views;
use crate::token::{derive_token, is_token, token_of};

verus! {

/// The query of a legacy update: the platform-assigned player identifier.
pub struct PlayerData {
    pub player_id: String,
}

/// The four operations of the linking workflow.
#[derive(Clone, Copy, Debug, PartialEq, Eq, Structural)]
pub enum Flow {
    LegacyUpdate,
    Update,
    Create,
    Delete,
}

/// Where a session stands: which collaborator answer it waits for.
#[derive(Clone, Copy, Debug, PartialEq, Eq, Structural)]
pub enum Stage {
    /// Waits for a storage handle.
    Connecting,
    /// Waits for the lookup of the record by token.
    CheckingToken,
    /// Waits for the lookup of the record by external id (create only).
    CheckingId,
    /// Waits for the store to update or create the record.
    Writing,
    /// Waits for the privilege authority's newly granted roles.
    Syncing,
    /// The caller has its answer.
    Done,
}

/// One request in progress.
pub struct Session {
    pub flow: Flow,
    pub stage: Stage,
    /// The identity token derived from the request's credentials.
    pub token: String,
    /// The distribution channel flag to store.
    pub beta: bool,
    /// The external id of the record: the requested one on create, the
    /// stored one once the store has written.
    pub external_id: u64,
    /// On create: whether the caller supplied the attributes itself.
    pub explicit_attributes: bool,
}

pub struct SessionView {
    pub flow: Flow,
    pub stage: Stage,
    pub token: Seq<char>,
    pub beta: bool,
    pub external_id: u64,
    pub explicit_attributes: bool,
}

impl SessionView {
    /// Only a create ever probes the external id.
    pub open spec fn wf(self) -> bool {
        self.stage is CheckingId ==> self.flow is Create
    }
}

impl View for Session {
    type V = SessionView;

    open spec fn view(&self) -> SessionView {
        SessionView {
            flow: self.flow,
            stage: self.stage,
            token: self.token@,
            beta: self.beta,
            external_id: self.external_id,
            explicit_attributes: self.explicit_attributes,
        }
    }
}

/// What a collaborator answered to the last action. Failures carry the
/// collaborator's own detail, which only the audit log receives.
pub enum Event {
    Connected,
    ConnectFailed(String),
    /// A lookup found a record; its external id.
    Found(u64),
    /// A lookup reported that no record matches.
    Missing(String),
    /// A lookup failed in the store.
    LookupFailed(String),
    /// The store wrote the record; its external id.
    Stored(u64),
    /// The store refused the write: the token or the external id is taken.
    Conflict(String),
    /// The write failed in the store.
    StoreFailed(String),
    /// The roles newly granted, in the authority's order.
    Roles(Vec<String>),
    RolesFailed(String),
}

pub enum EventView {
    Connected,
    ConnectFailed(Seq<char>),
    Found(u64),
    Missing(Seq<char>),
    LookupFailed(Seq<char>),
    Stored(u64),
    Conflict(Seq<char>),
    StoreFailed(Seq<char>),
    Roles(Seq<Seq<char>>),
    RolesFailed(Seq<char>),
}

impl View for Event {
    type V = EventView;

    open spec fn view(&self) -> EventView {
        match self {
            Event::Connected => EventView::Connected,
            Event::ConnectFailed(d) => EventView::ConnectFailed(d@),
            Event::Found(id) => EventView::Found(*id),
            Event::Missing(d) => EventView::Missing(d@),
            Event::LookupFailed(d) => EventView::LookupFailed(d@),
            Event::Stored(id) => EventView::Stored(*id),
            Event::Conflict(d) => EventView::Conflict(d@),
            Event::StoreFailed(d) => EventView::StoreFailed(d@),
            Event::Roles(rs) => EventView::Roles(views(rs@)),
            Event::RolesFailed(d) => EventView::RolesFailed(d@),
        }
    }
}

/// The caller-facing success payload.
pub enum Reply {
    /// A message about the roles gained.
    Message(String),
    /// The created record itself, which the caller-side layer holds.
    Created,
    /// Nothing to say.
    NoContent,
}

pub enum ReplyView {
    Message(Seq<char>),
    Created,
    NoContent,
}

impl View for Reply {
    type V = ReplyView;

    open spec fn view(&self) -> ReplyView {
        match self {
            Reply::Message(m) => ReplyView::Message(m@),
            Reply::Created => ReplyView::Created,
            Reply::NoContent => ReplyView::NoContent,
        }
    }
}

/// What the caller-side layer is to do next.
pub enum Action {
    /// Acquire a storage handle.
    Connect,
    /// Look the record up by identity token.
    FetchByToken(String),
    /// Look the record up by external id.
    FetchById(u64),
    /// Replace the attributes and channel flag of the record of `token`.
    Update { token: String, beta: bool },
    /// Create the record.
    Create { token: String, external_id: u64, beta: bool },
    /// Ask the privilege authority to reconcile the written record's roles.
    SyncRoles,
    /// Answer the caller.
    Finish(Result<Reply, MyError>),
}

pub enum ActionView {
    Connect,
    FetchByToken(Seq<char>),
    FetchById(u64),
    Update(Seq<char>, bool),
    Create(Seq<char>, u64, bool),
    SyncRoles,
    Finish(Result<ReplyView, MyError>),
}

impl ActionView {
    /// Whether the action changes the store.
    pub open spec fn writes(self) -> bool {
        self is Update || self is Create
    }
}

impl View for Action {
    type V = ActionView;

    open spec fn view(&self) -> ActionView {
        match self {
            Action::Connect => ActionView::Connect,
            Action::FetchByToken(t) => ActionView::FetchByToken(t@),
            Action::FetchById(id) => ActionView::FetchById(*id),
            Action::Update { token, beta } => ActionView::Update(token@, *beta),
            Action::Create { token, external_id, beta } => ActionView::Create(token@, *external_id, *beta),
            Action::SyncRoles => ActionView::SyncRoles,
            Action::Finish(Ok(reply)) => ActionView::Finish(Ok(reply@)),
            Action::Finish(Err(e)) => ActionView::Finish(Err(*e)),
        }
    }
}

/// One move of a session: an entry for the audit sink, to be recorded
/// before the action is carried out, and the action.
pub struct Step {
    pub log: Option<AuditEntry>,
    pub action: Action,
}

pub struct StepView {
    pub log: Option<(Seq<char>, LogLevel)>,
    pub action: ActionView,
}

impl View for Step {
    type V = StepView;

    open spec fn view(&self) -> StepView {
        StepView {
            log: match self.log {
                Some(entry) => Some(entry@),
                None => None,
            },
            action: self.action@,
        }
    }
}

/// Whether `e` answers the action that a session at `stage` issued.
pub open spec fn accepts(stage: Stage, e: EventView) -> bool {
    match stage {
        Stage::Connecting => e is Connected || e is ConnectFailed,
        Stage::CheckingToken | Stage::CheckingId => e is Found || e is Missing || e is LookupFailed,
        Stage::Writing => e is Stored || e is Conflict || e is StoreFailed,
        Stage::Syncing => e is Roles || e is RolesFailed,
        Stage::Done => false,
    }
}

/// The collaborator's detail that a failure event carries.
pub open spec fn detail(e: EventView) -> Seq<char> {
    match e {
        EventView::ConnectFailed(d) => d,
        EventView::Missing(d) => d,
        EventView::LookupFailed(d) => d,
        EventView::Conflict(d) => d,
        EventView::StoreFailed(d) => d,
        EventView::RolesFailed(d) => d,
        _ => Seq::empty(),
    }
}

/// Moves on to `stage` with an optional audit entry and the next action.
pub open spec fn advance(
    s: SessionView,
    stage: Stage,
    log: Option<(Seq<char>, LogLevel)>,
    action: ActionView,
) -> (SessionView, StepView) {
    (SessionView { stage, ..s }, StepView { log, action })
}

/// Ends the session with the caller's answer.
pub open spec fn finish(
    s: SessionView,
    log: Option<(Seq<char>, LogLevel)>,
    out: Result<ReplyView, MyError>,
) -> (SessionView, StepView) {
    advance(s, Stage::Done, log, ActionView::Finish(out))
}

/// Ends the session with a classified failure of the account's request,
/// recorded with the token and the collaborator's detail.
pub open spec fn fail(s: SessionView, e: MyError, d: Seq<char>) -> (SessionView, StepView) {
    finish(s, Some((user_failure_text(s.token, e, d), LogLevel::Failure)), Err(e))
}

/// The workflow's transition table: the next session and step once the
/// collaborator answered `e`. Every failure short-circuits to `Done`.
pub open spec fn transition(s: SessionView, e: EventView) -> (SessionView, StepView) {
    match s.stage {
        Stage::Connecting => {
            if e is Connected {
                advance(s, Stage::CheckingToken, None, ActionView::FetchByToken(s.token))
            } else {
                finish(
                    s,
                    Some((internal_failure_text(MyError::ClientUnavailable, detail(e)), LogLevel::Failure)),
                    Err(MyError::ClientUnavailable),
                )
            }
        },
        Stage::CheckingToken => {
            if e is Found {
                match s.flow {
                    Flow::Create => fail(
                        s,
                        if e->Found_0 == s.external_id {
                            MyError::AlreadyLinked
                        } else {
                            MyError::TokenBoundElsewhere
                        },
                        found_text(e->Found_0 as nat),
                    ),
                    Flow::Delete => finish(s, None, Ok(ReplyView::NoContent)),
                    _ => advance(s, Stage::Writing, None, ActionView::Update(s.token, s.beta)),
                }
            } else {
                match s.flow {
                    Flow::Create => if e is LookupFailed {
                        fail(s, MyError::LookupFailed, detail(e))
                    } else {
                        advance(
                        s,
                        Stage::CheckingId,
                        Some((user_failure_text(s.token, MyError::NotFound, detail(e)), LogLevel::Failure)),
                            ActionView::FetchById(s.external_id),
                        )
                    },
                    Flow::Delete => fail(s, MyError::DeleteFailed, detail(e)),
                    _ => fail(s, MyError::NotLinked, detail(e)),
                }
            }
        },
        Stage::CheckingId => {
            if e is Found {
                fail(s, MyError::IdBoundElsewhere, found_text(e->Found_0 as nat))
            } else if e is LookupFailed {
                fail(s, MyError::LookupFailed, detail(e))
            } else {
                advance(
                    s,
                    Stage::Writing,
                    Some((user_failure_text(s.token, MyError::NotFound, detail(e)), LogLevel::Failure)),
                    ActionView::Create(s.token, s.external_id, s.beta),
                )
            }
        },
        Stage::Writing => {
            if e is Stored {
                let s2 = SessionView { external_id: e->Stored_0, ..s };
                if s.flow is Create && s.explicit_attributes {
                    finish(
                        s2,
                        Some((created_log_text(e->Stored_0 as nat), LogLevel::Successful)),
                        Ok(ReplyView::Created),
                    )
                } else {
                    advance(s2, Stage::Syncing, None, ActionView::SyncRoles)
                }
            } else if s.flow is Create && e is Conflict {
                fail(s, MyError::LinkConflict, detail(e))
            } else if s.flow is Create {
                fail(s, MyError::CreateFailed, detail(e))
            } else {
                fail(s, MyError::UpdateFailed, detail(e))
            }
        },
        Stage::Syncing => {
            if e is Roles {
                finish(
                    s,
                    Some((roles_log_text(s.external_id as nat, e->Roles_0), LogLevel::Informational)),
                    Ok(ReplyView::Message(roles_reply_text(e->Roles_0))),
                )
            } else {
                fail(s, MyError::RoleSyncFailed, detail(e))
            }
        },
        Stage::Done => (s, StepView { log: None, action: ActionView::Finish(Err(MyError::NotFound)) }),
    }
}

impl Session {
    pub open spec fn wf(&self) -> bool {
        self@.wf()
    }

    /// The session that a request starts, before any collaborator is asked.
    pub open spec fn started(
        flow: Flow,
        token: Seq<char>,
        beta: bool,
        external_id: u64,
        explicit_attributes: bool,
    ) -> SessionView {
        SessionView { flow, stage: Stage::Connecting, token, beta, external_id, explicit_attributes }
    }

    fn start(flow: Flow, token: String, beta: bool, external_id: u64, explicit_attributes: bool) -> (r: (
        Session,
        Step,
    ))
        ensures
            r.0.wf(),
            r.0@ == Session::started(flow, token@, beta, external_id, explicit_attributes),
            r.1@ == (StepView { log: None, action: ActionView::Connect }),
    {
        (
            Session { flow, stage: Stage::Connecting, token, beta, external_id, explicit_attributes },
            Step { log: None, action: Action::Connect },
        )
    }

    /// Ends the session with a classified failure of the account's request.
    fn fail(self, e: MyError, d: &String) -> (r: (Session, Step))
        ensures
            r.0.wf(),
            (r.0@, r.1@) == fail(self@, e, d@),
    {
        let log = user_failure(&self.token, e, d);
        (Session { stage: Stage::Done, ..self }, Step { log: Some(log), action: Action::Finish(Err(e)) })
    }

    /// Ends the session with the caller's answer.
    fn finish(self, log: Option<AuditEntry>, out: Result<Reply, MyError>) -> (r: (Session, Step))
        ensures
            r.0.wf(),
            r.0@ == (SessionView { stage: Stage::Done, ..self@ }),
            r.1.log == log,
            r.1.action == Action::Finish(out),
    {
        (Session { stage: Stage::Done, ..self }, Step { log, action: Action::Finish(out) })
    }

    /// Takes the collaborator's answer to the last action and says what comes
    /// next, as the transition table gives it.
    pub fn step(self, event: Event) -> (r: (Session, Step))
        requires
            self.wf(),
            accepts(self@.stage, event@),
        ensures
            r.0.wf(),
            (r.0@, r.1@) == transition(self@, event@),
    {
        match self.stage {
            Stage::Connecting => match event {
                Event::Connected => {
                    let t = self.token.clone();
                    (
                        Session { stage: Stage::CheckingToken, ..self },
                        Step { log: None, action: Action::FetchByToken(t) },
                    )
                },
                Event::ConnectFailed(d) => {
                    let log = internal_failure(MyError::ClientUnavailable, &d);
                    self.finish(Some(log), Err(MyError::ClientUnavailable))
                },
                _ => self.finish(None, Err(MyError::NotFound)),
            },
            Stage::CheckingToken => match event {
                Event::Found(id) => match self.flow {
                    Flow::Create => {
                        let e = if id == self.external_id {
                            MyError::AlreadyLinked
                        } else {
                            MyError::TokenBoundElsewhere
                        };
                        let d = found_detail(id);
                        self.fail(e, &d)
                    },
                    Flow::Delete => self.finish(None, Ok(Reply::NoContent)),
                    _ => {
                        let t = self.token.clone();
                        let beta = self.beta;
                        (
                            Session { stage: Stage::Writing, ..self },
                            Step { log: None, action: Action::Update { token: t, beta } },
                        )
                    },
                },
                Event::LookupFailed(d) => match self.flow {
                    Flow::Create => self.fail(MyError::LookupFailed, &d),
                    Flow::Delete => self.fail(MyError::DeleteFailed, &d),
                    _ => self.fail(MyError::NotLinked, &d),
                },
                Event::Missing(d) => match self.flow {
                    Flow::Create => {
                        let log = user_failure(&self.token, MyError::NotFound, &d);
                        let id = self.external_id;
                        (
                            Session { stage: Stage::CheckingId, ..self },
                            Step { log: Some(log), action: Action::FetchById(id) },
                        )
                    },
                    Flow::Delete => self.fail(MyError::DeleteFailed, &d),
                    _ => self.fail(MyError::NotLinked, &d),
                },
                _ => self.finish(None, Err(MyError::NotFound)),
            },
            Stage::CheckingId => match event {
                Event::Found(id) => {
                    let d = found_detail(id);
                    self.fail(MyError::IdBoundElsewhere, &d)
                },
                Event::LookupFailed(d) => self.fail(MyError::LookupFailed, &d),
                Event::Missing(d) => {
                    let log = user_failure(&self.token, MyError::NotFound, &d);
                    let t = self.token.clone();
                    let id = self.external_id;
                    let beta = self.beta;
                    (
                        Session { stage: Stage::Writing, ..self },
                        Step { log: Some(log), action: Action::Create { token: t, external_id: id, beta } },
                    )
                },
                _ => self.finish(None, Err(MyError::NotFound)),
            },
            Stage::Writing => match event {
                Event::Stored(id) => {
                    let s2 = Session { external_id: id, ..self };
                    if s2.flow == Flow::Create && s2.explicit_attributes {
                        let log = created_log(id);
                        s2.finish(Some(log), Ok(Reply::Created))
                    } else {
                        (Session { stage: Stage::Syncing, ..s2 }, Step { log: None, action: Action::SyncRoles })
                    }
                },
                Event::Conflict(d) => {
                    if self.flow == Flow::Create {
                        self.fail(MyError::LinkConflict, &d)
                    } else {
                        self.fail(MyError::UpdateFailed, &d)
                    }
                },
                Event::StoreFailed(d) => {
                    if self.flow == Flow::Create {
                        self.fail(MyError::CreateFailed, &d)
                    } else {
                        self.fail(MyError::UpdateFailed, &d)
                    }
                },
                _ => self.finish(None, Err(MyError::NotFound)),
            },
            Stage::Syncing => match event {
                Event::Roles(roles) => {
                    let log = roles_log(self.external_id, &roles);
                    let reply = roles_reply(&roles);
                    self.finish(Some(log), Ok(Reply::Message(reply)))
                },
                Event::RolesFailed(d) => self.fail(MyError::RoleSyncFailed, &d),
                _ => self.finish(None, Err(MyError::NotFound)),
            },
            Stage::Done => self.finish(None, Err(MyError::NotFound)),
        }
    }
}

/// Starts a legacy update: the token comes from the player identifier and the
/// player token; the channel flag is the submitted beta-tester flag.
pub fn og_update_user(query: &PlayerData, player_token: &str, beta_tester: bool, secret: &str) -> (r: (
    Session,
    Step,
))
    ensures
        r.0.wf(),
        r.0@ == Session::started(
            Flow::LegacyUpdate,
            token_of(query.player_id@, player_token@, secret@),
            beta_tester,
            0,
            false,
        ),
        is_token(r.0@.token),
        r.1@ == (StepView { log: None, action: ActionView::Connect }),
{
    let token = derive_token(query.player_id.as_str(), player_token, secret);
    Session::start(Flow::LegacyUpdate, token, beta_tester, 0, false)
}

/// Whether a distribution-channel header names the beta channel: exactly
/// `Beta`, case-sensitive.
pub open spec fn is_beta_channel(channel: Seq<char>) -> bool {
    channel == "Beta"@
}

/// Reads the distribution-channel header.
pub fn beta_channel(channel: &str) -> (r: bool)
    ensures
        r == is_beta_channel(channel@),
{
    let given = String::from_str(channel);
    let beta = String::from_str("Beta");
    given == beta
}

/// Starts an update: the token comes from the email and bearer token; the
/// channel flag from the distribution-channel header.
pub fn update_user(email: &str, auth_token: &str, channel: &str, secret: &str) -> (r: (Session, Step))
    ensures
        r.0.wf(),
        r.0@ == Session::started(
            Flow::Update,
            token_of(email@, auth_token@, secret@),
            is_beta_channel(channel@),
            0,
            false,
        ),
        is_token(r.0@.token),
        r.1@ == (StepView { log: None, action: ActionView::Connect }),
{
    let token = derive_token(email, auth_token, secret);
    let beta = beta_channel(channel);
    Session::start(Flow::Update, token, beta, 0, false)
}

/// Starts a create that links `external_id` to the token of the email and
/// bearer token. Without a distribution-channel header the account is not on
/// the beta channel. With `explicit_attributes` the caller supplied the
/// attributes, the created record is the answer and no roles are
/// synchronized; without, default attributes are stored and roles are
/// synchronized.
pub fn create_user(
    email: &str,
    auth_token: &str,
    channel: Option<&str>,
    external_id: u64,
    explicit_attributes: bool,
    secret: &str,
) -> (r: (Session, Step))
    ensures
        r.0.wf(),
        r.0@ == Session::started(
            Flow::Create,
            token_of(email@, auth_token@, secret@),
            match channel {
                Some(c) => is_beta_channel(c@),
                None => false,
            },
            external_id,
            explicit_attributes,
        ),
        is_token(r.0@.token),
        r.1@ == (StepView { log: None, action: ActionView::Connect }),
{
    let token = derive_token(email, auth_token, secret);
    let beta = match channel {
        Some(c) => beta_channel(c),
        None => false,
    };
    Session::start(Flow::Create, token, beta, external_id, explicit_attributes)
}

/// Starts a delete, which only checks that the record of the token of the
/// email and bearer token exists: nothing is removed.
pub fn delete_user(email: &str, auth_token: &str, secret: &str) -> (r: (Session, Step))
    ensures
        r.0.wf(),
        r.0@ == Session::started(Flow::Delete, token_of(email@, auth_token@, secret@), false, 0, false),
        is_token(r.0@.token),
        r.1@ == (StepView { log: None, action: ActionView::Connect }),
{
    let token = derive_token(email, auth_token, secret);
    Session::start(Flow::Delete, token, false, 0, false)
}

} // verus!
