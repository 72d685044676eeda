//! FTP login sessions: each login and logout event carries the session's
//! trace id; the number of connected clients is the number of distinct
//! sessions logged in, so a repeated login or the logout of an unknown
//! session changes nothing.
use vstd::prelude::*;
use dashmap::DashSet;

verus! {

/// A login or logout of an FTP session.
#[derive(Debug, Clone, Copy, PartialEq, Eq)]
pub enum PresenceEvent {
    LoggedIn,
    LoggedOut,
}

/// The sessions after `event` for the session `id`.
pub open spec fn presence_next(sessions: Set<Seq<char>>, event: PresenceEvent, id: Seq<char>) -> Set<Seq<char>> {
    match event {
        PresenceEvent::LoggedIn => sessions.insert(id),
        PresenceEvent::LoggedOut => sessions.remove(id),
    }
}

/// Whether `event` for `id` changes the sessions: a login of a new session
/// or the logout of a known one.
pub open spec fn presence_changes(sessions: Set<Seq<char>>, event: PresenceEvent, id: Seq<char>) -> bool {
    match event {
        PresenceEvent::LoggedIn => !sessions.contains(id),
        PresenceEvent::LoggedOut => sessions.contains(id),
    }
}

/// What an event did: whether the session set changed, and the number of
/// connected clients afterwards (to be published in the statistics).
#[derive(Debug, Clone, Copy, PartialEq, Eq)]
pub struct PresenceOutcome {
    pub changed: bool,
    pub connection_count: u64,
}

/// The trace ids of the logged-in sessions, held in a dashmap `DashSet`
/// that this listener alone owns. `DashSet` changes through `&self`
/// (interior mutability), which a name for its contents cannot follow, so
/// the set sits behind this struct, whose changing methods take `&mut self`.
#[verifier::external_body]
#[derive(Debug)]
pub struct SessionSet {
    set: DashSet<String>,
}

/// The trace ids a `SessionSet` holds.
pub uninterp spec fn session_ids(s: SessionSet) -> Set<Seq<char>>;

impl SessionSet {
    /// `DashSet::new`: a set holding nothing.
    #[verifier::external_body]
    fn new() -> (r: SessionSet)
        ensures
            session_ids(r) == Set::<Seq<char>>::empty(),
    {
        SessionSet { set: DashSet::new() }
    }

    /// `DashSet::insert`: adds the id, and is true exactly when it was not
    /// held yet.
    #[verifier::external_body]
    fn insert(&mut self, id: String) -> (r: bool)
        ensures
            session_ids(*final(self)) == session_ids(*old(self)).insert(id@),
            r == !session_ids(*old(self)).contains(id@),
    {
        self.set.insert(id)
    }

    /// `DashSet::remove`: takes the id out, and is true (a key came back)
    /// exactly when it was held.
    #[verifier::external_body]
    fn remove(&mut self, id: &str) -> (r: bool)
        ensures
            session_ids(*final(self)) == session_ids(*old(self)).remove(id@),
            r == session_ids(*old(self)).contains(id@),
    {
        self.set.remove(id).is_some()
    }

    /// `DashSet::contains`: whether the id is held.
    #[verifier::external_body]
    fn contains(&self, id: &str) -> (r: bool)
        ensures
            r == session_ids(*self).contains(id@),
    {
        self.set.contains(id)
    }

    /// `DashSet::len`: the number of ids held (a set's entries are distinct,
    /// so this is the size of the set).
    #[verifier::external_body]
    fn len(&self) -> (r: usize)
        ensures
            r == session_ids(*self).len(),
    {
        self.set.len()
    }
}

/// The set of logged-in sessions, by trace id.
#[derive(Debug)]
pub struct FtpPresenceListener {
    sessions: SessionSet,
}

impl FtpPresenceListener {
    /// The logged-in sessions.
    pub closed spec fn sessions(&self) -> Set<Seq<char>> {
        session_ids(self.sessions)
    }

    /// The sessions are finitely many (all that were ever added).
    pub closed spec fn wf(&self) -> bool {
        self.sessions().finite()
    }

    /// No session is logged in.
    pub fn new() -> (r: FtpPresenceListener)
        ensures
            r.wf(),
            r.sessions() == Set::<Seq<char>>::empty(),
    {
        FtpPresenceListener { sessions: SessionSet::new() }
    }

    /// The number of connected clients.
    pub fn connection_count(&self) -> (r: u64)
        requires
            self.wf(),
        ensures
            self.sessions().finite(),
            r == self.sessions().len(),
    {
        self.sessions.len() as u64
    }

    /// Whether the session `trace_id` is logged in.
    pub fn contains(&self, trace_id: &str) -> (r: bool)
        ensures
            r == self.sessions().contains(trace_id@),
    {
        self.sessions.contains(trace_id)
    }

    /// Applies a login or logout of the session `trace_id`: the sessions
    /// become `presence_next` of the old ones, and the outcome says whether
    /// they changed and how many there are now.
    pub fn receive_presence_event(&mut self, event: PresenceEvent, trace_id: String) -> (r: PresenceOutcome)
        requires
            old(self).wf(),
        ensures
            final(self).wf(),
            final(self).sessions() == presence_next(old(self).sessions(), event, trace_id@),
            r.changed == presence_changes(old(self).sessions(), event, trace_id@),
            final(self).sessions().finite(),
            r.connection_count == final(self).sessions().len(),
    {
        let changed = match event {
            PresenceEvent::LoggedIn => self.sessions.insert(trace_id),
            PresenceEvent::LoggedOut => self.sessions.remove(trace_id.as_str()),
        };
        let count = self.connection_count();
        PresenceOutcome { changed, connection_count: count }
    }
}

/// A repeated login of a logged-in session leaves the sessions, and so the
/// connection count, as they were.
pub proof fn law_duplicate_login_changes_nothing(sessions: Set<Seq<char>>, id: Seq<char>)
    requires
        sessions.contains(id),
    ensures
        presence_next(sessions, PresenceEvent::LoggedIn, id) == sessions,
        !presence_changes(sessions, PresenceEvent::LoggedIn, id),
{
    assert(sessions.insert(id) =~= sessions);
}

/// The logout of an unknown session leaves the sessions as they were.
pub proof fn law_unknown_logout_changes_nothing(sessions: Set<Seq<char>>, id: Seq<char>)
    requires
        !sessions.contains(id),
    ensures
        presence_next(sessions, PresenceEvent::LoggedOut, id) == sessions,
        !presence_changes(sessions, PresenceEvent::LoggedOut, id),
{
    assert(sessions.remove(id) =~= sessions);
}

/// A new session's login followed by its logout restores the sessions.
pub proof fn law_logout_undoes_login(sessions: Set<Seq<char>>, id: Seq<char>)
    requires
        !sessions.contains(id),
    ensures
        presence_next(presence_next(sessions, PresenceEvent::LoggedIn, id), PresenceEvent::LoggedOut, id)
            == sessions,
{
    assert(sessions.insert(id).remove(id) =~= sessions);
}

/// An event that changes the sessions moves the connection count by one:
/// up for a login, down for a logout.
pub proof fn law_change_moves_count_by_one(sessions: Set<Seq<char>>, event: PresenceEvent, id: Seq<char>)
    requires
        sessions.finite(),
        presence_changes(sessions, event, id),
    ensures
        presence_next(sessions, event, id).len() as int == match event {
            PresenceEvent::LoggedIn => sessions.len() + 1int,
            PresenceEvent::LoggedOut => sessions.len() - 1,
        },
{
}

} // verus!
