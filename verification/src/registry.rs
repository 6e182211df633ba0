//! The sessions of all guilds.
use crate::session::{reap_due, Session, SessionView};
use std::collections::HashMap;
use vstd::prelude::*;

verus! {

broadcast use vstd::std_specs::hash::group_hash_axioms;

/// The sessions by guild, as specifications see them.
pub open spec fn session_views(sessions: Map<u64, Session>) -> Map<u64, SessionView> {
    sessions.map_values(|s: Session| s@)
}

/// Every guild's session: made on first use, removed when the guild's
/// session is left or reaped.
pub struct SessionRegistry {
    sessions: HashMap<u64, Session>,
}

impl View for SessionRegistry {
    type V = Map<u64, SessionView>;

    closed spec fn view(&self) -> Map<u64, SessionView> {
        session_views(self.sessions@)
    }
}

impl SessionRegistry {
    /// Each session is well formed and filed under its own guild.
    pub open spec fn wf(&self) -> bool {
        forall|guild: u64| #[trigger]
            self@.contains_key(guild) ==> self@[guild].wf() && self@[guild].guild_id == guild
    }

    /// A registry without sessions.
    pub fn new() -> (r: SessionRegistry)
        ensures
            r@ == Map::<u64, SessionView>::empty(),
            r.wf(),
    {
        let r = SessionRegistry { sessions: HashMap::new() };
        assert(r@ =~= Map::<u64, SessionView>::empty());
        r
    }

    /// Number of sessions.
    pub fn len(&self) -> (n: usize)
        ensures
            n == self@.len(),
    {
        proof {
            lemma_views_same_domain(self.sessions@);
        }
        self.sessions.len()
    }

    /// Whether `guild` has a session.
    pub fn contains(&self, guild: u64) -> (b: bool)
        ensures
            b == self@.contains_key(guild),
    {
        self.sessions.contains_key(&guild)
    }

    /// The session of `guild`, if it has one.
    pub fn get(&self, guild: u64) -> (r: Option<&Session>)
        ensures
            match r {
                Some(session) => self@.contains_key(guild) && session@ == self@[guild],
                None => !self@.contains_key(guild),
            },
    {
        self.sessions.get(&guild)
    }

    /// The session of `guild`; one is made, disconnected and empty, where
    /// the guild had none. Later callers get the same session. Whatever the
    /// caller does with the session is what the registry then holds for
    /// the guild; no other guild's session is touched.
    pub fn get_or_create(&mut self, guild: u64) -> (session: &mut Session)
        requires
            old(self).wf(),
        ensures
            session@ == (if old(self)@.contains_key(guild) {
                old(self)@[guild]
            } else {
                SessionView::fresh(guild, None)
            }),
            session.wf(),
            session@.guild_id == guild,
            final(self)@ == old(self)@.insert(guild, final(session)@),
            final(session).wf() && final(session)@.guild_id == guild ==> final(self).wf(),
    {
        let ghost before = self.sessions@;
        let entry = self.sessions.entry(guild);
        let session = entry.or_insert(Session::new(guild, None));
        proof {
            assert(session_views(before.insert(guild, *final(session))) =~= session_views(
                before,
            ).insert(guild, final(session)@));
        }
        session
    }

    /// Ends the session of `guild`, if it has one, and forgets it. Returns
    /// whether there was one, and so whether its remote player is to be deleted.
    pub fn destroy(&mut self, guild: u64) -> (existed: bool)
        requires
            old(self).wf(),
        ensures
            final(self).wf(),
            existed == old(self)@.contains_key(guild),
            final(self)@ == old(self)@.remove(guild),
    {
        let ghost before = self.sessions@;
        let removed = self.sessions.remove(&guild);
        proof {
            assert(session_views(before.remove(guild)) =~= session_views(before).remove(guild));
        }
        match removed {
            Some(mut session) => {
                proof {
                    assert(before.contains_key(guild) && session == before[guild]);
                    assert(old(self)@.contains_key(guild));
                    assert(session@ == old(self)@[guild]);
                }
                session.teardown();
                true
            },
            None => false,
        }
    }

    /// Looks whether the session of `guild` is idle, on a change of who is
    /// in its voice channel, and reaps it where it has been idle for
    /// `grace` seconds: the session is ended as by `destroy`. Returns
    /// whether it was reaped.
    pub fn reap_if_idle(&mut self, guild: u64, non_bot_members: u64, now: u64, grace: u64) -> (reaped:
        bool)
        requires
            old(self).wf(),
        ensures
            final(self).wf(),
            reaped == (old(self)@.contains_key(guild) && reap_due(
                old(self)@[guild],
                non_bot_members,
                now,
                grace,
            )),
            final(self)@ == (if !old(self)@.contains_key(guild) {
                old(self)@
            } else if reaped {
                old(self)@.remove(guild)
            } else {
                old(self)@.insert(
                    guild,
                    SessionView {
                        idle_since: crate::session::idle_since_after(
                            old(self)@[guild],
                            non_bot_members,
                            now,
                        ),
                        ..old(self)@[guild]
                    },
                )
            }),
    {
        let ghost before = self.sessions@;
        match self.sessions.remove(&guild) {
            None => {
                proof {
                    assert(before.remove(guild) =~= before);
                }
                false
            },
            Some(mut session) => {
                proof {
                    assert(session_views(before.remove(guild)) =~= session_views(before).remove(
                        guild,
                    ));
                    assert(before.contains_key(guild) && session == before[guild]);
                    assert(old(self)@.contains_key(guild));
                    assert(session@ == old(self)@[guild]);
                }
                let reap = session.watchdog(non_bot_members, now, grace);
                if reap {
                    session.teardown();
                } else {
                    let ghost kept = session;
                    self.sessions.insert(guild, session);
                    proof {
                        assert(session_views(before.remove(guild).insert(guild, kept))
                            =~= session_views(before).insert(guild, kept@));
                    }
                }
                reap
            },
        }
    }
}

/// The views of a map of sessions are as many as the sessions.
proof fn lemma_views_same_domain(sessions: Map<u64, Session>)
    ensures
        session_views(sessions).dom() == sessions.dom(),
        session_views(sessions).len() == sessions.len(),
{
    assert(session_views(sessions).dom() =~= sessions.dom());
}

} // verus!
