//! The session lifecycle and the ownership protocol of the callback
//! context.
//!
//! The callback context is kept alive by shares: one held by the session
//! handle, one handed to the engine as an opaque token so that its
//! trampoline calls stay safe. The context may be freed only when both
//! shares are gone, and the engine must be told to stop calling back
//! before its share is released — stop, then destroy, is the mandatory
//! teardown order. `SessionLifecycle` is that protocol as a value: every
//! step the handle takes around its engine calls is a verified transition
//! here, and the code driving the engine performs exactly the calls the
//! transitions account for.
//!
//! This module also fixes what each engine status code means for the
//! caller: the classification of every raw engine return into `Ok` or
//! the one error the operation can raise.

use vstd::prelude::*;
use crate::error::Error;

verus! {

/// The lifecycle state of one session handle and its callback context.
pub struct SessionLifecycle {
    handle_share: bool,
    engine_share: bool,
    live: bool,
    stopped: bool,
    destroyed: bool,
}

impl SessionLifecycle {
    /// Whether the handle still holds its own share of the context.
    pub closed spec fn spec_handle_share(self) -> bool {
        self.handle_share
    }

    /// Whether the engine still holds the token share of the context,
    /// and so may still invoke trampoline callbacks.
    pub closed spec fn spec_engine_share(self) -> bool {
        self.engine_share
    }

    /// Whether the handle owns a usable native session.
    pub closed spec fn spec_live(self) -> bool {
        self.live
    }

    /// Whether the engine has been told to deliver no further callbacks
    /// for this session (true as well when it never gained a session to
    /// call back on).
    pub closed spec fn spec_stopped(self) -> bool {
        self.stopped
    }

    /// Whether the native session has been destroyed (or was never
    /// created).
    pub closed spec fn spec_destroyed(self) -> bool {
        self.destroyed
    }

    /// Outstanding shares of the callback context. The context may be
    /// freed exactly when this reaches zero.
    pub open spec fn spec_shares(self) -> int {
        (if self.spec_handle_share() {
            1int
        } else {
            0int
        }) + (if self.spec_engine_share() {
            1int
        } else {
            0int
        })
    }

    /// The states the protocol can reach. A live session holds both
    /// shares and has seen neither teardown step; once callbacks are
    /// stopped the engine's share is gone; a destroyed session was
    /// stopped first and the handle's own share is released.
    pub open spec fn wf(self) -> bool {
        &&& self.spec_live() ==> (self.spec_handle_share() && self.spec_engine_share()
            && !self.spec_stopped() && !self.spec_destroyed())
        &&& self.spec_stopped() ==> !self.spec_engine_share()
        &&& self.spec_destroyed() ==> (self.spec_stopped() && !self.spec_handle_share())
    }

    /// The state a construction starts from: the context exists and the
    /// handle holds its one share; no token has been handed out and no
    /// native session exists yet.
    pub closed spec fn spec_begin() -> SessionLifecycle {
        SessionLifecycle {
            handle_share: true,
            engine_share: false,
            live: false,
            stopped: false,
            destroyed: false,
        }
    }

    /// Allocate the callback context alongside the handle under
    /// construction; the handle holds the only share.
    pub fn begin() -> (s: SessionLifecycle)
        ensures
            s == SessionLifecycle::spec_begin(),
            s.wf(),
            s.spec_shares() == 1,
            s.spec_handle_share(),
            !s.spec_engine_share(),
            !s.spec_live(),
            !s.spec_stopped(),
            !s.spec_destroyed(),
    {
        SessionLifecycle {
            handle_share: true,
            engine_share: false,
            live: false,
            stopped: false,
            destroyed: false,
        }
    }

    /// The state after one fresh share is handed to the engine as its
    /// opaque token.
    pub closed spec fn spec_hand_token(self) -> SessionLifecycle {
        SessionLifecycle { engine_share: true, ..self }
    }

    /// Hand the engine its token: one new share of the context, created
    /// for the engine at session-creation time.
    pub fn hand_token_to_engine(&mut self)
        requires
            old(self).wf(),
            old(self).spec_handle_share(),
            !old(self).spec_engine_share(),
            !old(self).spec_live(),
            !old(self).spec_stopped(),
            !old(self).spec_destroyed(),
        ensures
            *final(self) == old(self).spec_hand_token(),
            final(self).wf(),
            final(self).spec_shares() == old(self).spec_shares() + 1,
            final(self).spec_handle_share(),
            final(self).spec_engine_share(),
            !final(self).spec_live(),
            !final(self).spec_stopped(),
            !final(self).spec_destroyed(),
    {
        self.engine_share = true;
    }

    /// The state after the engine reports a created session.
    pub closed spec fn spec_engine_accepted(self) -> SessionLifecycle {
        SessionLifecycle { live: true, ..self }
    }

    /// The state after the engine refuses to create a session: the share
    /// already handed out is reclaimed and the handle's own share is
    /// released, so nothing keeps the context alive.
    pub closed spec fn spec_engine_refused(self) -> SessionLifecycle {
        SessionLifecycle {
            handle_share: false,
            engine_share: false,
            live: false,
            stopped: true,
            destroyed: true,
        }
    }

    /// Record the outcome of the engine's create-session call, made with
    /// the token already handed out. On success the session is live with
    /// both shares in place. On failure — a null handle from the engine —
    /// the engine's share is reclaimed and the handle's own released
    /// before `InitializationError` is returned: the share count is back
    /// to zero and nothing has leaked.
    pub fn session_created(&mut self, engine_gave_session: bool) -> (r: Result<(), Error>)
        requires
            old(self).wf(),
            old(self).spec_handle_share(),
            old(self).spec_engine_share(),
            !old(self).spec_live(),
            !old(self).spec_stopped(),
            !old(self).spec_destroyed(),
        ensures
            final(self).wf(),
            engine_gave_session ==> {
                &&& r == Ok::<(), Error>(())
                &&& *final(self) == old(self).spec_engine_accepted()
                &&& final(self).spec_live()
                &&& final(self).spec_shares() == 2
            },
            !engine_gave_session ==> {
                &&& r == Err::<(), Error>(Error::InitializationError)
                &&& *final(self) == old(self).spec_engine_refused()
                &&& final(self).spec_shares() == 0
                &&& !final(self).spec_live()
            },
    {
        if engine_gave_session {
            self.live = true;
            Ok(())
        } else {
            self.engine_share = false;
            self.handle_share = false;
            self.live = false;
            self.stopped = true;
            self.destroyed = true;
            Err(Error::InitializationError)
        }
    }

    /// One trampoline dispatch: the engine presents its token, a
    /// temporary non-owning reference to the context is taken for the
    /// duration of one callback, and the share is restored before the
    /// trampoline returns — a peek, never a consume. The state after is
    /// exactly the state before; the dispatch happens only while the
    /// engine still holds its share.
    pub fn trampoline_dispatch(&mut self) -> (delivers: bool)
        requires
            old(self).wf(),
        ensures
            *final(self) == *old(self),
            delivers == old(self).spec_engine_share(),
    {
        if self.engine_share {
            self.engine_share = false;  // the token is briefly treated as a borrowed reference
            self.engine_share = true;  // and the engine's share is restored before returning
            true
        } else {
            false
        }
    }

    /// The state after the engine is told to stop callback delivery:
    /// its share is released, and the session is no longer usable.
    pub closed spec fn spec_stop(self) -> SessionLifecycle {
        SessionLifecycle { engine_share: false, live: false, stopped: true, ..self }
    }

    /// Whether a teardown from this state still has to issue the
    /// engine's stop call.
    pub open spec fn spec_stop_pending(self) -> bool {
        !self.spec_stopped()
    }

    /// Whether a teardown from this state still has to issue the
    /// engine's destroy call.
    pub open spec fn spec_destroy_pending(self) -> bool {
        !self.spec_destroyed()
    }

    /// Tell the engine to deliver no further callbacks and release its
    /// share. Acts only once: on a state already stopped this changes
    /// nothing and reports that no engine call is to be made.
    pub fn stop(&mut self) -> (acted: bool)
        requires
            old(self).wf(),
        ensures
            *final(self) == old(self).spec_stop(),
            final(self).wf(),
            acted == old(self).spec_stop_pending(),
            final(self).spec_stopped(),
            !final(self).spec_engine_share(),
            !final(self).spec_live(),
            final(self).spec_handle_share() == old(self).spec_handle_share(),
            final(self).spec_destroyed() == old(self).spec_destroyed(),
            old(self).spec_stopped() ==> *final(self) == *old(self),
    {
        let acted = !self.stopped;
        self.engine_share = false;
        self.live = false;
        self.stopped = true;
        acted
    }

    /// The state after the native session is destroyed and the handle's
    /// own share is released: no share of the context remains.
    pub closed spec fn spec_destroy(self) -> SessionLifecycle {
        SessionLifecycle { handle_share: false, destroyed: true, ..self }
    }

    /// Destroy the native session and release the handle's own share of
    /// the context. Callback delivery must already be stopped — the
    /// mandatory order. Acts only once: on a state already destroyed this
    /// changes nothing and reports that no engine call is to be made.
    pub fn destroy(&mut self) -> (acted: bool)
        requires
            old(self).wf(),
            old(self).spec_stopped(),
        ensures
            *final(self) == old(self).spec_destroy(),
            final(self).wf(),
            acted == old(self).spec_destroy_pending(),
            final(self).spec_destroyed(),
            final(self).spec_shares() == 0,
            !final(self).spec_live(),
            old(self).spec_destroyed() ==> *final(self) == *old(self),
    {
        let acted = !self.destroyed;
        self.handle_share = false;
        self.destroyed = true;
        acted
    }

    /// Full teardown as one step: stop, then destroy.
    pub open spec fn spec_teardown(self) -> SessionLifecycle {
        self.spec_stop().spec_destroy()
    }

    /// Tear the session down: stop callback delivery first, destroy the
    /// native session second, and release both context shares on the way
    /// — always in that order, and never twice. The returned pair says
    /// whether the stop call and the destroy call were actually issued.
    pub fn teardown(&mut self) -> (acted: (bool, bool))
        requires
            old(self).wf(),
        ensures
            *final(self) == old(self).spec_teardown(),
            final(self).wf(),
            acted.0 == old(self).spec_stop_pending(),
            acted.1 == old(self).spec_destroy_pending(),
            final(self).spec_stopped(),
            final(self).spec_destroyed(),
            final(self).spec_shares() == 0,
            !final(self).spec_live(),
            old(self).spec_destroyed() ==> *final(self) == *old(self),
    {
        let stop_acted = self.stop();
        let destroy_acted = self.destroy();
        (stop_acted, destroy_acted)
    }

    /// How many context shares remain outstanding.
    pub fn context_shares(&self) -> (n: u32)
        ensures
            n as int == self.spec_shares(),
    {
        let mut n: u32 = 0;
        if self.handle_share {
            n = n + 1;
        }
        if self.engine_share {
            n = n + 1;
        }
        n
    }

    /// Whether the handle owns a usable native session.
    pub fn is_live(&self) -> (b: bool)
        ensures
            b == self.spec_live(),
    {
        self.live
    }

    /// Whether callback delivery has been stopped.
    pub fn is_stopped(&self) -> (b: bool)
        ensures
            b == self.spec_stopped(),
    {
        self.stopped
    }

    /// Whether the native session has been destroyed.
    pub fn is_destroyed(&self) -> (b: bool)
        ensures
            b == self.spec_destroyed(),
    {
        self.destroyed
    }
}

/// A failed construction leaks nothing: if the engine refuses the
/// create-session call after the token share was handed out, reclaiming
/// that share and releasing the handle's own returns the context share
/// count to zero.
pub proof fn lemma_failed_construction_releases_all()
    ensures
        SessionLifecycle::spec_begin().spec_hand_token().spec_engine_refused().spec_shares() == 0,
        SessionLifecycle::spec_begin().spec_hand_token().spec_engine_refused().wf(),
{
}

/// Teardown is idempotent: tearing down a second time (or after the
/// engine was already stopped) finds nothing left to release, changes
/// nothing, and issues neither the stop call nor the destroy call again —
/// neither the context shares nor the native session can be released
/// twice.
pub proof fn lemma_teardown_idempotent(s: SessionLifecycle)
    requires
        s.wf(),
    ensures
        s.spec_teardown().spec_teardown() == s.spec_teardown(),
        !s.spec_teardown().spec_stop_pending(),
        !s.spec_teardown().spec_destroy_pending(),
{
}

/// A handle torn down right after a successful construction issues the
/// stop call and the destroy call exactly once each, stop strictly
/// before destroy, and ends with every context share released.
pub proof fn lemma_fresh_teardown_calls_each_once()
    ensures
        ({
            let live = SessionLifecycle::spec_begin().spec_hand_token().spec_engine_accepted();
            &&& live.spec_stop_pending()
            &&& live.spec_stop().spec_destroy_pending()
            &&& !live.spec_stop().spec_stop_pending()
            &&& !live.spec_teardown().spec_stop_pending()
            &&& !live.spec_teardown().spec_destroy_pending()
            &&& live.spec_teardown().spec_shares() == 0
        }),
{
}

/// Ok iff the engine accepted a broker-configuration or session-start
/// call: any non-zero status from either call during connect surfaces as
/// `ConnectionError`.
pub fn connect_status_outcome(status: i32) -> (r: Result<(), Error>)
    ensures
        status == 0 ==> r == Ok::<(), Error>(()),
        status != 0 ==> r == Err::<(), Error>(Error::ConnectionError),
{
    if status != 0 {
        Err(Error::ConnectionError)
    } else {
        Ok(())
    }
}

/// The subscription handle the engine returned, or `SubscriptionError`
/// exactly when the engine signalled failure with a negative value.
pub fn subscribe_outcome(handle: i64) -> (r: Result<i64, Error>)
    ensures
        handle >= 0 ==> r == Ok::<i64, Error>(handle),
        handle < 0 ==> r == Err::<i64, Error>(Error::SubscriptionError),
{
    if handle < 0 {
        Err(Error::SubscriptionError)
    } else {
        Ok(handle)
    }
}

/// Ok iff the engine accepted the unsubscribe call: any non-zero status
/// is `SubscriptionError`.
pub fn unsubscribe_outcome(status: i32) -> (r: Result<(), Error>)
    ensures
        status == 0 ==> r == Ok::<(), Error>(()),
        status != 0 ==> r == Err::<(), Error>(Error::SubscriptionError),
{
    if status != 0 {
        Err(Error::SubscriptionError)
    } else {
        Ok(())
    }
}

/// The message id the engine assigned to a publish, or
/// `PublicationError` exactly when the engine signalled failure with a
/// negative value.
pub fn publish_outcome(message_id: i64) -> (r: Result<i64, Error>)
    ensures
        message_id >= 0 ==> r == Ok::<i64, Error>(message_id),
        message_id < 0 ==> r == Err::<i64, Error>(Error::PublicationError),
{
    if message_id < 0 {
        Err(Error::PublicationError)
    } else {
        Ok(message_id)
    }
}

} // verus!
