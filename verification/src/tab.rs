//! One browser window. Every operation that depends on being the focused
//! window runs as a critical section: acquire the focus lock, focus this
//! window, perform, release the lock — on every exit path, so that a
//! failure can never leave the lock held (and a later acquire deadlocked).
use vstd::prelude::*;
use crate::backend::Backend;
use crate::backend::Command;
use crate::backend::Reply;
use crate::backend::has_handle;
use crate::backend::next_fails;
use crate::backend::popped;
use crate::error::Error;
use crate::lock::TaskManager;
use crate::json::Json;

verus! {

/// How many window-delete commands the close protocol states, the number of
/// DeleteWindow entries in a received log.
pub open spec fn count_deletes(log: Seq<Command>) -> int
    decreases log.len(),
{
    if log.len() == 0 {
        0
    } else {
        count_deletes(log.drop_last()) + if log.last() is DeleteWindow {
            1 as int
        } else {
            0 as int
        }
    }
}

/// Receiving one more command adds one delete attempt exactly when that
/// command is a window-delete.
proof fn lemma_count_deletes_push(log: Seq<Command>, c: Command)
    ensures
        count_deletes(log.push(c)) == count_deletes(log) + if c is DeleteWindow {
            1 as int
        } else {
            0 as int
        },
{
    assert(log.push(c).drop_last() =~= log);
    assert(log.push(c).last() == c);
}

/// One browser window, named by the handle the backend assigned to it.
/// The owning session's address and identifier are carried along so the
/// shell can address requests; the URL is a cache, not authoritative.
pub struct Tab {
    /// The backend server's port.
    pub port: u16,
    /// The owning session's identifier.
    pub session_id: String,
    /// This window's handle, stable for the window's lifetime and never
    /// reused by the backend for a different window within the session.
    pub tab_id: String,
    /// The last URL this tab was navigated to by us; stale whenever the
    /// page navigates itself.
    pub url: String,
}

impl Tab {
    /// The backend server's port.
    pub fn get_port(&self) -> (r: u16)
        ensures
            r == self.port,
    {
        self.port
    }

    /// This window's handle.
    pub fn get_id(&self) -> (r: &str)
        ensures
            r@ == self.tab_id@,
    {
        self.tab_id.as_str()
    }

    /// Focuses this window, alone in its critical section. Succeeds exactly
    /// when the request goes through and the window still exists; a window
    /// that is gone is `TabNotFound`. The lock is free again afterwards,
    /// whatever happened.
    pub fn active(&self, lock: &mut TaskManager, backend: &mut Backend) -> (r: Result<(), Error>)
        requires
            !old(lock).held(),
            old(backend).wf(),
        ensures
            !final(lock).held(),
            final(backend).wf(),
            old(backend).used@.subset_of(final(backend).used@),
            final(backend).windows == old(backend).windows,
            final(backend).fresh == old(backend).fresh,
            final(backend).session_alive == old(backend).session_alive,
            final(backend).script_value == old(backend).script_value,
            final(backend).failures@ == popped(old(backend).failures@),
            match r {
                Ok(u) => {
                    &&& !next_fails(old(backend).failures@)
                    &&& has_handle(old(backend).windows@, self.tab_id@)
                    &&& (final(backend).focused matches Some(f) && f@ == self.tab_id@)
                    &&& final(backend).log@ == old(backend).log@.push(
                        Command::Activate(self.tab_id),
                    )
                },
                Err(e) => {
                    &&& final(backend).focused == old(backend).focused
                    &&& if next_fails(old(backend).failures@) {
                        e == Error::Transport && final(backend).log == old(backend).log
                    } else {
                        e == Error::TabNotFound && !has_handle(old(backend).windows@, self.tab_id@)
                            && final(backend).log@ == old(backend).log@.push(
                            Command::Activate(self.tab_id),
                        )
                    }
                },
            },
    {
        lock.lock();
        let cmd = Command::Activate(self.tab_id.clone());
        let reply = backend.apply(&cmd);
        lock.unlock();
        match reply {
            Reply::Ack => Ok(()),
            Reply::TransportFailure => Err(Error::Transport),
            Reply::NoSuchWindow => Err(Error::TabNotFound),
            _ => {
                proof {
                    assert(false);
                }
                Err(Error::Transport)
            },
        }
    }

    /// Loads `url` in this window: one critical section around focusing the
    /// window and issuing the navigation. The cached URL is updated only
    /// after the backend acknowledges the navigation; on any failure the
    /// tab is unchanged and the lock is free again.
    pub fn open(&mut self, url: String, lock: &mut TaskManager, backend: &mut Backend) -> (r:
        Result<(), Error>)
        requires
            !old(lock).held(),
            old(backend).wf(),
        ensures
            !final(lock).held(),
            final(backend).wf(),
            old(backend).used@.subset_of(final(backend).used@),
            final(backend).windows == old(backend).windows,
            final(backend).fresh == old(backend).fresh,
            final(backend).session_alive == old(backend).session_alive,
            final(backend).script_value == old(backend).script_value,
            final(self).port == old(self).port && final(self).session_id == old(self).session_id
                && final(self).tab_id == old(self).tab_id,
            match r {
                Ok(u) => {
                    &&& !next_fails(old(backend).failures@)
                    &&& has_handle(old(backend).windows@, old(self).tab_id@)
                    &&& !next_fails(popped(old(backend).failures@))
                    &&& final(self).url == url
                    &&& (final(backend).focused matches Some(f) && f@ == old(self).tab_id@)
                    &&& final(backend).log@ == old(backend).log@.push(
                        Command::Activate(old(self).tab_id),
                    ).push(Command::Navigate(url))
                },
                Err(e) => {
                    &&& final(self).url == old(self).url
                    &&& if next_fails(old(backend).failures@) {
                        e == Error::Transport
                    } else if !has_handle(old(backend).windows@, old(self).tab_id@) {
                        e == Error::TabNotFound
                    } else {
                        e == Error::Transport && next_fails(popped(old(backend).failures@))
                    }
                },
            },
    {
        lock.lock();
        let activate = Command::Activate(self.tab_id.clone());
        let reply = backend.apply(&activate);
        match reply {
            Reply::Ack => {},
            Reply::TransportFailure => {
                lock.unlock();
                return Err(Error::Transport);
            },
            Reply::NoSuchWindow => {
                lock.unlock();
                return Err(Error::TabNotFound);
            },
            _ => {
                proof {
                    assert(false);
                }
                lock.unlock();
                return Err(Error::Transport);
            },
        }
        let navigate = Command::Navigate(url.clone());
        let reply = backend.apply(&navigate);
        lock.unlock();
        match reply {
            Reply::Ack => {
                self.url = url;
                Ok(())
            },
            Reply::TransportFailure => Err(Error::Transport),
            _ => {
                proof {
                    assert(false);
                }
                Err(Error::Transport)
            },
        }
    }

    /// Runs `script` in this window's page, one critical section around
    /// focusing and executing, and hands back the result value the backend
    /// returned, whatever its shape — the caller decodes it. A response
    /// that carries no result value at all is `UnexpectedResponse`. The
    /// lock is free again afterwards, whatever happened.
    pub fn inject(&self, script: String, lock: &mut TaskManager, backend: &mut Backend) -> (r:
        Result<Json, Error>)
        requires
            !old(lock).held(),
            old(backend).wf(),
        ensures
            !final(lock).held(),
            final(backend).wf(),
            old(backend).used@.subset_of(final(backend).used@),
            final(backend).windows == old(backend).windows,
            final(backend).fresh == old(backend).fresh,
            final(backend).session_alive == old(backend).session_alive,
            final(backend).script_value == old(backend).script_value,
            match r {
                Ok(v) => {
                    &&& !next_fails(old(backend).failures@)
                    &&& has_handle(old(backend).windows@, self.tab_id@)
                    &&& !next_fails(popped(old(backend).failures@))
                    &&& (old(backend).script_value matches Some(sv) && v@ == sv@)
                    &&& final(backend).log@ == old(backend).log@.push(
                        Command::Activate(self.tab_id),
                    ).push(Command::Execute(script))
                },
                Err(e) => if next_fails(old(backend).failures@) {
                    e == Error::Transport
                } else if !has_handle(old(backend).windows@, self.tab_id@) {
                    e == Error::TabNotFound
                } else if next_fails(popped(old(backend).failures@)) {
                    e == Error::Transport
                } else {
                    e == Error::UnexpectedResponse && old(backend).script_value is None
                },
            },
    {
        lock.lock();
        let activate = Command::Activate(self.tab_id.clone());
        let reply = backend.apply(&activate);
        match reply {
            Reply::Ack => {},
            Reply::TransportFailure => {
                lock.unlock();
                return Err(Error::Transport);
            },
            Reply::NoSuchWindow => {
                lock.unlock();
                return Err(Error::TabNotFound);
            },
            _ => {
                proof {
                    assert(false);
                }
                lock.unlock();
                return Err(Error::Transport);
            },
        }
        let execute = Command::Execute(script);
        let reply = backend.apply(&execute);
        lock.unlock();
        match reply {
            Reply::Value(Some(v)) => Ok(v),
            Reply::Value(None) => Err(Error::UnexpectedResponse),
            Reply::TransportFailure => Err(Error::Transport),
            _ => {
                proof {
                    assert(false);
                }
                Err(Error::Transport)
            },
        }
    }

    /// Closes this window: the dialog-tolerant close protocol, one critical
    /// section around the whole retry loop so that no other tab can be
    /// focused mid-retry.
    ///
    /// Each attempt focuses this window, issues a window-delete — which a
    /// page dialog may absorb without the window disappearing — and
    /// re-enumerates the handles to see whether the window is gone. A
    /// window that cannot be focused at all is taken to be already closed:
    /// that exit issues no delete. The loop is bounded by `max_attempts`;
    /// exhausting it is `CloseTimeout`.
    ///
    /// On every exit, success or failure, the lock is free again. No
    /// window other than this one is ever removed. With no transport
    /// failure in the way: a window already gone means immediate success
    /// with no delete issued; a present window whose page absorbs the first
    /// `n` deletes is closed by the `n + 1`-th, after exactly `n + 1`
    /// delete attempts, as long as `n < max_attempts`; and success means
    /// the handle is absent from the backend's enumeration afterwards.
    pub fn close(&self, max_attempts: u64, lock: &mut TaskManager, backend: &mut Backend) -> (r:
        Result<(), Error>)
        requires
            !old(lock).held(),
            old(backend).wf(),
            max_attempts >= 1,
        ensures
            !final(lock).held(),
            final(backend).wf(),
            old(backend).used@.subset_of(final(backend).used@),
            final(backend).fresh == old(backend).fresh,
            final(backend).session_alive == old(backend).session_alive,
            final(backend).script_value == old(backend).script_value,
            forall|h: Seq<char>|
                h != self.tab_id@ ==> has_handle(final(backend).windows@, h) == has_handle(
                    old(backend).windows@,
                    h,
                ),
            old(backend).failures@.len() == 0 && !has_handle(
                old(backend).windows@,
                self.tab_id@,
            ) ==> r is Ok && count_deletes(final(backend).log@) == count_deletes(
                old(backend).log@,
            ),
            old(backend).failures@.len() == 0 && has_handle(old(backend).windows@, self.tab_id@)
                && old(backend).blocked_deletes < max_attempts ==> r is Ok && count_deletes(
                final(backend).log@,
            ) == count_deletes(old(backend).log@) + old(backend).blocked_deletes + 1,
            old(backend).failures@.len() == 0 && has_handle(old(backend).windows@, self.tab_id@)
                && old(backend).blocked_deletes >= max_attempts ==> (r matches Err(e) && e
                == Error::CloseTimeout) && count_deletes(final(backend).log@) == count_deletes(
                old(backend).log@,
            ) + max_attempts,
            old(backend).failures@.len() == 0 && r is Ok ==> !has_handle(
                final(backend).windows@,
                self.tab_id@,
            ),
            r matches Err(e) ==> e == Error::Transport || e == Error::CloseTimeout,
    {
        lock.lock();
        let mut attempts: u64 = 0;
        while attempts < max_attempts
            invariant
                lock.held(),
                backend.wf(),
                old(backend).used@.subset_of(backend.used@),
                backend.fresh == old(backend).fresh,
                backend.session_alive == old(backend).session_alive,
                backend.script_value == old(backend).script_value,
                0 <= attempts <= max_attempts,
                max_attempts >= 1,
                forall|h: Seq<char>|
                    h != self.tab_id@ ==> has_handle(backend.windows@, h) == has_handle(
                        old(backend).windows@,
                        h,
                    ),
                old(backend).failures@.len() == 0 ==> backend.failures@.len() == 0,
                old(backend).failures@.len() == 0 ==> count_deletes(backend.log@) == count_deletes(
                    old(backend).log@,
                ) + attempts,
                old(backend).failures@.len() == 0 && !has_handle(
                    old(backend).windows@,
                    self.tab_id@,
                ) ==> attempts == 0 && !has_handle(backend.windows@, self.tab_id@),
                old(backend).failures@.len() == 0 && has_handle(
                    old(backend).windows@,
                    self.tab_id@,
                ) ==> has_handle(backend.windows@, self.tab_id@) && attempts
                    <= old(backend).blocked_deletes && backend.blocked_deletes == old(
                    backend,
                ).blocked_deletes - attempts,
            decreases max_attempts - attempts,
        {
            // Activating: focus this window; a window that cannot be
            // focused is already closed.
            let activate = Command::Activate(self.tab_id.clone());
            let ghost log0 = backend.log@;
            let reply = backend.apply(&activate);
            proof {
                lemma_count_deletes_push(log0, activate);
            }
            match reply {
                Reply::Ack => {},
                _ => {
                    proof {
                        if old(backend).failures@.len() == 0 && has_handle(
                            old(backend).windows@,
                            self.tab_id@,
                        ) {
                            assert(activate == Command::Activate(self.tab_id));
                            assert(false);
                        }
                    }
                    lock.unlock();
                    return Ok(());
                },
            }
            // Closing: ask the backend to delete the focused window; a
            // page dialog may absorb this without the window going away.
            let delete = Command::DeleteWindow;
            let ghost log1 = backend.log@;
            let reply = backend.apply(&delete);
            proof {
                lemma_count_deletes_push(log1, delete);
            }
            match reply {
                Reply::Ack => {},
                Reply::TransportFailure => {
                    lock.unlock();
                    return Err(Error::Transport);
                },
                _ => {
                    proof {
                        assert(false);
                    }
                    lock.unlock();
                    return Err(Error::Transport);
                },
            }
            attempts = attempts + 1;
            // Verifying: the window is closed exactly when its handle no
            // longer appears in the enumeration.
            let enumerate = Command::GetHandles;
            let ghost log2 = backend.log@;
            let reply = backend.apply(&enumerate);
            proof {
                lemma_count_deletes_push(log2, enumerate);
            }
            match reply {
                Reply::Handles(hs) => {
                    if !crate::backend::contains_handle(&hs, &self.tab_id) {
                        proof {
                            // the enumeration is truthful: a handle absent
                            // from it names no current window
                            if has_handle(backend.windows@, self.tab_id@) {
                                let i = choose|i: int|
                                    0 <= i < backend.windows@.len() && backend.windows@[i]@
                                        == self.tab_id@;
                                assert(hs@[i]@ == self.tab_id@);
                                assert(has_handle(hs@, self.tab_id@));
                                assert(false);
                            }
                        }
                        lock.unlock();
                        return Ok(());
                    }
                },
                Reply::TransportFailure => {
                    lock.unlock();
                    return Err(Error::Transport);
                },
                _ => {
                    proof {
                        assert(false);
                    }
                    lock.unlock();
                    return Err(Error::Transport);
                },
            }
        }
        lock.unlock();
        Err(Error::CloseTimeout)
    }
}

} // verus!
