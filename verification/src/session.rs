//! The session: owner of the backend-issued session identifier and of the
//! focus lock its tabs share, and the place where new tabs are opened.
use vstd::prelude::*;
use crate::backend::Backend;
use crate::backend::Command;
use crate::backend::Reply;
use crate::backend::contains_handle;
use crate::backend::has_handle;
use crate::backend::next_fails;
use crate::backend::popped;
use crate::error::Error;
use crate::lock::TaskManager;
use crate::json::Json;
use crate::json::spec_session_id;
use crate::json::session_id_of_response;
use crate::tab::Tab;
use vstd::string::StringExecFns;

verus! {

/// Whether `c` focuses the window with handle `h`.
pub open spec fn is_activate(c: Command, h: Seq<char>) -> bool {
    c matches Command::Activate(s) && s@ == h
}

/// Whether `c` navigates to `u`.
pub open spec fn is_navigate(c: Command, u: Seq<char>) -> bool {
    c matches Command::Navigate(s) && s@ == u
}

/// The command-line arguments the backend's browser is started with: the
/// profile directory to load and save session state under (with caching
/// disabled, so the profile stays small), and headless mode.
pub open spec fn spec_capability_args(profile: Option<Seq<char>>, headless: bool) -> Seq<
    Seq<char>,
> {
    let base = match profile {
        Some(path) => seq![
            "--user-data-dir="@ + path,
            "--disable-cache"@,
            "--disk-cache-size=1"@,
        ],
        None => Seq::empty(),
    };
    if headless {
        base + seq!["--headless"@, "--disable-gpu"@]
    } else {
        base
    }
}

/// Builds the browser's startup arguments from the chosen profile
/// directory and headless mode.
pub fn capability_args(profile_path: Option<String>, headless: bool) -> (r: Vec<String>)
    ensures
        r.deep_view() == spec_capability_args(
            match profile_path {
                Some(p) => Some(p@),
                None => None,
            },
            headless,
        ),
{
    let ghost gprofile: Option<Seq<char>> = match &profile_path {
        Some(p) => Some(p@),
        None => None,
    };
    let mut args: Vec<String> = Vec::new();
    match &profile_path {
        Some(path) => {
            let dir_flag: String = "--user-data-dir=".to_owned();
            args.push(dir_flag.concat(path.as_str()));
            args.push("--disable-cache".to_owned());
            args.push("--disk-cache-size=1".to_owned());
        },
        None => {},
    }
    if headless {
        args.push("--headless".to_owned());
        args.push("--disable-gpu".to_owned());
    }
    proof {
        assert(args.deep_view() =~= spec_capability_args(gprofile, headless));
    }
    args
}

/// The position in `after` of the first handle that `before` does not
/// hold: the window that appeared between the two enumerations.
pub fn first_new_handle(before: &Vec<String>, after: &Vec<String>) -> (r: Option<usize>)
    ensures
        match r {
            Some(i) => 0 <= i < after@.len() && !has_handle(before@, after@[i as int]@) && (forall|
                k: int,
            | 0 <= k < i ==> has_handle(before@, (#[trigger] after@[k])@)),
            None => forall|k: int|
                0 <= k < after@.len() ==> has_handle(before@, (#[trigger] after@[k])@),
        },
{
    let mut i: usize = 0;
    while i < after.len()
        invariant
            0 <= i <= after@.len(),
            forall|k: int| 0 <= k < i ==> has_handle(before@, (#[trigger] after@[k])@),
        decreases after@.len() - i,
    {
        if !contains_handle(before, &after[i]) {
            return Some(i);
        }
        i = i + 1;
    }
    None
}

/// Every `open` allocates a fresh, previously-unseen handle: across any
/// sequence of calls on one session, no two `open` calls return the same
/// handle. `open` ensures of each call that its handle lies outside the
/// session's returned set and is added to it, and no operation ever shrinks
/// that set — so an earlier call's handle, inside the set ever since, can
/// never be a later call's handle, which lies outside it.
pub proof fn lemma_open_handles_distinct(
    opened_after_first: Set<Seq<char>>,
    opened_before_second: Set<Seq<char>>,
    h1: Seq<char>,
    h2: Seq<char>,
)
    requires
        opened_after_first.contains(h1),
        opened_after_first.subset_of(opened_before_second),
        !opened_before_second.contains(h2),
    ensures
        h1 != h2,
{
}

/// One backend session. Its identifier is immutable once assigned; exactly
/// one focus lock belongs to a live session and is shared — not copied —
/// by every tab derived from it. The session remembers whether the window
/// that existed when the session was created is still unclaimed: the first
/// `open` takes that window instead of creating one, and the claim happens
/// exactly once.
pub struct Session {
    /// The backend server's port.
    pub port: u16,
    /// The backend-issued session identifier.
    pub session_id: String,
    /// Whether the window that existed at session creation has been handed
    /// out by `open` (or never belonged to this session at all).
    pub initial_claimed: bool,
    /// Every handle `open` has returned so far.
    pub opened: Ghost<Set<Seq<char>>>,
}

impl Session {
    /// What ties a session to its backend: a handle that `open` returned
    /// was assigned by the backend at some point, and before the first
    /// `open` nothing has been returned.
    pub open spec fn inv(self, backend: Backend) -> bool {
        &&& self.opened@.subset_of(backend.used@)
        &&& (!self.initial_claimed ==> self.opened@ == Set::<Seq<char>>::empty())
    }

    /// Attaches to a session that already runs: the backend-issued
    /// identifier is known, and the session's initial window is not ours
    /// to claim.
    pub fn new(port: u16, session_id: String) -> (r: Session)
        ensures
            r.port == port,
            r.session_id == session_id,
            r.initial_claimed,
            r.opened@ == Set::<Seq<char>>::empty(),
            forall|b: Backend| r.inv(b),
    {
        Session { port, session_id, initial_claimed: true, opened: Ghost(Set::empty()) }
    }

    /// Builds the session a new-session response describes: the shell has
    /// started the backend and asked it for a session; the response carries
    /// the identifier, and the window the backend created at session start
    /// is still unclaimed. A response without the identifier is the
    /// protocol violation `IncorrectSessionId`.
    pub fn from_new_session_response(port: u16, resp: &Json) -> (r: Result<Session, Error>)
        ensures
            match r {
                Ok(s) => {
                    &&& spec_session_id(resp@) == Some(s.session_id@)
                    &&& s.port == port
                    &&& !s.initial_claimed
                    &&& s.opened@ == Set::<Seq<char>>::empty()
                    &&& forall|b: Backend| s.inv(b)
                },
                Err(e) => spec_session_id(resp@) is None && e == Error::IncorrectSessionId,
            },
    {
        let session_id = session_id_of_response(resp)?;
        Ok(Session { port, session_id, initial_claimed: false, opened: Ghost(Set::empty()) })
    }

    /// The backend server's port.
    pub fn get_port(&self) -> (r: u16)
        ensures
            r == self.port,
    {
        self.port
    }

    /// The backend-issued session identifier.
    pub fn get_id(&self) -> (r: &str)
        ensures
            r@ == self.session_id@,
    {
        self.session_id.as_str()
    }

    /// Enumerates the handles of the backend's current windows. A pure
    /// read: it does not take the lock, so the answer can be stale by the
    /// time the caller acts on it.
    pub fn get_tabs_ids(&self, backend: &mut Backend) -> (r: Result<Vec<String>, Error>)
        requires
            old(backend).wf(),
        ensures
            final(backend).wf(),
            Backend::same_state(*old(backend), *final(backend)),
            old(backend).script_value == final(backend).script_value,
            match r {
                Ok(hs) => !next_fails(old(backend).failures@) && hs@.len()
                    == old(backend).windows@.len() && (forall|k: int|
                    0 <= k < hs@.len() ==> (#[trigger] hs@[k])@ == old(backend).windows@[k]@),
                Err(e) => next_fails(old(backend).failures@) && e == Error::Transport,
            },
    {
        let cmd = Command::GetHandles;
        let reply = backend.apply(&cmd);
        match reply {
            Reply::Handles(hs) => Ok(hs),
            Reply::TransportFailure => Err(Error::Transport),
            _ => {
                proof {
                    assert(false);
                }
                Err(Error::Transport)
            },
        }
    }

    /// Materializes a tab for every current window, in the backend's
    /// order. Handles may go stale: an operation on a returned tab can
    /// still fail with a handle-not-found condition.
    pub fn get_tabs(&self, backend: &mut Backend) -> (r: Result<Vec<Tab>, Error>)
        requires
            old(backend).wf(),
        ensures
            final(backend).wf(),
            Backend::same_state(*old(backend), *final(backend)),
            match r {
                Ok(tabs) => !next_fails(old(backend).failures@) && tabs@.len()
                    == old(backend).windows@.len() && (forall|k: int|
                    0 <= k < tabs@.len() ==> {
                        &&& (#[trigger] tabs@[k]).tab_id@ == old(backend).windows@[k]@
                        &&& tabs@[k].port == self.port
                        &&& tabs@[k].session_id@ == self.session_id@
                        &&& tabs@[k].url@ == Seq::<char>::empty()
                    }),
                Err(e) => next_fails(old(backend).failures@) && e == Error::Transport,
            },
    {
        let handles = self.get_tabs_ids(backend)?;
        let mut tabs: Vec<Tab> = Vec::new();
        let mut i: usize = 0;
        while i < handles.len()
            invariant
                0 <= i <= handles@.len(),
                tabs@.len() == i,
                forall|k: int|
                    0 <= k < i ==> {
                        &&& (#[trigger] tabs@[k]).tab_id@ == handles@[k]@
                        &&& tabs@[k].port == self.port
                        &&& tabs@[k].session_id@ == self.session_id@
                        &&& tabs@[k].url@ == Seq::<char>::empty()
                    },
            decreases handles@.len() - i,
        {
            let tab = Tab {
                port: self.port,
                session_id: self.session_id.clone(),
                tab_id: handles[i].clone(),
                url: String::new(),
            };
            tabs.push(tab);
            i = i + 1;
        }
        Ok(tabs)
    }

    /// The tab with the given handle, if such a window currently exists.
    pub fn get_tab(&self, tab_id: String, backend: &mut Backend) -> (r: Result<
        Option<Tab>,
        Error,
    >)
        requires
            old(backend).wf(),
        ensures
            final(backend).wf(),
            Backend::same_state(*old(backend), *final(backend)),
            match r {
                Ok(found) => !next_fails(old(backend).failures@) && match found {
                    Some(tab) => {
                        &&& has_handle(old(backend).windows@, tab_id@)
                        &&& tab.tab_id@ == tab_id@
                        &&& tab.port == self.port
                        &&& tab.session_id@ == self.session_id@
                        &&& tab.url@ == Seq::<char>::empty()
                    },
                    None => !has_handle(old(backend).windows@, tab_id@),
                },
                Err(e) => next_fails(old(backend).failures@) && e == Error::Transport,
            },
    {
        let handles = self.get_tabs_ids(backend)?;
        if !contains_handle(&handles, &tab_id) {
            proof {
                if has_handle(backend.windows@, tab_id@) {
                    let i = choose|i: int|
                        0 <= i < backend.windows@.len() && backend.windows@[i]@ == tab_id@;
                    assert(handles@[i]@ == tab_id@);
                    assert(false);
                }
            }
            return Ok(None);
        }
        proof {
            let i = choose|i: int| 0 <= i < handles@.len() && handles@[i]@ == tab_id@;
            assert(backend.windows@[i]@ == tab_id@);
        }
        let tab = Tab {
            port: self.port,
            session_id: self.session_id.clone(),
            tab_id,
            url: String::new(),
        };
        Ok(Some(tab))
    }

    /// The tab whose window the backend currently has focused. A backend
    /// with no focused window answers without a handle, the protocol
    /// violation `IncorrectWindowHandle`; a focused window that is gone by
    /// the second look is `TabNotFound`.
    pub fn get_active_tab(&self, backend: &mut Backend) -> (r: Result<Tab, Error>)
        requires
            old(backend).wf(),
        ensures
            final(backend).wf(),
            Backend::same_state(*old(backend), *final(backend)),
            match r {
                Ok(tab) => {
                    &&& !next_fails(old(backend).failures@)
                    &&& !next_fails(popped(old(backend).failures@))
                    &&& (old(backend).focused matches Some(f) && f@ == tab.tab_id@)
                    &&& tab.port == self.port
                    &&& tab.session_id@ == self.session_id@
                },
                Err(e) => if next_fails(old(backend).failures@) {
                    e == Error::Transport
                } else if old(backend).focused is None {
                    e == Error::IncorrectWindowHandle
                } else {
                    e == Error::Transport && next_fails(popped(old(backend).failures@))
                },
            },
    {
        let cmd = Command::GetFocused;
        let reply = backend.apply(&cmd);
        let handle = match reply {
            Reply::Window(h) => h,
            Reply::NoSuchWindow => {
                return Err(Error::IncorrectWindowHandle);
            },
            Reply::TransportFailure => {
                return Err(Error::Transport);
            },
            _ => {
                proof {
                    assert(false);
                }
                return Err(Error::Transport);
            },
        };
        match self.get_tab(handle, backend)? {
            Some(tab) => Ok(tab),
            None => Err(Error::TabNotFound),
        }
    }

    /// Opens a new tab on `url`: one critical section around the whole of
    /// determining the target window, focusing it and navigating it, so
    /// that no other tab can slip a focus switch in between.
    ///
    /// The very first `open` of a session we created claims the window that
    /// already existed at session start — that claim happens exactly once.
    /// Every later `open` focuses the last known window, asks it to open a
    /// blank window, re-enumerates, and diffs the handle lists to find the
    /// window that appeared. Either way the target is focused and navigated
    /// before the lock is released, and the returned tab is bound to it.
    ///
    /// A backend that reports zero windows when one was expected — nothing
    /// exists to open a blank window from, or nothing appeared — is
    /// `NoWindowHandles`. The handle of every returned tab is one the
    /// backend never assigned before this call, so no two `open` calls of
    /// one session can ever return the same handle. The lock is free again
    /// afterwards, whatever happened.
    pub fn open(&mut self, url: String, lock: &mut TaskManager, backend: &mut Backend) -> (r:
        Result<Tab, Error>)
        requires
            !old(lock).held(),
            old(backend).wf(),
            old(self).inv(*old(backend)),
        ensures
            !final(lock).held(),
            final(backend).wf(),
            old(backend).used@.subset_of(final(backend).used@),
            final(self).inv(*final(backend)),
            final(self).port == old(self).port,
            final(self).session_id == old(self).session_id,
            final(backend).session_alive == old(backend).session_alive,
            final(backend).script_value == old(backend).script_value,
            match r {
                Ok(tab) => {
                    &&& !old(self).opened@.contains(tab.tab_id@)
                    &&& final(self).opened@ == old(self).opened@.insert(tab.tab_id@)
                    &&& final(self).initial_claimed
                    &&& tab.port == old(self).port
                    &&& tab.session_id@ == old(self).session_id@
                    &&& tab.url@ == url@
                    &&& has_handle(final(backend).windows@, tab.tab_id@)
                    &&& (final(backend).focused matches Some(f) && f@ == tab.tab_id@)
                },
                Err(e) => {
                    &&& final(self).opened == old(self).opened
                    &&& final(self).initial_claimed == old(self).initial_claimed
                    &&& (e == Error::Transport || e == Error::NoWindowHandles)
                },
            },
            next_fails(old(backend).failures@) ==> (r matches Err(e) && e == Error::Transport),
            !next_fails(old(backend).failures@) && old(backend).windows@.len() == 0 ==> (r matches
                Err(e) && e == Error::NoWindowHandles),
            old(backend).failures@.len() == 0 && old(backend).windows@.len() > 0 && !old(
                self,
            ).initial_claimed ==> (r matches Ok(tab) && {
                &&& tab.tab_id@ == old(backend).windows@[0]@
                &&& final(backend).windows == old(backend).windows
                &&& final(backend).log@.len() == old(backend).log@.len() + 3
                &&& final(backend).log@[old(backend).log@.len() as int] is GetHandles
                &&& is_activate(
                    final(backend).log@[old(backend).log@.len() as int + 1],
                    old(backend).windows@[0]@,
                )
                &&& is_navigate(final(backend).log@[old(backend).log@.len() as int + 2], url@)
            }),
            old(backend).failures@.len() == 0 && old(backend).windows@.len() > 0 && old(
                self,
            ).initial_claimed && old(backend).fresh@.len() > 0 ==> (r matches Ok(tab) && {
                &&& tab.tab_id@ == old(backend).fresh@[0]@
                &&& final(backend).windows@.len() == old(backend).windows@.len() + 1
                &&& final(backend).log@.len() == old(backend).log@.len() + 6
                &&& final(backend).log@[old(backend).log@.len() as int] is GetHandles
                &&& is_activate(
                    final(backend).log@[old(backend).log@.len() as int + 1],
                    old(backend).windows@.last()@,
                )
                &&& final(backend).log@[old(backend).log@.len() as int + 2] is OpenBlankWindow
                &&& final(backend).log@[old(backend).log@.len() as int + 3] is GetHandles
                &&& is_activate(
                    final(backend).log@[old(backend).log@.len() as int + 4],
                    old(backend).fresh@[0]@,
                )
                &&& is_navigate(final(backend).log@[old(backend).log@.len() as int + 5], url@)
            }),
            old(backend).failures@.len() == 0 && old(backend).windows@.len() > 0 && old(
                self,
            ).initial_claimed && old(backend).fresh@.len() == 0 ==> (r matches Err(e) && e
                == Error::NoWindowHandles),
    {
        lock.lock();
        // enumerate what exists before anything is created
        let enumerate = Command::GetHandles;
        let reply = backend.apply(&enumerate);
        let handles: Vec<String> = match reply {
            Reply::Handles(hs) => hs,
            Reply::TransportFailure => {
                lock.unlock();
                return Err(Error::Transport);
            },
            _ => {
                proof {
                    assert(false);
                }
                lock.unlock();
                return Err(Error::Transport);
            },
        };
        if handles.len() == 0 {
            lock.unlock();
            return Err(Error::NoWindowHandles);
        }
        let target: String;
        if !self.initial_claimed {
            // the first open: take the window that existed at session start
            target = handles[0].clone();
        } else {
            // focus the last known window, so the blank window has a parent
            let last = handles[handles.len() - 1].clone();
            proof {
                assert(backend.windows@[backend.windows@.len() - 1]@ == last@);
                assert(has_handle(backend.windows@, last@));
            }
            let activate_last = Command::Activate(last);
            let reply = backend.apply(&activate_last);
            match reply {
                Reply::Ack => {},
                Reply::TransportFailure => {
                    lock.unlock();
                    return Err(Error::Transport);
                },
                _ => {
                    proof {
                        assert(false);
                    }
                    lock.unlock();
                    return Err(Error::Transport);
                },
            }
            // ask the focused window to open a blank window
            let open_blank = Command::OpenBlankWindow;
            let reply = backend.apply(&open_blank);
            match reply {
                Reply::Ack => {},
                Reply::TransportFailure => {
                    lock.unlock();
                    return Err(Error::Transport);
                },
                _ => {
                    proof {
                        assert(false);
                    }
                    lock.unlock();
                    return Err(Error::Transport);
                },
            }
            // re-enumerate and diff: the window that appeared is the target
            let enumerate_again = Command::GetHandles;
            let reply = backend.apply(&enumerate_again);
            let handles_after: Vec<String> = match reply {
                Reply::Handles(hs) => hs,
                Reply::TransportFailure => {
                    lock.unlock();
                    return Err(Error::Transport);
                },
                _ => {
                    proof {
                        assert(false);
                    }
                    lock.unlock();
                    return Err(Error::Transport);
                },
            };
            match first_new_handle(&handles, &handles_after) {
                Some(idx) => {
                    target = handles_after[idx].clone();
                    proof {
                        let n = old(backend).windows@.len() as int;
                        // a window appeared, so the backend had a handle
                        // left to assign
                        if old(backend).fresh@.len() == 0 {
                            assert(backend.windows@ == old(backend).windows@);
                            assert(handles@[idx as int]@ == old(backend).windows@[idx as int]@);
                            assert(handles_after@[idx as int]@ == old(
                                backend,
                            ).windows@[idx as int]@);
                            assert(has_handle(handles@, handles_after@[idx as int]@));
                            assert(false);
                        }
                        // every handle that existed before is still in the
                        // old prefix, so the first new one is the window
                        // the backend just created
                        if idx < n {
                            assert(handles_after@[idx as int]@ == old(
                                backend,
                            ).windows@[idx as int]@);
                            assert(handles@[idx as int]@ == old(backend).windows@[idx as int]@);
                            assert(has_handle(handles@, handles_after@[idx as int]@));
                            assert(false);
                        }
                        assert(idx == n);
                        assert(target@ == old(backend).fresh@[0]@);
                        assert(!old(backend).used@.contains(target@));
                    }
                },
                None => {
                    proof {
                        // nothing appeared: the backend had no handle left
                        // to assign, else the window it created would be a
                        // handle the first enumeration cannot hold
                        if old(backend).failures@.len() == 0 && old(backend).fresh@.len() > 0 {
                            let n = old(backend).windows@.len() as int;
                            assert(handles_after@[n]@ == old(backend).fresh@[0]@);
                            assert(has_handle(handles@, handles_after@[n]@));
                            let i = choose|i: int|
                                0 <= i < handles@.len() && handles@[i]@ == old(backend).fresh@[0]@;
                            assert(old(backend).windows@[i]@ == old(backend).fresh@[0]@);
                            assert(old(backend).used@.contains(old(backend).windows@[i]@));
                            assert(!old(backend).used@.contains(old(backend).fresh@[0]@));
                            assert(false);
                        }
                    }
                    lock.unlock();
                    return Err(Error::NoWindowHandles);
                },
            }
        }
        // focus the target window and navigate it, still inside the same
        // critical section
        proof {
            assert(has_handle(backend.windows@, target@));
        }
        let activate_target = Command::Activate(target.clone());
        let reply = backend.apply(&activate_target);
        match reply {
            Reply::Ack => {},
            Reply::TransportFailure => {
                lock.unlock();
                return Err(Error::Transport);
            },
            _ => {
                proof {
                    assert(false);
                }
                lock.unlock();
                return Err(Error::Transport);
            },
        }
        let navigate = Command::Navigate(url.clone());
        let reply = backend.apply(&navigate);
        match reply {
            Reply::Ack => {},
            Reply::TransportFailure => {
                lock.unlock();
                return Err(Error::Transport);
            },
            _ => {
                proof {
                    assert(false);
                }
                lock.unlock();
                return Err(Error::Transport);
            },
        }
        proof {
            // no earlier open of this session returned this handle: the
            // first open is the first return at all, and every later open
            // returns a handle the backend had never assigned before
            if !old(self).initial_claimed {
                assert(old(self).opened@ == Set::<Seq<char>>::empty());
            }
            assert(!old(self).opened@.contains(target@));
        }
        let tab = Tab {
            port: self.port,
            session_id: self.session_id.clone(),
            tab_id: target,
            url,
        };
        proof {
            self.opened@ = self.opened@.insert(tab.tab_id@);
        }
        self.initial_claimed = true;
        lock.unlock();
        Ok(tab)
    }

    /// Ends the session, best-effort: the session delete and both server
    /// stop requests are all attempted, and network failures during any of
    /// them are tolerated — the aim is that resources are released even
    /// when the backend is unreachable, so this never fails.
    pub fn close(&self, backend: &mut Backend) -> (r: Result<(), Error>)
        requires
            old(backend).wf(),
        ensures
            final(backend).wf(),
            r is Ok,
            final(backend).windows == old(backend).windows,
            final(backend).focused == old(backend).focused,
            final(backend).fresh == old(backend).fresh,
            final(backend).used == old(backend).used,
            !next_fails(old(backend).failures@) ==> !final(backend).session_alive,
            !next_fails(popped(old(backend).failures@)) ==> !final(backend).server_running,
    {
        let delete = Command::DeleteSession;
        let _ = backend.apply(&delete);
        let shutdown = Command::Shutdown;
        let _ = backend.apply(&shutdown);
        let quit = Command::Quit;
        let _ = backend.apply(&quit);
        Ok(())
    }
}

} // verus!
