//! The backend a session drives, as a model: one browser instance whose
//! window focus is global, mutable, server-side state.
//!
//! The model captures exactly the behaviour the protocol layer relies on:
//! commands are served one at a time; the backend answers truthfully about
//! which windows exist; a window handle, once used, is never reused within
//! the session; focus-dependent commands apply to whichever window is
//! currently focused; and a window-delete command may be absorbed by a page
//! dialog, returning without the window actually disappearing.
//!
//! A `Backend` value also carries a failure script, so that a transport
//! failure can be injected before any chosen command: every verified
//! contract over the protocol therefore holds under failures injected at
//! every step. The unverified shell talks to the real backend over HTTP;
//! everything proved against this model holds of any backend that keeps to
//! the same contract.
use vstd::prelude::*;
use crate::json::Json;

verus! {

/// One command of the backend's control protocol.
pub enum Command {
    /// Focus the window with the given handle.
    Activate(String),
    /// Load the given URL in the focused window.
    Navigate(String),
    /// Ask the focused window to open a blank window.
    OpenBlankWindow,
    /// Run the given script in the focused window.
    Execute(String),
    /// Enumerate the handles of the current windows.
    GetHandles,
    /// Name the focused window.
    GetFocused,
    /// Close the focused window.
    DeleteWindow,
    /// End the session.
    DeleteSession,
    /// Stop the backend server.
    Shutdown,
    /// A second, best-effort stop of the backend server.
    Quit,
}

impl Command {
    /// A copy of this command.
    pub fn duplicate(&self) -> (r: Command)
        ensures
            r == *self,
    {
        match self {
            Command::Activate(h) => Command::Activate(h.clone()),
            Command::Navigate(u) => Command::Navigate(u.clone()),
            Command::OpenBlankWindow => Command::OpenBlankWindow,
            Command::Execute(s) => Command::Execute(s.clone()),
            Command::GetHandles => Command::GetHandles,
            Command::GetFocused => Command::GetFocused,
            Command::DeleteWindow => Command::DeleteWindow,
            Command::DeleteSession => Command::DeleteSession,
            Command::Shutdown => Command::Shutdown,
            Command::Quit => Command::Quit,
        }
    }
}

/// What the backend answers to one command.
pub enum Reply {
    /// The command was accepted.
    Ack,
    /// The current window handles, in creation order.
    Handles(Vec<String>),
    /// The focused window's handle.
    Window(String),
    /// The script result: the value the response carried under its result
    /// field, or nothing where the response had no result field at all.
    Value(Option<Json>),
    /// The named window does not exist, or no window is focused.
    NoSuchWindow,
    /// The request never reached the backend.
    TransportFailure,
}

/// Whether some window in `v` has the handle `h`.
pub open spec fn has_handle(v: Seq<String>, h: Seq<char>) -> bool {
    exists|i: int| 0 <= i < v.len() && v[i]@ == h
}

/// The position of the window with handle `h`.
pub open spec fn handle_index(v: Seq<String>, h: Seq<char>) -> int {
    choose|i: int| 0 <= i < v.len() && v[i]@ == h
}

/// Whether no two windows in `v` share a handle.
pub open spec fn distinct_handles(v: Seq<String>) -> bool {
    forall|i: int, j: int| 0 <= i < j < v.len() ==> (#[trigger] v[i])@ != (#[trigger] v[j])@
}

/// The failure script after one command has consumed its entry.
pub open spec fn popped(failures: Seq<bool>) -> Seq<bool> {
    if failures.len() > 0 {
        failures.skip(1)
    } else {
        failures
    }
}

/// Whether the next command fails at the transport.
pub open spec fn next_fails(failures: Seq<bool>) -> bool {
    failures.len() > 0 && failures[0]
}

/// The backend model.
pub struct Backend {
    /// Whether the backend session still exists.
    pub session_alive: bool,
    /// Whether the backend server still accepts stop requests.
    pub server_running: bool,
    /// The open windows' handles, in creation order.
    pub windows: Vec<String>,
    /// The focused window's handle, if any window is focused.
    pub focused: Option<String>,
    /// The handles the backend will assign to windows it opens next, front
    /// first. An empty list models a backend that silently refuses to open
    /// further windows (as a popup blocker would).
    pub fresh: Vec<String>,
    /// How many window-delete commands a page dialog will still absorb
    /// before one goes through.
    pub blocked_deletes: u64,
    /// The value script executions currently return; nothing models a
    /// response that carries no result field.
    pub script_value: Option<Json>,
    /// Which forthcoming commands fail at the transport, front first;
    /// commands beyond the script's end succeed.
    pub failures: Vec<bool>,
    /// Every command the backend has received, in order. A command whose
    /// transport failed never reached the backend and is not received.
    pub log: Vec<Command>,
    /// Every handle the backend has ever assigned to a window.
    pub used: Ghost<Set<Seq<char>>>,
}

/// The set of handles a window list holds.
pub open spec fn handle_set(v: Seq<String>) -> Set<Seq<char>> {
    Set::new(|h: Seq<char>| has_handle(v, h))
}

impl Backend {
    /// Sets up a backend: `windows` exist (their handles are the ones the
    /// backend has assigned so far), `fresh` are the handles it will assign
    /// next, a page dialog will absorb the next `blocked_deletes` deletes,
    /// script executions answer `script_value`, and `failures` says which
    /// forthcoming commands fail at the transport. Handed back only when
    /// the handles are consistent: windows pairwise distinct, handles to
    /// come pairwise distinct and not yet assigned, and the focused window
    /// a current one.
    pub fn new(
        windows: Vec<String>,
        focused: Option<String>,
        fresh: Vec<String>,
        blocked_deletes: u64,
        script_value: Option<Json>,
        failures: Vec<bool>,
    ) -> (r: Option<Backend>)
        ensures
            match r {
                Some(b) => {
                    &&& b.wf()
                    &&& b.session_alive
                    &&& b.server_running
                    &&& b.windows == windows
                    &&& b.focused == focused
                    &&& b.fresh == fresh
                    &&& b.blocked_deletes == blocked_deletes
                    &&& b.script_value == script_value
                    &&& b.failures == failures
                    &&& b.log@ == Seq::<Command>::empty()
                    &&& b.used@ == handle_set(windows@)
                },
                None => !(distinct_handles(windows@) && distinct_handles(fresh@) && (forall|i: int|
                    0 <= i < fresh@.len() ==> !has_handle(windows@, (#[trigger] fresh@[i])@))
                    && match focused {
                    Some(h) => has_handle(windows@, h@),
                    None => true,
                }),
            },
    {
        if !distinct_check(&windows) {
            return None;
        }
        if !distinct_check(&fresh) {
            return None;
        }
        let mut i: usize = 0;
        while i < fresh.len()
            invariant
                0 <= i <= fresh@.len(),
                forall|k: int| 0 <= k < i ==> !has_handle(windows@, (#[trigger] fresh@[k])@),
            decreases fresh@.len() - i,
        {
            if contains_handle(&windows, &fresh[i]) {
                return None;
            }
            i = i + 1;
        }
        match &focused {
            Some(h) => {
                if !contains_handle(&windows, h) {
                    return None;
                }
            },
            None => {},
        }
        let ghost used = handle_set(windows@);
        let b = Backend {
            session_alive: true,
            server_running: true,
            windows,
            focused,
            fresh,
            blocked_deletes,
            script_value,
            failures,
            log: Vec::new(),
            used: Ghost(used),
        };
        proof {
            assert forall|k: int| 0 <= k < b.windows@.len() implies b.used@.contains(
                (#[trigger] b.windows@[k])@,
            ) by {
                assert(has_handle(b.windows@, b.windows@[k]@));
            }
        }
        Some(b)
    }

    /// The backend's own invariant: handles of current windows are
    /// pairwise distinct and were all assigned once; handles yet to be
    /// assigned were never assigned before and are pairwise distinct; the
    /// focused window, if any, is a current window.
    pub open spec fn wf(self) -> bool {
        &&& distinct_handles(self.windows@)
        &&& distinct_handles(self.fresh@)
        &&& forall|i: int|
            0 <= i < self.windows@.len() ==> self.used@.contains(
                (#[trigger] self.windows@[i])@,
            )
        &&& forall|i: int|
            0 <= i < self.fresh@.len() ==> !self.used@.contains((#[trigger] self.fresh@[i])@)
        &&& match self.focused {
            Some(h) => has_handle(self.windows@, h@),
            None => true,
        }
    }

    /// All state except the failure script and the log is the same.
    pub open spec fn same_state(pre: Backend, post: Backend) -> bool {
        &&& post.session_alive == pre.session_alive
        &&& post.server_running == pre.server_running
        &&& post.windows == pre.windows
        &&& post.focused == pre.focused
        &&& post.fresh == pre.fresh
        &&& post.blocked_deletes == pre.blocked_deletes
        &&& post.used == pre.used
    }

    /// What focusing a window does: focus moves to the named window when it
    /// exists, and nothing else changes.
    pub open spec fn activate_sem(pre: Backend, post: Backend, reply: Reply, h: Seq<char>) -> bool {
        if has_handle(pre.windows@, h) {
            &&& reply is Ack
            &&& (post.focused matches Some(f) && f@ == h)
            &&& post.windows == pre.windows
            &&& post.fresh == pre.fresh
            &&& post.blocked_deletes == pre.blocked_deletes
            &&& post.session_alive == pre.session_alive
            &&& post.server_running == pre.server_running
            &&& post.used == pre.used
        } else {
            &&& reply is NoSuchWindow
            &&& Backend::same_state(pre, post)
        }
    }

    /// What a navigation does: it is acknowledged exactly when some window
    /// is focused, and the backend's window state does not change.
    pub open spec fn navigate_sem(pre: Backend, post: Backend, reply: Reply) -> bool {
        &&& Backend::same_state(pre, post)
        &&& if pre.focused is Some {
            reply is Ack
        } else {
            reply is NoSuchWindow
        }
    }

    /// What asking the focused window to open a blank window does: with a
    /// window focused and a handle left to assign, a window with that
    /// never-before-assigned handle appears after all current ones; focus
    /// does not move. With no handle left the command is acknowledged and
    /// no window appears. With no focus the command has no window to run in.
    pub open spec fn open_blank_sem(pre: Backend, post: Backend, reply: Reply) -> bool {
        if pre.focused is None {
            &&& reply is NoSuchWindow
            &&& Backend::same_state(pre, post)
        } else if pre.fresh@.len() == 0 {
            &&& reply is Ack
            &&& Backend::same_state(pre, post)
        } else {
            &&& reply is Ack
            &&& post.windows@ == pre.windows@.push(pre.fresh@[0])
            &&& post.fresh@ == pre.fresh@.skip(1)
            &&& post.used@ == pre.used@.insert(pre.fresh@[0]@)
            &&& post.focused == pre.focused
            &&& post.blocked_deletes == pre.blocked_deletes
            &&& post.session_alive == pre.session_alive
            &&& post.server_running == pre.server_running
        }
    }

    /// What a script execution answers: with a window focused, the current
    /// script result, as it stands; with none, there is no window to run in.
    pub open spec fn execute_sem(pre: Backend, post: Backend, reply: Reply) -> bool {
        &&& Backend::same_state(pre, post)
        &&& if pre.focused is Some {
            match reply {
                Reply::Value(v) => match (v, pre.script_value) {
                    (Some(rv), Some(sv)) => rv@ == sv@,
                    (None, None) => true,
                    _ => false,
                },
                _ => false,
            }
        } else {
            reply is NoSuchWindow
        }
    }

    /// What enumerating handles answers: the current windows' handles,
    /// truthfully and in order.
    pub open spec fn get_handles_sem(pre: Backend, post: Backend, reply: Reply) -> bool {
        &&& Backend::same_state(pre, post)
        &&& (reply matches Reply::Handles(hs) && hs@.len() == pre.windows@.len() && (forall|i: int|
            0 <= i < hs@.len() ==> (#[trigger] hs@[i])@ == pre.windows@[i]@))
    }

    /// What naming the focused window answers.
    pub open spec fn get_focused_sem(pre: Backend, post: Backend, reply: Reply) -> bool {
        &&& Backend::same_state(pre, post)
        &&& match pre.focused {
            Some(f) => reply matches Reply::Window(w) && w@ == f@,
            None => reply is NoSuchWindow,
        }
    }

    /// What a window-delete does. With no focus there is no window to
    /// close. While a page dialog absorbs the command, it is acknowledged
    /// and the window stays. Otherwise the focused window goes away — its
    /// handle disappears from the enumeration — and nothing is focused.
    pub open spec fn delete_window_sem(pre: Backend, post: Backend, reply: Reply) -> bool {
        match pre.focused {
            None => {
                &&& reply is NoSuchWindow
                &&& Backend::same_state(pre, post)
            },
            Some(f) => {
                if pre.blocked_deletes > 0 {
                    &&& reply is Ack
                    &&& post.blocked_deletes == pre.blocked_deletes - 1
                    &&& post.windows == pre.windows
                    &&& post.focused == pre.focused
                    &&& post.fresh == pre.fresh
                    &&& post.session_alive == pre.session_alive
                    &&& post.server_running == pre.server_running
                    &&& post.used == pre.used
                } else {
                    &&& reply is Ack
                    &&& post.windows@ == pre.windows@.remove(handle_index(pre.windows@, f@))
                    &&& !has_handle(post.windows@, f@)
                    &&& forall|h: Seq<char>|
                        h != f@ ==> (has_handle(post.windows@, h) == has_handle(
                            pre.windows@,
                            h,
                        ))
                    &&& post.focused is None
                    &&& post.blocked_deletes == pre.blocked_deletes
                    &&& post.fresh == pre.fresh
                    &&& post.session_alive == pre.session_alive
                    &&& post.server_running == pre.server_running
                    &&& post.used == pre.used
                }
            },
        }
    }

    /// What ending the session does.
    pub open spec fn delete_session_sem(pre: Backend, post: Backend, reply: Reply) -> bool {
        &&& reply is Ack
        &&& !post.session_alive
        &&& post.server_running == pre.server_running
        &&& post.windows == pre.windows
        &&& post.focused == pre.focused
        &&& post.fresh == pre.fresh
        &&& post.blocked_deletes == pre.blocked_deletes
        &&& post.used == pre.used
    }

    /// What a server stop request does.
    pub open spec fn stop_sem(pre: Backend, post: Backend, reply: Reply) -> bool {
        &&& reply is Ack
        &&& !post.server_running
        &&& post.session_alive == pre.session_alive
        &&& post.windows == pre.windows
        &&& post.focused == pre.focused
        &&& post.fresh == pre.fresh
        &&& post.blocked_deletes == pre.blocked_deletes
        &&& post.used == pre.used
    }

    /// What serving `cmd` means, by command.
    pub open spec fn command_sem(pre: Backend, post: Backend, reply: Reply, cmd: Command) -> bool {
        match cmd {
            Command::Activate(h) => Backend::activate_sem(pre, post, reply, h@),
            Command::Navigate(u) => Backend::navigate_sem(pre, post, reply),
            Command::OpenBlankWindow => Backend::open_blank_sem(pre, post, reply),
            Command::Execute(s) => Backend::execute_sem(pre, post, reply),
            Command::GetHandles => Backend::get_handles_sem(pre, post, reply),
            Command::GetFocused => Backend::get_focused_sem(pre, post, reply),
            Command::DeleteWindow => Backend::delete_window_sem(pre, post, reply),
            Command::DeleteSession => Backend::delete_session_sem(pre, post, reply),
            Command::Shutdown => Backend::stop_sem(pre, post, reply),
            Command::Quit => Backend::stop_sem(pre, post, reply),
        }
    }

    /// Serves one command: first the failure script decides whether the
    /// request reaches the backend at all; a request that does is appended
    /// to the received log and served as `command_sem` says.
    pub fn apply(&mut self, cmd: &Command) -> (reply: Reply)
        requires
            old(self).wf(),
        ensures
            final(self).wf(),
            final(self).script_value == old(self).script_value,
            old(self).used@.subset_of(final(self).used@),
            final(self).failures@ == popped(old(self).failures@),
            next_fails(old(self).failures@) ==> reply is TransportFailure && Backend::same_state(
                *old(self),
                *final(self),
            ) && final(self).log == old(self).log,
            !next_fails(old(self).failures@) ==> final(self).log@ == old(self).log@.push(*cmd)
                && Backend::command_sem(*old(self), *final(self), reply, *cmd),
    {
        let fail = if self.failures.len() > 0 {
            let f = self.failures.remove(0);
            f
        } else {
            false
        };
        proof {
            assert(self.failures@ == popped(old(self).failures@));
        }
        if fail {
            return Reply::TransportFailure;
        }
        self.log.push(cmd.duplicate());
        match cmd {
            Command::Activate(h) => {
                if contains_handle(&self.windows, h) {
                    self.focused = Some(h.clone());
                    Reply::Ack
                } else {
                    Reply::NoSuchWindow
                }
            },
            Command::Navigate(u) => {
                if self.focused.is_some() {
                    Reply::Ack
                } else {
                    Reply::NoSuchWindow
                }
            },
            Command::OpenBlankWindow => {
                if self.focused.is_none() {
                    Reply::NoSuchWindow
                } else if self.fresh.len() == 0 {
                    Reply::Ack
                } else {
                    let handle = self.fresh.remove(0);
                    proof {
                        self.used@ = self.used@.insert(handle@);
                    }
                    self.windows.push(handle);
                    proof {
                        assert(self.windows@.drop_last() =~= old(self).windows@);
                    }
                    Reply::Ack
                }
            },
            Command::Execute(s) => {
                if self.focused.is_some() {
                    match &self.script_value {
                        Some(v) => Reply::Value(Some(v.duplicate())),
                        None => Reply::Value(None),
                    }
                } else {
                    Reply::NoSuchWindow
                }
            },
            Command::GetHandles => {
                let hs = clone_handles(&self.windows);
                Reply::Handles(hs)
            },
            Command::GetFocused => {
                match &self.focused {
                    Some(f) => Reply::Window(f.clone()),
                    None => Reply::NoSuchWindow,
                }
            },
            Command::DeleteWindow => {
                let focused = self.focused.take();
                match focused {
                    None => Reply::NoSuchWindow,
                    Some(f) => {
                        if self.blocked_deletes > 0 {
                            self.blocked_deletes = self.blocked_deletes - 1;
                            self.focused = Some(f);
                            Reply::Ack
                        } else {
                            match find_handle(&self.windows, &f) {
                                Some(idx) => {
                                    let removed = self.windows.remove(idx);
                                    proof {
                                        assert(idx as int == handle_index(
                                            old(self).windows@,
                                            f@,
                                        ));
                                        lemma_remove_keeps_distinct(old(self).windows@, idx as int);
                                        lemma_remove_removes_handle(old(self).windows@, idx as int);
                                    }
                                    Reply::Ack
                                },
                                None => {
                                    // wf rules this out: the focused window
                                    // is always a current window.
                                    proof {
                                        assert(false);
                                    }
                                    Reply::NoSuchWindow
                                },
                            }
                        }
                    },
                }
            },
            Command::DeleteSession => {
                self.session_alive = false;
                Reply::Ack
            },
            Command::Shutdown => {
                self.server_running = false;
                Reply::Ack
            },
            Command::Quit => {
                self.server_running = false;
                Reply::Ack
            },
        }
    }
}

/// Whether no two windows in `v` share a handle.
pub fn distinct_check(v: &Vec<String>) -> (r: bool)
    ensures
        r == distinct_handles(v@),
{
    let mut i: usize = 0;
    while i < v.len()
        invariant
            0 <= i <= v@.len(),
            forall|a: int, b: int| 0 <= a < b < i ==> (#[trigger] v@[a])@ != (#[trigger] v@[b])@,
        decreases v@.len() - i,
    {
        let mut j: usize = 0;
        while j < i
            invariant
                0 <= j <= i < v@.len(),
                forall|a: int| 0 <= a < j ==> (#[trigger] v@[a])@ != v@[i as int]@,
            decreases i - j,
        {
            if v[j] == v[i] {
                return false;
            }
            j = j + 1;
        }
        i = i + 1;
    }
    true
}

/// Whether `v` holds a window with handle `h`.
pub fn contains_handle(v: &Vec<String>, h: &String) -> (r: bool)
    ensures
        r == has_handle(v@, h@),
{
    match find_handle(v, h) {
        Some(idx) => true,
        None => false,
    }
}

/// The position of the first window in `v` with handle `h`.
pub fn find_handle(v: &Vec<String>, h: &String) -> (r: Option<usize>)
    ensures
        match r {
            Some(idx) => 0 <= idx < v@.len() && v@[idx as int]@ == h@ && (forall|k: int|
                0 <= k < idx ==> (#[trigger] v@[k])@ != h@),
            None => !has_handle(v@, h@),
        },
{
    let mut i: usize = 0;
    while i < v.len()
        invariant
            0 <= i <= v@.len(),
            forall|k: int| 0 <= k < i ==> (#[trigger] v@[k])@ != h@,
        decreases v@.len() - i,
    {
        if v[i] == *h {
            return Some(i);
        }
        i = i + 1;
    }
    None
}

/// A copy of a handle list.
pub fn clone_handles(v: &Vec<String>) -> (r: Vec<String>)
    ensures
        r.deep_view() == v.deep_view(),
        r@.len() == v@.len(),
        forall|k: int| 0 <= k < v@.len() ==> (#[trigger] r@[k])@ == v@[k]@,
{
    let mut out: Vec<String> = Vec::new();
    let mut i: usize = 0;
    while i < v.len()
        invariant
            0 <= i <= v@.len(),
            out@.len() == i,
            forall|k: int| 0 <= k < i ==> (#[trigger] out@[k])@ == v@[k]@,
        decreases v@.len() - i,
    {
        let s = v[i].clone();
        out.push(s);
        i = i + 1;
    }
    proof {
        assert(out.deep_view() =~= v.deep_view());
    }
    out
}

/// Removing one window keeps the remaining handles pairwise distinct.
proof fn lemma_remove_keeps_distinct(v: Seq<String>, idx: int)
    requires
        distinct_handles(v),
        0 <= idx < v.len(),
    ensures
        distinct_handles(v.remove(idx)),
{
    let w = v.remove(idx);
    assert forall|i: int, j: int| 0 <= i < j < w.len() implies (#[trigger] w[i])@ != (
    #[trigger] w[j])@ by {
        let oi = if i < idx {
            i
        } else {
            i + 1
        };
        let oj = if j < idx {
            j
        } else {
            j + 1
        };
        assert(w[i] == v[oi]);
        assert(w[j] == v[oj]);
    }
}

/// Removing the window with handle `h` removes exactly that handle, when
/// the handles are pairwise distinct.
proof fn lemma_remove_removes_handle(v: Seq<String>, idx: int)
    requires
        distinct_handles(v),
        0 <= idx < v.len(),
    ensures
        !has_handle(v.remove(idx), v[idx]@),
        forall|h: Seq<char>|
            h != v[idx]@ ==> (has_handle(v.remove(idx), h) == has_handle(v, h)),
{
    let w = v.remove(idx);
    let f = v[idx]@;
    assert forall|i: int| 0 <= i < w.len() implies (#[trigger] w[i])@ != f by {
        let oi = if i < idx {
            i
        } else {
            i + 1
        };
        assert(w[i] == v[oi]);
    }
    assert forall|h: Seq<char>| h != f implies (has_handle(w, h) == has_handle(v, h)) by {
        if has_handle(v, h) {
            let oi = choose|i: int| 0 <= i < v.len() && v[i]@ == h;
            if oi < idx {
                assert(w[oi] == v[oi]);
                assert(has_handle(w, h));
            } else {
                assert(oi != idx);
                assert(w[oi - 1] == v[oi]);
                assert(has_handle(w, h));
            }
        }
        if has_handle(w, h) {
            let wi = choose|i: int| 0 <= i < w.len() && w[i]@ == h;
            let oi = if wi < idx {
                wi
            } else {
                wi + 1
            };
            assert(w[wi] == v[oi]);
            assert(has_handle(v, h));
        }
    }
}

} // verus!
