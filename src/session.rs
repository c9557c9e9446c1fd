//! The session registry: one slot that holds the live interactive session,
//! if any, and the choice of shell to launch in it.
//!
//! A session's handle (the pseudoterminal, its writer and the shared output
//! buffer) is whatever the caller opened; the registry decides which session
//! an operation reaches. Creating a session replaces and drops the previous
//! one. Writing to or resizing an empty slot does nothing and succeeds;
//! reading an empty slot fails with `SessionError::NotInitialized`.
//! Destroying clears the slot, whether or not it held a session.
use vstd::prelude::*;
use crate::ids::{is_uuid_v4_text, new_uuid};

verus! {

/// Why a session operation failed.
pub enum SessionError {
    /// No session is open.
    NotInitialized,
}

/// A live session: its identifier and the caller's handle on it.
pub struct ActiveSession<H> {
    pub id: String,
    pub handle: H,
}

/// The slot as contracts see it: the identifier and handle of the session it
/// holds, if any.
pub type Slot<H> = Option<(Seq<char>, H)>;

/// The slot after a session with identifier `id` and handle `h` is created.
pub open spec fn after_create<H>(slot: Slot<H>, id: Seq<char>, h: H) -> Slot<H> {
    Some((id, h))
}

/// The slot after it is destroyed.
pub open spec fn after_destroy<H>(slot: Slot<H>) -> Slot<H> {
    None
}

/// The session that operations on the slot reach, if there is one.
pub open spec fn current<H>(slot: Slot<H>) -> Option<H> {
    match slot {
        Some(p) => Some(p.1),
        None => None,
    }
}

/// Holds at most one live session.
pub struct SessionRegistry<H> {
    slot: Option<ActiveSession<H>>,
}

impl<H> View for SessionRegistry<H> {
    type V = Slot<H>;

    closed spec fn view(&self) -> Slot<H> {
        match self.slot {
            Some(s) => Some((s.id@, s.handle)),
            None => None,
        }
    }
}

impl<H> SessionRegistry<H> {
    /// An empty registry.
    pub fn new() -> (r: Self)
        ensures
            r@ is None,
    {
        SessionRegistry { slot: None }
    }

    /// Stores `handle` as the live session under a fresh identifier, which
    /// is returned. A session that was there before is dropped.
    pub fn create(&mut self, handle: H) -> (id: String)
        ensures
            final(self)@ == after_create(old(self)@, id@, handle),
            is_uuid_v4_text(id@),
    {
        let id = new_uuid();
        self.slot = Some(ActiveSession { id: id.clone(), handle });
        id
    }

    /// Drops the live session, if any, and leaves the slot empty.
    pub fn destroy(&mut self)
        ensures
            final(self)@ == after_destroy(old(self)@),
    {
        self.slot = None;
    }

    /// The session that writes and resizes reach; none means that they do
    /// nothing and succeed.
    pub fn active(&self) -> (r: Option<&H>)
        ensures
            match current(self@) {
                Some(h) => r matches Some(x) && *x == h,
                None => r is None,
            },
    {
        match &self.slot {
            Some(s) => Some(&s.handle),
            None => None,
        }
    }

    /// The session that a read reaches, or `SessionError::NotInitialized`
    /// when the slot is empty.
    pub fn reading(&self) -> (r: Result<&H, SessionError>)
        ensures
            match current(self@) {
                Some(h) => r matches Ok(x) && *x == h,
                None => r matches Err(SessionError::NotInitialized),
            },
    {
        match &self.slot {
            Some(s) => Ok(&s.handle),
            None => Err(SessionError::NotInitialized),
        }
    }

    /// The identifier of the live session, if any.
    pub fn current_id(&self) -> (r: Option<&String>)
        ensures
            match self@ {
                Some(p) => r matches Some(x) && x@ == p.0,
                None => r is None,
            },
    {
        match &self.slot {
            Some(s) => Some(&s.id),
            None => None,
        }
    }
}

/// Destroying is idempotent: destroying twice leaves the slot as empty as
/// destroying once, and a read then finds no session.
pub proof fn lemma_destroy_twice<H>(slot: Slot<H>)
    ensures
        after_destroy(after_destroy(slot)) == after_destroy(slot),
        after_destroy(after_destroy(slot)) is None,
        current(after_destroy(after_destroy(slot))) is None,
{
}

/// After two creations in a row, operations reach the second session and
/// not the first.
pub proof fn lemma_second_create_wins<H>(slot: Slot<H>, id1: Seq<char>, h1: H, id2: Seq<char>, h2: H)
    ensures
        current(after_create(after_create(slot, id1, h1), id2, h2)) == Some(h2),
        after_create(after_create(slot, id1, h1), id2, h2) == Some((id2, h2)),
{
}

/// The shell to launch in a new session.
///
/// On Windows: the command interpreter named by `COMSPEC`, else
/// `powershell.exe` where `PSModulePath` is set, else `cmd.exe`. Elsewhere:
/// the user's `SHELL`, else `/bin/bash`.
pub open spec fn shell_spec(
    windows: bool,
    comspec: Option<Seq<char>>,
    ps_module_path_set: bool,
    shell: Option<Seq<char>>,
) -> Seq<char> {
    if windows {
        match comspec {
            Some(c) => c,
            None => if ps_module_path_set {
                "powershell.exe"@
            } else {
                "cmd.exe"@
            },
        }
    } else {
        match shell {
            Some(s) => s,
            None => "/bin/bash"@,
        }
    }
}

/// Chooses the shell to launch from the platform and the environment
/// settings that override it.
pub fn default_shell(
    windows: bool,
    comspec: Option<String>,
    ps_module_path_set: bool,
    shell: Option<String>,
) -> (r: String)
    ensures
        r@ == shell_spec(
            windows,
            match comspec {
                Some(c) => Some(c@),
                None => None,
            },
            ps_module_path_set,
            match shell {
                Some(s) => Some(s@),
                None => None,
            },
        ),
{
    if windows {
        match comspec {
            Some(c) => c,
            None => if ps_module_path_set {
                String::from_str("powershell.exe")
            } else {
                String::from_str("cmd.exe")
            },
        }
    } else {
        match shell {
            Some(s) => s,
            None => String::from_str("/bin/bash"),
        }
    }
}

} // verus!
