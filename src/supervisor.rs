//! Decisions of the engine process supervisor. The runtime owns the child
//! process; this state machine says when to spawn and kill it, and whether a
//! termination was asked for.
use vstd::prelude::*;
use crate::message::ConfigMsg;
use crate::text::{contains_spec, contains_text, find_text, occurs_at};
use crate::ui::CoreStatus;

verus! {

/// Lifecycle notices of the engine process.
#[derive(Debug, Clone, Copy, PartialEq, Eq)]
pub enum CoreMessage {
    Starting,
    Started,
    Stopping,
    Stopped,
}

/// The supervisor's state: the running child's process id, the asset
/// folder it is started with, and whether its termination was asked for.
#[derive(Debug, PartialEq)]
pub struct VCore {
    pub child: Option<u32>,
    pub asset_path: String,
    pub shutdown: bool,
}

/// A restart: kill this process, then spawn a new one with this path.
#[derive(Debug, Clone, PartialEq)]
pub struct Respawn {
    pub kill: u32,
    pub path: String,
}

impl VCore {
    /// No process, no asset folder yet.
    pub fn build() -> (r: VCore)
        ensures
            r.child is None,
            r.asset_path@.len() == 0,
            !r.shutdown,
    {
        VCore { child: None, asset_path: String::new(), shutdown: false }
    }

    /// Starts supervising with `asset_path`; the returned path is the one to
    /// spawn the engine with.
    pub fn init(&mut self, asset_path: String) -> (r: String)
        ensures
            *final(self) == (VCore { asset_path, shutdown: false, ..*old(self) }),
            r == asset_path,
    {
        let r = asset_path.clone();
        self.asset_path = asset_path;
        self.shutdown = false;
        r
    }

    /// Records the process that was spawned. Its termination has not been
    /// asked for, so the shutdown flag is cleared.
    pub fn spawned(&mut self, pid: u32)
        ensures
            *final(self) == (VCore { child: Some(pid), shutdown: false, ..*old(self) }),
    {
        self.child = Some(pid);
        self.shutdown = false;
    }

    /// Plans a restart. With no process running there is nothing to do and
    /// nothing changes. Otherwise the process is given up, its termination
    /// is marked as asked for, and it is to be killed and spawned again with
    /// the same asset folder.
    pub fn restart(&mut self) -> (r: Option<Respawn>)
        ensures
            old(self).child is None ==> r is None && *final(self) == *old(self),
            old(self).child matches Some(pid) ==> r == Some(
                Respawn { kill: pid, path: old(self).asset_path },
            ) && *final(self) == (VCore { child: None, shutdown: true, ..*old(self) }),
    {
        match self.child.take() {
            Some(pid) => {
                self.shutdown = true;
                Some(Respawn { kill: pid, path: self.asset_path.clone() })
            },
            None => None,
        }
    }

    /// Plans a shutdown: the termination is marked as asked for, and the
    /// running process, if any, is given up to be killed.
    pub fn exit(&mut self) -> (r: Option<u32>)
        ensures
            r == old(self).child,
            *final(self) == (VCore { child: None, shutdown: true, ..*old(self) }),
    {
        self.shutdown = true;
        self.child.take()
    }

    /// What a termination of the engine process means: nothing when it was
    /// asked for, a stop to report otherwise.
    pub fn on_terminated(&self) -> (r: Option<ConfigMsg>)
        ensures
            self.shutdown ==> r is None,
            !self.shutdown ==> r == Some(ConfigMsg::CoreStatus(CoreStatus::Stopped)),
    {
        if self.shutdown {
            None
        } else {
            Some(ConfigMsg::CoreStatus(CoreStatus::Stopped))
        }
    }
}

/// What a line of the engine's standard output announces: it has started
/// when the line says so.
pub fn classify_output(line: &str) -> (r: Option<CoreMessage>)
    ensures
        r is Some <==> contains_spec(line@, "started"@),
        r matches Some(m) ==> m == CoreMessage::Started,
{
    if contains_text(line, "started") {
        Some(CoreMessage::Started)
    } else {
        None
    }
}

/// The first position of a space in `s`, if any.
pub open spec fn first_space(s: Seq<char>, k: int) -> bool {
    occurs_at(s, " "@, k) && forall|j: int| 0 <= j < k ==> !occurs_at(s, " "@, j)
}

/// The second space-separated field of the engine's version output, or
/// "0.0" when there is no space.
pub open spec fn version_field(s: Seq<char>) -> Seq<char> {
    if !contains_spec(s, " "@) {
        "0.0"@
    } else {
        let a = choose|a: int| first_space(s, a);
        let rest = s.subrange(a + 1, s.len() as int);
        if contains_spec(rest, " "@) {
            rest.subrange(0, choose|b: int| first_space(rest, b))
        } else {
            rest
        }
    }
}

/// The first space is the only first one.
proof fn lemma_first_space_unique(s: Seq<char>, k: int)
    requires
        first_space(s, k),
    ensures
        (choose|m: int| first_space(s, m)) == k,
{
    let m = choose|m: int| first_space(s, m);
    assert(first_space(s, m));
    if m < k {
        assert(!occurs_at(s, " "@, m));
    } else if k < m {
        assert(!occurs_at(s, " "@, k));
    }
}

/// Reads the engine version out of the output of its `version` command.
pub fn version_from_output(stdout: &str) -> (r: String)
    ensures
        r@ == version_field(stdout@),
{
    let a = match find_text(stdout, " ") {
        Some(a) => a,
        None => {
            return "0.0".to_owned();
        },
    };
    proof {
        reveal_strlit(" ");
        lemma_first_space_unique(stdout@, a as int);
    }
    let n = stdout.unicode_len();
    let rest = stdout.substring_char(a + 1, n);
    match find_text(rest, " ") {
        Some(b) => {
            proof {
                lemma_first_space_unique(rest@, b as int);
            }
            rest.substring_char(0, b).to_owned()
        },
        None => rest.to_owned(),
    }
}

} // verus!
