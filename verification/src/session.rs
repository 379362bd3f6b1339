//! The permissions of a session.
use crate::text::texts;
use vstd::prelude::*;
use vstd::string::*;

verus! {

/// A class of operations that a session can be allowed to perform.
#[derive(Clone, Copy, Debug, PartialEq, Eq, Structural)]
pub enum Permission {
    Read,
    Write,
    Delete,
}

impl Permission {
    /// The label under which the permission is granted.
    pub open spec fn label(self) -> Seq<char> {
        match self {
            Permission::Read => "read"@,
            Permission::Write => "write"@,
            Permission::Delete => "delete"@,
        }
    }

    /// The message for a request that lacks the permission.
    pub open spec fn denial(self) -> Seq<char> {
        match self {
            Permission::Read => "Read permission denied"@,
            Permission::Write => "Write permission denied"@,
            Permission::Delete => "Delete permission denied"@,
        }
    }

    /// The label as text.
    pub fn name(self) -> (r: &'static str)
        ensures
            r@ == self.label(),
    {
        match self {
            Permission::Read => "read",
            Permission::Write => "write",
            Permission::Delete => "delete",
        }
    }

    /// The denial as text.
    pub fn denial_message(self) -> (r: &'static str)
        ensures
            r@ == self.denial(),
    {
        match self {
            Permission::Read => "Read permission denied",
            Permission::Write => "Write permission denied",
            Permission::Delete => "Delete permission denied",
        }
    }
}

/// The labels that a session has when no usable configuration was supplied:
/// the least powerful permission only.
pub open spec fn default_labels() -> Seq<Seq<char>> {
    seq![Permission::Read.label()]
}

/// The labels of a session made from `config`.
pub open spec fn initial_labels(config: Option<Seq<Seq<char>>>) -> Seq<Seq<char>> {
    match config {
        Some(labels) => labels,
        None => default_labels(),
    }
}

/// The permissions granted for the lifetime of a session. The labels are
/// kept as they were supplied; only membership matters.
#[derive(Clone, Debug, PartialEq, Eq)]
pub struct SessionState {
    pub permissions: Vec<String>,
}

impl View for SessionState {
    type V = Seq<Seq<char>>;

    open spec fn view(&self) -> Seq<Seq<char>> {
        texts(self.permissions@)
    }
}

impl SessionState {
    /// Whether the session's labels include that of `permission`.
    pub open spec fn granted(&self, permission: Permission) -> bool {
        self@.contains(permission.label())
    }

    /// The state with which a session starts. `config` holds the labels that
    /// the caller supplied, or `None` where it supplied none that could be
    /// read; the session then gets the default.
    pub fn init(config: Option<Vec<String>>) -> (r: SessionState)
        ensures
            r@ == initial_labels(
                match config {
                    Some(list) => Some(texts(list@)),
                    None => None,
                },
            ),
    {
        match config {
            Some(list) => SessionState { permissions: list },
            None => {
                let mut permissions: Vec<String> = Vec::new();
                permissions.push(String::from_str(Permission::Read.name()));
                let r = SessionState { permissions };
                assert(r@ =~= default_labels());
                r
            },
        }
    }

    /// Whether `permission` is granted.
    pub fn grants(&self, permission: Permission) -> (r: bool)
        ensures
            r == self.granted(permission),
    {
        let wanted: String = String::from_str(permission.name());
        let mut i: usize = 0;
        while i < self.permissions.len()
            invariant
                i <= self.permissions.len(),
                wanted@ == permission.label(),
                forall|j: int| 0 <= j < i ==> self@[j] != permission.label(),
            decreases self.permissions.len() - i,
        {
            if self.permissions[i] == wanted {
                assert(self@[i as int] == permission.label());
                return true;
            }
            i = i + 1;
        }
        false
    }
}

} // verus!
