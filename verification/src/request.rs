//! Operation requests and the operations they can name.
use crate::session::Permission;
use vstd::prelude::*;
use vstd::string::*;

verus! {

/// One filesystem action that a caller wants performed.
#[derive(Clone, Debug, PartialEq, Eq)]
pub struct OperationRequest {
    pub operation: String,
    pub path: String,
    pub content: Option<String>,
    pub old_text: Option<String>,
    pub new_text: Option<String>,
}

/// What an `OperationRequest` holds.
pub ghost struct RequestModel {
    pub operation: Seq<char>,
    pub path: Seq<char>,
    pub content: Option<Seq<char>>,
    pub old_text: Option<Seq<char>>,
    pub new_text: Option<Seq<char>>,
}

/// The text of an optional string.
pub open spec fn optional_text(s: Option<String>) -> Option<Seq<char>> {
    match s {
        Some(s) => Some(s@),
        None => None,
    }
}

impl View for OperationRequest {
    type V = RequestModel;

    open spec fn view(&self) -> RequestModel {
        RequestModel {
            operation: self.operation@,
            path: self.path@,
            content: optional_text(self.content),
            old_text: optional_text(self.old_text),
            new_text: optional_text(self.new_text),
        }
    }
}

/// The operations that the dispatcher knows.
#[derive(Clone, Copy, Debug, PartialEq, Eq, Structural)]
pub enum Operation {
    ReadFile,
    ListFiles,
    WriteFile,
    CreateDir,
    DeleteDir,
    DeleteFile,
    EditFile,
}

impl Operation {
    /// The operation that a request names with `name`, if any.
    pub open spec fn named(name: Seq<char>) -> Option<Operation> {
        if name == "read-file"@ {
            Some(Operation::ReadFile)
        } else if name == "list-files"@ {
            Some(Operation::ListFiles)
        } else if name == "write-file"@ {
            Some(Operation::WriteFile)
        } else if name == "create-dir"@ {
            Some(Operation::CreateDir)
        } else if name == "delete-dir"@ {
            Some(Operation::DeleteDir)
        } else if name == "delete-file"@ {
            Some(Operation::DeleteFile)
        } else if name == "edit-file"@ {
            Some(Operation::EditFile)
        } else {
            None
        }
    }

    /// The permission without which the operation is refused.
    pub open spec fn required(self) -> Permission {
        match self {
            Operation::ReadFile | Operation::ListFiles => Permission::Read,
            Operation::WriteFile | Operation::CreateDir | Operation::EditFile => Permission::Write,
            Operation::DeleteDir | Operation::DeleteFile => Permission::Delete,
        }
    }

    /// Whether the operation is open to messages that expect no reply.
    pub open spec fn one_way(self) -> bool {
        match self {
            Operation::WriteFile
            | Operation::CreateDir
            | Operation::DeleteDir
            | Operation::DeleteFile => true,
            _ => false,
        }
    }

    /// Reads the name of an operation.
    pub fn parse(name: &str) -> (r: Option<Operation>)
        ensures
            r == Operation::named(name@),
    {
        let name: String = String::from_str(name);
        if name == String::from_str("read-file") {
            Some(Operation::ReadFile)
        } else if name == String::from_str("list-files") {
            Some(Operation::ListFiles)
        } else if name == String::from_str("write-file") {
            Some(Operation::WriteFile)
        } else if name == String::from_str("create-dir") {
            Some(Operation::CreateDir)
        } else if name == String::from_str("delete-dir") {
            Some(Operation::DeleteDir)
        } else if name == String::from_str("delete-file") {
            Some(Operation::DeleteFile)
        } else if name == String::from_str("edit-file") {
            Some(Operation::EditFile)
        } else {
            None
        }
    }

    /// The permission that the operation requires.
    pub fn required_permission(self) -> (r: Permission)
        ensures
            r == self.required(),
    {
        match self {
            Operation::ReadFile | Operation::ListFiles => Permission::Read,
            Operation::WriteFile | Operation::CreateDir | Operation::EditFile => Permission::Write,
            Operation::DeleteDir | Operation::DeleteFile => Permission::Delete,
        }
    }

    /// Whether a message that expects no reply may ask for the operation.
    pub fn is_one_way(self) -> (r: bool)
        ensures
            r == self.one_way(),
    {
        match self {
            Operation::WriteFile
            | Operation::CreateDir
            | Operation::DeleteDir
            | Operation::DeleteFile => true,
            _ => false,
        }
    }
}

} // verus!
