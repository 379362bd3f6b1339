//! The dispatcher: from a session's permissions and a request to the
//! filesystem call that has to be made, and from the outcome of that call to
//! the result.
//!
//! The caller performs the calls. It starts with `handle_request`; where the
//! action is not a reply it performs the call that the action names and
//! hands the outcome to `after_read`, `after_list` or `after_change`. A
//! request leads to two calls at most: an edit reads the file and then, by
//! what `after_read` says, writes it back.
use crate::request::{Operation, OperationRequest, RequestModel};
use crate::response::{OperationResult, Payload, PayloadModel, ResultModel};
use crate::session::SessionState;
use crate::text::{replace_all, replace_text, texts};
use vstd::prelude::*;
use vstd::string::*;
use vstd::utf8::{decode_utf8, valid_utf8};

verus! {

/// A call that changes the filesystem.
#[derive(Clone, Debug, PartialEq, Eq)]
pub enum Change {
    /// Overwrite the file at `path` with `content`.
    WriteFile { path: String, content: String },
    /// Overwrite the file at `path` with `content`, the result of an edit.
    WriteEdited { path: String, content: String },
    /// Create the directory at `path`.
    CreateDir { path: String },
    /// Remove the directory at `path`.
    DeleteDir { path: String },
    /// Remove the file at `path`.
    DeleteFile { path: String },
}

/// What a `Change` holds.
pub ghost enum ChangeModel {
    WriteFile { path: Seq<char>, content: Seq<char> },
    WriteEdited { path: Seq<char>, content: Seq<char> },
    CreateDir { path: Seq<char> },
    DeleteDir { path: Seq<char> },
    DeleteFile { path: Seq<char> },
}

impl View for Change {
    type V = ChangeModel;

    open spec fn view(&self) -> ChangeModel {
        match self {
            Change::WriteFile { path, content } => ChangeModel::WriteFile {
                path: path@,
                content: content@,
            },
            Change::WriteEdited { path, content } => ChangeModel::WriteEdited {
                path: path@,
                content: content@,
            },
            Change::CreateDir { path } => ChangeModel::CreateDir { path: path@ },
            Change::DeleteDir { path } => ChangeModel::DeleteDir { path: path@ },
            Change::DeleteFile { path } => ChangeModel::DeleteFile { path: path@ },
        }
    }
}

/// Why a file is read.
#[derive(Clone, Debug, PartialEq, Eq)]
pub enum ReadPurpose {
    /// To hand its content back.
    Show,
    /// To replace `old_text` by `new_text` in it.
    Edit { old_text: String, new_text: String },
}

/// What a `ReadPurpose` holds.
pub ghost enum ReadPurposeModel {
    Show,
    Edit { old_text: Seq<char>, new_text: Seq<char> },
}

impl View for ReadPurpose {
    type V = ReadPurposeModel;

    open spec fn view(&self) -> ReadPurposeModel {
        match self {
            ReadPurpose::Show => ReadPurposeModel::Show,
            ReadPurpose::Edit { old_text, new_text } => ReadPurposeModel::Edit {
                old_text: old_text@,
                new_text: new_text@,
            },
        }
    }
}

/// What the caller has to do next.
#[derive(Clone, Debug, PartialEq, Eq)]
pub enum Action {
    /// Report the result; the request is finished.
    Reply(OperationResult),
    /// Read the file at `path` and go on with `after_read`.
    ReadFile { path: String, purpose: ReadPurpose },
    /// List the entries at `path` and go on with `after_list`.
    ListFiles { path: String },
    /// Make the change and go on with `after_change`.
    Apply { change: Change },
}

/// What an `Action` holds.
pub ghost enum ActionModel {
    Reply(ResultModel),
    ReadFile { path: Seq<char>, purpose: ReadPurposeModel },
    ListFiles { path: Seq<char> },
    Apply { change: ChangeModel },
}

impl View for Action {
    type V = ActionModel;

    open spec fn view(&self) -> ActionModel {
        match self {
            Action::Reply(result) => ActionModel::Reply(result@),
            Action::ReadFile { path, purpose } => ActionModel::ReadFile {
                path: path@,
                purpose: purpose@,
            },
            Action::ListFiles { path } => ActionModel::ListFiles { path: path@ },
            Action::Apply { change } => ActionModel::Apply { change: change@ },
        }
    }
}

/// What the caller has to do after it has read a file.
#[derive(Clone, Debug, PartialEq, Eq)]
pub enum Continuation {
    /// Report the result; the request is finished.
    Reply(OperationResult),
    /// Make the change and go on with `after_change`.
    Apply { change: Change },
}

/// What a `Continuation` holds.
pub ghost enum ContinuationModel {
    Reply(ResultModel),
    Apply { change: ChangeModel },
}

impl View for Continuation {
    type V = ContinuationModel;

    open spec fn view(&self) -> ContinuationModel {
        match self {
            Continuation::Reply(result) => ContinuationModel::Reply(result@),
            Continuation::Apply { change } => ContinuationModel::Apply { change: change@ },
        }
    }
}

/// What the filesystem answers to the calls that the handling of one request
/// can lead to.
pub ghost struct Answers {
    pub read: Result<Seq<u8>, Seq<char>>,
    pub list: Result<Seq<Seq<char>>, Seq<char>>,
    pub change: Result<(), Seq<char>>,
}

/// What a parsed message holds: the request, or the reason why none could be
/// read from it.
pub open spec fn parsed_model(parsed: Result<OperationRequest, String>) -> Result<
    RequestModel,
    Seq<char>,
> {
    match parsed {
        Ok(request) => Ok(request@),
        Err(detail) => Err(detail@),
    }
}

/// What the outcome of reading a file holds.
pub open spec fn read_model(outcome: Result<Vec<u8>, String>) -> Result<Seq<u8>, Seq<char>> {
    match outcome {
        Ok(bytes) => Ok(bytes@),
        Err(detail) => Err(detail@),
    }
}

/// What the outcome of reading a file as text holds.
pub open spec fn text_model(outcome: Result<String, String>) -> Result<Seq<char>, Seq<char>> {
    match outcome {
        Ok(text) => Ok(text@),
        Err(detail) => Err(detail@),
    }
}

/// What the outcome of listing a directory holds.
pub open spec fn list_model(outcome: Result<Vec<String>, String>) -> Result<
    Seq<Seq<char>>,
    Seq<char>,
> {
    match outcome {
        Ok(names) => Ok(texts(names@)),
        Err(detail) => Err(detail@),
    }
}

/// What the outcome of a change holds.
pub open spec fn change_model(outcome: Result<(), String>) -> Result<(), Seq<char>> {
    match outcome {
        Ok(_) => Ok(()),
        Err(detail) => Err(detail@),
    }
}

/// The text that `String::from_utf8_lossy` makes of `bytes`.
pub uninterp spec fn lossy_text(bytes: Seq<u8>) -> Seq<char>;

/// Calls `String::from_utf8_lossy`. The text it returns depends on the bytes
/// alone, and for bytes that are valid UTF-8 it is the text they encode.
#[verifier::external_body]
fn decode_lossy(bytes: &Vec<u8>) -> (r: String)
    ensures
        r@ == lossy_text(bytes@),
        valid_utf8(bytes@) ==> r@ == decode_utf8(bytes@),
{
    String::from_utf8_lossy(bytes).into_owned()
}

/// The action with which the handling of a message starts.
pub open spec fn first_action(
    labels: Seq<Seq<char>>,
    parsed: Result<RequestModel, Seq<char>>,
) -> ActionModel {
    match parsed {
        Err(detail) => ActionModel::Reply(
            ResultModel::failed("Invalid request format: "@ + detail),
        ),
        Ok(request) => match Operation::named(request.operation) {
            None => ActionModel::Reply(
                ResultModel::failed("Operation not supported for request type"@),
            ),
            Some(operation) => if !labels.contains(operation.required().label()) {
                ActionModel::Reply(ResultModel::failed(operation.required().denial()))
            } else {
                permitted_action(operation, request)
            },
        },
    }
}

/// The action for a request whose operation the session is allowed.
pub open spec fn permitted_action(operation: Operation, request: RequestModel) -> ActionModel {
    match operation {
        Operation::ReadFile => ActionModel::ReadFile {
            path: request.path,
            purpose: ReadPurposeModel::Show,
        },
        Operation::ListFiles => ActionModel::ListFiles { path: request.path },
        Operation::WriteFile => match request.content {
            Some(content) => ActionModel::Apply {
                change: ChangeModel::WriteFile { path: request.path, content },
            },
            None => ActionModel::Reply(ResultModel::failed("Content not provided"@)),
        },
        Operation::CreateDir => ActionModel::Apply {
            change: ChangeModel::CreateDir { path: request.path },
        },
        Operation::DeleteDir => ActionModel::Apply {
            change: ChangeModel::DeleteDir { path: request.path },
        },
        Operation::DeleteFile => ActionModel::Apply {
            change: ChangeModel::DeleteFile { path: request.path },
        },
        Operation::EditFile => match (request.old_text, request.new_text) {
            (Some(old_text), Some(new_text)) => ActionModel::ReadFile {
                path: request.path,
                purpose: ReadPurposeModel::Edit { old_text, new_text },
            },
            _ => ActionModel::Reply(
                ResultModel::failed("Both old_text and new_text must be provided"@),
            ),
        },
    }
}

/// What follows the reading of the file at `path`, of which `outcome` holds
/// the text.
pub open spec fn step_after_text(
    path: Seq<char>,
    purpose: ReadPurposeModel,
    outcome: Result<Seq<char>, Seq<char>>,
) -> ContinuationModel {
    match purpose {
        ReadPurposeModel::Show => match outcome {
            Ok(text) => ContinuationModel::Reply(ResultModel::with_data(PayloadModel::Text(text))),
            Err(detail) => ContinuationModel::Reply(
                ResultModel::failed("Failed to read file: "@ + detail),
            ),
        },
        ReadPurposeModel::Edit { old_text, new_text } => match outcome {
            Ok(text) => ContinuationModel::Apply {
                change: ChangeModel::WriteEdited {
                    path,
                    content: replace_all(text, old_text, new_text),
                },
            },
            Err(detail) => ContinuationModel::Reply(
                ResultModel::failed("Failed to read file for editing: "@ + detail),
            ),
        },
    }
}

/// The text of what was read, where the file could be read.
pub open spec fn text_read(outcome: Result<Seq<u8>, Seq<char>>) -> Result<Seq<char>, Seq<char>> {
    match outcome {
        Ok(bytes) => Ok(lossy_text(bytes)),
        Err(detail) => Err(detail),
    }
}

/// What follows the reading of the file at `path`.
pub open spec fn step_after_read(
    path: Seq<char>,
    purpose: ReadPurposeModel,
    outcome: Result<Seq<u8>, Seq<char>>,
) -> ContinuationModel {
    step_after_text(path, purpose, text_read(outcome))
}

/// The result that follows the listing of a directory.
pub open spec fn result_after_list(outcome: Result<Seq<Seq<char>>, Seq<char>>) -> ResultModel {
    match outcome {
        Ok(names) => ResultModel::with_data(PayloadModel::Names(names)),
        Err(detail) => ResultModel::failed("Failed to list files: "@ + detail),
    }
}

/// The words that stand before the collaborator's own when `change` failed.
pub open spec fn failure_prefix(change: ChangeModel) -> Seq<char> {
    match change {
        ChangeModel::WriteFile { .. } => "Failed to write file: "@,
        ChangeModel::WriteEdited { .. } => "Failed to write edited file: "@,
        ChangeModel::CreateDir { .. } => "Failed to create directory: "@,
        ChangeModel::DeleteDir { .. } => "Failed to delete directory: "@,
        ChangeModel::DeleteFile { .. } => "Failed to delete file: "@,
    }
}

/// The result that follows a change.
pub open spec fn result_after_change(
    change: ChangeModel,
    outcome: Result<(), Seq<char>>,
) -> ResultModel {
    match outcome {
        Ok(_) => ResultModel::done(),
        Err(detail) => ResultModel::failed(failure_prefix(change) + detail),
    }
}

/// The change that a message asks for which expects no reply, if it asks for
/// one that is made.
pub open spec fn one_way_change(
    labels: Seq<Seq<char>>,
    parsed: Result<RequestModel, Seq<char>>,
) -> Option<ChangeModel> {
    match parsed {
        Err(_) => None,
        Ok(request) => match Operation::named(request.operation) {
            Some(operation) if operation.one_way() => match first_action(labels, parsed) {
                ActionModel::Apply { change } => Some(change),
                _ => None,
            },
            _ => None,
        },
    }
}

/// The change that the handling of a request leads to, if it leads to one.
pub open spec fn change_of(
    labels: Seq<Seq<char>>,
    parsed: Result<RequestModel, Seq<char>>,
    answers: Answers,
) -> Option<ChangeModel> {
    match first_action(labels, parsed) {
        ActionModel::Apply { change } => Some(change),
        ActionModel::ReadFile { path, purpose } => match step_after_read(
            path,
            purpose,
            answers.read,
        ) {
            ContinuationModel::Apply { change } => Some(change),
            ContinuationModel::Reply(_) => None,
        },
        _ => None,
    }
}

/// The result in which the handling of a request ends.
pub open spec fn outcome_of(
    labels: Seq<Seq<char>>,
    parsed: Result<RequestModel, Seq<char>>,
    answers: Answers,
) -> ResultModel {
    match first_action(labels, parsed) {
        ActionModel::Reply(result) => result,
        ActionModel::ListFiles { .. } => result_after_list(answers.list),
        ActionModel::Apply { change } => result_after_change(change, answers.change),
        ActionModel::ReadFile { path, purpose } => match step_after_read(
            path,
            purpose,
            answers.read,
        ) {
            ContinuationModel::Reply(result) => result,
            ContinuationModel::Apply { change } => result_after_change(change, answers.change),
        },
    }
}

fn permitted(operation: Operation, request: OperationRequest) -> (r: Action)
    ensures
        r@ == permitted_action(operation, request@),
{
    let OperationRequest { operation: _, path, content, old_text, new_text } = request;
    match operation {
        Operation::ReadFile => Action::ReadFile { path, purpose: ReadPurpose::Show },
        Operation::ListFiles => Action::ListFiles { path },
        Operation::WriteFile => match content {
            Some(content) => Action::Apply { change: Change::WriteFile { path, content } },
            None => Action::Reply(OperationResult::failed("Content not provided")),
        },
        Operation::CreateDir => Action::Apply { change: Change::CreateDir { path } },
        Operation::DeleteDir => Action::Apply { change: Change::DeleteDir { path } },
        Operation::DeleteFile => Action::Apply { change: Change::DeleteFile { path } },
        Operation::EditFile => match (old_text, new_text) {
            (Some(old_text), Some(new_text)) => Action::ReadFile {
                path,
                purpose: ReadPurpose::Edit { old_text, new_text },
            },
            _ => Action::Reply(
                OperationResult::failed("Both old_text and new_text must be provided"),
            ),
        },
    }
}

fn authorize(state: &SessionState, request: OperationRequest) -> (r: Action)
    ensures
        r@ == first_action(state@, Ok(request@)),
{
    match Operation::parse(request.operation.as_str()) {
        None => Action::Reply(OperationResult::failed("Operation not supported for request type")),
        Some(operation) => {
            let needed = operation.required_permission();
            if !state.grants(needed) {
                Action::Reply(OperationResult::failed(needed.denial_message()))
            } else {
                permitted(operation, request)
            }
        },
    }
}

/// Starts the handling of a message that expects a reply. `parsed` is the
/// request read from the message, or the reason why none could be read.
/// The state is handed back as it came.
pub fn handle_request(state: SessionState, parsed: Result<OperationRequest, String>) -> (r: (
    Action,
    SessionState,
))
    ensures
        r.0@ == first_action(state@, parsed_model(parsed)),
        r.1 == state,
{
    let action = match parsed {
        Err(detail) => Action::Reply(
            OperationResult::failed_with("Invalid request format: ", detail.as_str()),
        ),
        Ok(request) => authorize(&state, request),
    };
    (action, state)
}

/// Goes on after the file at `path` was read for `purpose`, with the text of
/// the file in place of its bytes.
pub fn after_text(path: String, purpose: ReadPurpose, outcome: Result<String, String>) -> (r:
    Continuation)
    ensures
        r@ == step_after_text(path@, purpose@, text_model(outcome)),
{
    match purpose {
        ReadPurpose::Show => match outcome {
            Ok(text) => Continuation::Reply(OperationResult::with_data(Payload::Text(text))),
            Err(detail) => Continuation::Reply(
                OperationResult::failed_with("Failed to read file: ", detail.as_str()),
            ),
        },
        ReadPurpose::Edit { old_text, new_text } => match outcome {
            Ok(text) => {
                let content = replace_text(text.as_str(), old_text.as_str(), new_text.as_str());
                Continuation::Apply { change: Change::WriteEdited { path, content } }
            },
            Err(detail) => Continuation::Reply(
                OperationResult::failed_with("Failed to read file for editing: ", detail.as_str()),
            ),
        },
    }
}

/// Goes on after the file at `path` was read for `purpose`. Bytes that are
/// no valid UTF-8 are read as `String::from_utf8_lossy` reads them.
pub fn after_read(path: String, purpose: ReadPurpose, outcome: Result<Vec<u8>, String>) -> (r:
    Continuation)
    ensures
        r@ == step_after_read(path@, purpose@, read_model(outcome)),
        outcome is Ok && valid_utf8(outcome->Ok_0@) ==> r@ == step_after_text(
            path@,
            purpose@,
            Ok(decode_utf8(outcome->Ok_0@)),
        ),
{
    let text: Result<String, String> = match outcome {
        Ok(bytes) => Ok(decode_lossy(&bytes)),
        Err(detail) => Err(detail),
    };
    after_text(path, purpose, text)
}

/// The result after a directory was listed.
pub fn after_list(outcome: Result<Vec<String>, String>) -> (r: OperationResult)
    ensures
        r@ == result_after_list(list_model(outcome)),
{
    match outcome {
        Ok(names) => OperationResult::with_data(Payload::Names(names)),
        Err(detail) => OperationResult::failed_with("Failed to list files: ", detail.as_str()),
    }
}

/// The result after `change` was made or failed.
pub fn after_change(change: &Change, outcome: Result<(), String>) -> (r: OperationResult)
    ensures
        r@ == result_after_change(change@, change_model(outcome)),
{
    match outcome {
        Ok(_) => OperationResult::done(),
        Err(detail) => {
            let prefix = match change {
                Change::WriteFile { .. } => "Failed to write file: ",
                Change::WriteEdited { .. } => "Failed to write edited file: ",
                Change::CreateDir { .. } => "Failed to create directory: ",
                Change::DeleteDir { .. } => "Failed to delete directory: ",
                Change::DeleteFile { .. } => "Failed to delete file: ",
            };
            OperationResult::failed_with(prefix, detail.as_str())
        },
    }
}

/// Handles a message that expects no reply: the change to make, if the
/// message asks for one of the changing operations, has what it takes and
/// the session may make it. Whatever comes of the change is not reported.
/// The state is handed back as it came.
pub fn handle_send(state: SessionState, parsed: Result<OperationRequest, String>) -> (r: (
    Option<Change>,
    SessionState,
))
    ensures
        match r.0 {
            Some(change) => one_way_change(state@, parsed_model(parsed)) == Some(change@),
            None => one_way_change(state@, parsed_model(parsed)) is None,
        },
        r.1 == state,
{
    let change = match parsed {
        Err(_) => None,
        Ok(request) => match Operation::parse(request.operation.as_str()) {
            Some(operation) => if operation.is_one_way() {
                match authorize(&state, request) {
                    Action::Apply { change } => Some(change),
                    _ => None,
                }
            } else {
                None
            },
            None => None,
        },
    };
    (change, state)
}

} // verus!
