//! What holds of every request, whatever the filesystem answers.
use crate::dispatch::{
    change_of, first_action, lossy_text, one_way_change, outcome_of, ActionModel, Answers,
    ChangeModel,
};
use crate::request::{Operation, RequestModel};
use crate::response::ResultModel;
use crate::session::Permission;
use crate::text::{occurs_at, replace_all, replace_all_without_occurrence};
use vstd::prelude::*;

verus! {

/// Every result is well formed: a success carries no error, a failure no
/// data.
pub proof fn results_are_well_formed(
    labels: Seq<Seq<char>>,
    parsed: Result<RequestModel, Seq<char>>,
    answers: Answers,
)
    ensures
        outcome_of(labels, parsed, answers).well_formed(),
{
}

/// A message from which no request can be read is answered with a failure
/// that says so, and no filesystem call is made.
pub proof fn malformed_request_is_reported(
    labels: Seq<Seq<char>>,
    detail: Seq<char>,
    answers: Answers,
)
    ensures
        first_action(labels, Err(detail)) == ActionModel::Reply(
            outcome_of(labels, Err(detail), answers),
        ),
        !outcome_of(labels, Err(detail), answers).success,
        outcome_of(labels, Err(detail), answers).error matches Some(message) && message.len() > 0,
        change_of(labels, Err(detail), answers) is None,
{
    reveal_strlit("Invalid request format: ");
}

/// Every denial names what was denied and holds the word "denied".
pub proof fn denial_says_denied(permission: Permission)
    ensures
        exists|at: int| occurs_at(permission.denial(), "denied"@, at),
{
    reveal_strlit("denied");
    reveal_strlit("Read permission denied");
    reveal_strlit("Write permission denied");
    reveal_strlit("Delete permission denied");
    let at: int = match permission {
        Permission::Read => 16,
        Permission::Write => 17,
        Permission::Delete => 18,
    };
    assert(permission.denial().subrange(at, at + 6) =~= "denied"@);
    assert(occurs_at(permission.denial(), "denied"@, at));
}

/// A request for an operation whose permission the session lacks is
/// answered with the denial at once: no filesystem call is made, whatever
/// else the request holds.
pub proof fn missing_permission_is_denied(
    labels: Seq<Seq<char>>,
    request: RequestModel,
    operation: Operation,
    answers: Answers,
)
    requires
        Operation::named(request.operation) == Some(operation),
        !labels.contains(operation.required().label()),
    ensures
        first_action(labels, Ok(request)) == ActionModel::Reply(
            ResultModel::failed(operation.required().denial()),
        ),
        outcome_of(labels, Ok(request), answers) == ResultModel::failed(
            operation.required().denial(),
        ),
        change_of(labels, Ok(request), answers) is None,
        one_way_change(labels, Ok(request)) is None,
{
}

/// Reading a file or listing a directory changes nothing, and its result
/// depends on nothing but the state, the request and what the filesystem
/// holds: asked again, it gives the same result.
pub proof fn reading_is_repeatable(
    labels: Seq<Seq<char>>,
    request: RequestModel,
    first: Answers,
    second: Answers,
)
    requires
        Operation::named(request.operation) == Some(Operation::ReadFile) || Operation::named(
            request.operation,
        ) == Some(Operation::ListFiles),
        first.read == second.read,
        first.list == second.list,
    ensures
        change_of(labels, Ok(request), first) is None,
        outcome_of(labels, Ok(request), first) == outcome_of(labels, Ok(request), second),
{
}

/// An edit that the session may make and that names both texts writes the
/// file back with every occurrence of the old text replaced, and succeeds
/// where that write does. Where the old text is not empty and does not occur,
/// the file is written back as it was read.
pub proof fn edit_replaces_every_occurrence(
    labels: Seq<Seq<char>>,
    request: RequestModel,
    old_text: Seq<char>,
    new_text: Seq<char>,
    bytes: Seq<u8>,
    answers: Answers,
)
    requires
        Operation::named(request.operation) == Some(Operation::EditFile),
        labels.contains(Permission::Write.label()),
        request.old_text == Some(old_text),
        request.new_text == Some(new_text),
        answers.read == Ok::<Seq<u8>, Seq<char>>(bytes),
    ensures
        change_of(labels, Ok(request), answers) == Some(
            ChangeModel::WriteEdited {
                path: request.path,
                content: replace_all(lossy_text(bytes), old_text, new_text),
            },
        ),
        answers.change is Ok ==> outcome_of(labels, Ok(request), answers) == ResultModel::done(),
        old_text.len() > 0 && (forall|at: int| !occurs_at(lossy_text(bytes), old_text, at))
            ==> change_of(labels, Ok(request), answers) == Some(
            ChangeModel::WriteEdited { path: request.path, content: lossy_text(bytes) },
        ),
{
    if old_text.len() > 0 && (forall|at: int| !occurs_at(lossy_text(bytes), old_text, at)) {
        replace_all_without_occurrence(lossy_text(bytes), old_text, new_text);
    }
}

/// An edit that the session may make, but that does not name both texts, is
/// refused, and no filesystem call is made.
pub proof fn edit_without_both_texts_is_refused(
    labels: Seq<Seq<char>>,
    request: RequestModel,
    answers: Answers,
)
    requires
        Operation::named(request.operation) == Some(Operation::EditFile),
        labels.contains(Permission::Write.label()),
        request.old_text is None || request.new_text is None,
    ensures
        first_action(labels, Ok(request)) == ActionModel::Reply(
            ResultModel::failed("Both old_text and new_text must be provided"@),
        ),
        change_of(labels, Ok(request), answers) is None,
{
}

/// A request to write a file that the session may write, but that holds no
/// content, is refused, and no filesystem call is made.
pub proof fn write_without_content_is_refused(
    labels: Seq<Seq<char>>,
    request: RequestModel,
    answers: Answers,
)
    requires
        Operation::named(request.operation) == Some(Operation::WriteFile),
        labels.contains(Permission::Write.label()),
        request.content is None,
    ensures
        first_action(labels, Ok(request)) == ActionModel::Reply(
            ResultModel::failed("Content not provided"@),
        ),
        change_of(labels, Ok(request), answers) is None,
        one_way_change(labels, Ok(request)) is None,
{
}

/// A message that expects no reply leads to a change only where the same
/// message, sent as a request, would start with that change: the operation
/// is one of the changing ones, the session may perform it, and nothing has
/// to be read first.
pub proof fn one_way_follows_the_same_rules(
    labels: Seq<Seq<char>>,
    parsed: Result<RequestModel, Seq<char>>,
)
    ensures
        one_way_change(labels, parsed) matches Some(change) ==> {
            &&& first_action(labels, parsed) == (ActionModel::Apply { change })
            &&& parsed matches Ok(request) && Operation::named(request.operation) matches Some(
                operation,
            ) && operation.one_way() && labels.contains(operation.required().label())
            &&& !(change is WriteEdited)
        },
{
}

} // verus!
