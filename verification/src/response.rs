//! Operation results.
use crate::text::texts;
use vstd::prelude::*;
use vstd::string::*;

verus! {

/// What a successful operation hands back.
#[derive(Clone, Debug, PartialEq, Eq)]
pub enum Payload {
    /// The content of a file.
    Text(String),
    /// The names of the entries of a directory.
    Names(Vec<String>),
}

/// What a `Payload` holds.
pub ghost enum PayloadModel {
    Text(Seq<char>),
    Names(Seq<Seq<char>>),
}

impl View for Payload {
    type V = PayloadModel;

    open spec fn view(&self) -> PayloadModel {
        match self {
            Payload::Text(s) => PayloadModel::Text(s@),
            Payload::Names(list) => PayloadModel::Names(texts(list@)),
        }
    }
}

/// The outcome of one request.
#[derive(Clone, Debug, PartialEq, Eq)]
pub struct OperationResult {
    pub success: bool,
    pub data: Option<Payload>,
    pub error: Option<String>,
}

/// What an `OperationResult` holds.
pub ghost struct ResultModel {
    pub success: bool,
    pub data: Option<PayloadModel>,
    pub error: Option<Seq<char>>,
}

impl ResultModel {
    /// A success carries no error, and a failure no data.
    pub open spec fn well_formed(self) -> bool {
        &&& self.success ==> self.error is None
        &&& !self.success ==> self.data is None
    }

    /// Success without data.
    pub open spec fn done() -> ResultModel {
        ResultModel { success: true, data: None, error: None }
    }

    /// Success with data.
    pub open spec fn with_data(payload: PayloadModel) -> ResultModel {
        ResultModel { success: true, data: Some(payload), error: None }
    }

    /// Failure with a message.
    pub open spec fn failed(message: Seq<char>) -> ResultModel {
        ResultModel { success: false, data: None, error: Some(message) }
    }
}

impl View for OperationResult {
    type V = ResultModel;

    open spec fn view(&self) -> ResultModel {
        ResultModel {
            success: self.success,
            data: match self.data {
                Some(payload) => Some(payload@),
                None => None,
            },
            error: match self.error {
                Some(message) => Some(message@),
                None => None,
            },
        }
    }
}

impl OperationResult {
    /// Success without data.
    pub fn done() -> (r: OperationResult)
        ensures
            r@ == ResultModel::done(),
            r@.well_formed(),
    {
        OperationResult { success: true, data: None, error: None }
    }

    /// Success with data.
    pub fn with_data(payload: Payload) -> (r: OperationResult)
        ensures
            r@ == ResultModel::with_data(payload@),
            r@.well_formed(),
    {
        OperationResult { success: true, data: Some(payload), error: None }
    }

    /// Failure with a message.
    pub fn failed(message: &str) -> (r: OperationResult)
        ensures
            r@ == ResultModel::failed(message@),
            r@.well_formed(),
    {
        OperationResult { success: false, data: None, error: Some(String::from_str(message)) }
    }

    /// Failure with a message made of `prefix` and the `detail` behind it.
    pub fn failed_with(prefix: &str, detail: &str) -> (r: OperationResult)
        ensures
            r@ == ResultModel::failed(prefix@ + detail@),
            r@.well_formed(),
    {
        let mut message: String = String::from_str(prefix);
        message.append(detail);
        OperationResult { success: false, data: None, error: Some(message) }
    }
}

} // verus!
