//! The result of asking the daemon for account data, with the classification of
//! its failures.
use crate::foreign::{class_of, lemma_views_equal, unit_object, JValue, JavaValue};
use crate::model::AccountData;
use crate::project::IntoJava;
use vstd::prelude::*;

verus! {

/// The server error code with which the daemon rejects an unknown account.
pub const INVALID_ACCOUNT_CODE: i64 = -200;

pub const ACCOUNT_RESULT_OK_CLASS: &'static str =
    "net/mullvad/mullvadvpn/model/GetAccountDataResult$Ok";

pub const ACCOUNT_RESULT_OK_SIGNATURE: &'static str = "(Lnet/mullvad/mullvadvpn/model/AccountData;)V";

pub const INVALID_ACCOUNT_CLASS: &'static str =
    "net/mullvad/mullvadvpn/model/GetAccountDataResult$InvalidAccount";

pub const RPC_ERROR_CLASS: &'static str = "net/mullvad/mullvadvpn/model/GetAccountDataResult$RpcError";

pub const OTHER_ERROR_CLASS: &'static str =
    "net/mullvad/mullvadvpn/model/GetAccountDataResult$OtherError";

/// The code of a JSON-RPC error object.
#[derive(Clone, Copy, Debug, PartialEq, Eq)]
pub enum ErrorCode {
    ParseError,
    InvalidRequest,
    MethodNotFound,
    InvalidParams,
    InternalError,
    /// An error code that the server defines.
    ServerError(i64),
}

/// What went wrong in a call through the RPC client.
#[derive(Clone, Debug, PartialEq, Eq)]
pub enum RpcErrorKind {
    /// The server answered with a JSON-RPC error object with this code.
    JsonRpcError(ErrorCode),
    /// The call failed otherwise (transport, serialization, shutdown), as described.
    Other(String),
}

/// A failure of a request to the daemon.
#[derive(Clone, Debug, PartialEq, Eq)]
pub enum DaemonError {
    /// The RPC call itself failed.
    RpcError(RpcErrorKind),
    /// Anything else, as described.
    Other(String),
}

/// The kinds of failure that the front end tells apart.
#[derive(Clone, Copy, Debug, PartialEq, Eq)]
pub enum AccountErrorClass {
    InvalidAccount,
    RpcError,
    OtherError,
}

/// Classifies a failure, most specific first: the server's rejection of the
/// account, then any other RPC failure, then anything else.
pub open spec fn classify(error: DaemonError) -> AccountErrorClass {
    match error {
        DaemonError::RpcError(RpcErrorKind::JsonRpcError(ErrorCode::ServerError(code))) if code
            == INVALID_ACCOUNT_CODE => AccountErrorClass::InvalidAccount,
        DaemonError::RpcError(_) => AccountErrorClass::RpcError,
        _ => AccountErrorClass::OtherError,
    }
}

impl AccountErrorClass {
    /// The foreign class for each kind of failure.
    pub open spec fn class(self) -> Seq<char> {
        match self {
            AccountErrorClass::InvalidAccount => INVALID_ACCOUNT_CLASS@,
            AccountErrorClass::RpcError => RPC_ERROR_CLASS@,
            AccountErrorClass::OtherError => OTHER_ERROR_CLASS@,
        }
    }
}

/// The kind of failure that `error` is.
pub fn classify_error(error: &DaemonError) -> (r: AccountErrorClass)
    ensures
        r == classify(*error),
{
    match error {
        DaemonError::RpcError(RpcErrorKind::JsonRpcError(ErrorCode::ServerError(code))) if *code
            == INVALID_ACCOUNT_CODE => AccountErrorClass::InvalidAccount,
        DaemonError::RpcError(_) => AccountErrorClass::RpcError,
        _ => AccountErrorClass::OtherError,
    }
}

/// Account data becomes the `Ok` result holding it; a failure becomes the
/// object of the class that its classification selects.
impl IntoJava for Result<AccountData, DaemonError> {
    open spec fn projection(self) -> JValue {
        match self {
            Ok(data) => JValue::Object {
                class: ACCOUNT_RESULT_OK_CLASS@,
                signature: ACCOUNT_RESULT_OK_SIGNATURE@,
                args: seq![data.projection()],
            },
            Err(error) => unit_object(classify(error).class()),
        }
    }

    fn into_java(self) -> (r: JavaValue) {
        match self {
            Ok(data) => {
                let ghost original = data;
                let java_account_data = data.into_java();
                let args = vec![java_account_data];
                proof {
                    lemma_views_equal(args@, seq![original.projection()]);
                }
                JavaValue::object(ACCOUNT_RESULT_OK_CLASS, ACCOUNT_RESULT_OK_SIGNATURE, args)
            },
            Err(error) => {
                let class_name = match classify_error(&error) {
                    AccountErrorClass::InvalidAccount => INVALID_ACCOUNT_CLASS,
                    AccountErrorClass::RpcError => RPC_ERROR_CLASS,
                    AccountErrorClass::OtherError => OTHER_ERROR_CLASS,
                };
                JavaValue::unit_object(class_name)
            },
        }
    }
}


/// Classification selects exactly one kind of failure for each failure, and the
/// server's rejection of the account always selects the invalid-account kind,
/// never the generic RPC one, whose class differs.
pub proof fn lemma_classification(error: DaemonError)
    ensures
        classify(error) is InvalidAccount || classify(error) is RpcError || classify(error) is OtherError,
        error == DaemonError::RpcError(
            RpcErrorKind::JsonRpcError(ErrorCode::ServerError(INVALID_ACCOUNT_CODE)),
        ) ==> classify(error) is InvalidAccount,
        classify(error) is InvalidAccount ==> classify(error).class() != AccountErrorClass::RpcError.class(),
        error is RpcError ==> !(classify(error) is OtherError),
        !(error is RpcError) ==> classify(error) is OtherError,
{
    reveal_strlit("net/mullvad/mullvadvpn/model/GetAccountDataResult$InvalidAccount");
    reveal_strlit("net/mullvad/mullvadvpn/model/GetAccountDataResult$RpcError");
    assert(INVALID_ACCOUNT_CLASS@.len() != RPC_ERROR_CLASS@.len());
}

/// A result becomes an object of the `Ok` class or of its failure kind's class,
/// and those four classes are pairwise different.
pub proof fn lemma_account_result_class(
    r: Result<AccountData, DaemonError>,
    a: AccountErrorClass,
    b: AccountErrorClass,
)
    ensures
        r is Ok ==> class_of(r.projection()) == Some(ACCOUNT_RESULT_OK_CLASS@),
        r matches Err(e) ==> class_of(r.projection()) == Some(classify(e).class()),
        a.class() != ACCOUNT_RESULT_OK_CLASS@,
        a != b ==> a.class() != b.class(),
{
    reveal_strlit("net/mullvad/mullvadvpn/model/GetAccountDataResult$Ok");
    reveal_strlit("net/mullvad/mullvadvpn/model/GetAccountDataResult$InvalidAccount");
    reveal_strlit("net/mullvad/mullvadvpn/model/GetAccountDataResult$RpcError");
    reveal_strlit("net/mullvad/mullvadvpn/model/GetAccountDataResult$OtherError");
    assert(a.class().len() != ACCOUNT_RESULT_OK_CLASS@.len());
    if a != b {
        assert(a.class().len() != b.class().len());
    }
}

} // verus!
