use vstd::prelude::*;

use crate::app_code::AppCode;

verus! {

/// The text that `try_new` could not read as an application-level status.
#[derive(Debug, PartialEq, Eq)]
pub struct ParseFailure {
    pub app_code: String,
}

/// What one failure instance reports: an application-level status, a
/// permanent diagnostic code, a message safe to show to clients, and the
/// full diagnostic text for internal logs.
pub struct ErrorInfo<T> {
    /// The application-level status, e.g. an HTTP status; never sent to clients.
    pub app_code: T,
    /// The full diagnostic code, such as `01IC`.
    pub code: String,
    /// The message for clients; empty where the server message stands in for it.
    pub client_msg: String,
    /// The full diagnostic text; for internal logs only.
    pub server_msg: String,
}

/// The part of an `ErrorInfo` that goes over the wire: the code, and the
/// stored client message under the name `msg`.
pub struct WireInfo {
    pub code: String,
    pub msg: String,
}

/// The message that may be shown to a client: the stored client message,
/// or the server message where the stored one is empty.
pub open spec fn visible_msg(client_msg: Seq<char>, server_msg: Seq<char>) -> Seq<char> {
    if client_msg.len() == 0 {
        server_msg
    } else {
        client_msg
    }
}

/// The text `[code] message`.
pub open spec fn bracketed(code: Seq<char>, msg: Seq<char>) -> Seq<char> {
    seq!['['] + code + seq![']', ' '] + msg
}

impl<T> ErrorInfo<T> {
    /// What `client_msg()` returns.
    pub open spec fn spec_client_msg(&self) -> Seq<char> {
        visible_msg(self.client_msg@, self.server_msg@)
    }

    /// The message for clients: the stored client message, or the server
    /// message where the stored one is empty.
    pub fn client_msg(&self) -> (r: &str)
        ensures
            r@ == self.spec_client_msg(),
            self.server_msg@.len() > 0 ==> r@.len() > 0,
    {
        if self.client_msg.as_str().is_empty() {
            self.server_msg.as_str()
        } else {
            self.client_msg.as_str()
        }
    }

    /// The client-facing form `[code] client message`, safe to return to
    /// untrusted callers.
    pub fn display_text(&self) -> (r: String)
        ensures
            r@ == bracketed(self.code@, self.spec_client_msg()),
    {
        bracket(self.code.as_str(), self.client_msg())
    }

    /// The internal form `[code] server message`, for server logs only.
    pub fn debug_text(&self) -> (r: String)
        ensures
            r@ == bracketed(self.code@, self.server_msg@),
    {
        bracket(self.code.as_str(), self.server_msg.as_str())
    }

    /// The serialized part: the code and the stored client message.
    pub fn to_wire(&self) -> (r: WireInfo)
        ensures
            r.code@ == self.code@,
            r.msg@ == self.client_msg@,
    {
        WireInfo { code: self.code.clone(), msg: self.client_msg.clone() }
    }
}

fn bracket(code: &str, msg: &str) -> (r: String)
    ensures
        r@ == bracketed(code@, msg@),
{
    let mut s = String::from_str("[");
    s.append(code);
    s.append("] ");
    s.append(msg);
    proof {
        reveal_strlit("[");
        reveal_strlit("] ");
        assert(s@ =~= bracketed(code@, msg@));
    }
    s
}

impl<T: AppCode> ErrorInfo<T> {
    /// Builds an `ErrorInfo` whose status is read from `app_code`; the text
    /// must be a valid status of type `T`.
    pub fn new(app_code: &str, code: String, client_msg: String, server_msg: String) -> (r: Self)
        requires
            T::parsed(app_code@) is Some,
        ensures
            Some(r.app_code) == T::parsed(app_code@),
            r.code == code,
            r.client_msg == client_msg,
            r.server_msg == server_msg,
    {
        let v = T::parse_app_code(app_code).unwrap();
        ErrorInfo { app_code: v, code, client_msg, server_msg }
    }

    /// Builds an `ErrorInfo` whose status is read from `app_code`, or fails
    /// with that text where it is not a valid status of type `T`.
    pub fn try_new(app_code: &str, code: String, client_msg: String, server_msg: String) -> (r:
        Result<Self, ParseFailure>)
        ensures
            r is Ok <==> T::parsed(app_code@) is Some,
            r matches Ok(info) ==> Some(info.app_code) == T::parsed(app_code@) && info.code
                == code && info.client_msg == client_msg && info.server_msg == server_msg,
            r matches Err(e) ==> e.app_code@ == app_code@,
    {
        match T::parse_app_code(app_code) {
            Some(v) => Ok(ErrorInfo { app_code: v, code, client_msg, server_msg }),
            None => Err(ParseFailure { app_code: String::from_str(app_code) }),
        }
    }
}

/// A failure instance that reports its `ErrorInfo`.
pub trait ToErrorInfo {
    /// The type of the application-level status.
    type T: AppCode;

    /// The `ErrorInfo` of this instance, or the failure to read its
    /// variant's application-level status.
    fn to_error_info(&self) -> Result<ErrorInfo<Self::T>, ParseFailure>;
}

} // verus!
