//! The status codes that WinINet hands to a status callback.

use vstd::prelude::*;

verus! {

/// What a status callback is told has happened (`dwInternetStatus`).
///
/// The variants carry no discriminants: take a status's WinINet number with
/// [`InternetStatus::code`], and read one with [`InternetStatus::from_code`].
/// Never compare with `as u32`, which gives the variant's position, not its
/// number (`RequestComplete as u32` is not `100`).
#[derive(Clone, Copy, Debug, PartialEq, Eq, Structural)]
pub enum InternetStatus {
    ResolvingName,
    NameResolved,
    ConnectingToServer,
    ConnectedToServer,
    SendingRequest,
    RequestSent,
    ReceivingResponse,
    ResponseReceived,
    CtlResponseReceived,
    Prefetch,
    ClosingConnection,
    ConnectionClosed,
    HandleCreated,
    HandleClosing,
    DetectingProxy,
    RequestComplete,
    Redirect,
    IntermediateResponse,
    UserInputRequired,
    StateChange,
    CookieSent,
    CookieReceived,
    PrivacyImpacted,
    P3pHeader,
    P3pPolicyref,
    CookieHistory,
}

impl InternetStatus {
    /// The `DWORD` that WinINet uses for this status.
    pub open spec fn spec_code(self) -> u32 {
        match self {
            InternetStatus::ResolvingName => 10,
            InternetStatus::NameResolved => 11,
            InternetStatus::ConnectingToServer => 20,
            InternetStatus::ConnectedToServer => 21,
            InternetStatus::SendingRequest => 30,
            InternetStatus::RequestSent => 31,
            InternetStatus::ReceivingResponse => 40,
            InternetStatus::ResponseReceived => 41,
            InternetStatus::CtlResponseReceived => 42,
            InternetStatus::Prefetch => 43,
            InternetStatus::ClosingConnection => 50,
            InternetStatus::ConnectionClosed => 51,
            InternetStatus::HandleCreated => 60,
            InternetStatus::HandleClosing => 70,
            InternetStatus::DetectingProxy => 80,
            InternetStatus::RequestComplete => 100,
            InternetStatus::Redirect => 110,
            InternetStatus::IntermediateResponse => 120,
            InternetStatus::UserInputRequired => 140,
            InternetStatus::StateChange => 200,
            InternetStatus::CookieSent => 320,
            InternetStatus::CookieReceived => 321,
            InternetStatus::PrivacyImpacted => 324,
            InternetStatus::P3pHeader => 325,
            InternetStatus::P3pPolicyref => 326,
            InternetStatus::CookieHistory => 327,
        }
    }

    /// The status that WinINet means by `code`, if any.
    pub open spec fn spec_from_code(code: u32) -> Option<InternetStatus> {
        if code == 10 { Some(InternetStatus::ResolvingName) }
        else if code == 11 { Some(InternetStatus::NameResolved) }
        else if code == 20 { Some(InternetStatus::ConnectingToServer) }
        else if code == 21 { Some(InternetStatus::ConnectedToServer) }
        else if code == 30 { Some(InternetStatus::SendingRequest) }
        else if code == 31 { Some(InternetStatus::RequestSent) }
        else if code == 40 { Some(InternetStatus::ReceivingResponse) }
        else if code == 41 { Some(InternetStatus::ResponseReceived) }
        else if code == 42 { Some(InternetStatus::CtlResponseReceived) }
        else if code == 43 { Some(InternetStatus::Prefetch) }
        else if code == 50 { Some(InternetStatus::ClosingConnection) }
        else if code == 51 { Some(InternetStatus::ConnectionClosed) }
        else if code == 60 { Some(InternetStatus::HandleCreated) }
        else if code == 70 { Some(InternetStatus::HandleClosing) }
        else if code == 80 { Some(InternetStatus::DetectingProxy) }
        else if code == 100 { Some(InternetStatus::RequestComplete) }
        else if code == 110 { Some(InternetStatus::Redirect) }
        else if code == 120 { Some(InternetStatus::IntermediateResponse) }
        else if code == 140 { Some(InternetStatus::UserInputRequired) }
        else if code == 200 { Some(InternetStatus::StateChange) }
        else if code == 320 { Some(InternetStatus::CookieSent) }
        else if code == 321 { Some(InternetStatus::CookieReceived) }
        else if code == 324 { Some(InternetStatus::PrivacyImpacted) }
        else if code == 325 { Some(InternetStatus::P3pHeader) }
        else if code == 326 { Some(InternetStatus::P3pPolicyref) }
        else if code == 327 { Some(InternetStatus::CookieHistory) }
        else { None }
    }

    /// The `DWORD` that WinINet uses for this status.
    pub fn code(&self) -> (c: u32)
        ensures
            c == self.spec_code(),
    {
        match self {
            InternetStatus::ResolvingName => 10,
            InternetStatus::NameResolved => 11,
            InternetStatus::ConnectingToServer => 20,
            InternetStatus::ConnectedToServer => 21,
            InternetStatus::SendingRequest => 30,
            InternetStatus::RequestSent => 31,
            InternetStatus::ReceivingResponse => 40,
            InternetStatus::ResponseReceived => 41,
            InternetStatus::CtlResponseReceived => 42,
            InternetStatus::Prefetch => 43,
            InternetStatus::ClosingConnection => 50,
            InternetStatus::ConnectionClosed => 51,
            InternetStatus::HandleCreated => 60,
            InternetStatus::HandleClosing => 70,
            InternetStatus::DetectingProxy => 80,
            InternetStatus::RequestComplete => 100,
            InternetStatus::Redirect => 110,
            InternetStatus::IntermediateResponse => 120,
            InternetStatus::UserInputRequired => 140,
            InternetStatus::StateChange => 200,
            InternetStatus::CookieSent => 320,
            InternetStatus::CookieReceived => 321,
            InternetStatus::PrivacyImpacted => 324,
            InternetStatus::P3pHeader => 325,
            InternetStatus::P3pPolicyref => 326,
            InternetStatus::CookieHistory => 327,
        }
    }

    /// Reads the `dwInternetStatus` that a callback receives: the status
    /// with that code, or `None` for a code that names no status.
    pub fn from_code(code: u32) -> (s: Option<InternetStatus>)
        ensures
            s == InternetStatus::spec_from_code(code),
    {
        match code {
            10 => Some(InternetStatus::ResolvingName),
            11 => Some(InternetStatus::NameResolved),
            20 => Some(InternetStatus::ConnectingToServer),
            21 => Some(InternetStatus::ConnectedToServer),
            30 => Some(InternetStatus::SendingRequest),
            31 => Some(InternetStatus::RequestSent),
            40 => Some(InternetStatus::ReceivingResponse),
            41 => Some(InternetStatus::ResponseReceived),
            42 => Some(InternetStatus::CtlResponseReceived),
            43 => Some(InternetStatus::Prefetch),
            50 => Some(InternetStatus::ClosingConnection),
            51 => Some(InternetStatus::ConnectionClosed),
            60 => Some(InternetStatus::HandleCreated),
            70 => Some(InternetStatus::HandleClosing),
            80 => Some(InternetStatus::DetectingProxy),
            100 => Some(InternetStatus::RequestComplete),
            110 => Some(InternetStatus::Redirect),
            120 => Some(InternetStatus::IntermediateResponse),
            140 => Some(InternetStatus::UserInputRequired),
            200 => Some(InternetStatus::StateChange),
            320 => Some(InternetStatus::CookieSent),
            321 => Some(InternetStatus::CookieReceived),
            324 => Some(InternetStatus::PrivacyImpacted),
            325 => Some(InternetStatus::P3pHeader),
            326 => Some(InternetStatus::P3pPolicyref),
            327 => Some(InternetStatus::CookieHistory),
            _ => None,
        }
    }
}

/// The number WinINet gives each status (wininet.h `INTERNET_STATUS_*`).
pub proof fn lemma_status_numbers()
    ensures
        InternetStatus::ResolvingName.spec_code() == 10,
        InternetStatus::NameResolved.spec_code() == 11,
        InternetStatus::ConnectingToServer.spec_code() == 20,
        InternetStatus::ConnectedToServer.spec_code() == 21,
        InternetStatus::SendingRequest.spec_code() == 30,
        InternetStatus::RequestSent.spec_code() == 31,
        InternetStatus::ReceivingResponse.spec_code() == 40,
        InternetStatus::ResponseReceived.spec_code() == 41,
        InternetStatus::CtlResponseReceived.spec_code() == 42,
        InternetStatus::Prefetch.spec_code() == 43,
        InternetStatus::ClosingConnection.spec_code() == 50,
        InternetStatus::ConnectionClosed.spec_code() == 51,
        InternetStatus::HandleCreated.spec_code() == 60,
        InternetStatus::HandleClosing.spec_code() == 70,
        InternetStatus::DetectingProxy.spec_code() == 80,
        InternetStatus::RequestComplete.spec_code() == 100,
        InternetStatus::Redirect.spec_code() == 110,
        InternetStatus::IntermediateResponse.spec_code() == 120,
        InternetStatus::UserInputRequired.spec_code() == 140,
        InternetStatus::StateChange.spec_code() == 200,
        InternetStatus::CookieSent.spec_code() == 320,
        InternetStatus::CookieReceived.spec_code() == 321,
        InternetStatus::PrivacyImpacted.spec_code() == 324,
        InternetStatus::P3pHeader.spec_code() == 325,
        InternetStatus::P3pPolicyref.spec_code() == 326,
        InternetStatus::CookieHistory.spec_code() == 327,
{
}

/// Reading back the code of a status gives that status again.
pub proof fn lemma_status_code_round_trip(s: InternetStatus)
    ensures
        InternetStatus::spec_from_code(s.spec_code()) == Some(s),
{
}

/// A code that reads as a status is that status's code.
pub proof fn lemma_status_from_code_sound(code: u32)
    ensures
        InternetStatus::spec_from_code(code) matches Some(s) ==> s.spec_code() == code,
{
}

/// Two statuses with the same code are the same status.
pub proof fn lemma_status_code_injective(a: InternetStatus, b: InternetStatus)
    ensures
        a.spec_code() == b.spec_code() ==> a == b,
{
    lemma_status_code_round_trip(a);
    lemma_status_code_round_trip(b);
}

} // verus!
