use win_inet::open_type::InternetOpenType;
use win_inet::status::InternetStatus;

const ALL: [(InternetStatus, u32); 26] = [
    (InternetStatus::ResolvingName, 10),
    (InternetStatus::NameResolved, 11),
    (InternetStatus::ConnectingToServer, 20),
    (InternetStatus::ConnectedToServer, 21),
    (InternetStatus::SendingRequest, 30),
    (InternetStatus::RequestSent, 31),
    (InternetStatus::ReceivingResponse, 40),
    (InternetStatus::ResponseReceived, 41),
    (InternetStatus::CtlResponseReceived, 42),
    (InternetStatus::Prefetch, 43),
    (InternetStatus::ClosingConnection, 50),
    (InternetStatus::ConnectionClosed, 51),
    (InternetStatus::HandleCreated, 60),
    (InternetStatus::HandleClosing, 70),
    (InternetStatus::DetectingProxy, 80),
    (InternetStatus::RequestComplete, 100),
    (InternetStatus::Redirect, 110),
    (InternetStatus::IntermediateResponse, 120),
    (InternetStatus::UserInputRequired, 140),
    (InternetStatus::StateChange, 200),
    (InternetStatus::CookieSent, 320),
    (InternetStatus::CookieReceived, 321),
    (InternetStatus::PrivacyImpacted, 324),
    (InternetStatus::P3pHeader, 325),
    (InternetStatus::P3pPolicyref, 326),
    (InternetStatus::CookieHistory, 327),
];

#[test]
fn status_codes_are_the_wininet_values() {
    for (s, c) in ALL.iter() {
        assert_eq!(s.code(), *c);
    }
}

#[test]
fn status_codes_read_back() {
    for (s, _) in ALL.iter() {
        assert_eq!(InternetStatus::from_code(s.code()), Some(*s));
    }
}

#[test]
fn status_codes_are_distinct() {
    for (a, _) in ALL.iter() {
        for (b, _) in ALL.iter() {
            assert_eq!(a.code() == b.code(), a == b);
        }
    }
}

#[test]
fn unknown_status_codes_read_as_none() {
    for c in [0u32, 1, 12, 99, 101, 300, 322, 323, 328, u32::MAX] {
        assert_eq!(InternetStatus::from_code(c), None);
    }
}

#[test]
fn request_complete_and_handle_created_codes() {
    assert_eq!(InternetStatus::from_code(100), Some(InternetStatus::RequestComplete));
    assert_eq!(InternetStatus::from_code(60), Some(InternetStatus::HandleCreated));
}

#[test]
fn open_type_codes() {
    assert_eq!(InternetOpenType::Preconfig.code(), 0);
    assert_eq!(InternetOpenType::Direct.code(), 1);
    assert_eq!(InternetOpenType::Proxy.code(), 3);
    assert_eq!(InternetOpenType::PreconfigWithNoAutoproxy.code(), 4);
}
