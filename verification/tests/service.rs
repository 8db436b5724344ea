use dewi_reservations::compute_reservations;
use dewi_reservations::env::get_conf;
use dewi_reservations::env::parse_port;
use dewi_reservations::env::var;
use dewi_reservations::env::var_port;
use dewi_reservations::env::with_default;
use dewi_reservations::env::EnvConfiguration;
use dewi_reservations::env::EnvError;
use dewi_reservations::env::EnvErrorKind;
use dewi_reservations::env::VarError;
use dewi_reservations::instant::Instant;
use dewi_reservations::upstream;
use dewi_reservations::upstream::LoginResponse;
use dewi_reservations::upstream::Reply;
use dewi_reservations::upstream::ReservationsResponse;
use dewi_reservations::Action;
use dewi_reservations::Error;
use dewi_reservations::Progress;
use dewi_reservations::Signal;

fn conf() -> EnvConfiguration {
    EnvConfiguration {
        email: "me@example.org".to_string(),
        password: "hunter2".to_string(),
        club: "myclub".to_string(),
        host: "127.0.0.1".to_string(),
        port: 8080,
    }
}

fn found(s: &str) -> Result<String, VarError> {
    Ok(s.to_string())
}

fn raw(id: u32, name: &str, date: &str, start: &str, end: &str) -> upstream::Reservation {
    upstream::Reservation {
        id,
        name: name.to_string(),
        model: upstream::ReservationModel {
            date: date.to_string(),
            start_time: start.to_string(),
            end_time: end.to_string(),
        },
    }
}

fn token() -> LoginResponse {
    LoginResponse { access_token: "tok".to_string(), club_id: 42 }
}

#[test]
fn addresses_of_the_two_requests() {
    assert_eq!(upstream::login_url(&conf()), "https://myclub.dewi-online.nl/api/app/login");
    assert_eq!(
        upstream::reservations_url(&conf(), &token()),
        "https://myclub.dewi-online.nl/api/app/club/42/reservations"
    );
    let big = LoginResponse { access_token: String::new(), club_id: u32::MAX };
    assert_eq!(
        upstream::reservations_url(&conf(), &big),
        "https://myclub.dewi-online.nl/api/app/club/4294967295/reservations"
    );
    let zero = LoginResponse { access_token: String::new(), club_id: 0 };
    assert_eq!(
        upstream::reservations_url(&conf(), &zero),
        "https://myclub.dewi-online.nl/api/app/club/0/reservations"
    );
    assert_eq!(upstream::user_agent(), "dewi-reservations-ical");
    let c = conf();
    let form = upstream::login_params(&c);
    assert_eq!(form.email, "me@example.org");
    assert_eq!(form.password, "hunter2");
}

#[test]
fn login_reply_is_judged_by_status_then_body() {
    let r = upstream::login(Reply::Failed);
    assert_eq!(r.err(), Some(Error::UpstreamFailure));
    let r = upstream::login(Reply::Answer { status: 422, body: Some(token()) });
    assert_eq!(r.err(), Some(Error::AuthenticationFailure));
    let r = upstream::login(Reply::Answer { status: 500, body: Some(token()) });
    assert_eq!(r.err(), Some(Error::UpstreamFailure));
    let r = upstream::login(Reply::Answer { status: 201, body: Some(token()) });
    assert_eq!(r.err(), Some(Error::UpstreamFailure));
    let r = upstream::login(Reply::Answer { status: 200, body: None });
    assert_eq!(r.err(), Some(Error::Inconsistency));
    let r = upstream::login(Reply::Answer { status: 200, body: Some(token()) }).unwrap();
    assert_eq!(r.access_token, "tok");
    assert_eq!(r.club_id, 42);
}

#[test]
fn reservations_reply_is_judged_by_status_then_body() {
    let r = upstream::get_reservations(Reply::Failed);
    assert_eq!(r.err(), Some(Error::UpstreamFailure));
    let r = upstream::get_reservations(Reply::Answer { status: 404, body: None });
    assert_eq!(r.err(), Some(Error::UpstreamFailure));
    let r = upstream::get_reservations(Reply::Answer { status: 200, body: None });
    assert_eq!(r.err(), Some(Error::Inconsistency));
    let data = ReservationsResponse {
        upcoming_reservations: vec![raw(1, "A", "2024-07-10", "18:00:00", "19:00:00")],
        old_reservations: vec![],
    };
    let r = upstream::get_reservations(Reply::Answer { status: 200, body: Some(data) }).unwrap();
    assert_eq!(r.upcoming_reservations.len(), 1);
    assert_eq!(r.upcoming_reservations[0].id, 1);
}

#[test]
fn errors_and_their_reports() {
    assert_eq!(Error::UpstreamFailure.status_code(), 503);
    assert_eq!(Error::AuthenticationFailure.status_code(), 500);
    assert_eq!(Error::Inconsistency.status_code(), 500);
    assert_eq!(Error::UpstreamFailure.to_string(), "UpstreamFailure");
    assert_eq!(Error::AuthenticationFailure.to_string(), "AuthenticationFailure");
    assert_eq!(Error::Inconsistency.to_string(), "Inconsistency");
    assert_eq!(
        Error::UpstreamFailure.error_response(),
        (503, "\"UpstreamFailure\"".to_string())
    );
    assert_eq!(
        Error::AuthenticationFailure.error_response(),
        (500, "\"AuthenticationFailure\"".to_string())
    );
    assert_eq!(Error::Inconsistency.error_response(), (500, "\"Inconsistency\"".to_string()));
}

#[test]
fn work_starts_with_the_login() {
    let (next, action) = compute_reservations(&conf(), Progress::Idle, Signal::Start);
    assert_eq!(next, Progress::LoggingIn);
    match action {
        Action::PostLogin { url } => {
            assert_eq!(url, "https://myclub.dewi-online.nl/api/app/login")
        }
        _ => panic!("the login was expected"),
    }
}

#[test]
fn successful_login_is_followed_by_the_fetch() {
    let reply = Reply::Answer { status: 200, body: Some(token()) };
    let (next, action) =
        compute_reservations(&conf(), Progress::LoggingIn, Signal::LoginReply(reply));
    assert_eq!(next, Progress::Fetching);
    match action {
        Action::GetReservations { url, bearer } => {
            assert_eq!(url, "https://myclub.dewi-online.nl/api/app/club/42/reservations");
            assert_eq!(bearer, "tok");
        }
        _ => panic!("the fetch was expected"),
    }
}

#[test]
fn unexpected_login_status_is_an_upstream_failure() {
    for status in vec![0u16, 199, 201, 301, 401, 403, 404, 421, 423, 500, 503, 65535] {
        let reply = Reply::Answer { status, body: Some(token()) };
        let (next, action) =
            compute_reservations(&conf(), Progress::LoggingIn, Signal::LoginReply(reply));
        assert_eq!(next, Progress::Finished);
        match action {
            Action::Respond(Err(e)) => {
                assert_eq!(e, Error::UpstreamFailure);
                assert_eq!(e.status_code(), 503);
            }
            _ => panic!("an error was expected"),
        }
    }
}

#[test]
fn refused_login_ends_the_work_without_a_fetch() {
    let reply = Reply::Answer { status: 422, body: None };
    let (next, action) =
        compute_reservations(&conf(), Progress::LoggingIn, Signal::LoginReply(reply));
    assert_eq!(next, Progress::Finished);
    match action {
        Action::Respond(Err(e)) => {
            assert_eq!(e, Error::AuthenticationFailure);
            assert_eq!(e.status_code(), 500);
        }
        _ => panic!("an error was expected"),
    }
}

#[test]
fn login_without_an_answer_or_with_a_strange_body_fails() {
    let (next, action) =
        compute_reservations(&conf(), Progress::LoggingIn, Signal::LoginReply(Reply::Failed));
    assert_eq!(next, Progress::Finished);
    assert!(matches!(action, Action::Respond(Err(Error::UpstreamFailure))));
    let reply = Reply::Answer { status: 200, body: None };
    let (next, action) =
        compute_reservations(&conf(), Progress::LoggingIn, Signal::LoginReply(reply));
    assert_eq!(next, Progress::Finished);
    assert!(matches!(action, Action::Respond(Err(Error::Inconsistency))));
}

#[test]
fn past_reservations_never_reach_the_answer() {
    let data = ReservationsResponse {
        upcoming_reservations: vec![raw(7, "Tennis", "2024-07-10", "18:00:00", "19:00:00")],
        old_reservations: vec![
            raw(1, "Old", "2020-01-01", "10:00:00", "11:00:00"),
            raw(2, "Broken", "never", "x", "y"),
        ],
    };
    let reply = Reply::Answer { status: 200, body: Some(data) };
    let (next, action) =
        compute_reservations(&conf(), Progress::Fetching, Signal::ReservationsReply(reply));
    assert_eq!(next, Progress::Finished);
    match action {
        Action::Respond(Ok(list)) => {
            assert_eq!(list.len(), 1);
            assert_eq!(list[0].id, 7);
            assert_eq!(list[0].name, "Tennis");
            let start = Instant {
                year: 2024,
                month: 7,
                day: 10,
                hour: 16,
                minute: 0,
                second: 0,
                nanosecond: 0,
            };
            assert_eq!(list[0].start, start);
        }
        _ => panic!("the reservations were expected"),
    }
}

#[test]
fn fetch_that_fails_ends_the_work_with_its_error() {
    let (_, action) = compute_reservations(
        &conf(),
        Progress::Fetching,
        Signal::ReservationsReply(Reply::Failed),
    );
    assert!(matches!(action, Action::Respond(Err(Error::UpstreamFailure))));
    let (_, action) = compute_reservations(
        &conf(),
        Progress::Fetching,
        Signal::ReservationsReply(Reply::Answer { status: 200, body: None }),
    );
    assert!(matches!(action, Action::Respond(Err(Error::Inconsistency))));
    let data = ReservationsResponse {
        upcoming_reservations: vec![
            raw(7, "Tennis", "2024-07-10", "18:00:00", "19:00:00"),
            raw(8, "Broken", "2024-07-10", "18:00:00", "soon"),
        ],
        old_reservations: vec![],
    };
    let (_, action) = compute_reservations(
        &conf(),
        Progress::Fetching,
        Signal::ReservationsReply(Reply::Answer { status: 200, body: Some(data) }),
    );
    assert!(matches!(action, Action::Respond(Err(Error::Inconsistency))));
}

#[test]
fn port_numbers() {
    assert_eq!(parse_port("8080"), Some(8080));
    assert_eq!(parse_port("0"), Some(0));
    assert_eq!(parse_port("65535"), Some(65535));
    assert_eq!(parse_port("65536"), None);
    assert_eq!(parse_port("99999999999999999999"), None);
    assert_eq!(parse_port("+80"), Some(80));
    assert_eq!(parse_port("00080"), Some(80));
    assert_eq!(parse_port(""), None);
    assert_eq!(parse_port("+"), None);
    assert_eq!(parse_port("-1"), None);
    assert_eq!(parse_port("++1"), None);
    assert_eq!(parse_port(" 80"), None);
    assert_eq!(parse_port("80 "), None);
    assert_eq!(parse_port("8o"), None);
    for text in vec!["8080", "65535", "65536", "+80", "", "+", "-1", "0x10", "١٢"] {
        assert_eq!(parse_port(text), text.parse::<u16>().ok());
    }
}

#[test]
fn settings_from_lookups() {
    let c = get_conf(found("a@b.c"), found("pw"), found("club"), found("0.0.0.0"), found("9000"))
        .unwrap();
    assert_eq!(c.email, "a@b.c");
    assert_eq!(c.password, "pw");
    assert_eq!(c.club, "club");
    assert_eq!(c.host, "0.0.0.0");
    assert_eq!(c.port, 9000);
}

#[test]
fn absent_host_and_port_take_their_defaults() {
    let c = get_conf(
        found("a@b.c"),
        found("pw"),
        found("club"),
        Err(VarError::NotPresent),
        Err(VarError::NotPresent),
    )
    .unwrap();
    assert_eq!(c.host, "127.0.0.1");
    assert_eq!(c.port, 8080);
}

#[test]
fn missing_required_setting_gives_no_settings() {
    let e = get_conf(Err(VarError::NotPresent), found("pw"), found("club"), found("h"), found("1"))
        .unwrap_err();
    assert_eq!(e.0, "DIWI_EMAIL");
    assert_eq!(e.1, EnvErrorKind::Env(VarError::NotPresent));
    let e = get_conf(found("a"), Err(VarError::NotPresent), found("club"), found("h"), found("1"))
        .unwrap_err();
    assert_eq!(e.0, "DIWI_PASSWORD");
    assert_eq!(e.1, EnvErrorKind::Env(VarError::NotPresent));
    let e = get_conf(found("a"), found("pw"), Err(VarError::NotUnicode), found("h"), found("1"))
        .unwrap_err();
    assert_eq!(e.0, "DIWI_CLUB");
    assert_eq!(e.1, EnvErrorKind::Env(VarError::NotUnicode));
    let e = get_conf(
        Err(VarError::NotPresent),
        Err(VarError::NotPresent),
        Err(VarError::NotPresent),
        Err(VarError::NotPresent),
        Err(VarError::NotPresent),
    )
    .unwrap_err();
    assert_eq!(e.0, "DIWI_EMAIL");
}

#[test]
fn malformed_optional_setting_is_an_error() {
    let e = get_conf(found("a"), found("pw"), found("club"), found("h"), found("http"))
        .unwrap_err();
    assert_eq!(e.0, "DIWI_PORT");
    assert_eq!(e.1, EnvErrorKind::Parse);
    let e = get_conf(found("a"), found("pw"), found("club"), Err(VarError::NotUnicode), found("1"))
        .unwrap_err();
    assert_eq!(e.0, "DIWI_HOST");
    assert_eq!(e.1, EnvErrorKind::Env(VarError::NotUnicode));
    let e = get_conf(found("a"), found("pw"), found("club"), found("h"), Err(VarError::NotUnicode))
        .unwrap_err();
    assert_eq!(e.0, "DIWI_PORT");
    assert_eq!(e.1, EnvErrorKind::Env(VarError::NotUnicode));
}

#[test]
fn single_settings() {
    assert_eq!(var("KEY", found("value")).unwrap(), "value");
    let e = var("KEY", Err(VarError::NotPresent)).unwrap_err();
    assert_eq!(e.0, "KEY");
    assert_eq!(e.1, EnvErrorKind::Env(VarError::NotPresent));
    assert_eq!(var_port("PORT", found("443")).unwrap(), 443);
    let e = var_port("PORT", found("70000")).unwrap_err();
    assert_eq!(e.0, "PORT");
    assert_eq!(e.1, EnvErrorKind::Parse);
    let e = var_port("PORT", Err(VarError::NotUnicode)).unwrap_err();
    assert_eq!(e.1, EnvErrorKind::Env(VarError::NotUnicode));
}

#[test]
fn default_replaces_only_an_absent_setting() {
    let absent: Result<u16, EnvError> =
        Err(EnvError("PORT", EnvErrorKind::Env(VarError::NotPresent)));
    assert_eq!(with_default(absent, 8080).unwrap(), 8080);
    let present: Result<u16, EnvError> = Ok(1);
    assert_eq!(with_default(present, 8080).unwrap(), 1);
    let garbled: Result<u16, EnvError> = Err(EnvError("PORT", EnvErrorKind::Parse));
    let e = with_default(garbled, 8080).unwrap_err();
    assert_eq!(e.0, "PORT");
    assert_eq!(e.1, EnvErrorKind::Parse);
    let unreadable: Result<u16, EnvError> =
        Err(EnvError("PORT", EnvErrorKind::Env(VarError::NotUnicode)));
    let e = with_default(unreadable, 8080).unwrap_err();
    assert_eq!(e.1, EnvErrorKind::Env(VarError::NotUnicode));
}
