//! Reservations of a sports facility, fetched from its booking service,
//! normalised to UTC and published as JSON and as a calendar feed.

use vstd::prelude::*;
use vstd::string::*;
use chrono::Datelike;
use chrono::TimeZone;
use chrono::Timelike;
use crate::env::EnvConfiguration;
use crate::instant::Instant;
use crate::upstream::login_url_text;
use crate::upstream::outcome;
use crate::upstream::reservations_url_text;
use crate::upstream::LoginResponse;
use crate::upstream::RawReservation;
use crate::upstream::Reply;
use crate::upstream::ReservationsResponse;

pub mod calendar;
pub mod env;
pub mod instant;
pub mod upstream;

verus! {

/// Why a request for the reservations failed.
#[derive(Clone, Copy, Debug, PartialEq, Eq, Structural)]
pub enum Error {
    /// The booking service did not answer, or answered with a status that
    /// was not expected.
    UpstreamFailure,
    /// The booking service refused the configured account.
    AuthenticationFailure,
    /// The booking service answered with data of another shape than
    /// expected.
    Inconsistency,
}

pub type Result<T> = core::result::Result<T, Error>;

impl Error {
    /// The HTTP status under which the error is reported.
    pub open spec fn spec_status_code(self) -> u16 {
        match self {
            Error::UpstreamFailure => 503,
            Error::AuthenticationFailure => 500,
            Error::Inconsistency => 500,
        }
    }

    /// The name of the error's kind.
    pub open spec fn spec_name(self) -> Seq<char> {
        match self {
            Error::UpstreamFailure => "UpstreamFailure"@,
            Error::AuthenticationFailure => "AuthenticationFailure"@,
            Error::Inconsistency => "Inconsistency"@,
        }
    }

    /// The HTTP status under which the error is reported: 503 where the
    /// booking service failed, 500 otherwise.
    pub fn status_code(&self) -> (r: u16)
        ensures
            r == self.spec_status_code(),
    {
        match self {
            Error::UpstreamFailure => 503,
            Error::AuthenticationFailure => 500,
            Error::Inconsistency => 500,
        }
    }

    /// The name of the error's kind, as it is shown and reported.
    pub fn to_string(&self) -> (r: String)
        ensures
            r@ == self.spec_name(),
    {
        match self {
            Error::UpstreamFailure => String::from_str("UpstreamFailure"),
            Error::AuthenticationFailure => String::from_str("AuthenticationFailure"),
            Error::Inconsistency => String::from_str("Inconsistency"),
        }
    }

    /// The response that reports the error: its status, and as its body the
    /// name of the error's kind as a JSON string.
    pub fn error_response(&self) -> (r: (u16, String))
        ensures
            r.0 == self.spec_status_code(),
            r.1@ == seq!['"'] + self.spec_name() + seq!['"'],
    {
        proof {
            reveal_strlit("\"");
        }
        let mut body = String::from_str("\"");
        body.append(self.to_string().as_str());
        body.append("\"");
        proof {
            assert(body@ =~= seq!['"'] + self.spec_name() + seq!['"']);
        }
        (self.status_code(), body)
    }
}

/// The error of the date and time parser.
#[verifier::external_type_specification]
#[verifier::external_body]
pub struct ExParseError(chrono::format::ParseError);

/// A reservation with its start and end as UTC instants.
#[derive(Clone, Debug)]
pub struct Reservation {
    pub id: u32,
    pub name: String,
    pub start: Instant,
    pub end: Instant,
}

/// The mathematical content of a reservation.
pub struct ReservationView {
    pub id: u32,
    pub name: Seq<char>,
    pub start: Instant,
    pub end: Instant,
}

impl View for Reservation {
    type V = ReservationView;

    open spec fn view(&self) -> ReservationView {
        ReservationView { id: self.id, name: self.name@, start: self.start, end: self.end }
    }
}

/// The UTC instant of a civil date and time in the Europe/Amsterdam zone,
/// read from `text` by the pattern `format`; `None` where the text does not
/// match the pattern or names no single instant in that zone.
pub uninterp spec fn amsterdam_to_utc(text: Seq<char>, format: Seq<char>) -> Option<Instant>;

/// The pattern of a date and a clock time: `%F %T`.
pub open spec fn stamp_format() -> Seq<char> {
    seq!['%', 'F', ' ', '%', 'T']
}

/// A date and a clock time, written with one space between them.
pub open spec fn stamp_text(date: Seq<char>, time: Seq<char>) -> Seq<char> {
    date + seq![' '] + time
}

/// The UTC instant of a facility-local date and clock time.
pub open spec fn utc_of(date: Seq<char>, time: Seq<char>) -> Option<Instant> {
    amsterdam_to_utc(stamp_text(date, time), stamp_format())
}

/// What a service-side reservation normalises to: the same id and name, with
/// start and end as UTC instants; `None` where either cannot be read.
pub open spec fn normalized(raw: RawReservation) -> Option<ReservationView> {
    match (utc_of(raw.date, raw.start_time), utc_of(raw.date, raw.end_time)) {
        (Some(start), Some(end)) => Some(
            ReservationView { id: raw.id, name: raw.name, start, end },
        ),
        _ => None,
    }
}

/// The views of a list of service-side reservations.
pub open spec fn raw_views(raw: Seq<upstream::Reservation>) -> Seq<RawReservation> {
    Seq::new(raw.len(), |i: int| raw[i]@)
}

/// The result of normalising a whole list: every reservation in order where
/// all can be read, and an inconsistency where one cannot.
pub open spec fn is_transform_of(raw: Seq<RawReservation>, r: Result<Vec<Reservation>>) -> bool {
    match r {
        Ok(list) => {
            &&& list@.len() == raw.len()
            &&& forall|i: int|
                0 <= i < raw.len() ==> (#[trigger] normalized(raw[i])) == Some(list@[i]@)
            &&& forall|i: int|
                0 <= i < list@.len() ==> (#[trigger] list@[i]).start.wf() && list@[i].end.wf()
        },
        Err(e) => {
            &&& e == Error::Inconsistency
            &&& exists|i: int| 0 <= i < raw.len() && (#[trigger] normalized(raw[i])) is None
        },
    }
}

/// Calls chrono's `datetime_from_str` on the Europe/Amsterdam zone of
/// chrono-tz and moves the result to UTC. The contract names the instant and
/// says that its fields are in the ranges that chrono documents for them.
#[verifier::external_body]
#[allow(deprecated)]
fn amsterdam_utc_instant(text: &str, format: &str) -> (r: core::result::Result<
    Instant,
    chrono::format::ParseError,
>)
    ensures
        r.is_ok() == amsterdam_to_utc(text@, format@).is_some(),
        r.is_ok() ==> amsterdam_to_utc(text@, format@) == Some(r.unwrap()) && r.unwrap().wf(),
{
    let t = chrono_tz::Europe::Amsterdam.datetime_from_str(text, format)?.with_timezone(
        &chrono::Utc,
    );
    Ok(
        Instant {
            year: t.year(),
            month: t.month(),
            day: t.day(),
            hour: t.hour(),
            minute: t.minute(),
            second: t.second(),
            nanosecond: t.nanosecond(),
        },
    )
}

fn utc_instant(date: &String, time: &String) -> (r: core::result::Result<
    Instant,
    chrono::format::ParseError,
>)
    ensures
        r.is_ok() == utc_of(date@, time@).is_some(),
        r.is_ok() ==> utc_of(date@, time@) == Some(r.unwrap()) && r.unwrap().wf(),
{
    proof {
        reveal_strlit(" ");
        reveal_strlit("%F %T");
    }
    let mut text = date.clone();
    text.append(" ");
    text.append(time.as_str());
    assert(text@ =~= stamp_text(date@, time@));
    assert("%F %T"@ =~= stamp_format());
    amsterdam_utc_instant(text.as_str(), "%F %T")
}

fn normalize(value: &upstream::Reservation) -> (r: core::result::Result<
    Reservation,
    chrono::format::ParseError,
>)
    ensures
        r.is_ok() == normalized(value@).is_some(),
        r.is_ok() ==> normalized(value@) == Some(r.unwrap()@) && r.unwrap().start.wf()
            && r.unwrap().end.wf(),
{
    let start = match utc_instant(&value.model.date, &value.model.start_time) {
        Ok(t) => t,
        Err(e) => {
            return Err(e);
        },
    };
    let end = match utc_instant(&value.model.date, &value.model.end_time) {
        Ok(t) => t,
        Err(e) => {
            return Err(e);
        },
    };
    Ok(Reservation { id: value.id, name: value.name.clone(), start, end })
}

impl Reservation {
    /// Normalises one service-side reservation. It fails, with the parser's
    /// error for the start or else for the end, exactly where one of the two
    /// cannot be read as a date and time of the facility's zone.
    pub fn try_from(value: upstream::Reservation) -> (r: core::result::Result<
        Reservation,
        chrono::format::ParseError,
    >)
        ensures
            r.is_ok() == normalized(value@).is_some(),
            r.is_ok() ==> normalized(value@) == Some(r.unwrap()@) && r.unwrap().start.wf()
                && r.unwrap().end.wf(),
    {
        normalize(&value)
    }
}

/// Normalises a list of service-side reservations, all or nothing: one
/// reservation that cannot be read fails the whole list.
pub fn transform(raw: Vec<upstream::Reservation>) -> (r: Result<Vec<Reservation>>)
    ensures
        is_transform_of(raw_views(raw@), r),
{
    let ghost views = raw_views(raw@);
    let mut out: Vec<Reservation> = Vec::new();
    let mut i: usize = 0;
    while i < raw.len()
        invariant
            views == raw_views(raw@),
            i <= raw@.len(),
            out@.len() == i,
            forall|k: int| 0 <= k < i ==> (#[trigger] normalized(views[k])) == Some(out@[k]@),
            forall|k: int| 0 <= k < i ==> (#[trigger] out@[k]).start.wf() && out@[k].end.wf(),
        decreases raw@.len() - i,
    {
        match normalize(&raw[i]) {
            Ok(res) => {
                out.push(res);
            },
            Err(_) => {
                assert(normalized(views[i as int]) is None);
                return Err(Error::Inconsistency);
            },
        }
        i = i + 1;
    }
    Ok(out)
}

/// The settings, shared read-only among the requests that are served at
/// one time.
#[derive(Clone)]
pub struct Conf(pub std::sync::Arc<EnvConfiguration>);

/// How far the work for one request has come.
#[derive(Clone, Copy, Debug, PartialEq, Eq, Structural)]
pub enum Progress {
    /// Nothing was sent yet.
    Idle,
    /// The login was sent and its reply is awaited.
    LoggingIn,
    /// The fetch of the reservations was sent and its reply is awaited.
    Fetching,
    /// The request was answered.
    Finished,
}

/// What happened since the last step.
#[derive(Debug)]
pub enum Signal {
    /// A request for the reservations came in.
    Start,
    /// The login was replied to.
    LoginReply(Reply<LoginResponse>),
    /// The fetch of the reservations was replied to.
    ReservationsReply(Reply<ReservationsResponse>),
}

/// What is to be done next.
#[derive(Debug)]
pub enum Action {
    /// Post the configured account's login form to `url`.
    PostLogin { url: String },
    /// Get `url`, authorised by the bearer token.
    GetReservations { url: String, bearer: String },
    /// Answer the request with the reservations, or with the error.
    Respond(Result<Vec<Reservation>>),
}

/// The events that each stage of the work waits for.
pub open spec fn expects(progress: Progress, event: Signal) -> bool {
    match (progress, event) {
        (Progress::Idle, Signal::Start) => true,
        (Progress::LoggingIn, Signal::LoginReply(_)) => true,
        (Progress::Fetching, Signal::ReservationsReply(_)) => true,
        _ => false,
    }
}

/// Tells whether a stage of the work waits for an event.
pub fn is_expected(progress: Progress, event: &Signal) -> (r: bool)
    ensures
        r == expects(progress, *event),
{
    match (progress, event) {
        (Progress::Idle, Signal::Start) => true,
        (Progress::LoggingIn, Signal::LoginReply(_)) => true,
        (Progress::Fetching, Signal::ReservationsReply(_)) => true,
        _ => false,
    }
}

/// The step that an event calls for: a request starts with the login; a
/// login that succeeded is followed by the fetch, with the token and the
/// club's number that the login gave; every failure ends the work with its
/// error; and the fetched reservations that are still to come, and no
/// others, are normalised into the answer.
pub open spec fn is_step(
    club: Seq<char>,
    event: Signal,
    next: Progress,
    action: Action,
) -> bool {
    match event {
        Signal::Start => {
            &&& next == Progress::LoggingIn
            &&& action matches Action::PostLogin { url }
            &&& url@ == login_url_text(club)
        },
        Signal::LoginReply(reply) => match outcome(reply) {
            Ok(params) => {
                &&& next == Progress::Fetching
                &&& action matches Action::GetReservations { url, bearer }
                &&& url@ == reservations_url_text(club, params.club_id)
                &&& bearer@ == params.access_token@
            },
            Err(e) => next == Progress::Finished && action == Action::Respond(Err(e)),
        },
        Signal::ReservationsReply(reply) => {
            &&& next == Progress::Finished
            &&& action matches Action::Respond(r)
            &&& match outcome(reply) {
                Ok(data) => is_transform_of(raw_views(data.upcoming_reservations@), r),
                Err(e) => r == Err::<Vec<Reservation>, Error>(e),
            }
        },
    }
}

/// Decides the next step of the work for one request: log in, then fetch,
/// then answer. The caller performs the action and comes back with the
/// event that it led to.
pub fn compute_reservations(conf: &EnvConfiguration, progress: Progress, event: Signal) -> (r: (
    Progress,
    Action,
))
    requires
        expects(progress, event),
    ensures
        is_step(conf.club@, event, r.0, r.1),
{
    match event {
        Signal::Start => (Progress::LoggingIn, Action::PostLogin { url: upstream::login_url(conf) }),
        Signal::LoginReply(reply) => match upstream::login(reply) {
            Ok(params) => {
                let url = upstream::reservations_url(conf, &params);
                (Progress::Fetching, Action::GetReservations { url, bearer: params.access_token })
            },
            Err(e) => (Progress::Finished, Action::Respond(Err(e))),
        },
        Signal::ReservationsReply(reply) => match upstream::get_reservations(reply) {
            Ok(data) => (Progress::Finished, Action::Respond(transform(data.upcoming_reservations))),
            Err(e) => (Progress::Finished, Action::Respond(Err(e))),
        },
    }
}

/// A login that is answered with a status other than 200 and 422 ends the
/// work with an upstream failure, which is reported under status 503,
/// whatever the body.
pub proof fn lemma_unexpected_login_status(
    club: Seq<char>,
    status: u16,
    body: Option<LoginResponse>,
    next: Progress,
    action: Action,
)
    requires
        status != 200,
        status != 422,
        is_step(club, Signal::LoginReply(Reply::Answer { status, body }), next, action),
    ensures
        next == Progress::Finished,
        action == Action::Respond(Err(Error::UpstreamFailure)),
        Error::UpstreamFailure.spec_status_code() == 503,
{
}

/// A login that is answered with status 422 ends the work at once, with an
/// authentication failure, which is reported under status 500: no fetch
/// follows.
pub proof fn lemma_refused_login(
    club: Seq<char>,
    body: Option<LoginResponse>,
    next: Progress,
    action: Action,
)
    requires
        is_step(club, Signal::LoginReply(Reply::Answer { status: 422, body }), next, action),
    ensures
        next == Progress::Finished,
        action == Action::Respond(Err(Error::AuthenticationFailure)),
        !(action is GetReservations),
        Error::AuthenticationFailure.spec_status_code() == 500,
{
}

/// One reservation that cannot be read fails the whole list with an
/// inconsistency, which is reported under status 500: no part of the list
/// is returned.
pub proof fn lemma_all_or_nothing(raw: Seq<RawReservation>, bad: int, r: Result<Vec<Reservation>>)
    requires
        0 <= bad < raw.len(),
        normalized(raw[bad]) is None,
        is_transform_of(raw, r),
    ensures
        r == Err::<Vec<Reservation>, Error>(Error::Inconsistency),
        Error::Inconsistency.spec_status_code() == 500,
{
}

/// The past reservations of a fetched reply have no part in the answer: two
/// replies with the same reservations to come call for the same step.
pub proof fn lemma_old_reservations_ignored(
    club: Seq<char>,
    first: ReservationsResponse,
    second: ReservationsResponse,
    next: Progress,
    action: Action,
)
    requires
        raw_views(first.upcoming_reservations@) == raw_views(second.upcoming_reservations@),
        is_step(
            club,
            Signal::ReservationsReply(Reply::Answer { status: 200, body: Some(first) }),
            next,
            action,
        ),
    ensures
        is_step(
            club,
            Signal::ReservationsReply(Reply::Answer { status: 200, body: Some(second) }),
            next,
            action,
        ),
{
}

} // verus!
