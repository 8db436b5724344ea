//! The booking service's interface: its requests, its replies and how a
//! reply is judged.

use vstd::prelude::*;
use vstd::string::*;
use crate::env::EnvConfiguration;
use crate::instant::decimal;
use crate::instant::push_decimal;
use crate::Error;

verus! {

/// The form that a login submits.
#[derive(Clone, Copy, Debug)]
pub struct LoginParams<'a> {
    pub email: &'a str,
    pub password: &'a str,
}

/// What a successful login hands out.
#[derive(Clone, Debug)]
pub struct LoginResponse {
    pub access_token: String,
    pub club_id: u32,
}

/// A reservation as the booking service describes it.
#[derive(Clone, Debug)]
pub struct Reservation {
    pub id: u32,
    pub name: String,
    pub model: ReservationModel,
}

/// The date and the two clock times of a reservation, in the facility's
/// local time.
#[derive(Clone, Debug)]
pub struct ReservationModel {
    pub date: String,
    pub start_time: String,
    pub end_time: String,
}

/// The reservations of an account, split by the service into those still to
/// come and those past.
#[derive(Clone, Debug)]
pub struct ReservationsResponse {
    pub upcoming_reservations: Vec<Reservation>,
    pub old_reservations: Vec<Reservation>,
}

/// The mathematical content of a service-side reservation.
pub struct RawReservation {
    pub id: u32,
    pub name: Seq<char>,
    pub date: Seq<char>,
    pub start_time: Seq<char>,
    pub end_time: Seq<char>,
}

impl View for Reservation {
    type V = RawReservation;

    open spec fn view(&self) -> RawReservation {
        RawReservation {
            id: self.id,
            name: self.name@,
            date: self.model.date@,
            start_time: self.model.start_time@,
            end_time: self.model.end_time@,
        }
    }
}

/// What came of one request: no answer at all, or an answer with its status
/// and its body, `None` where the body did not have the expected shape.
#[derive(Debug)]
pub enum Reply<T> {
    Failed,
    Answer { status: u16, body: Option<T> },
}

/// How a reply is judged: the status first, then the body.
pub open spec fn outcome<T>(reply: Reply<T>) -> Result<T, Error> {
    match reply {
        Reply::Failed => Err(Error::UpstreamFailure),
        Reply::Answer { status, body } => if status == 422 {
            Err(Error::AuthenticationFailure)
        } else if status != 200 {
            Err(Error::UpstreamFailure)
        } else {
            match body {
                None => Err(Error::Inconsistency),
                Some(b) => Ok(b),
            }
        },
    }
}

fn judge<T>(reply: Reply<T>) -> (r: Result<T, Error>)
    ensures
        r == outcome(reply),
{
    match reply {
        Reply::Failed => Err(Error::UpstreamFailure),
        Reply::Answer { status, body } => {
            if status == 422 {
                Err(Error::AuthenticationFailure)
            } else if status != 200 {
                Err(Error::UpstreamFailure)
            } else {
                match body {
                    None => Err(Error::Inconsistency),
                    Some(b) => Ok(b),
                }
            }
        },
    }
}

/// The name under which every request announces its sender.
pub open spec fn user_agent_text() -> Seq<char> {
    "dewi-reservations-ical"@
}

/// The name under which every request announces its sender.
pub fn user_agent() -> (r: &'static str)
    ensures
        r@ == user_agent_text(),
{
    "dewi-reservations-ical"
}

/// The address of a club's login.
pub open spec fn login_url_text(club: Seq<char>) -> Seq<char> {
    "https://"@ + club + ".dewi-online.nl/api/app/login"@
}

/// The address of the reservations of one account at a club.
pub open spec fn reservations_url_text(club: Seq<char>, club_id: u32) -> Seq<char> {
    "https://"@ + club + ".dewi-online.nl/api/app/club/"@ + decimal(club_id as nat)
        + "/reservations"@
}

/// The address to which a login is posted.
pub fn login_url(conf: &EnvConfiguration) -> (r: String)
    ensures
        r@ == login_url_text(conf.club@),
{
    let mut url = String::from_str("https://");
    url.append(conf.club.as_str());
    url.append(".dewi-online.nl/api/app/login");
    url
}

/// The form that a login posts: the configured account.
pub fn login_params<'a>(conf: &'a EnvConfiguration) -> (r: LoginParams<'a>)
    ensures
        r.email@ == conf.email@,
        r.password@ == conf.password@,
{
    LoginParams { email: conf.email.as_str(), password: conf.password.as_str() }
}

/// The address from which the reservations are fetched after a login.
pub fn reservations_url(conf: &EnvConfiguration, params: &LoginResponse) -> (r: String)
    ensures
        r@ == reservations_url_text(conf.club@, params.club_id),
{
    let mut url = String::from_str("https://");
    url.append(conf.club.as_str());
    url.append(".dewi-online.nl/api/app/club/");
    push_decimal(&mut url, params.club_id);
    url.append("/reservations");
    url
}

/// Judges the reply to a login: status 422 means that the account was
/// refused, any other status but 200 and a request that got no answer mean
/// that the service failed, and a body of another shape is an inconsistency.
pub fn login(reply: Reply<LoginResponse>) -> (r: Result<LoginResponse, Error>)
    ensures
        r == outcome(reply),
{
    judge(reply)
}

/// Judges the reply to a fetch of the reservations, as a login's is judged.
pub fn get_reservations(reply: Reply<ReservationsResponse>) -> (r: Result<
    ReservationsResponse,
    Error,
>)
    ensures
        r == outcome(reply),
{
    judge(reply)
}

} // verus!
