//! The calendar feed: one event per reservation, with an alarm one hour
//! before it starts.

use vstd::prelude::*;
use vstd::string::*;
use crate::instant::decimal;
use crate::instant::ical_text;
use crate::instant::instant_to_icalstr;
use crate::instant::push_decimal;
use crate::Reservation;
use crate::ReservationView;

verus! {

/// One property of a calendar component: a key and its value.
pub struct Line {
    pub key: Seq<char>,
    pub value: Seq<char>,
}

/// An innermost component, such as an alarm: a name and its properties.
pub struct Block {
    pub name: Seq<char>,
    pub lines: Seq<Line>,
}

/// A component of a calendar, such as an event: a name, its properties and
/// the components inside it.
pub struct Part {
    pub name: Seq<char>,
    pub lines: Seq<Line>,
    pub blocks: Seq<Block>,
}

/// What a calendar holds: its properties and its components, in order.
pub struct Document {
    pub lines: Seq<Line>,
    pub parts: Seq<Part>,
}

/// The calendar object of the `ics` crate.
#[verifier::external_type_specification]
#[verifier::external_body]
pub struct ExICalendar<'a>(ics::ICalendar<'a>);

/// The event component of the `ics` crate.
#[verifier::external_type_specification]
#[verifier::external_body]
pub struct ExEvent<'a>(ics::Event<'a>);

/// What a calendar object holds.
pub uninterp spec fn calendar_content(c: ics::ICalendar<'static>) -> Document;

/// What an event holds, as the component that it becomes in a calendar.
pub uninterp spec fn event_content(e: ics::Event<'static>) -> Part;

/// The text that a calendar object of the given content is written as.
pub uninterp spec fn document_text(d: Document) -> Seq<char>;

/// A property.
pub open spec fn line(key: Seq<char>, value: Seq<char>) -> Line {
    Line { key, value }
}

/// A component with one more property at the end.
pub open spec fn with_line(p: Part, l: Line) -> Part {
    Part { name: p.name, lines: p.lines.push(l), blocks: p.blocks }
}

/// A component with one more inner component at the end.
pub open spec fn with_block(p: Part, b: Block) -> Part {
    Part { name: p.name, lines: p.lines, blocks: p.blocks.push(b) }
}

/// A calendar with one more component at the end.
pub open spec fn with_part(d: Document, p: Part) -> Document {
    Document { lines: d.lines, parts: d.parts.push(p) }
}

/// An empty calendar of a version and a product.
pub open spec fn new_document(version: Seq<char>, prodid: Seq<char>) -> Document {
    Document {
        lines: seq![line("VERSION"@, version), line("PRODID"@, prodid)],
        parts: Seq::empty(),
    }
}

/// A time zone with one standard-time rule.
pub open spec fn standard_zone(
    tzid: Seq<char>,
    dtstart: Seq<char>,
    offset_from: Seq<char>,
    offset_to: Seq<char>,
) -> Part {
    Part {
        name: "VTIMEZONE"@,
        lines: seq![line("TZID"@, tzid)],
        blocks: seq![
            Block {
                name: "STANDARD"@,
                lines: seq![
                    line("DTSTART"@, dtstart),
                    line("TZOFFSETFROM"@, offset_from),
                    line("TZOFFSETTO"@, offset_to),
                ],
            },
        ],
    }
}

/// An event with its two required properties and nothing else.
pub open spec fn new_event(uid: Seq<char>, dtstamp: Seq<char>) -> Part {
    Part {
        name: "VEVENT"@,
        lines: seq![line("UID"@, uid), line("DTSTAMP"@, dtstamp)],
        blocks: Seq::empty(),
    }
}

/// An alarm that displays a text.
pub open spec fn display_alarm(trigger: Seq<char>, description: Seq<char>) -> Block {
    Block {
        name: "VALARM"@,
        lines: seq![
            line("ACTION"@, "DISPLAY"@),
            line("TRIGGER"@, trigger),
            line("DESCRIPTION"@, description),
        ],
    }
}

/// The event of a reservation: its id as the event's id, its start as the
/// event's stamp and start, its end, its name as the summary, and an alarm
/// one hour before the start.
pub open spec fn event_of(r: ReservationView) -> Part {
    with_block(
        with_line(
            with_line(
                with_line(
                    new_event(decimal(r.id as nat), ical_text(r.start)),
                    line("DTSTART"@, ical_text(r.start)),
                ),
                line("DTEND"@, ical_text(r.end)),
            ),
            line("SUMMARY"@, r.name),
        ),
        display_alarm("-P0DT1H00M0S"@, "Time to sport!~"@),
    )
}

/// The calendar with the UTC time zone and the events of the first `n`
/// reservations of a list.
pub open spec fn document_upto(list: Seq<Reservation>, n: int) -> Document
    decreases n,
{
    if n <= 0 {
        with_part(
            new_document("2.0"@, "dewi-reservations"@),
            standard_zone("UTC"@, "19700329T020000"@, "+0000"@, "+0000"@),
        )
    } else {
        with_part(document_upto(list, n - 1), event_of(list[n - 1]@))
    }
}

/// The calendar of a list of reservations: version 2.0, the product's name,
/// the UTC time zone, and one event for each reservation, in order.
pub open spec fn document_of(list: Seq<Reservation>) -> Document {
    document_upto(list, list.len() as int)
}

/// Calls `ICalendar::new` of `ics`: the calendar holds the version and the
/// product as its two properties and no component.
#[verifier::external_body]
fn calendar_new(version: &str, prodid: &str) -> (c: ics::ICalendar<'static>)
    ensures
        calendar_content(c) == new_document(version@, prodid@),
{
    ics::ICalendar::new(version.to_string(), prodid.to_string())
}

/// Calls `ICalendar::add_timezone` of `ics` with a zone made by
/// `TimeZone::standard` from a rule made by `Standard::new`: the zone comes
/// last among the calendar's components.
#[verifier::external_body]
fn calendar_add_standard_zone(
    c: &mut ics::ICalendar<'static>,
    tzid: &str,
    dtstart: &str,
    offset_from: &str,
    offset_to: &str,
)
    ensures
        calendar_content(*final(c)) == with_part(
            calendar_content(*old(c)),
            standard_zone(tzid@, dtstart@, offset_from@, offset_to@),
        ),
{
    let rule = ics::Standard::new(
        dtstart.to_string(),
        offset_from.to_string(),
        offset_to.to_string(),
    );
    c.add_timezone(ics::TimeZone::standard(tzid.to_string(), rule));
}

/// Calls `ICalendar::add_event` of `ics`: the event comes last among the
/// calendar's components.
#[verifier::external_body]
fn calendar_add_event(c: &mut ics::ICalendar<'static>, e: ics::Event<'static>)
    ensures
        calendar_content(*final(c)) == with_part(calendar_content(*old(c)), event_content(e)),
{
    c.add_event(e);
}

/// Calls `to_string` on a calendar of `ics`: the text is that of the
/// calendar's content.
#[verifier::external_body]
fn calendar_to_string(c: &ics::ICalendar<'static>) -> (r: String)
    ensures
        r@ == document_text(calendar_content(*c)),
{
    c.to_string()
}

/// Calls `Event::new` of `ics`: the event holds its id and its stamp.
#[verifier::external_body]
fn event_new(uid: &str, dtstamp: &str) -> (e: ics::Event<'static>)
    ensures
        event_content(e) == new_event(uid@, dtstamp@),
{
    ics::Event::new(uid.to_string(), dtstamp.to_string())
}

/// Calls `Event::push` of `ics` with a `DtStart`: the property comes last.
#[verifier::external_body]
fn event_push_start(e: &mut ics::Event<'static>, value: &str)
    ensures
        event_content(*final(e)) == with_line(event_content(*old(e)), line("DTSTART"@, value@)),
{
    e.push(ics::properties::DtStart::new(value.to_string()));
}

/// Calls `Event::push` of `ics` with a `DtEnd`: the property comes last.
#[verifier::external_body]
fn event_push_end(e: &mut ics::Event<'static>, value: &str)
    ensures
        event_content(*final(e)) == with_line(event_content(*old(e)), line("DTEND"@, value@)),
{
    e.push(ics::properties::DtEnd::new(value.to_string()));
}

/// Calls `Event::push` of `ics` with a `Summary`: the property comes last.
#[verifier::external_body]
fn event_push_summary(e: &mut ics::Event<'static>, value: &str)
    ensures
        event_content(*final(e)) == with_line(event_content(*old(e)), line("SUMMARY"@, value@)),
{
    e.push(ics::properties::Summary::new(value.to_string()));
}

/// Calls `Event::add_alarm` of `ics` with an alarm made by `Alarm::display`:
/// the alarm comes last among the event's inner components.
#[verifier::external_body]
fn event_add_display_alarm(e: &mut ics::Event<'static>, trigger: &str, description: &str)
    ensures
        event_content(*final(e)) == with_block(
            event_content(*old(e)),
            display_alarm(trigger@, description@),
        ),
{
    e.add_alarm(
        ics::Alarm::display(
            ics::properties::Trigger::new(trigger.to_string()),
            ics::properties::Description::new(description.to_string()),
        ),
    );
}

/// Builds the event of one reservation.
fn event_for(r: &Reservation) -> (e: ics::Event<'static>)
    requires
        r.start.wf(),
        r.end.wf(),
    ensures
        event_content(e) == event_of(r@),
{
    let mut uid = String::new();
    push_decimal(&mut uid, r.id);
    assert(uid@ =~= decimal(r.id as nat));
    let start = instant_to_icalstr(&r.start);
    let end = instant_to_icalstr(&r.end);
    let mut event = event_new(uid.as_str(), start.as_str());
    event_push_start(&mut event, start.as_str());
    event_push_end(&mut event, end.as_str());
    event_push_summary(&mut event, r.name.as_str());
    event_add_display_alarm(&mut event, "-P0DT1H00M0S", "Time to sport!~");
    event
}

/// Writes the calendar feed of a list of reservations.
pub fn get_ical(reservations: &Vec<Reservation>) -> (r: String)
    requires
        forall|i: int|
            0 <= i < reservations@.len() ==> (#[trigger] reservations@[i]).start.wf()
                && reservations@[i].end.wf(),
    ensures
        r@ == document_text(document_of(reservations@)),
{
    let mut calendar = calendar_new("2.0", "dewi-reservations");
    calendar_add_standard_zone(&mut calendar, "UTC", "19700329T020000", "+0000", "+0000");
    let mut i: usize = 0;
    while i < reservations.len()
        invariant
            i <= reservations@.len(),
            calendar_content(calendar) == document_upto(reservations@, i as int),
            forall|k: int|
                0 <= k < reservations@.len() ==> (#[trigger] reservations@[k]).start.wf()
                    && reservations@[k].end.wf(),
        decreases reservations@.len() - i,
    {
        let event = event_for(&reservations[i]);
        calendar_add_event(&mut calendar, event);
        i = i + 1;
    }
    calendar_to_string(&calendar)
}

} // verus!
