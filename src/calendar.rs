//! Calendar event colors and the selection of calendars and events.
use vstd::prelude::*;

use crate::auth::AuthError;
use crate::text::has_prefix;

verus! {

/// Enumerated color options for calendar events.
#[derive(Clone, Copy, Debug, PartialEq, Eq, Structural)]
pub enum Color {
    LightPurple,
    LightGreen,
    Purple,
    Salmon,
    Yellow,
    Orange,
    LightBlue,
    Gray,
    Blue,
    Green,
    Red,
}

/// Position of a color in the calendar service's event palette (1 to 11).
pub open spec fn color_number(c: Color) -> nat {
    match c {
        Color::LightPurple => 1,
        Color::LightGreen => 2,
        Color::Purple => 3,
        Color::Salmon => 4,
        Color::Yellow => 5,
        Color::Orange => 6,
        Color::LightBlue => 7,
        Color::Gray => 8,
        Color::Blue => 9,
        Color::Green => 10,
        Color::Red => 11,
    }
}

/// The character of a single decimal digit.
pub open spec fn digit_char(d: nat) -> char
    recommends
        d < 10,
{
    if d == 0 { '0' }
    else if d == 1 { '1' }
    else if d == 2 { '2' }
    else if d == 3 { '3' }
    else if d == 4 { '4' }
    else if d == 5 { '5' }
    else if d == 6 { '6' }
    else if d == 7 { '7' }
    else if d == 8 { '8' }
    else { '9' }
}

/// The decimal numeral of `n`, without leading zeros.
pub open spec fn decimal(n: nat) -> Seq<char>
    decreases n,
{
    if n < 10 {
        seq![digit_char(n)]
    } else {
        decimal(n / 10).push(digit_char(n % 10))
    }
}

/// The identifier under which the calendar service knows an event color:
/// the decimal numeral of its palette position.
pub fn color_id(c: Color) -> (r: &'static str)
    ensures
        r@ == decimal(color_number(c)),
{
    match c {
        Color::LightPurple => {
            proof { reveal_strlit("1"); }
            "1"
        },
        Color::LightGreen => {
            proof { reveal_strlit("2"); }
            "2"
        },
        Color::Purple => {
            proof { reveal_strlit("3"); }
            "3"
        },
        Color::Salmon => {
            proof { reveal_strlit("4"); }
            "4"
        },
        Color::Yellow => {
            proof { reveal_strlit("5"); }
            "5"
        },
        Color::Orange => {
            proof { reveal_strlit("6"); }
            "6"
        },
        Color::LightBlue => {
            proof { reveal_strlit("7"); }
            "7"
        },
        Color::Gray => {
            proof { reveal_strlit("8"); }
            "8"
        },
        Color::Blue => {
            proof { reveal_strlit("9"); }
            "9"
        },
        Color::Green => {
            proof {
                reveal_strlit("10");
                assert(decimal(1) == seq!['1']);
                assert(decimal(10) == decimal(1).push('0'));
                assert(decimal(10) =~= seq!['1', '0']);
            }
            "10"
        },
        Color::Red => {
            proof {
                reveal_strlit("11");
                assert(decimal(1) == seq!['1']);
                assert(decimal(11) == decimal(1).push('1'));
                assert(decimal(11) =~= seq!['1', '1']);
            }
            "11"
        },
    }
}

#[verifier::external_type_specification]
#[verifier::external_body]
pub struct ExCalendarApiError(google_calendar3::Error);

/// Why a calendar operation failed.
#[derive(Debug)]
pub enum CalendarError {
    /// Authorization could not be set up.
    Auth(AuthError),
    /// The calendar service refused or failed a request.
    CalendarAPI(google_calendar3::Error),
    /// The service answered with something unusable, described in words.
    Other(String),
}

impl From<AuthError> for CalendarError {
    fn from(err: AuthError) -> (r: CalendarError)
        ensures
            r == CalendarError::Auth(err),
    {
        CalendarError::Auth(err)
    }
}

impl vstd::std_specs::convert::FromSpecImpl<AuthError> for CalendarError {
    open spec fn obeys_from_spec() -> bool {
        true
    }

    open spec fn from_spec(v: AuthError) -> CalendarError {
        CalendarError::Auth(v)
    }
}

impl From<google_calendar3::Error> for CalendarError {
    fn from(err: google_calendar3::Error) -> (r: CalendarError)
        ensures
            r == CalendarError::CalendarAPI(err),
    {
        CalendarError::CalendarAPI(err)
    }
}

impl vstd::std_specs::convert::FromSpecImpl<google_calendar3::Error> for CalendarError {
    open spec fn obeys_from_spec() -> bool {
        true
    }

    open spec fn from_spec(v: google_calendar3::Error) -> CalendarError {
        CalendarError::CalendarAPI(v)
    }
}

impl From<String> for CalendarError {
    fn from(err: String) -> (r: CalendarError)
        ensures
            r == CalendarError::Other(err),
    {
        CalendarError::Other(err)
    }
}

impl vstd::std_specs::convert::FromSpecImpl<String> for CalendarError {
    open spec fn obeys_from_spec() -> bool {
        true
    }

    open spec fn from_spec(v: String) -> CalendarError {
        CalendarError::Other(v)
    }
}

/// What the selection of the primary calendar reads of one entry of the
/// user's calendar list.
pub struct CalendarEntry {
    /// The calendar's identifier, when the service gave one.
    pub id: Option<String>,
    /// Whether the service marked the entry as primary.
    pub primary: bool,
}

/// Index of the first entry marked primary, if any.
pub open spec fn first_primary(entries: Seq<CalendarEntry>) -> Option<int>
    decreases entries.len(),
{
    if entries.len() == 0 {
        None
    } else {
        match first_primary(entries.drop_last()) {
            Some(i) => Some(i),
            None => if entries.last().primary {
                Some(entries.len() - 1)
            } else {
                None
            },
        }
    }
}

/// The identifier of the primary calendar, chosen from the service's
/// calendar list: the first entry marked primary. Fails with "No calendars
/// listed" when the list is absent, "No primary" when no entry is marked
/// primary, and "Primary missing ID" when that entry has no identifier.
pub fn primary_calendar_id(items: Option<Vec<CalendarEntry>>) -> (r: Result<String, CalendarError>)
    ensures
        match items {
            None => r matches Err(CalendarError::Other(m)) && m@ == "No calendars listed"@,
            Some(v) => match first_primary(v@) {
                None => r matches Err(CalendarError::Other(m)) && m@ == "No primary"@,
                Some(i) => match v@[i].id {
                    Some(id) => r matches Ok(s) && s@ == id@,
                    None => r matches Err(CalendarError::Other(m)) && m@ == "Primary missing ID"@,
                },
            },
        },
{
    let list = match items {
        Some(list) => list,
        None => return Err(CalendarError::Other(String::from_str("No calendars listed"))),
    };
    let mut i: usize = 0;
    while i < list.len()
        invariant
            items == Some(list),
            i <= list@.len(),
            first_primary(list@.subrange(0, i as int)) is None,
        decreases list@.len() - i,
    {
        assert(list@.subrange(0, i + 1).drop_last() =~= list@.subrange(0, i as int));
        assert(list@.subrange(0, i + 1).last() == list@[i as int]);
        if list[i].primary {
            assert(first_primary(list@.subrange(0, i + 1)) == Some(i as int));
            proof { lemma_first_primary_prefix(list@, i as int + 1); }
            return match &list[i].id {
                Some(id) => Ok(id.clone()),
                None => Err(CalendarError::Other(String::from_str("Primary missing ID"))),
            };
        }
        i = i + 1;
    }
    assert(list@.subrange(0, i as int) =~= list@);
    Err(CalendarError::Other(String::from_str("No primary")))
}

/// The first primary entry of a prefix that holds one is the first primary
/// entry of the whole list.
pub proof fn lemma_first_primary_prefix(entries: Seq<CalendarEntry>, n: int)
    requires
        0 <= n <= entries.len(),
        first_primary(entries.subrange(0, n)) is Some,
    ensures
        first_primary(entries) == first_primary(entries.subrange(0, n)),
    decreases entries.len() - n,
{
    if n < entries.len() {
        assert(entries.subrange(0, n + 1).drop_last() =~= entries.subrange(0, n));
        lemma_first_primary_prefix(entries, n + 1);
    } else {
        assert(entries.subrange(0, n) =~= entries);
    }
}

/// The mark that puts a calendar event in this server's hands.
pub open spec fn sekhmet_mark() -> Seq<char> {
    "#sek "@
}

/// Whether an event with this summary is one this server acts on: its
/// summary begins with the mark.
pub fn is_sekhmet_summary(summary: &str) -> (r: bool)
    ensures
        r == sekhmet_mark().is_prefix_of(summary@),
{
    has_prefix(summary, "#sek ")
}

/// A moment in UTC: whole seconds since the Unix epoch and the nanoseconds
/// past that second.
#[derive(Clone, Copy, Debug, PartialEq, Eq, Structural)]
pub struct UtcTime {
    pub seconds: i64,
    pub nanos: u32,
}

/// The moment that an RFC 3339 timestamp denotes, as seconds since the Unix
/// epoch and nanoseconds, or `None` when the text is not such a timestamp.
pub uninterp spec fn rfc3339_utc(s: Seq<char>) -> Option<(i64, u32)>;

/// Relies on chrono's `FromStr` for `DateTime<Utc>` (a relaxed RFC 3339
/// parser, converted to UTC), then `timestamp` and `timestamp_subsec_nanos`:
/// the result depends on the text alone.
#[verifier::external_body]
fn parse_rfc3339(s: &str) -> (r: Option<(i64, u32)>)
    ensures
        r == rfc3339_utc(s@),
{
    match s.parse::<chrono::DateTime<chrono::Utc>>() {
        Ok(t) => Some((t.timestamp(), t.timestamp_subsec_nanos())),
        Err(_) => None,
    }
}

/// The moment of an event boundary, given the service's `dateTime` text.
pub open spec fn time_of(date_time: Option<String>) -> Option<UtcTime> {
    match date_time {
        None => None,
        Some(s) => match rfc3339_utc(s@) {
            None => None,
            Some((seconds, nanos)) => Some(UtcTime { seconds, nanos }),
        },
    }
}

/// Reads the moment of an event boundary from the service's `dateTime`
/// text; `None` when it is absent or unreadable.
pub fn parse_time(date_time: &Option<String>) -> (r: Option<UtcTime>)
    ensures
        r == time_of(*date_time),
{
    match date_time {
        None => None,
        Some(s) => match parse_rfc3339(s.as_str()) {
            None => None,
            Some((seconds, nanos)) => Some(UtcTime { seconds, nanos }),
        },
    }
}

/// What the calendar service sends of one event, as far as this server
/// reads it.
pub struct EventRecord {
    pub id: Option<String>,
    /// The `dateTime` text of the event's start.
    pub start: Option<String>,
    /// The `dateTime` text of the event's end.
    pub end: Option<String>,
    pub summary: Option<String>,
    pub location: Option<String>,
    pub color_id: Option<String>,
}

/// A calendar event that has every field this server acts on.
pub struct Event {
    /// The service's identifier of the event.
    pub id: String,
    pub start: UtcTime,
    pub end: UtcTime,
    /// A free-form text summary of the event.
    pub summary: String,
    /// A free-form description of the event's location; empty when none.
    pub location: String,
    /// The event's color identifier, when it has one.
    pub color: Option<String>,
}

impl Event {
    /// Gives the event color `c`; nothing else changes.
    pub fn set_color(&mut self, c: Color)
        ensures
            final(self).color matches Some(s) && s@ == decimal(color_number(c)),
            final(self).id == old(self).id,
            final(self).start == old(self).start,
            final(self).end == old(self).end,
            final(self).summary == old(self).summary,
            final(self).location == old(self).location,
    {
        self.color = Some(String::from_str(color_id(c)));
    }
}

/// Builds an event from a record whose boundaries have been read as `start`
/// and `end`: `None` unless the identifier, both boundaries and the summary
/// are present. A missing location becomes the empty text.
pub fn event_from_parts(rec: EventRecord, start: Option<UtcTime>, end: Option<UtcTime>) -> (r:
    Option<Event>)
    ensures
        r is Some <==> (rec.id is Some && start is Some && end is Some && rec.summary is Some),
        r matches Some(e) ==> {
            &&& e.id@ == rec.id->0@
            &&& e.start == start->0
            &&& e.end == end->0
            &&& e.summary@ == rec.summary->0@
            &&& e.location@ == (match rec.location {
                Some(l) => l@,
                None => Seq::<char>::empty(),
            })
            &&& e.color == rec.color_id
        },
{
    let EventRecord { id, start: _, end: _, summary, location, color_id } = rec;
    let id = match id {
        Some(id) => id,
        None => return None,
    };
    let start = match start {
        Some(t) => t,
        None => return None,
    };
    let end = match end {
        Some(t) => t,
        None => return None,
    };
    let summary = match summary {
        Some(s) => s,
        None => return None,
    };
    let location = match location {
        Some(l) => l,
        None => String::new(),
    };
    Some(Event { id, start, end, summary, location, color: color_id })
}

/// Reads one event of the service: `None` unless it has an identifier, a
/// readable start and end, and a summary.
pub fn parse_event(rec: EventRecord) -> (r: Option<Event>)
    ensures
        r is Some <==> (rec.id is Some && time_of(rec.start) is Some && time_of(rec.end) is Some
            && rec.summary is Some),
        r matches Some(e) ==> {
            &&& e.id@ == rec.id->0@
            &&& e.start == time_of(rec.start)->0
            &&& e.end == time_of(rec.end)->0
            &&& e.summary@ == rec.summary->0@
            &&& e.location@ == (match rec.location {
                Some(l) => l@,
                None => Seq::<char>::empty(),
            })
            &&& e.color == rec.color_id
        },
{
    let start = parse_time(&rec.start);
    let end = parse_time(&rec.end);
    event_from_parts(rec, start, end)
}

} // verus!
