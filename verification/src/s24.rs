//! The timetable directory and the render protocol: the identity of a
//! student's schedule, the wire shape of a rendered lesson, and the
//! decoding of the JSON envelopes the two exchanges answer with.
//!
//! Both exchanges are plain authenticated POSTs whose I/O lives with the
//! caller; what is verified here is every decision about the payloads —
//! which envelope members are required, that an absent `lessonInfo` means
//! an empty week rather than an error, and how a rendered record is read.

use vstd::prelude::*;

use crate::errors::{AppError, AppResult};
use crate::json::{get_member, json_member, json_parse_of, parse_json, Json};

verus! {

/// Identifies which schedule to render: the person and unit GUIDs that the
/// timetable directory reports for a student.
#[derive(Debug)]
pub struct Timetable {
    pub person_guid: String,
    pub unit_guid: String,
}

/// The mathematical content of a `Timetable`.
pub ghost struct TimetableView {
    pub person_guid: Seq<char>,
    pub unit_guid: Seq<char>,
}

impl View for Timetable {
    type V = TimetableView;

    open spec fn view(&self) -> TimetableView {
        TimetableView { person_guid: self.person_guid@, unit_guid: self.unit_guid@ }
    }
}

/// The views of a sequence of timetables, element by element.
pub open spec fn timetable_views(ts: Seq<Timetable>) -> Seq<TimetableView> {
    Seq::new(ts.len(), |i: int| ts[i]@)
}

/// The views of a sequence of strings, element by element.
pub open spec fn string_views(ss: Seq<String>) -> Seq<Seq<char>> {
    Seq::new(ss.len(), |i: int| ss[i]@)
}

/// A day of the week, Monday first, as the render protocol counts them.
#[derive(Clone, Copy, Debug, PartialEq, Eq, Structural)]
pub enum Weekday {
    Mon,
    Tue,
    Wed,
    Thu,
    Fri,
    Sat,
    Sun,
}

/// One rendered lesson occurrence as the render endpoint reports it:
/// positional text fields (course, then optionally teacher, then
/// optionally location), wall-clock start and end times, and a
/// day-of-week number that is 1 (Monday) through 7 (Sunday) when the
/// record is scheduled at all.
#[derive(Debug)]
pub struct S24Lesson {
    pub texts: Vec<String>,
    pub time_start: String,
    pub time_end: String,
    pub day_of_week_number: u8,
}

/// The mathematical content of an `S24Lesson`.
pub ghost struct S24LessonView {
    pub texts: Seq<Seq<char>>,
    pub time_start: Seq<char>,
    pub time_end: Seq<char>,
    pub day_of_week_number: u8,
}

impl View for S24Lesson {
    type V = S24LessonView;

    open spec fn view(&self) -> S24LessonView {
        S24LessonView {
            texts: string_views(self.texts@),
            time_start: self.time_start@,
            time_end: self.time_end@,
            day_of_week_number: self.day_of_week_number,
        }
    }
}

/// The views of a sequence of lesson records, element by element.
pub open spec fn record_views(rs: Seq<S24Lesson>) -> Seq<S24LessonView> {
    Seq::new(rs.len(), |i: int| rs[i]@)
}

/// The weekday a day-of-week number of the wire format denotes: 1 is
/// Monday through 7 being Sunday; anything else denotes no weekday.
pub open spec fn spec_weekday_of(n: u8) -> Option<Weekday> {
    match n {
        1u8 => Some(Weekday::Mon),
        2u8 => Some(Weekday::Tue),
        3u8 => Some(Weekday::Wed),
        4u8 => Some(Weekday::Thu),
        5u8 => Some(Weekday::Fri),
        6u8 => Some(Weekday::Sat),
        7u8 => Some(Weekday::Sun),
        _ => None,
    }
}

impl S24Lesson {
    /// The weekday this record falls on, or `None` for the sentinel
    /// day numbers the upstream system emits for unscheduled blocks.
    pub fn weekday(&self) -> (r: Option<Weekday>)
        ensures
            r == spec_weekday_of(self.day_of_week_number),
            r is Some <==> 1 <= self.day_of_week_number <= 7,
    {
        match self.day_of_week_number {
            1u8 => Some(Weekday::Mon),
            2u8 => Some(Weekday::Tue),
            3u8 => Some(Weekday::Wed),
            4u8 => Some(Weekday::Thu),
            5u8 => Some(Weekday::Fri),
            6u8 => Some(Weekday::Sat),
            7u8 => Some(Weekday::Sun),
            _ => None,
        }
    }
}

/// The timetable directory endpoint.
pub fn timetables_url() -> (r: &'static str)
    ensures
        r@ == "https://fns.stockholm.se/ng/api/services/skola24/get/personal/timetables"@,
{
    "https://fns.stockholm.se/ng/api/services/skola24/get/personal/timetables"
}

/// The endpoint a one-time render key is obtained from.
pub fn render_key_url() -> (r: &'static str)
    ensures
        r@ == "https://fns.stockholm.se/ng/api/get/timetable/render/key"@,
{
    "https://fns.stockholm.se/ng/api/get/timetable/render/key"
}

/// The endpoint that renders a week of the timetable.
pub fn render_timetable_url() -> (r: &'static str)
    ensures
        r@ == "https://fns.stockholm.se/ng/api/render/timetable"@,
{
    "https://fns.stockholm.se/ng/api/render/timetable"
}

/// The body of the directory request: only the fixed host name.
#[derive(Debug)]
pub struct TimetablesRequest {
    pub host_name: String,
}

/// Builds the directory request.
pub fn timetables_request() -> (r: TimetablesRequest)
    ensures
        r.host_name@ == "fns.stockholm.se"@,
{
    TimetablesRequest { host_name: "fns.stockholm.se".to_owned() }
}

/// The body of the render request. `width`, `height` and
/// `selection_type` are fixed protocol constants the external API
/// dictates; their meaning is opaque and they are preserved as data.
#[derive(Debug)]
pub struct RenderTimetableRequest {
    pub render_key: String,
    pub host: String,
    pub unit_guid: String,
    pub width: u32,
    pub height: u32,
    pub selection_type: u8,
    pub selection: String,
    pub week: u32,
    pub year: i32,
}

/// Builds the render request for one ISO week of one timetable: the
/// render key just obtained, the fixed host and layout constants, the
/// timetable's unit GUID, and its person GUID as the selection.
pub fn render_timetable_request(timetable: &Timetable, render_key: String, week: u32, year: i32)
    -> (r: RenderTimetableRequest)
    ensures
        r.render_key@ == render_key@,
        r.host@ == "fns.stockholm.se"@,
        r.unit_guid@ == timetable@.unit_guid,
        r.width == 732,
        r.height == 550,
        r.selection_type == 5,
        r.selection@ == timetable@.person_guid,
        r.week == week,
        r.year == year,
{
    RenderTimetableRequest {
        render_key,
        host: "fns.stockholm.se".to_owned(),
        unit_guid: timetable.unit_guid.clone(),
        width: 732,
        height: 550,
        selection_type: 5,
        selection: timetable.person_guid.clone(),
        week,
        year,
    }
}

/// What one directory entry denotes: its person and unit GUIDs, both
/// required non-empty strings — an entry with an empty selection field
/// could never be rendered.
pub open spec fn spec_timetable_of(j: Json) -> Option<TimetableView> {
    match json_member(j, "personGuid"@) {
        Some(Json::Str(p)) => match json_member(j, "unitGuid"@) {
            Some(Json::Str(u)) => if p@.len() > 0 && u@.len() > 0 {
                Some(TimetableView { person_guid: p@, unit_guid: u@ })
            } else {
                None
            },
            _ => None,
        },
        _ => None,
    }
}

/// What a directory entry list denotes: every entry must denote, in
/// order.
pub open spec fn spec_timetable_list_of(items: Seq<Json>) -> Option<Seq<TimetableView>>
    decreases items.len(),
{
    if items.len() == 0 {
        Some(Seq::empty())
    } else {
        match spec_timetable_list_of(items.drop_last()) {
            Some(prev) => match spec_timetable_of(items.last()) {
                Some(t) => Some(prev.push(t)),
                None => None,
            },
            None => None,
        }
    }
}

/// What the directory response denotes: the entry list behind the
/// two-level `data` / `getPersonalTimetablesResponse` /
/// `studentTimetables` envelope.
pub open spec fn spec_timetables_of(j: Json) -> Option<Seq<TimetableView>> {
    match json_member(j, "data"@) {
        Some(d) => match json_member(d, "getPersonalTimetablesResponse"@) {
            Some(resp) => match json_member(resp, "studentTimetables"@) {
                Some(Json::Arr(items)) => spec_timetable_list_of(items@),
                _ => None,
            },
            None => None,
        },
        None => None,
    }
}

/// Every entry an entry list denotes carries non-empty GUIDs.
proof fn lemma_timetable_list_renderable(items: Seq<Json>, ts: Seq<TimetableView>)
    requires
        spec_timetable_list_of(items) == Some(ts),
    ensures
        forall|i: int|
            0 <= i < ts.len() ==> (#[trigger] ts[i]).person_guid.len() > 0
                && ts[i].unit_guid.len() > 0,
    decreases items.len(),
{
    if items.len() > 0 {
        match spec_timetable_list_of(items.drop_last()) {
            Some(prev) => {
                lemma_timetable_list_renderable(items.drop_last(), prev);
            },
            None => {},
        }
    }
}

/// Every timetable a directory response denotes has a non-empty person
/// GUID and a non-empty unit GUID: whatever the upstream system sent,
/// decoded selection fields can always be rendered with.
pub proof fn lemma_decoded_timetables_are_renderable(j: Json, ts: Seq<TimetableView>)
    requires
        spec_timetables_of(j) == Some(ts),
    ensures
        forall|i: int|
            0 <= i < ts.len() ==> (#[trigger] ts[i]).person_guid.len() > 0
                && ts[i].unit_guid.len() > 0,
{
    match json_member(j, "data"@) {
        Some(d) => match json_member(d, "getPersonalTimetablesResponse"@) {
            Some(resp) => match json_member(resp, "studentTimetables"@) {
                Some(Json::Arr(items)) => {
                    lemma_timetable_list_renderable(items@, ts);
                },
                _ => {},
            },
            None => {},
        },
        None => {},
    }
}

/// One failed entry makes the whole entry list fail.
proof fn lemma_timetable_list_fails(items: Seq<Json>, i: int)
    requires
        0 <= i < items.len(),
        spec_timetable_of(items[i]) is None,
    ensures
        spec_timetable_list_of(items) is None,
    decreases items.len(),
{
    if i < items.len() - 1 {
        lemma_timetable_list_fails(items.drop_last(), i);
    }
}

/// Reads one directory entry.
fn timetable_of_item(j: &Json) -> (r: Option<Timetable>)
    ensures
        match r {
            Some(t) => spec_timetable_of(*j) == Some(t@),
            None => spec_timetable_of(*j) is None,
        },
{
    let p = match get_member(j, "personGuid") {
        Some(Json::Str(p)) => p,
        _ => {
            return None;
        },
    };
    let u = match get_member(j, "unitGuid") {
        Some(Json::Str(u)) => u,
        _ => {
            return None;
        },
    };
    if p.as_str().is_empty() || u.as_str().is_empty() {
        return None;
    }
    Some(Timetable { person_guid: p.clone(), unit_guid: u.clone() })
}

/// Reads a directory entry list.
fn decode_timetable_list(items: &Vec<Json>) -> (r: Option<Vec<Timetable>>)
    ensures
        match r {
            Some(ts) => spec_timetable_list_of(items@) == Some(timetable_views(ts@)),
            None => spec_timetable_list_of(items@) is None,
        },
{
    let mut out: Vec<Timetable> = Vec::new();
    let mut i: usize = 0;
    proof {
        assert(items@.take(0) =~= Seq::<Json>::empty());
        assert(timetable_views(out@) =~= Seq::<TimetableView>::empty());
    }
    while i < items.len()
        invariant
            i <= items.len(),
            spec_timetable_list_of(items@.take(i as int)) == Some(timetable_views(out@)),
        decreases items.len() - i,
    {
        let t = match timetable_of_item(&items[i]) {
            Some(t) => t,
            None => {
                proof {
                    lemma_timetable_list_fails(items@, i as int);
                }
                return None;
            },
        };
        out.push(t);
        proof {
            assert(items@.take(i + 1 as int).drop_last() =~= items@.take(i as int));
            assert(items@.take(i + 1 as int).last() == items@[i as int]);
            assert(timetable_views(out@) =~= timetable_views(out@.drop_last()).push(
                out@.last()@,
            ));
        }
        i = i + 1;
    }
    proof {
        assert(items@.take(items@.len() as int) =~= items@);
    }
    Some(out)
}

/// Decodes the directory response: the timetables of the student, in the
/// order the directory lists them. Any envelope of another shape is a
/// protocol error.
pub fn decode_timetables_response(body: &str) -> (r: AppResult<Vec<Timetable>>)
    ensures
        match r {
            Ok(ts) => json_parse_of(body@) matches Some(j) && spec_timetables_of(j) == Some(
                timetable_views(ts@),
            ),
            Err(e) => e == AppError::ProtocolError && match json_parse_of(body@) {
                Some(j) => spec_timetables_of(j) is None,
                None => true,
            },
        },
{
    let j = match parse_json(body) {
        Some(j) => j,
        None => {
            return Err(AppError::ProtocolError);
        },
    };
    let d = match get_member(&j, "data") {
        Some(d) => d,
        None => {
            return Err(AppError::ProtocolError);
        },
    };
    let resp = match get_member(d, "getPersonalTimetablesResponse") {
        Some(resp) => resp,
        None => {
            return Err(AppError::ProtocolError);
        },
    };
    let items = match get_member(resp, "studentTimetables") {
        Some(Json::Arr(items)) => items,
        _ => {
            return Err(AppError::ProtocolError);
        },
    };
    match decode_timetable_list(items) {
        Some(ts) => Ok(ts),
        None => Err(AppError::ProtocolError),
    }
}

/// What the render-key response denotes: the key string behind the
/// `data` envelope.
pub open spec fn spec_render_key_of(j: Json) -> Option<Seq<char>> {
    match json_member(j, "data"@) {
        Some(d) => match json_member(d, "key"@) {
            Some(Json::Str(k)) => Some(k@),
            _ => None,
        },
        None => None,
    }
}

/// Decodes the render-key response. Any envelope of another shape is a
/// protocol error.
pub fn decode_render_key_response(body: &str) -> (r: AppResult<String>)
    ensures
        match r {
            Ok(k) => json_parse_of(body@) matches Some(j) && spec_render_key_of(j) == Some(k@),
            Err(e) => e == AppError::ProtocolError && match json_parse_of(body@) {
                Some(j) => spec_render_key_of(j) is None,
                None => true,
            },
        },
{
    let j = match parse_json(body) {
        Some(j) => j,
        None => {
            return Err(AppError::ProtocolError);
        },
    };
    let d = match get_member(&j, "data") {
        Some(d) => d,
        None => {
            return Err(AppError::ProtocolError);
        },
    };
    match get_member(d, "key") {
        Some(Json::Str(k)) => Ok(k.clone()),
        _ => Err(AppError::ProtocolError),
    }
}

/// What a record's `texts` array denotes: every element must be a
/// string.
pub open spec fn spec_text_list_of(items: Seq<Json>) -> Option<Seq<Seq<char>>>
    decreases items.len(),
{
    if items.len() == 0 {
        Some(Seq::empty())
    } else {
        match spec_text_list_of(items.drop_last()) {
            Some(prev) => match items.last() {
                Json::Str(s) => Some(prev.push(s@)),
                _ => None,
            },
            None => None,
        }
    }
}

/// What one rendered lesson record denotes: its text fields, both
/// wall-clock time strings, and a day-of-week number small enough for a
/// byte. Anything else is malformed.
pub open spec fn spec_record_of(j: Json) -> Option<S24LessonView> {
    match json_member(j, "texts"@) {
        Some(Json::Arr(texts)) => match json_member(j, "timeStart"@) {
            Some(Json::Str(ts)) => match json_member(j, "timeEnd"@) {
                Some(Json::Str(te)) => match json_member(j, "dayOfWeekNumber"@) {
                    Some(Json::Int(n)) => if 0 <= n <= 255 {
                        match spec_text_list_of(texts@) {
                            Some(tv) => Some(
                                S24LessonView {
                                    texts: tv,
                                    time_start: ts@,
                                    time_end: te@,
                                    day_of_week_number: n as u8,
                                },
                            ),
                            None => None,
                        }
                    } else {
                        None
                    },
                    _ => None,
                },
                _ => None,
            },
            _ => None,
        },
        _ => None,
    }
}

/// What a record list denotes: every record must denote, in order.
pub open spec fn spec_record_list_of(items: Seq<Json>) -> Option<Seq<S24LessonView>>
    decreases items.len(),
{
    if items.len() == 0 {
        Some(Seq::empty())
    } else {
        match spec_record_list_of(items.drop_last()) {
            Some(prev) => match spec_record_of(items.last()) {
                Some(rec) => Some(prev.push(rec)),
                None => None,
            },
            None => None,
        }
    }
}

/// What the render response denotes: the lesson records behind the
/// `data` envelope. A `lessonInfo` member that is absent or null denotes
/// an empty week — that is the upstream encoding of "no lessons", not an
/// error.
pub open spec fn spec_lesson_records_of(j: Json) -> Option<Seq<S24LessonView>> {
    match json_member(j, "data"@) {
        Some(d) => match json_member(d, "lessonInfo"@) {
            None => Some(Seq::empty()),
            Some(Json::Null) => Some(Seq::empty()),
            Some(Json::Arr(items)) => spec_record_list_of(items@),
            Some(_) => None,
        },
        None => None,
    }
}

/// One failed record makes the whole record list fail.
proof fn lemma_record_list_fails(items: Seq<Json>, i: int)
    requires
        0 <= i < items.len(),
        spec_record_of(items[i]) is None,
    ensures
        spec_record_list_of(items) is None,
    decreases items.len(),
{
    if i < items.len() - 1 {
        lemma_record_list_fails(items.drop_last(), i);
    }
}

/// One non-string element makes the whole text list fail.
proof fn lemma_text_list_fails(items: Seq<Json>, i: int)
    requires
        0 <= i < items.len(),
        !(items[i] is Str),
    ensures
        spec_text_list_of(items) is None,
    decreases items.len(),
{
    if i < items.len() - 1 {
        lemma_text_list_fails(items.drop_last(), i);
    }
}

/// Reads a `texts` array.
fn decode_text_list(items: &Vec<Json>) -> (r: Option<Vec<String>>)
    ensures
        match r {
            Some(ss) => spec_text_list_of(items@) == Some(string_views(ss@)),
            None => spec_text_list_of(items@) is None,
        },
{
    let mut out: Vec<String> = Vec::new();
    let mut i: usize = 0;
    proof {
        assert(items@.take(0) =~= Seq::<Json>::empty());
        assert(string_views(out@) =~= Seq::<Seq<char>>::empty());
    }
    while i < items.len()
        invariant
            i <= items.len(),
            spec_text_list_of(items@.take(i as int)) == Some(string_views(out@)),
        decreases items.len() - i,
    {
        let s = match &items[i] {
            Json::Str(s) => s,
            _ => {
                proof {
                    lemma_text_list_fails(items@, i as int);
                }
                return None;
            },
        };
        out.push(s.clone());
        proof {
            assert(items@.take(i + 1 as int).drop_last() =~= items@.take(i as int));
            assert(items@.take(i + 1 as int).last() == items@[i as int]);
            assert(string_views(out@) =~= string_views(out@.drop_last()).push(out@.last()@));
        }
        i = i + 1;
    }
    proof {
        assert(items@.take(items@.len() as int) =~= items@);
    }
    Some(out)
}

/// Reads one rendered lesson record.
fn record_of_item(j: &Json) -> (r: Option<S24Lesson>)
    ensures
        match r {
            Some(rec) => spec_record_of(*j) == Some(rec@),
            None => spec_record_of(*j) is None,
        },
{
    let texts_json = match get_member(j, "texts") {
        Some(Json::Arr(texts)) => texts,
        _ => {
            return None;
        },
    };
    let ts = match get_member(j, "timeStart") {
        Some(Json::Str(ts)) => ts,
        _ => {
            return None;
        },
    };
    let te = match get_member(j, "timeEnd") {
        Some(Json::Str(te)) => te,
        _ => {
            return None;
        },
    };
    let n = match get_member(j, "dayOfWeekNumber") {
        Some(Json::Int(n)) => *n,
        _ => {
            return None;
        },
    };
    if n < 0 || n > 255 {
        return None;
    }
    let texts = match decode_text_list(texts_json) {
        Some(texts) => texts,
        None => {
            return None;
        },
    };
    let rec = S24Lesson {
        texts,
        time_start: ts.clone(),
        time_end: te.clone(),
        day_of_week_number: n as u8,
    };
    proof {
        assert(rec@.texts =~= string_views(rec.texts@));
    }
    Some(rec)
}

/// Reads a record list.
fn decode_record_list(items: &Vec<Json>) -> (r: Option<Vec<S24Lesson>>)
    ensures
        match r {
            Some(recs) => spec_record_list_of(items@) == Some(record_views(recs@)),
            None => spec_record_list_of(items@) is None,
        },
{
    let mut out: Vec<S24Lesson> = Vec::new();
    let mut i: usize = 0;
    proof {
        assert(items@.take(0) =~= Seq::<Json>::empty());
        assert(record_views(out@) =~= Seq::<S24LessonView>::empty());
    }
    while i < items.len()
        invariant
            i <= items.len(),
            spec_record_list_of(items@.take(i as int)) == Some(record_views(out@)),
        decreases items.len() - i,
    {
        let rec = match record_of_item(&items[i]) {
            Some(rec) => rec,
            None => {
                proof {
                    lemma_record_list_fails(items@, i as int);
                }
                return None;
            },
        };
        out.push(rec);
        proof {
            assert(items@.take(i + 1 as int).drop_last() =~= items@.take(i as int));
            assert(items@.take(i + 1 as int).last() == items@[i as int]);
            assert(record_views(out@) =~= record_views(out@.drop_last()).push(out@.last()@));
        }
        i = i + 1;
    }
    proof {
        assert(items@.take(items@.len() as int) =~= items@);
    }
    Some(out)
}

/// Decodes the render response into the week's raw lesson records. An
/// absent or null `lessonInfo` is an empty week; any envelope of another
/// shape is a protocol error.
pub fn decode_render_response(body: &str) -> (r: AppResult<Vec<S24Lesson>>)
    ensures
        match r {
            Ok(recs) => json_parse_of(body@) matches Some(j) && spec_lesson_records_of(j) == Some(
                record_views(recs@),
            ),
            Err(e) => e == AppError::ProtocolError && match json_parse_of(body@) {
                Some(j) => spec_lesson_records_of(j) is None,
                None => true,
            },
        },
{
    let j = match parse_json(body) {
        Some(j) => j,
        None => {
            return Err(AppError::ProtocolError);
        },
    };
    let d = match get_member(&j, "data") {
        Some(d) => d,
        None => {
            return Err(AppError::ProtocolError);
        },
    };
    match get_member(d, "lessonInfo") {
        None => {
            proof {
                assert(record_views(Seq::<S24Lesson>::empty()) =~= Seq::<S24LessonView>::empty());
            }
            Ok(Vec::new())
        },
        Some(Json::Null) => {
            proof {
                assert(record_views(Seq::<S24Lesson>::empty()) =~= Seq::<S24LessonView>::empty());
            }
            Ok(Vec::new())
        },
        Some(Json::Arr(items)) => match decode_record_list(items) {
            Some(recs) => Ok(recs),
            None => Err(AppError::ProtocolError),
        },
        Some(_) => Err(AppError::ProtocolError),
    }
}

} // verus!
