//! Retrieval of a student's class schedule from an SSO-protected timetable
//! portal: the scripted login sequence that turns a username and password
//! into a usable session, the codec that carries that session inside a
//! bearer token, and the two-phase render protocol that turns the portal's
//! wire records into calendar-ready lessons.

pub mod auth;
pub mod codec;
pub mod errors;
pub mod json;
pub mod s24;
pub mod time;
pub mod token;
pub mod util;

use vstd::prelude::*;

use crate::errors::{AppError, AppResult};
use crate::json::{json_member, json_parse_of, Json};
use crate::s24::{
    decode_render_response, spec_lesson_records_of, spec_weekday_of, S24Lesson, S24LessonView,
};
use crate::time::{
    iso_week_date, iso_week_to_date, parse_hms, spec_parse_hms, stockholm_to_utc, stockholm_utc,
};

verus! {

/// The decoded text fields of a lesson: the course name always, the
/// teacher and the location when the record carried them.
#[derive(Debug)]
pub struct LessonInfo {
    pub course: String,
    pub location: Option<String>,
    pub teacher: Option<String>,
}

/// The mathematical content of a `LessonInfo`.
pub ghost struct LessonInfoView {
    pub course: Seq<char>,
    pub location: Option<Seq<char>>,
    pub teacher: Option<Seq<char>>,
}

impl View for LessonInfo {
    type V = LessonInfoView;

    open spec fn view(&self) -> LessonInfoView {
        LessonInfoView {
            course: self.course@,
            location: match self.location {
                Some(ref l) => Some(l@),
                None => None,
            },
            teacher: match self.teacher {
                Some(ref t) => Some(t@),
                None => None,
            },
        }
    }
}

/// One calendar-ready lesson occurrence: UTC start and end instants (as
/// timestamps in seconds) and the decoded text fields. Start is always
/// strictly before end.
#[derive(Debug)]
pub struct Lesson {
    pub start: i64,
    pub end: i64,
    pub info: LessonInfo,
}

/// The mathematical content of a `Lesson`.
pub ghost struct LessonView {
    pub start: int,
    pub end: int,
    pub info: LessonInfoView,
}

impl View for Lesson {
    type V = LessonView;

    open spec fn view(&self) -> LessonView {
        LessonView { start: self.start as int, end: self.end as int, info: self.info@ }
    }
}

/// The views of a sequence of lessons, element by element.
pub open spec fn lesson_views(ls: Seq<Lesson>) -> Seq<LessonView> {
    Seq::new(ls.len(), |i: int| ls[i]@)
}

/// What one wire record normalizes to within a given ISO week.
///
/// A record whose day number denotes no weekday is dropped (`Ok(None)`):
/// the upstream system emits such sentinel records for unscheduled
/// blocks, and they must not fail the batch. A scheduled record is
/// malformed (`Err`) when a time string is not a valid `HH:MM:SS`
/// reading, when it has no text fields at all (a lesson without a course
/// name is corrupt data), when the week has no such date, or when the
/// wall-clock readings do not denote two UTC instants in strict order.
pub open spec fn spec_lesson_of(rec: S24LessonView, year: int, week: int) -> Result<
    Option<LessonView>,
    (),
> {
    if spec_weekday_of(rec.day_of_week_number) is None {
        Ok(None)
    } else {
        match (spec_parse_hms(rec.time_start), spec_parse_hms(rec.time_end)) {
            (Some(st), Some(en)) => {
                if rec.texts.len() == 0 {
                    Err(())
                } else {
                    match iso_week_date(year, week, rec.day_of_week_number as int) {
                        Some(date) => {
                            let start = stockholm_utc(date.0, date.1, date.2, st.0, st.1, st.2);
                            let end = stockholm_utc(date.0, date.1, date.2, en.0, en.1, en.2);
                            match (start, end) {
                                (Some(s), Some(e)) => if s < e {
                                    Ok(
                                        Some(
                                            LessonView {
                                                start: s,
                                                end: e,
                                                info: LessonInfoView {
                                                    course: rec.texts[0],
                                                    location: if rec.texts.len() > 2 {
                                                        Some(rec.texts[2])
                                                    } else {
                                                        None
                                                    },
                                                    teacher: if rec.texts.len() > 1 {
                                                        Some(rec.texts[1])
                                                    } else {
                                                        None
                                                    },
                                                },
                                            },
                                        ),
                                    )
                                } else {
                                    Err(())
                                },
                                _ => Err(()),
                            }
                        },
                        None => Err(()),
                    }
                }
            },
            _ => Err(()),
        }
    }
}

impl Lesson {
    /// Normalizes one wire record: `Ok(None)` drops an unscheduled
    /// sentinel record, `Ok(Some(..))` is a calendar-ready lesson, and a
    /// malformed record is a parse error.
    pub fn try_from_s24_lesson(rec: &S24Lesson, year: i32, week: u32) -> (r: AppResult<
        Option<Lesson>,
    >)
        ensures
            match r {
                Ok(Some(l)) => spec_lesson_of(rec@, year as int, week as int) == Ok::<
                    Option<LessonView>,
                    (),
                >(Some(l@)) && l.start < l.end,
                Ok(None) => spec_lesson_of(rec@, year as int, week as int) == Ok::<
                    Option<LessonView>,
                    (),
                >(None),
                Err(e) => e == AppError::ParseError && spec_lesson_of(
                    rec@,
                    year as int,
                    week as int,
                ) is Err,
            },
    {
        let day = rec.day_of_week_number;
        if day < 1 || day > 7 {
            return Ok(None);
        }
        let st = match parse_hms(rec.time_start.as_str()) {
            Some(t) => t,
            None => {
                return Err(AppError::ParseError);
            },
        };
        let en = match parse_hms(rec.time_end.as_str()) {
            Some(t) => t,
            None => {
                return Err(AppError::ParseError);
            },
        };
        if rec.texts.len() == 0 {
            return Err(AppError::ParseError);
        }
        let date = match iso_week_to_date(year, week, day) {
            Some(d) => d,
            None => {
                return Err(AppError::ParseError);
            },
        };
        let start = match stockholm_to_utc(date.0, date.1, date.2, st.0, st.1, st.2) {
            Some(t) => t,
            None => {
                return Err(AppError::ParseError);
            },
        };
        let end = match stockholm_to_utc(date.0, date.1, date.2, en.0, en.1, en.2) {
            Some(t) => t,
            None => {
                return Err(AppError::ParseError);
            },
        };
        if start >= end {
            return Err(AppError::ParseError);
        }
        let course = rec.texts[0].clone();
        let teacher: Option<String> = if rec.texts.len() > 1 {
            Some(rec.texts[1].clone())
        } else {
            None
        };
        let location: Option<String> = if rec.texts.len() > 2 {
            Some(rec.texts[2].clone())
        } else {
            None
        };
        Ok(Some(Lesson { start, end, info: LessonInfo { course, location, teacher } }))
    }
}

/// What a whole batch of wire records normalizes to: dropped records
/// leave no trace, kept lessons stay in record order, and one malformed
/// record fails the batch.
pub open spec fn spec_lessons_from_records(
    recs: Seq<S24LessonView>,
    year: int,
    week: int,
) -> Result<Seq<LessonView>, ()>
    decreases recs.len(),
{
    if recs.len() == 0 {
        Ok(Seq::empty())
    } else {
        match spec_lessons_from_records(recs.drop_last(), year, week) {
            Ok(prev) => match spec_lesson_of(recs.last(), year, week) {
                Ok(Some(l)) => Ok(prev.push(l)),
                Ok(None) => Ok(prev),
                Err(_) => Err(()),
            },
            Err(_) => Err(()),
        }
    }
}

/// One malformed record makes the whole batch fail.
proof fn lemma_records_fail(recs: Seq<S24LessonView>, year: int, week: int, i: int)
    requires
        0 <= i < recs.len(),
        spec_lesson_of(recs[i], year, week) is Err,
    ensures
        spec_lessons_from_records(recs, year, week) is Err,
    decreases recs.len(),
{
    if i < recs.len() - 1 {
        lemma_records_fail(recs.drop_last(), year, week, i);
    }
}

/// What the render response of one ISO week denotes as lessons: a
/// protocol error for an envelope of the wrong shape, a parse error for
/// a malformed record, and otherwise the normalized lessons in record
/// order.
pub open spec fn spec_week_lessons(j: Json, year: int, week: int) -> Result<
    Seq<LessonView>,
    AppError,
> {
    match spec_lesson_records_of(j) {
        Some(recs) => match spec_lessons_from_records(recs, year, week) {
            Ok(ls) => Ok(ls),
            Err(_) => Err(AppError::ParseError),
        },
        None => Err(AppError::ProtocolError),
    }
}

/// Decodes a render response and normalizes every record in it.
pub fn lessons_from_render_response(body: &str, year: i32, week: u32) -> (r: AppResult<
    Vec<Lesson>,
>)
    ensures
        match r {
            Ok(ls) => json_parse_of(body@) matches Some(j) && spec_week_lessons(
                j,
                year as int,
                week as int,
            ) == Ok::<Seq<LessonView>, AppError>(lesson_views(ls@)),
            Err(e) => match json_parse_of(body@) {
                Some(j) => spec_week_lessons(j, year as int, week as int) == Err::<
                    Seq<LessonView>,
                    AppError,
                >(e),
                None => e == AppError::ProtocolError,
            },
        },
{
    let recs = match decode_render_response(body) {
        Ok(recs) => recs,
        Err(e) => {
            return Err(e);
        },
    };
    let ghost recsv = crate::s24::record_views(recs@);
    let mut out: Vec<Lesson> = Vec::new();
    let mut i: usize = 0;
    proof {
        assert(recsv.take(0) =~= Seq::<S24LessonView>::empty());
        assert(lesson_views(out@) =~= Seq::<LessonView>::empty());
    }
    while i < recs.len()
        invariant
            i <= recs.len(),
            recsv == crate::s24::record_views(recs@),
            recsv.len() == recs@.len(),
            json_parse_of(body@) matches Some(j) && spec_lesson_records_of(j) == Some(recsv),
            spec_lessons_from_records(recsv.take(i as int), year as int, week as int) == Ok::<
                Seq<LessonView>,
                (),
            >(lesson_views(out@)),
        decreases recs.len() - i,
    {
        proof {
            assert(recsv.take(i + 1 as int).drop_last() =~= recsv.take(i as int));
            assert(recsv.take(i + 1 as int).last() == recsv[i as int]);
            assert(recs@[i as int]@ == recsv[i as int]);
        }
        match Lesson::try_from_s24_lesson(&recs[i], year, week) {
            Ok(Some(l)) => {
                let ghost prev = lesson_views(out@);
                out.push(l);
                proof {
                    assert(lesson_views(out@) =~= prev.push(out@.last()@));
                }
            },
            Ok(None) => {},
            Err(e) => {
                proof {
                    lemma_records_fail(recsv, year as int, week as int, i as int);
                }
                return Err(e);
            },
        }
        i = i + 1;
    }
    proof {
        assert(recsv.take(recs@.len() as int) =~= recsv);
    }
    Ok(out)
}

/// A batch with no malformed record normalizes successfully: dropped
/// sentinel records cannot fail it, and a week whose every scheduled
/// record parses and converts always yields its lessons.
pub proof fn lemma_well_formed_batch_succeeds(recs: Seq<S24LessonView>, year: int, week: int)
    requires
        forall|i: int|
            0 <= i < recs.len() ==> !((#[trigger] spec_lesson_of(recs[i], year, week)) is Err),
    ensures
        spec_lessons_from_records(recs, year, week) is Ok,
    decreases recs.len(),
{
    if recs.len() > 0 {
        assert(forall|i: int| 0 <= i < recs.len() - 1 ==> recs.drop_last()[i] == recs[i]);
        lemma_well_formed_batch_succeeds(recs.drop_last(), year, week);
        assert(spec_lesson_of(recs[recs.len() - 1], year, week) == spec_lesson_of(
            recs.last(),
            year,
            week,
        ));
    }
}

/// A record whose day number denotes no weekday — the sentinel values 0
/// or 8 among them — is dropped without an error, whatever else the
/// record holds.
pub proof fn lemma_unscheduled_record_is_dropped(rec: S24LessonView, year: int, week: int)
    requires
        spec_weekday_of(rec.day_of_week_number) is None,
    ensures
        spec_lesson_of(rec, year, week) == Ok::<Option<LessonView>, ()>(None),
{
}

/// A render response whose `data` object carries no `lessonInfo` member
/// denotes an empty week, not an error; so does an explicit null.
pub proof fn lemma_missing_lesson_info_is_empty_week(j: Json, year: int, week: int)
    requires
        json_member(j, "data"@) matches Some(d) && (json_member(d, "lessonInfo"@) is None
            || json_member(d, "lessonInfo"@) == Some(Json::Null)),
    ensures
        spec_week_lessons(j, year, week) == Ok::<Seq<LessonView>, AppError>(Seq::empty()),
{
}

} // verus!
