use schedule::errors::AppError;
use schedule::s24::{S24Lesson, Weekday};
use schedule::{lessons_from_render_response, Lesson};

fn record(texts: &[&str], start: &str, end: &str, day: u8) -> S24Lesson {
    S24Lesson {
        texts: texts.iter().map(|t| (*t).to_owned()).collect(),
        time_start: start.to_owned(),
        time_end: end.to_owned(),
        day_of_week_number: day,
    }
}

#[test]
fn weekday_numbers_map_monday_through_sunday() {
    let expected = [
        (1u8, Weekday::Mon),
        (2, Weekday::Tue),
        (3, Weekday::Wed),
        (4, Weekday::Thu),
        (5, Weekday::Fri),
        (6, Weekday::Sat),
        (7, Weekday::Sun),
    ];
    for (n, wd) in expected {
        assert_eq!(record(&["x"], "08:00:00", "09:00:00", n).weekday(), Some(wd));
    }
    assert_eq!(record(&["x"], "08:00:00", "09:00:00", 0).weekday(), None);
    assert_eq!(record(&["x"], "08:00:00", "09:00:00", 8).weekday(), None);
}

#[test]
fn out_of_range_day_drops_record_without_error() {
    let dropped = Lesson::try_from_s24_lesson(&record(&["Math"], "08:00:00", "09:00:00", 0), 2021, 27);
    assert!(dropped.unwrap().is_none());
    let dropped = Lesson::try_from_s24_lesson(&record(&["Math"], "08:00:00", "09:00:00", 8), 2021, 27);
    assert!(dropped.unwrap().is_none());
}

// 2021-07-05 is the Monday of ISO week 27 of 2021; Stockholm is then on
// summer time (UTC+2), so 08:00 wall clock is 06:00 UTC.
#[test]
fn summer_wall_clock_is_two_hours_ahead_of_utc() {
    let l = Lesson::try_from_s24_lesson(&record(&["Math"], "08:00:00", "09:00:00", 1), 2021, 27)
        .unwrap()
        .unwrap();
    assert_eq!(l.start, 1625464800); // 2021-07-05 06:00:00 UTC
    assert_eq!(l.end, 1625468400); // 2021-07-05 07:00:00 UTC
}

// 2021-01-04 is the Monday of ISO week 1 of 2021; Stockholm is then on
// standard time (UTC+1), so 08:00 wall clock is 07:00 UTC.
#[test]
fn winter_wall_clock_is_one_hour_ahead_of_utc() {
    let l = Lesson::try_from_s24_lesson(&record(&["Math"], "08:00:00", "09:00:00", 1), 2021, 1)
        .unwrap()
        .unwrap();
    assert_eq!(l.start, 1609743600); // 2021-01-04 07:00:00 UTC
    assert_eq!(l.end, 1609747200); // 2021-01-04 08:00:00 UTC
}

#[test]
fn texts_map_to_course_teacher_location() {
    let l = Lesson::try_from_s24_lesson(
        &record(&["Math", "Ms. Smith", "Room 4"], "08:00:00", "09:00:00", 1),
        2021,
        27,
    )
    .unwrap()
    .unwrap();
    assert_eq!(l.info.course, "Math");
    assert_eq!(l.info.teacher.as_deref(), Some("Ms. Smith"));
    assert_eq!(l.info.location.as_deref(), Some("Room 4"));
}

#[test]
fn single_text_leaves_teacher_and_location_empty() {
    let l = Lesson::try_from_s24_lesson(&record(&["Math"], "08:00:00", "09:00:00", 1), 2021, 27)
        .unwrap()
        .unwrap();
    assert_eq!(l.info.course, "Math");
    assert_eq!(l.info.teacher, None);
    assert_eq!(l.info.location, None);
}

#[test]
fn empty_texts_are_a_parse_error() {
    let r = Lesson::try_from_s24_lesson(&record(&[], "08:00:00", "09:00:00", 1), 2021, 27);
    assert_eq!(r.unwrap_err(), AppError::ParseError);
}

#[test]
fn malformed_times_are_a_parse_error() {
    for bad in ["8:00:00", "08:00", "25:00:00", "08:61:00", "08:00:0a", ""] {
        let r = Lesson::try_from_s24_lesson(&record(&["Math"], bad, "09:00:00", 1), 2021, 27);
        assert_eq!(r.unwrap_err(), AppError::ParseError, "time {:?}", bad);
    }
}

#[test]
fn end_before_start_is_a_parse_error() {
    let r = Lesson::try_from_s24_lesson(&record(&["Math"], "09:00:00", "08:00:00", 1), 2021, 27);
    assert_eq!(r.unwrap_err(), AppError::ParseError);
}

#[test]
fn missing_lesson_info_is_an_empty_week() {
    let lessons = lessons_from_render_response(r#"{"data":{}}"#, 2021, 27).unwrap();
    assert!(lessons.is_empty());
}

#[test]
fn null_lesson_info_is_an_empty_week() {
    let lessons = lessons_from_render_response(r#"{"data":{"lessonInfo":null}}"#, 2021, 27)
        .unwrap();
    assert!(lessons.is_empty());
}

#[test]
fn render_response_is_normalized_and_sentinel_records_are_dropped() {
    let body = r#"{
        "data": {
            "lessonInfo": [
                {
                    "guidId": "g1",
                    "texts": ["Math", "Ms. Smith", "Room 4"],
                    "timeStart": "08:00:00",
                    "timeEnd": "09:00:00",
                    "dayOfWeekNumber": 1
                },
                {
                    "texts": ["Placeholder"],
                    "timeStart": "00:00:00",
                    "timeEnd": "00:00:00",
                    "dayOfWeekNumber": 0
                },
                {
                    "texts": ["Gym"],
                    "timeStart": "10:15:00",
                    "timeEnd": "11:00:00",
                    "dayOfWeekNumber": 2
                }
            ]
        }
    }"#;
    let lessons = lessons_from_render_response(body, 2021, 27).unwrap();
    assert_eq!(lessons.len(), 2);
    assert_eq!(lessons[0].info.course, "Math");
    assert_eq!(lessons[0].start, 1625464800);
    assert_eq!(lessons[1].info.course, "Gym");
    // 2021-07-06 10:15 Stockholm = 08:15 UTC.
    assert_eq!(lessons[1].start, 1625559300);
    assert_eq!(lessons[1].end, 1625562000);
}

#[test]
fn malformed_record_fails_the_week_with_a_parse_error() {
    let body = r#"{"data":{"lessonInfo":[
        {"texts": [], "timeStart": "08:00:00", "timeEnd": "09:00:00", "dayOfWeekNumber": 1}
    ]}}"#;
    assert_eq!(
        lessons_from_render_response(body, 2021, 27).unwrap_err(),
        AppError::ParseError
    );
}

#[test]
fn broken_envelope_is_a_protocol_error() {
    for body in [
        "not json at all",
        r#"{"lessonInfo":[]}"#,
        r#"{"data":{"lessonInfo":"yes"}}"#,
        r#"{"data":{"lessonInfo":[{"timeStart":"08:00:00","timeEnd":"09:00:00","dayOfWeekNumber":1}]}}"#,
    ] {
        assert_eq!(
            lessons_from_render_response(body, 2021, 27).unwrap_err(),
            AppError::ProtocolError,
            "body {:?}",
            body
        );
    }
}
