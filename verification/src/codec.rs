//! The session codec.
//!
//! A `SessionIsh` travels to the client inside a bearer token, so it must
//! fit in one string and come back exactly as it left. The encoding joins
//! the four string fields with `|`, escaping `|` and `\` inside a field
//! with a leading `\`; decoding is a single scan. The round-trip law —
//! decoding an encoding yields the original session, for every session —
//! is proved below.

use vstd::prelude::*;

use crate::auth::{ScheduleCredentials, ScheduleCredentialsView, SessionIsh, SessionIshView};
use crate::errors::AppError;
use crate::s24::{Timetable, TimetableView};

verus! {

/// Relies on std's `String::push`: appends exactly one character.
#[verifier::external_body]
fn push_char(s: &mut String, c: char)
    ensures
        final(s)@ == old(s)@.push(c),
{
    s.push(c);
}

/// The characters that carry meaning in an encoded session and so must be
/// escaped inside a field.
pub open spec fn is_special(c: char) -> bool {
    c == '|' || c == '\\'
}

/// How one character of a field is written: special characters get a
/// leading backslash.
pub open spec fn esc_char(c: char) -> Seq<char> {
    if is_special(c) {
        seq!['\\', c]
    } else {
        seq![c]
    }
}

/// How a whole field is written: each character escaped, in order.
pub open spec fn esc(s: Seq<char>) -> Seq<char>
    decreases s.len(),
{
    if s.len() == 0 {
        Seq::empty()
    } else {
        esc_char(s[0]) + esc(s.drop_first())
    }
}

/// The encoded form of a session: its four fields, escaped and joined
/// with `|`.
pub open spec fn spec_encode(s: SessionIshView) -> Seq<char> {
    esc(s.credentials.cookies) + seq!['|'] + esc(s.credentials.scope) + seq!['|'] + esc(
        s.timetable.person_guid,
    ) + seq!['|'] + esc(s.timetable.unit_guid)
}

/// The scan that undoes the encoding: `cur` is the field being read, `acc`
/// the fields already read. A trailing lone backslash is the one malformed
/// shape; everything else yields `acc` plus the remaining fields.
pub open spec fn scan(s: Seq<char>, cur: Seq<char>, acc: Seq<Seq<char>>) -> Option<Seq<Seq<char>>>
    decreases s.len(),
{
    if s.len() == 0 {
        Some(acc.push(cur))
    } else if s[0] == '\\' {
        if s.len() == 1 {
            None
        } else {
            scan(s.skip(2), cur.push(s[1]), acc)
        }
    } else if s[0] == '|' {
        scan(s.skip(1), Seq::empty(), acc.push(cur))
    } else {
        scan(s.skip(1), cur.push(s[0]), acc)
    }
}

/// What a transported string decodes to: a session exactly when the scan
/// yields exactly four fields.
pub open spec fn spec_decode(t: Seq<char>) -> Option<SessionIshView> {
    match scan(t, Seq::empty(), Seq::empty()) {
        Some(fields) => if fields.len() == 4 {
            Some(
                SessionIshView {
                    credentials: ScheduleCredentialsView { cookies: fields[0], scope: fields[1] },
                    timetable: TimetableView { person_guid: fields[2], unit_guid: fields[3] },
                },
            )
        } else {
            None
        },
        None => None,
    }
}

/// Escaping a single character is just that character's escape.
proof fn lemma_esc_singleton(c: char)
    ensures
        esc(seq![c]) == esc_char(c),
{
    assert(seq![c].drop_first() =~= Seq::<char>::empty());
    assert(esc(Seq::<char>::empty()) =~= Seq::<char>::empty());
    assert(esc_char(c) + Seq::<char>::empty() =~= esc_char(c));
    assert(esc(seq![c]) =~= esc_char(c));
}

/// Escaping distributes over concatenation.
proof fn lemma_esc_append(a: Seq<char>, b: Seq<char>)
    ensures
        esc(a + b) == esc(a) + esc(b),
    decreases a.len(),
{
    if a.len() == 0 {
        assert(a + b =~= b);
        assert(esc(a) =~= Seq::<char>::empty());
        assert(esc(a) + esc(b) =~= esc(b));
    } else {
        assert((a + b).len() > 0);
        assert((a + b)[0] == a[0]);
        assert((a + b).drop_first() =~= a.drop_first() + b);
        lemma_esc_append(a.drop_first(), b);
        assert(esc_char(a[0]) + (esc(a.drop_first()) + esc(b)) =~= (esc_char(a[0]) + esc(
            a.drop_first(),
        )) + esc(b));
    }
}

/// Escaping one more character extends the escape of a prefix.
proof fn lemma_esc_take_step(s: Seq<char>, i: int)
    requires
        0 <= i < s.len(),
    ensures
        esc(s.take(i + 1)) == esc(s.take(i)) + esc_char(s[i]),
{
    assert(s.take(i + 1) =~= s.take(i) + seq![s[i]]);
    lemma_esc_append(s.take(i), seq![s[i]]);
    lemma_esc_singleton(s[i]);
}

/// An escaped field at the front of the input is consumed by the scan
/// exactly into the current field.
proof fn lemma_scan_esc(x: Seq<char>, rest: Seq<char>, cur: Seq<char>, acc: Seq<Seq<char>>)
    ensures
        scan(esc(x) + rest, cur, acc) == scan(rest, cur + x, acc),
    decreases x.len(),
{
    if x.len() == 0 {
        assert(esc(x) + rest =~= rest);
        assert(cur + x =~= cur);
    } else {
        let c = x[0];
        let tail = x.drop_first();
        let s = esc(x) + rest;
        assert(esc(x) == esc_char(c) + esc(tail));
        lemma_scan_esc(tail, rest, cur.push(c), acc);
        assert(cur.push(c) + tail =~= cur + x);
        if is_special(c) {
            assert(esc_char(c) == seq!['\\', c]);
            assert(s[0] == '\\');
            assert(s[1] == c);
            assert(s.len() >= 2);
            assert(s.skip(2) =~= esc(tail) + rest);
        } else {
            assert(esc_char(c) == seq![c]);
            assert(s[0] == c);
            assert(c != '\\' && c != '|');
            assert(s.skip(1) =~= esc(tail) + rest);
        }
    }
}

/// The round-trip law: every session value decodes from its own encoding.
pub proof fn lemma_round_trip(s: SessionIshView)
    ensures
        spec_decode(spec_encode(s)) == Some(s),
{
    let f0 = s.credentials.cookies;
    let f1 = s.credentials.scope;
    let f2 = s.timetable.person_guid;
    let f3 = s.timetable.unit_guid;
    let e = Seq::<char>::empty();
    let ea = Seq::<Seq<char>>::empty();
    let r3 = esc(f3);
    let r2 = esc(f2) + seq!['|'] + r3;
    let r1 = esc(f1) + seq!['|'] + r2;
    let t = spec_encode(s);
    assert(t =~= esc(f0) + (seq!['|'] + r1));
    lemma_scan_esc(f0, seq!['|'] + r1, e, ea);
    assert(e + f0 =~= f0);
    assert((seq!['|'] + r1)[0] == '|');
    assert((seq!['|'] + r1).skip(1) =~= r1);
    assert(r1 =~= esc(f1) + (seq!['|'] + r2));
    lemma_scan_esc(f1, seq!['|'] + r2, e, ea.push(f0));
    assert(e + f1 =~= f1);
    assert((seq!['|'] + r2)[0] == '|');
    assert((seq!['|'] + r2).skip(1) =~= r2);
    assert(r2 =~= esc(f2) + (seq!['|'] + r3));
    lemma_scan_esc(f2, seq!['|'] + r3, e, ea.push(f0).push(f1));
    assert(e + f2 =~= f2);
    assert((seq!['|'] + r3)[0] == '|');
    assert((seq!['|'] + r3).skip(1) =~= r3);
    assert(r3 =~= esc(f3) + e);
    lemma_scan_esc(f3, e, e, ea.push(f0).push(f1).push(f2));
    assert(e + f3 =~= f3);
    let fields = ea.push(f0).push(f1).push(f2).push(f3);
    assert(scan(t, e, ea) == Some(fields));
    assert(fields.len() == 4);
    assert(fields[0] == f0 && fields[1] == f1 && fields[2] == f2 && fields[3] == f3);
}

/// Appends the escaped form of `field` to `out`.
fn append_escaped(out: &mut String, field: &String)
    ensures
        final(out)@ == old(out)@ + esc(field@),
{
    let ghost orig = out@;
    let n = field.as_str().unicode_len();
    let mut i: usize = 0;
    while i < n
        invariant
            i <= n,
            n == field@.len(),
            out@ == orig + esc(field@.take(i as int)),
        decreases n - i,
    {
        let c = field.as_str().get_char(i);
        if c == '|' || c == '\\' {
            push_char(out, '\\');
        }
        push_char(out, c);
        proof {
            lemma_esc_take_step(field@, i as int);
            assert(out@ =~= orig + esc(field@.take(i + 1 as int)));
        }
        i = i + 1;
    }
    proof {
        assert(field@.take(n as int) =~= field@);
    }
}

impl SessionIsh {
    /// Writes the session into the single opaque string that travels as a
    /// token claim.
    pub fn encrypt(&self) -> (r: String)
        ensures
            r@ == spec_encode(self@),
    {
        let mut out = String::new();
        append_escaped(&mut out, &self.credentials.cookies);
        push_char(&mut out, '|');
        append_escaped(&mut out, &self.credentials.scope);
        push_char(&mut out, '|');
        append_escaped(&mut out, &self.timetable.person_guid);
        push_char(&mut out, '|');
        append_escaped(&mut out, &self.timetable.unit_guid);
        proof {
            assert(out@ =~= spec_encode(self@));
        }
        out
    }

    /// Reads a session back out of a transported string; anything that is
    /// not the encoding of a session is an invalid token.
    pub fn decrypt(text: &str) -> (r: Result<SessionIsh, AppError>)
        ensures
            match r {
                Ok(s) => spec_decode(text@) == Some(s@),
                Err(e) => e == AppError::InvalidToken && spec_decode(text@) is None,
            },
    {
        let n = text.unicode_len();
        let mut fields: Vec<String> = Vec::new();
        let mut cur = String::new();
        let mut i: usize = 0;
        proof {
            assert(text@.skip(0) =~= text@);
            assert(fields.deep_view() =~= Seq::<Seq<char>>::empty());
        }
        while i < n
            invariant
                i <= n,
                n == text@.len(),
                scan(text@, Seq::empty(), Seq::empty()) == scan(
                    text@.skip(i as int),
                    cur@,
                    fields.deep_view(),
                ),
            decreases n - i,
        {
            let ghost before = fields.deep_view();
            let c = text.get_char(i);
            if c == '\\' {
                if i + 1 == n {
                    proof {
                        assert(text@.skip(i as int).len() == 1);
                        assert(text@.skip(i as int)[0] == '\\');
                    }
                    return Err(AppError::InvalidToken);
                }
                let c2 = text.get_char(i + 1);
                push_char(&mut cur, c2);
                proof {
                    assert(text@.skip(i as int)[0] == '\\');
                    assert(text@.skip(i as int)[1] == c2);
                    assert(text@.skip(i as int).len() >= 2);
                    assert(text@.skip(i as int).skip(2) =~= text@.skip(i + 2 as int));
                }
                i = i + 2;
            } else if c == '|' {
                let ghost curv = cur@;
                fields.push(cur);
                cur = String::new();
                proof {
                    assert(text@.skip(i as int)[0] == '|');
                    assert(text@.skip(i as int).skip(1) =~= text@.skip(i + 1 as int));
                    assert(fields.deep_view() =~= before.push(curv));
                }
                i = i + 1;
            } else {
                push_char(&mut cur, c);
                proof {
                    assert(text@.skip(i as int)[0] == c);
                    assert(text@.skip(i as int).skip(1) =~= text@.skip(i + 1 as int));
                }
                i = i + 1;
            }
        }
        proof {
            assert(text@.skip(n as int) =~= Seq::<char>::empty());
        }
        let ghost before = fields.deep_view();
        let ghost curv = cur@;
        fields.push(cur);
        proof {
            assert(fields.deep_view() =~= before.push(curv));
            assert(scan(text@, Seq::empty(), Seq::empty()) == Some(fields.deep_view()));
        }
        if fields.len() != 4 {
            return Err(AppError::InvalidToken);
        }
        let session = SessionIsh {
            credentials: ScheduleCredentials {
                cookies: fields[0].clone(),
                scope: fields[1].clone(),
            },
            timetable: Timetable { person_guid: fields[2].clone(), unit_guid: fields[3].clone() },
        };
        proof {
            assert(spec_decode(text@) == Some(session@));
        }
        Ok(session)
    }
}

} // verus!
