//! HTML scraping support: extraction of attribute values and of the first
//! form of a page.
//!
//! The HTML parsing itself is done by the `scraper` crate behind two
//! trusted wrappers; everything downstream of them — which inputs are
//! kept, and how duplicate field names are resolved — is verified.

use vstd::prelude::*;

verus! {

/// The attribute value of the first element of the document `html` that
/// matches the CSS selector `selector`, if the selector is valid, such an
/// element exists, and it carries the attribute. What `scraper` returns
/// here is a function of the three arguments alone.
pub uninterp spec fn attr_of(html: Seq<char>, selector: Seq<char>, attr: Seq<char>) -> Option<
    Seq<char>,
>;

/// The (`name`, `value`) attribute pairs of every `<input>` descendant of
/// the first `<form>` element of the document `html`, in source order,
/// with `None` standing for an absent attribute; `None` overall when the
/// document has no form. A function of the document alone.
pub uninterp spec fn form_inputs_of(html: Seq<char>) -> Option<
    Seq<(Option<Seq<char>>, Option<Seq<char>>)>,
>;

/// Relies on `scraper` (`Html::parse_document`, `Selector::parse`,
/// `Html::select`, `Element::attr`) to run one CSS-selector query against
/// a document: the named attribute of the first matching element.
#[verifier::external_body]
pub(crate) fn select_first_attr(html: &str, selector: &str, attr: &str) -> (r: Option<String>)
    ensures
        r matches Some(s) ==> attr_of(html@, selector@, attr@) == Some(s@),
        r is None ==> attr_of(html@, selector@, attr@) is None,
{
    let doc = scraper::Html::parse_document(html);
    let sel = scraper::Selector::parse(selector).ok()?;
    let el = doc.select(&sel).next()?;
    el.value().attr(attr).map(|a| a.to_owned())
}

/// Relies on `scraper` (`Html::parse_document`, `Selector::parse`,
/// `Html::select`, `ElementRef::select`, `Element::attr`) to list the
/// `name` and `value` attributes of the inputs of a document's first form.
#[verifier::external_body]
pub(crate) fn form_raw_inputs(html: &str) -> (r: Option<
    Vec<(Option<String>, Option<String>)>,
>)
    ensures
        r matches Some(v) ==> form_inputs_of(html@) == Some(v.deep_view()),
        r is None ==> form_inputs_of(html@) is None,
{
    let doc = scraper::Html::parse_document(html);
    let form_sel = scraper::Selector::parse("form").ok()?;
    let input_sel = scraper::Selector::parse("input").ok()?;
    let form = doc.select(&form_sel).next()?;
    let mut rows = Vec::new();
    for e in form.select(&input_sel) {
        let v = e.value();
        rows.push((v.attr("name").map(|s| s.to_owned()), v.attr("value").map(|s| s.to_owned())));
    }
    Some(rows)
}

/// The input pairs that the form extractor keeps: those whose `name` and
/// `value` attributes are both present, in source order.
pub open spec fn kept_fields(rows: Seq<(Option<Seq<char>>, Option<Seq<char>>)>) -> Seq<
    (Seq<char>, Seq<char>),
>
    decreases rows.len(),
{
    if rows.len() == 0 {
        Seq::empty()
    } else {
        let prev = kept_fields(rows.drop_last());
        match rows.last() {
            (Some(n), Some(v)) => prev.push((n, v)),
            _ => prev,
        }
    }
}

/// Parses `html` and yields the (name, value) pairs of the inputs of its
/// first form, in source order, keeping exactly the inputs that have both
/// attributes; `None` when the page has no form at all.
pub fn parse_html_form(html: &str) -> (r: Option<Vec<(String, String)>>)
    ensures
        match r {
            Some(v) => form_inputs_of(html@) matches Some(rows) && v.deep_view()
                == kept_fields(rows),
            None => form_inputs_of(html@) is None,
        },
{
    let rows = match form_raw_inputs(html) {
        Some(rows) => rows,
        None => {
            return None;
        },
    };
    let ghost all = rows.deep_view();
    let mut out: Vec<(String, String)> = Vec::new();
    let mut i: usize = 0;
    while i < rows.len()
        invariant
            i <= rows.len(),
            all == rows.deep_view(),
            out.deep_view() == kept_fields(all.take(i as int)),
        decreases rows.len() - i,
    {
        match (&rows[i].0, &rows[i].1) {
            (Some(n), Some(v)) => {
                out.push((n.clone(), v.clone()));
            },
            _ => {},
        }
        proof {
            assert(all.take(i + 1 as int).drop_last() =~= all.take(i as int));
            assert(all.take(i + 1 as int).last() == all[i as int]);
        }
        i = i + 1;
    }
    proof {
        assert(all.take(rows.len() as int) =~= all);
    }
    Some(out)
}

/// Whether no two entries of a field list share a name.
pub open spec fn unique_keys(fields: Seq<(Seq<char>, Seq<char>)>) -> bool {
    forall|i: int, j: int| 0 <= i < j < fields.len() ==> fields[i].0 != fields[j].0
}

/// The mapping from field names to values that a field list denotes, the
/// last entry winning on a repeated name.
pub open spec fn map_of(fields: Seq<(Seq<char>, Seq<char>)>) -> Map<Seq<char>, Seq<char>>
    decreases fields.len(),
{
    if fields.len() == 0 {
        Map::empty()
    } else {
        map_of(fields.drop_last()).insert(fields.last().0, fields.last().1)
    }
}

/// Removing the entry at `j` from a list with unique names removes exactly
/// that name from the denoted mapping.
proof fn lemma_map_of_remove(fields: Seq<(Seq<char>, Seq<char>)>, j: int)
    requires
        unique_keys(fields),
        0 <= j < fields.len(),
    ensures
        map_of(fields.remove(j)) == map_of(fields).remove(fields[j].0),
    decreases fields.len(),
{
    if j == fields.len() - 1 {
        assert(fields.remove(j) =~= fields.drop_last());
        lemma_map_of_no_key(fields.drop_last(), fields[j].0);
        assert(map_of(fields.drop_last()) =~= map_of(fields).remove(fields[j].0));
    } else {
        let shorter = fields.drop_last();
        assert(fields.remove(j).drop_last() =~= shorter.remove(j));
        lemma_map_of_remove(shorter, j);
        assert(fields.remove(j).last() == fields.last());
        assert(map_of(fields.remove(j)) == map_of(shorter).remove(fields[j].0).insert(
            fields.last().0,
            fields.last().1,
        ));
        assert(fields[j].0 != fields.last().0);
        assert(map_of(shorter).remove(fields[j].0).insert(fields.last().0, fields.last().1)
            =~= map_of(shorter).insert(fields.last().0, fields.last().1).remove(fields[j].0));
    }
}

/// A name that occurs in no entry is not in the denoted mapping.
proof fn lemma_map_of_no_key(fields: Seq<(Seq<char>, Seq<char>)>, key: Seq<char>)
    requires
        forall|m: int| 0 <= m < fields.len() ==> fields[m].0 != key,
    ensures
        !map_of(fields).dom().contains(key),
    decreases fields.len(),
{
    if fields.len() > 0 {
        lemma_map_of_no_key(fields.drop_last(), key);
    }
}

/// Sets `key` to `value` in a field list with unique names: the entry that
/// carried the name before, if any, is dropped, and the pair is appended.
/// The denoted mapping gains exactly this binding.
pub fn form_set(fields: &mut Vec<(String, String)>, key: String, value: String)
    requires
        unique_keys(old(fields).deep_view()),
    ensures
        unique_keys(final(fields).deep_view()),
        map_of(final(fields).deep_view()) == map_of(old(fields).deep_view()).insert(key@, value@),
{
    let ghost orig = old(fields).deep_view();
    let mut j: usize = 0;
    let mut found: bool = false;
    while j < fields.len() && !found
        invariant
            j <= fields.len(),
            fields.deep_view() == orig,
            unique_keys(orig),
            forall|m: int| 0 <= m < j ==> orig[m].0 != key@,
            found ==> j < fields.len() && orig[j as int].0 == key@,
        decreases fields.len() - j + (if found {
            0int
        } else {
            1int
        }),
    {
        if fields[j].0 == key {
            found = true;
        } else {
            j = j + 1;
        }
    }
    if found {
        fields.remove(j);
        proof {
            assert(fields.deep_view() =~= orig.remove(j as int));
            lemma_map_of_remove(orig, j as int);
        }
    } else {
        proof {
            lemma_map_of_no_key(orig, key@);
            assert(map_of(orig).remove(key@) =~= map_of(orig));
        }
    }
    let ghost removed = fields.deep_view();
    proof {
        if found {
            assert(removed =~= orig.take(j as int) + orig.skip(j + 1));
        }
        assert(unique_keys(removed));
        assert(forall|m: int| 0 <= m < removed.len() ==> removed[m].0 != key@);
    }
    fields.push((key, value));
    proof {
        assert(fields.deep_view().drop_last() =~= removed);
        assert(map_of(fields.deep_view()) =~= map_of(orig).insert(key@, value@));
        let ghost pushed = fields.deep_view();
        assert forall|a: int, b: int| 0 <= a < b < pushed.len() implies pushed[a].0
            != pushed[b].0 by {
            assert(pushed[a] == pushed.drop_last()[a]);
            if b < pushed.len() - 1 {
                assert(pushed[b] == pushed.drop_last()[b]);
            } else {
                assert(pushed[b] == (key@, value@));
            }
        }
    }
}

/// Collapses a field list to one with unique names, the last entry winning
/// on a repeated name — the resolution the pipeline applies to a scraped
/// form before re-submitting it. The denoted mapping is unchanged.
pub fn extract_form_fields(rows: &Vec<(String, String)>) -> (out: Vec<(String, String)>)
    ensures
        unique_keys(out.deep_view()),
        map_of(out.deep_view()) == map_of(rows.deep_view()),
{
    let ghost all = rows.deep_view();
    let mut out: Vec<(String, String)> = Vec::new();
    let mut i: usize = 0;
    while i < rows.len()
        invariant
            i <= rows.len(),
            all == rows.deep_view(),
            unique_keys(out.deep_view()),
            map_of(out.deep_view()) == map_of(all.take(i as int)),
        decreases rows.len() - i,
    {
        form_set(&mut out, rows[i].0.clone(), rows[i].1.clone());
        proof {
            assert(all.take(i + 1 as int).drop_last() =~= all.take(i as int));
            assert(all.take(i + 1 as int).last() == all[i as int]);
        }
        i = i + 1;
    }
    proof {
        assert(all.take(rows.len() as int) =~= all);
    }
    out
}

} // verus!
