//! The response formatter: answer text plus citations, rendered as text.
//!
//! Formatting is a pure projection of the structured payload.  It never
//! re-validates the upstream content; it fails only when the answer text
//! itself is missing, and that failure is raised here, at formatting
//! time, not when the payload was received.

use vstd::prelude::*;
use vstd::string::*;

use crate::errors::ToolError;
use crate::json::{
    jmodel, jmodel_seq, json_get, json_get_str, json_int, json_str, lemma_jmodel_seq, Json,
    JsonValue,
};
use crate::text::{dec_digits, push_u64};

verus! {

/// The answer text of a payload: `choices[0].message.content`, when that
/// path leads to a string.
pub open spec fn spec_content(resp: Json) -> Option<Seq<char>> {
    match json_get(resp, "choices"@) {
        Some(Json::Arr(choices)) => if choices.len() > 0 {
            match json_get(choices[0], "message"@) {
                Some(m) => json_get_str(m, "content"@),
                None => None,
            }
        } else {
            None
        },
        _ => None,
    }
}

/// The citation list of a payload: the `citations` field, when it is an
/// array; an empty list otherwise.
pub open spec fn spec_citations(resp: Json) -> Seq<Json> {
    match json_get(resp, "citations"@) {
        Some(Json::Arr(a)) => a,
        _ => Seq::empty(),
    }
}

/// The text a citation contributes to a numbered reference line: its
/// own string form; for a structured entry, its `url` field; and the
/// fallback literal only when no URL is present in either shape.
pub open spec fn spec_citation_url(c: Json) -> Seq<char> {
    match json_str(c) {
        Some(s) => s,
        None => match json_get_str(c, "url"@) {
            Some(u) => u,
            None => "Unknown URL"@,
        },
    }
}

/// One plain reference line: `[i]: ` and the citation's URL text.
pub open spec fn spec_ref_line(i: nat, c: Json) -> Seq<char> {
    "["@ + dec_digits(i) + "]: "@ + spec_citation_url(c)
}

/// The plain reference lines for citations numbered from `i`, joined by
/// newlines.
pub open spec fn spec_ref_lines(cs: Seq<Json>, i: nat) -> Seq<char>
    decreases cs.len(),
{
    if cs.len() == 0 {
        Seq::empty()
    } else if cs.len() == 1 {
        spec_ref_line(i, cs[0])
    } else {
        spec_ref_line(i, cs[0]) + "\n"@ + spec_ref_lines(cs.drop_first(), i + 1)
    }
}

/// The standard rendering: the content alone when there are no
/// citations, and otherwise the content followed by a numbered
/// `References:` section.
pub open spec fn spec_plain_format(content: Seq<char>, cs: Seq<Json>) -> Seq<char> {
    if cs.len() == 0 {
        content
    } else {
        content + "\n\nReferences:\n"@ + spec_ref_lines(cs, 1)
    }
}

/// Reads the answer text out of a payload, exactly when [`spec_content`]
/// finds one.
pub fn extract_content(response: &JsonValue) -> (r: Option<&str>)
    ensures
        match r {
            Some(s) => spec_content(response@) == Some(s@),
            None => spec_content(response@) is None,
        },
{
    let choices = match response.get("choices") {
        Some(c) => c,
        None => {
            return None;
        },
    };
    let arr = match choices.as_arr() {
        Some(a) => a,
        None => {
            return None;
        },
    };
    if arr.len() == 0 {
        return None;
    }
    proof {
        lemma_jmodel_seq(arr@);
    }
    let message = match arr[0].get("message") {
        Some(m) => m,
        None => {
            return None;
        },
    };
    let content = match message.get("content") {
        Some(c) => c,
        None => {
            return None;
        },
    };
    content.as_str()
}

/// Reads the citation list out of a payload: the elements of a
/// `citations` array, when the payload has one.
pub fn extract_citations(response: &JsonValue) -> (r: Option<&Vec<JsonValue>>)
    ensures
        match r {
            Some(a) => spec_citations(response@) == jmodel_seq(a@),
            None => spec_citations(response@).len() == 0,
        },
{
    match response.get("citations") {
        Some(c) => match c.as_arr() {
            Some(a) => Some(a),
            None => None,
        },
        None => None,
    }
}

/// The reference-line text of one citation, per [`spec_citation_url`].
fn citation_url_text<'a>(c: &'a JsonValue) -> (r: &'a str)
    ensures
        r@ == spec_citation_url(c@),
{
    match c.as_str() {
        Some(s) => s,
        None => match c.get("url") {
            Some(u) => match u.as_str() {
                Some(s) => s,
                None => "Unknown URL",
            },
            None => "Unknown URL",
        },
    }
}

/// Appends one plain reference line to `out`.
fn ref_line_into(out: &mut String, i: u64, c: &JsonValue)
    requires
        i >= 1,
    ensures
        final(out)@ == old(out)@ + spec_ref_line(i as nat, c@),
{
    out.append("[");
    push_u64(out, i);
    out.append("]: ");
    out.append(citation_url_text(c));
    proof {
        assert(final(out)@ =~= old(out)@ + spec_ref_line(i as nat, c@));
    }
}

/// Rendering one more reference line appends a newline and that line —
/// except to an empty list, which it begins.
pub proof fn lemma_ref_lines_snoc(cs: Seq<Json>, c: Json, base: nat)
    ensures
        spec_ref_lines(cs.push(c), base) == if cs.len() == 0 {
            spec_ref_line(base, c)
        } else {
            spec_ref_lines(cs, base) + "\n"@ + spec_ref_line((base + cs.len()) as nat, c)
        },
    decreases cs.len(),
{
    let p = cs.push(c);
    if cs.len() == 0 {
        assert(p.len() == 1);
        assert(p[0] == c);
    } else {
        assert(p[0] == cs[0]);
        assert(p.drop_first() =~= cs.drop_first().push(c));
        lemma_ref_lines_snoc(cs.drop_first(), c, base + 1);
        if cs.len() == 1 {
            assert(cs.drop_first().len() == 0);
            assert(spec_ref_lines(p, base) == spec_ref_line(base, cs[0]) + "\n"@
                + spec_ref_line(base + 1, c));
            assert(spec_ref_lines(cs, base) == spec_ref_line(base, cs[0]));
            assert(spec_ref_lines(p, base) =~= spec_ref_lines(cs, base) + "\n"@ + spec_ref_line(
                (base + cs.len()) as nat,
                c,
            ));
        } else {
            assert(spec_ref_lines(p, base) =~= spec_ref_lines(cs, base) + "\n"@ + spec_ref_line(
                (base + cs.len()) as nat,
                c,
            ));
        }
    }
}

/// The standard rendering of a payload: the answer text, and a numbered
/// `References:` section when citations are present.  A payload without
/// answer text is malformed, and says so.
pub fn format_response_with_references(response: &JsonValue) -> (r: Result<String, ToolError>)
    ensures
        match r {
            Ok(s) => match spec_content(response@) {
                Some(c) => s@ == spec_plain_format(c, spec_citations(response@)),
                None => false,
            },
            Err(e) => spec_content(response@) is None && (e matches ToolError::MalformedResponse(f)
                && f@ == "content"@),
        },
{
    let content = match extract_content(response) {
        Some(c) => c,
        None => {
            return Err(ToolError::MalformedResponse(String::from_str("content")));
        },
    };
    let citations = match extract_citations(response) {
        Some(a) => a,
        None => {
            return Ok(content.to_owned());
        },
    };
    if citations.len() == 0 {
        return Ok(content.to_owned());
    }
    let ghost gcs = jmodel_seq(citations@);
    let ghost gcontent = content@;
    proof {
        lemma_jmodel_seq(citations@);
    }
    let mut out = content.to_owned();
    out.append("\n\nReferences:\n");
    let ghost prefix = out@;
    let n = citations.len();
    ref_line_into(&mut out, 1, &citations[0]);
    proof {
        assert(gcs.subrange(0, 1) =~= seq![gcs[0]]);
        assert(spec_ref_lines(gcs.subrange(0, 1), 1) == spec_ref_line(1, gcs[0]));
    }
    for i in 1..n
        invariant
            n == citations@.len(),
            1 <= n,
            gcs == jmodel_seq(citations@),
            gcs.len() == n,
            forall|k: int| 0 <= k < n ==> gcs[k] == jmodel(citations@[k]),
            prefix == gcontent + "\n\nReferences:\n"@,
            out@ == prefix + spec_ref_lines(gcs.subrange(0, i as int), 1),
    {
        out.append("\n");
        ref_line_into(&mut out, i as u64 + 1, &citations[i]);
        proof {
            assert(gcs.subrange(0, i as int).push(gcs[i as int]) =~= gcs.subrange(0, i + 1));
            lemma_ref_lines_snoc(gcs.subrange(0, i as int), gcs[i as int], 1);
            assert(out@ =~= prefix + spec_ref_lines(gcs.subrange(0, i + 1), 1));
        }
    }
    proof {
        assert(gcs.subrange(0, n as int) =~= gcs);
        assert(out@ =~= spec_plain_format(gcontent, gcs));
    }
    Ok(out)
}


/// The search-iteration count of a payload: `search_info.iterations`,
/// when it is a number.
pub open spec fn spec_search_iterations(resp: Json) -> Option<i64> {
    match json_get(resp, "search_info"@) {
        Some(si) => match json_get(si, "iterations"@) {
            Some(v) => json_int(v),
            None => None,
        },
        None => None,
    }
}

/// The string elements of a list, in order, everything else dropped.
pub open spec fn spec_str_items(a: Seq<Json>) -> Seq<Seq<char>>
    decreases a.len(),
{
    if a.len() == 0 {
        Seq::empty()
    } else {
        (match json_str(a[0]) {
            Some(s) => seq![s],
            None => Seq::empty(),
        }) + spec_str_items(a.drop_first())
    }
}

/// A comma-joined list of parts.
pub open spec fn spec_join(parts: Seq<Seq<char>>) -> Seq<char>
    decreases parts.len(),
{
    if parts.len() == 0 {
        Seq::empty()
    } else if parts.len() == 1 {
        parts[0]
    } else {
        parts[0] + ", "@ + spec_join(parts.drop_first())
    }
}

/// One more string element extends the item list by one.
pub proof fn lemma_str_items_snoc(a: Seq<Json>, c: Json)
    ensures
        spec_str_items(a.push(c)) == spec_str_items(a) + (match json_str(c) {
            Some(s) => seq![s],
            None => Seq::empty(),
        }),
    decreases a.len(),
{
    let p = a.push(c);
    if a.len() == 0 {
        assert(p.len() == 1);
        assert(p[0] == c);
        assert(p.drop_first() =~= Seq::<Json>::empty());
        let item = (match json_str(c) {
            Some(s) => seq![s],
            None => Seq::<Seq<char>>::empty(),
        });
        assert(spec_str_items(p) == (match json_str(p[0]) {
            Some(s) => seq![s],
            None => Seq::<Seq<char>>::empty(),
        }) + spec_str_items(p.drop_first()));
        assert(spec_str_items(p.drop_first()) =~= Seq::<Seq<char>>::empty());
        assert(spec_str_items(a) =~= Seq::<Seq<char>>::empty());
        assert(item + Seq::<Seq<char>>::empty() =~= Seq::<Seq<char>>::empty() + item);
        assert(spec_str_items(p) =~= spec_str_items(a) + item);
    } else {
        assert(p[0] == a[0]);
        assert(p.drop_first() =~= a.drop_first().push(c));
        lemma_str_items_snoc(a.drop_first(), c);
        let item = (match json_str(c) {
            Some(s) => seq![s],
            None => Seq::<Seq<char>>::empty(),
        });
        let head = (match json_str(a[0]) {
            Some(s) => seq![s],
            None => Seq::<Seq<char>>::empty(),
        });
        assert(spec_str_items(p) == head + spec_str_items(p.drop_first()));
        assert(spec_str_items(p.drop_first()) == spec_str_items(a.drop_first()) + item);
        assert(spec_str_items(a) == head + spec_str_items(a.drop_first()));
        assert(spec_str_items(p) =~= spec_str_items(a) + item);
    }
}

/// Joining one more part appends a comma and that part — except to an
/// empty list, which it begins.
pub proof fn lemma_join_snoc(parts: Seq<Seq<char>>, p: Seq<char>)
    ensures
        spec_join(parts.push(p)) == if parts.len() == 0 {
            p
        } else {
            spec_join(parts) + ", "@ + p
        },
    decreases parts.len(),
{
    let q = parts.push(p);
    if parts.len() == 0 {
        assert(q.len() == 1);
        assert(q[0] == p);
    } else {
        assert(q[0] == parts[0]);
        assert(q.drop_first() =~= parts.drop_first().push(p));
        lemma_join_snoc(parts.drop_first(), p);
        if parts.len() == 1 {
            assert(parts.drop_first().len() == 0);
            assert(spec_join(q) =~= spec_join(parts) + ", "@ + p);
        } else {
            assert(spec_join(q) =~= spec_join(parts) + ", "@ + p);
        }
    }
}

/// The comma-joined author names of a citation: the string elements of
/// its `authors` array; empty when there is no such array.
pub open spec fn spec_authors_text(c: Json) -> Seq<char> {
    match json_get(c, "authors"@) {
        Some(Json::Arr(a)) => spec_join(spec_str_items(a)),
        _ => Seq::empty(),
    }
}

/// An optional string field of a citation, the empty string when absent
/// or not a string.
pub open spec fn spec_str_field(c: Json, key: Seq<char>) -> Seq<char> {
    match json_get_str(c, key) {
        Some(s) => s,
        None => Seq::empty(),
    }
}

/// One APA-style reference entry.
///
/// A structured citation with both a title and a URL becomes a paragraph
/// of its optional parts — authors, parenthesized date, publisher — each
/// omitted outright when absent or empty, followed by the title and URL.
/// Anything else falls back to a numbered line holding the citation's
/// string form, or the fallback text when it has none.
pub open spec fn spec_apa_entry(i: nat, c: Json) -> Seq<char> {
    match (json_get_str(c, "title"@), json_get_str(c, "url"@)) {
        (Some(title), Some(url)) => {
            let authors = spec_authors_text(c);
            let date = spec_str_field(c, "date"@);
            let publisher = spec_str_field(c, "publisher"@);
            "["@ + dec_digits(i) + "] "@ + (if authors.len() > 0 {
                authors + ". "@
            } else {
                Seq::empty()
            }) + (if date.len() > 0 {
                "("@ + date + "). "@
            } else {
                Seq::empty()
            }) + (if publisher.len() > 0 {
                publisher + ". "@
            } else {
                Seq::empty()
            }) + "*"@ + title + "*. "@ + url + "\n\n"@
        },
        _ => "["@ + dec_digits(i) + "] "@ + (match json_str(c) {
            Some(s) => s,
            None => "Unknown source"@,
        }) + "\n\n"@,
    }
}

/// The APA-style entries for citations numbered from `i`.
pub open spec fn spec_apa_entries(cs: Seq<Json>, i: nat) -> Seq<char>
    decreases cs.len(),
{
    if cs.len() == 0 {
        Seq::empty()
    } else {
        spec_apa_entry(i, cs[0]) + spec_apa_entries(cs.drop_first(), i + 1)
    }
}

/// One line of the flat source list used for every other citation
/// style: the citation's URL text, as in the standard rendering.
pub open spec fn spec_source_line(i: nat, c: Json) -> Seq<char> {
    "["@ + dec_digits(i) + "]: "@ + spec_citation_url(c) + "\n"@
}

/// The flat source lines for citations numbered from `i`.
pub open spec fn spec_source_lines(cs: Seq<Json>, i: nat) -> Seq<char>
    decreases cs.len(),
{
    if cs.len() == 0 {
        Seq::empty()
    } else {
        spec_source_line(i, cs[0]) + spec_source_lines(cs.drop_first(), i + 1)
    }
}

/// Appending one more entry extends an entry block on the right.
pub proof fn lemma_apa_entries_snoc(cs: Seq<Json>, c: Json, base: nat)
    ensures
        spec_apa_entries(cs.push(c), base) == spec_apa_entries(cs, base) + spec_apa_entry(
            (base + cs.len()) as nat,
            c,
        ),
    decreases cs.len(),
{
    let p = cs.push(c);
    if cs.len() == 0 {
        assert(p.len() == 1);
        assert(p[0] == c);
        assert(p.drop_first() =~= Seq::<Json>::empty());
        let e = spec_apa_entry(base, c);
        assert(spec_apa_entries(p, base) == spec_apa_entry(base, p[0]) + spec_apa_entries(
            p.drop_first(),
            base + 1,
        ));
        assert(spec_apa_entries(p.drop_first(), base + 1) =~= Seq::<char>::empty());
        assert(spec_apa_entries(cs, base) =~= Seq::<char>::empty());
        assert((base + cs.len()) as nat == base);
        assert(e + Seq::<char>::empty() =~= Seq::<char>::empty() + e);
        assert(spec_apa_entries(p, base) =~= spec_apa_entries(cs, base) + spec_apa_entry(
            (base + cs.len()) as nat,
            c,
        ));
    } else {
        assert(p[0] == cs[0]);
        assert(p.drop_first() =~= cs.drop_first().push(c));
        lemma_apa_entries_snoc(cs.drop_first(), c, base + 1);
        assert(spec_apa_entries(p, base) == spec_apa_entry(base, cs[0]) + spec_apa_entries(
            p.drop_first(),
            base + 1,
        ));
        assert(spec_apa_entries(p.drop_first(), base + 1) == spec_apa_entries(
            cs.drop_first(),
            base + 1,
        ) + spec_apa_entry((base + 1 + cs.drop_first().len()) as nat, c));
        assert((base + 1 + cs.drop_first().len()) as nat == (base + cs.len()) as nat);
        assert(spec_apa_entries(cs, base) == spec_apa_entry(base, cs[0]) + spec_apa_entries(
            cs.drop_first(),
            base + 1,
        ));
        let e0 = spec_apa_entry(base, cs[0]);
        let mid = spec_apa_entries(cs.drop_first(), base + 1);
        let ec = spec_apa_entry((base + cs.len()) as nat, c);
        assert(e0 + (mid + ec) =~= (e0 + mid) + ec);
        assert(spec_apa_entries(p, base) == e0 + (mid + ec));
        assert(spec_apa_entries(p, base) =~= spec_apa_entries(cs, base) + spec_apa_entry(
            (base + cs.len()) as nat,
            c,
        ));
    }
}

/// Appending one more line extends a source block on the right.
pub proof fn lemma_source_lines_snoc(cs: Seq<Json>, c: Json, base: nat)
    ensures
        spec_source_lines(cs.push(c), base) == spec_source_lines(cs, base) + spec_source_line(
            (base + cs.len()) as nat,
            c,
        ),
    decreases cs.len(),
{
    let p = cs.push(c);
    if cs.len() == 0 {
        assert(p.len() == 1);
        assert(p[0] == c);
        assert(p.drop_first() =~= Seq::<Json>::empty());
        let e = spec_source_line(base, c);
        assert(spec_source_lines(p, base) == spec_source_line(base, p[0]) + spec_source_lines(
            p.drop_first(),
            base + 1,
        ));
        assert(spec_source_lines(p.drop_first(), base + 1) =~= Seq::<char>::empty());
        assert(spec_source_lines(cs, base) =~= Seq::<char>::empty());
        assert((base + cs.len()) as nat == base);
        assert(e + Seq::<char>::empty() =~= Seq::<char>::empty() + e);
        assert(spec_source_lines(p, base) =~= spec_source_lines(cs, base) + spec_source_line(
            (base + cs.len()) as nat,
            c,
        ));
    } else {
        assert(p[0] == cs[0]);
        assert(p.drop_first() =~= cs.drop_first().push(c));
        lemma_source_lines_snoc(cs.drop_first(), c, base + 1);
        assert(spec_source_lines(p, base) == spec_source_line(base, cs[0]) + spec_source_lines(
            p.drop_first(),
            base + 1,
        ));
        assert(spec_source_lines(p.drop_first(), base + 1) == spec_source_lines(
            cs.drop_first(),
            base + 1,
        ) + spec_source_line((base + 1 + cs.drop_first().len()) as nat, c));
        assert((base + 1 + cs.drop_first().len()) as nat == (base + cs.len()) as nat);
        assert(spec_source_lines(cs, base) == spec_source_line(base, cs[0]) + spec_source_lines(
            cs.drop_first(),
            base + 1,
        ));
        assert(spec_source_lines(p, base) =~= spec_source_lines(cs, base) + spec_source_line(
            (base + cs.len()) as nat,
            c,
        ));
    }
}

/// The fixed source-quality table: the citation count, and the search
/// iteration count when the payload reports one.
pub open spec fn spec_assessment(n: nat, iterations: Option<i64>) -> Seq<char> {
    "\n## Source Assessment\n\n| Category | Metrics |\n|----------|--------|\n| Total Sources | "@
        + dec_digits(n) + " |\n"@ + (match iterations {
        Some(k) => "| Search Iterations | "@ + crate::text::int_digits(k as int) + " |\n"@,
        None => Seq::empty(),
    })
}

/// The style-aware rendering: the content alone when there are no
/// citations; otherwise the content, a reference section in the
/// requested style — APA entries for `apa`, the flat source list for
/// every other style — and the source-quality table.
pub open spec fn spec_research_format(
    content: Seq<char>,
    cs: Seq<Json>,
    style: Seq<char>,
    iterations: Option<i64>,
) -> Seq<char> {
    if cs.len() == 0 {
        content
    } else {
        content + "\n"@ + (if style == "apa"@ {
            "\n\n## References\n\n"@ + spec_apa_entries(cs, 1)
        } else {
            "\n\n## Sources\n\n"@ + spec_source_lines(cs, 1)
        }) + spec_assessment(cs.len(), iterations)
    }
}


/// Reads the search-iteration count out of a payload, exactly when
/// [`spec_search_iterations`] finds one.
pub fn search_iterations(response: &JsonValue) -> (r: Option<i64>)
    ensures
        r == spec_search_iterations(response@),
{
    match response.get("search_info") {
        Some(si) => match si.get("iterations") {
            Some(v) => v.as_int(),
            None => None,
        },
        None => None,
    }
}

/// The comma-joined author names of a citation, per
/// [`spec_authors_text`].
fn authors_text(c: &JsonValue) -> (r: String)
    ensures
        r@ == spec_authors_text(c@),
{
    let mut out = String::new();
    let arr = match c.get("authors") {
        Some(a) => match a.as_arr() {
            Some(v) => v,
            None => {
                return out;
            },
        },
        None => {
            return out;
        },
    };
    let ghost ga = jmodel_seq(arr@);
    proof {
        lemma_jmodel_seq(arr@);
        assert(ga.subrange(0, 0) =~= Seq::<Json>::empty());
    }
    let mut first = true;
    let n = arr.len();
    for i in 0..n
        invariant
            n == arr@.len(),
            ga == jmodel_seq(arr@),
            ga.len() == n,
            forall|k: int| 0 <= k < n ==> ga[k] == jmodel(arr@[k]),
            first <==> spec_str_items(ga.subrange(0, i as int)).len() == 0,
            out@ == spec_join(spec_str_items(ga.subrange(0, i as int))),
    {
        proof {
            assert(ga.subrange(0, i as int).push(ga[i as int]) =~= ga.subrange(0, i + 1));
            lemma_str_items_snoc(ga.subrange(0, i as int), ga[i as int]);
        }
        match arr[i].as_str() {
            Some(s) => {
                if !first {
                    out.append(", ");
                }
                out.append(s);
                first = false;
                proof {
                    let parts = spec_str_items(ga.subrange(0, i as int));
                    assert(parts + seq![s@] =~= parts.push(s@));
                    lemma_join_snoc(parts, s@);
                    assert(out@ =~= spec_join(spec_str_items(ga.subrange(0, i + 1))));
                }
            },
            None => {
                proof {
                    assert(spec_str_items(ga.subrange(0, i + 1)) =~= spec_str_items(
                        ga.subrange(0, i as int),
                    ));
                }
            },
        }
    }
    proof {
        assert(ga.subrange(0, n as int) =~= ga);
    }
    out
}

/// Appends one APA-style entry to `out`.
#[verifier::rlimit(100)]
fn apa_entry_into(out: &mut String, i: u64, c: &JsonValue)
    ensures
        final(out)@ == old(out)@ + spec_apa_entry(i as nat, c@),
{
    let title = match c.get("title") {
        Some(t) => t.as_str(),
        None => None,
    };
    let url = match c.get("url") {
        Some(u) => u.as_str(),
        None => None,
    };
    match (title, url) {
        (Some(title), Some(url)) => {
            out.append("[");
            push_u64(out, i);
            out.append("] ");
            let authors = authors_text(c);
            if !authors.as_str().is_empty() {
                out.append(authors.as_str());
                out.append(". ");
            }
            let date = match c.get("date") {
                Some(d) => d.as_str(),
                None => None,
            };
            match date {
                Some(d) => if !d.is_empty() {
                    out.append("(");
                    out.append(d);
                    out.append("). ");
                },
                None => {},
            }
            let publisher = match c.get("publisher") {
                Some(p) => p.as_str(),
                None => None,
            };
            match publisher {
                Some(p) => if !p.is_empty() {
                    out.append(p);
                    out.append(". ");
                },
                None => {},
            }
            out.append("*");
            out.append(title);
            out.append("*. ");
            out.append(url);
            out.append("\n\n");
            proof {
                assert(final(out)@ =~= old(out)@ + spec_apa_entry(i as nat, c@));
            }
        },
        _ => {
            out.append("[");
            push_u64(out, i);
            out.append("] ");
            match c.as_str() {
                Some(s) => out.append(s),
                None => out.append("Unknown source"),
            }
            out.append("\n\n");
            proof {
                assert(final(out)@ =~= old(out)@ + spec_apa_entry(i as nat, c@));
            }
        },
    }
}

/// Appends one flat source line to `out`.
fn source_line_into(out: &mut String, i: u64, c: &JsonValue)
    ensures
        final(out)@ == old(out)@ + spec_source_line(i as nat, c@),
{
    out.append("[");
    push_u64(out, i);
    out.append("]: ");
    out.append(citation_url_text(c));
    out.append("\n");
    proof {
        assert(final(out)@ =~= old(out)@ + spec_source_line(i as nat, c@));
    }
}

/// The style-aware rendering of a deep-research payload: the answer
/// text, a reference section in the requested citation style, and the
/// source-quality table, per [`spec_research_format`].  A payload
/// without answer text is malformed, and says so.
pub fn format_deep_research_response(response: &JsonValue, citation_style: &str) -> (r: Result<
    String,
    ToolError,
>)
    ensures
        match r {
            Ok(s) => match spec_content(response@) {
                Some(c) => s@ == spec_research_format(
                    c,
                    spec_citations(response@),
                    citation_style@,
                    spec_search_iterations(response@),
                ),
                None => false,
            },
            Err(e) => spec_content(response@) is None && (e matches ToolError::MalformedResponse(f)
                && f@ == "content"@),
        },
{
    let content = match extract_content(response) {
        Some(c) => c,
        None => {
            return Err(ToolError::MalformedResponse(String::from_str("content")));
        },
    };
    let citations = match extract_citations(response) {
        Some(a) => a,
        None => {
            return Ok(content.to_owned());
        },
    };
    if citations.len() == 0 {
        return Ok(content.to_owned());
    }
    let ghost gcs = jmodel_seq(citations@);
    let ghost gcontent = content@;
    proof {
        lemma_jmodel_seq(citations@);
        assert(gcs.subrange(0, 0) =~= Seq::<Json>::empty());
    }
    let mut out = content.to_owned();
    out.append("\n");
    let n = citations.len();
    let apa = crate::text::str_eq(citation_style, "apa");
    if apa {
        out.append("\n\n## References\n\n");
        let ghost prefix = out@;
        for i in 0..n
            invariant
                n == citations@.len(),
                gcs == jmodel_seq(citations@),
                gcs.len() == n,
                forall|k: int| 0 <= k < n ==> gcs[k] == jmodel(citations@[k]),
                prefix == gcontent + "\n"@ + "\n\n## References\n\n"@,
                out@ == prefix + spec_apa_entries(gcs.subrange(0, i as int), 1),
        {
            apa_entry_into(&mut out, i as u64 + 1, &citations[i]);
            proof {
                assert(gcs.subrange(0, i as int).push(gcs[i as int]) =~= gcs.subrange(0, i + 1));
                lemma_apa_entries_snoc(gcs.subrange(0, i as int), gcs[i as int], 1);
                assert(out@ =~= prefix + spec_apa_entries(gcs.subrange(0, i + 1), 1));
            }
        }
        proof {
            assert(gcs.subrange(0, n as int) =~= gcs);
        }
    } else {
        out.append("\n\n## Sources\n\n");
        let ghost prefix = out@;
        for i in 0..n
            invariant
                n == citations@.len(),
                gcs == jmodel_seq(citations@),
                gcs.len() == n,
                forall|k: int| 0 <= k < n ==> gcs[k] == jmodel(citations@[k]),
                prefix == gcontent + "\n"@ + "\n\n## Sources\n\n"@,
                out@ == prefix + spec_source_lines(gcs.subrange(0, i as int), 1),
        {
            source_line_into(&mut out, i as u64 + 1, &citations[i]);
            proof {
                assert(gcs.subrange(0, i as int).push(gcs[i as int]) =~= gcs.subrange(0, i + 1));
                lemma_source_lines_snoc(gcs.subrange(0, i as int), gcs[i as int], 1);
                assert(out@ =~= prefix + spec_source_lines(gcs.subrange(0, i + 1), 1));
            }
        }
        proof {
            assert(gcs.subrange(0, n as int) =~= gcs);
        }
    }
    out.append(
        "\n## Source Assessment\n\n| Category | Metrics |\n|----------|--------|\n| Total Sources | ",
    );
    push_u64(&mut out, n as u64);
    out.append(" |\n");
    match search_iterations(response) {
        Some(k) => {
            out.append("| Search Iterations | ");
            crate::text::push_i64(&mut out, k);
            out.append(" |\n");
        },
        None => {},
    }
    proof {
        assert(out@ =~= spec_research_format(
            gcontent,
            gcs,
            citation_style@,
            spec_search_iterations(response@),
        ));
    }
    Ok(out)
}


/// Formatting is idempotent on already-formatted plain content: a
/// payload carrying no citations renders, in either style, as its
/// answer text unchanged — so nothing is ever appended twice.
pub proof fn lemma_format_without_citations(
    content: Seq<char>,
    cs: Seq<Json>,
    style: Seq<char>,
    iterations: Option<i64>,
)
    requires
        cs.len() == 0,
    ensures
        spec_plain_format(content, cs) == content,
        spec_research_format(content, cs, style, iterations) == content,
{
}

} // verus!
