//! Reading a final answer as a report: its sections, their kinds, and a
//! short summary of each.
use vstd::prelude::*;

use crate::chars::{
    all_digits, ascii_lower, chars_of, contains_seq, dec, dec_string, dec_usize, find_from,
    is_alnum, is_blank, is_digit, join, join_strings, lines, occurs_at, push_char, push_str,
    slice_vec, split_lines, starts_with, str_contains, str_eq, str_starts_with, string_of,
    to_ascii_lower, trim, trim_start, trim_start_string, trim_string, views,
};
use crate::delivery::{join_or_none, spec_join_or_none};
use crate::text::{preview_of, preview_text};

verus! {

#[derive(Debug, Clone, Copy, PartialEq, Eq, Structural)]
pub enum ResponseCardSectionKind {
    Meta,
    ResultsSummary,
    ChangesMade,
    Verification,
    Usage,
    OptionalNextStep,
    KeyPoints,
    RawDetail,
    Delivery,
    SkillLoad,
    Knowledge,
    ToolRuns,
    Thinking,
    Subflow,
    Custom,
}

// ---------------------------------------------------------------------------
// Headings and titles
// ---------------------------------------------------------------------------

/// The title after the heading marker `p` at the start of `t`, when it is
/// not blank.
pub open spec fn heading_after(t: Seq<char>, p: Seq<char>) -> Option<Seq<char>> {
    if starts_with(t, p) && trim(t.skip(p.len() as int)).len() > 0 {
        Some(trim(t.skip(p.len() as int)))
    } else {
        None
    }
}

/// The title of a Markdown heading line `## `, `### ` or `# ` (tried in
/// that order, after trimming the line), when the title is not blank.
pub open spec fn spec_heading(line: Seq<char>) -> Option<Seq<char>> {
    let t = trim(line);
    match heading_after(t, "## "@) {
        Some(h) => Some(h),
        None => match heading_after(t, "### "@) {
            Some(h) => Some(h),
            None => heading_after(t, "# "@),
        },
    }
}

fn heading_after_exec(t: &str, p: &str) -> (r: Option<String>)
    ensures
        match r {
            Some(s) => heading_after(t@, p@) == Some(s@),
            None => heading_after(t@, p@).is_none(),
        },
{
    if !str_starts_with(t, p) {
        return None;
    }
    let v = chars_of(t);
    let n = chars_of(p).len();
    let rest = string_of(slice_vec(&v, n, v.len()).as_slice());
    proof {
        assert(rest@ =~= t@.skip(p@.len() as int));
    }
    if is_blank(rest.as_str()) {
        None
    } else {
        Some(trim_string(rest.as_str()))
    }
}

pub fn parse_section_heading(line: &str) -> (r: Option<String>)
    ensures
        match r {
            Some(s) => spec_heading(line@) == Some(s@),
            None => spec_heading(line@).is_none(),
        },
{
    let t = trim_string(line);
    match heading_after_exec(t.as_str(), "## ") {
        Some(h) => Some(h),
        None => match heading_after_exec(t.as_str(), "### ") {
            Some(h) => Some(h),
            None => heading_after_exec(t.as_str(), "# "),
        },
    }
}

/// Folding a title: ASCII letters and digits lower-cased, every run of
/// other characters turned into one space (and whether the text so far
/// ends in such a space).
pub open spec fn collapse(s: Seq<char>) -> (Seq<char>, bool)
    decreases s.len(),
{
    if s.len() == 0 {
        (Seq::empty(), false)
    } else {
        let (out, prev_space) = collapse(s.drop_last());
        let c = s.last();
        if is_alnum(c) {
            (out.push(ascii_lower(c)), false)
        } else if !prev_space {
            (out.push(' '), true)
        } else {
            (out, prev_space)
        }
    }
}

/// A title folded to lower-case words separated by single spaces.
pub open spec fn spec_normalized_title(title: Seq<char>) -> Seq<char> {
    trim(collapse(title).0)
}

pub fn normalize_section_title(title: &str) -> (r: String)
    ensures
        r@ == spec_normalized_title(title@),
{
    let v = chars_of(title);
    let mut out = String::new();
    let mut prev_space = false;
    let mut i: usize = 0;
    while i < v.len()
        invariant
            i <= v@.len(),
            v@ == title@,
            collapse(v@.take(i as int)) == (out@, prev_space),
        decreases v.len() - i,
    {
        let c = v[i];
        proof {
            assert(v@.take(i + 1).drop_last() =~= v@.take(i as int));
            assert(v@.take(i + 1).last() == c);
        }
        if ('0' <= c && c <= '9') || ('a' <= c && c <= 'z') || ('A' <= c && c <= 'Z') {
            push_char(&mut out, to_ascii_lower(c));
            prev_space = false;
        } else if !prev_space {
            push_char(&mut out, ' ');
            prev_space = true;
        }
        i = i + 1;
    }
    proof {
        assert(v@.take(v@.len() as int) =~= v@);
    }
    trim_string(out.as_str())
}

pub open spec fn spec_classify(title: Seq<char>) -> ResponseCardSectionKind {
    let n = spec_normalized_title(title);
    if n == "results summary"@ || n == "result summary"@ || n == "summary"@ {
        ResponseCardSectionKind::ResultsSummary
    } else if n == "changes made"@ || n == "changes"@ || n == "change summary"@ {
        ResponseCardSectionKind::ChangesMade
    } else if n == "verification"@ || n == "validation"@ || n == "tests"@ || n == "test results"@ {
        ResponseCardSectionKind::Verification
    } else if n == "usage"@ || n == "how to use"@ {
        ResponseCardSectionKind::Usage
    } else if n == "optional next step"@ || n == "optional next steps"@ || n == "next step"@ || n
        == "next steps"@ {
        ResponseCardSectionKind::OptionalNextStep
    } else if n == "key points"@ || n == "highlights"@ || n == "key takeaways"@ {
        ResponseCardSectionKind::KeyPoints
    } else {
        ResponseCardSectionKind::Custom
    }
}

/// The known report headings, in any letter case and with any
/// punctuation between their words, name their kinds: a results summary,
/// the changes made, verification, usage, optional next steps and key
/// points; any other heading is a custom section.
pub proof fn law_known_headings_are_classified(title: Seq<char>)
    ensures
        spec_normalized_title(title) == "results summary"@ || spec_normalized_title(title) == "result summary"@
            || spec_normalized_title(title) == "summary"@ ==> spec_classify(title)
            == ResponseCardSectionKind::ResultsSummary,
        spec_normalized_title(title) == "changes made"@ || spec_normalized_title(title) == "changes"@
            || spec_normalized_title(title) == "change summary"@ ==> spec_classify(title)
            == ResponseCardSectionKind::ChangesMade,
        spec_normalized_title(title) == "verification"@ || spec_normalized_title(title) == "validation"@
            || spec_normalized_title(title) == "tests"@ || spec_normalized_title(title) == "test results"@
            ==> spec_classify(title) == ResponseCardSectionKind::Verification,
        spec_normalized_title(title) == "usage"@ || spec_normalized_title(title) == "how to use"@
            ==> spec_classify(title) == ResponseCardSectionKind::Usage,
        spec_normalized_title(title) == "optional next step"@ || spec_normalized_title(title)
            == "optional next steps"@ || spec_normalized_title(title) == "next step"@ || spec_normalized_title(title)
            == "next steps"@ ==> spec_classify(title) == ResponseCardSectionKind::OptionalNextStep,
        spec_normalized_title(title) == "key points"@ || spec_normalized_title(title) == "highlights"@
            || spec_normalized_title(title) == "key takeaways"@ ==> spec_classify(title)
            == ResponseCardSectionKind::KeyPoints,
{
    reveal_strlit("results summary");
    reveal_strlit("result summary");
    reveal_strlit("summary");
    reveal_strlit("changes made");
    reveal_strlit("changes");
    reveal_strlit("change summary");
    reveal_strlit("verification");
    reveal_strlit("validation");
    reveal_strlit("tests");
    reveal_strlit("test results");
    reveal_strlit("usage");
    reveal_strlit("how to use");
    reveal_strlit("optional next step");
    reveal_strlit("optional next steps");
    reveal_strlit("next step");
    reveal_strlit("next steps");
    reveal_strlit("key points");
    reveal_strlit("highlights");
    reveal_strlit("key takeaways");
    if spec_normalized_title(title) == "results summary"@ {
    }
    if spec_normalized_title(title) == "result summary"@ {
    }
    if spec_normalized_title(title) == "summary"@ {
    }
    if spec_normalized_title(title) == "changes made"@ {
        assert("changes made"@.len() != "results summary"@.len());
        assert("changes made"@.len() != "result summary"@.len());
        assert("changes made"@.len() != "summary"@.len());
    }
    if spec_normalized_title(title) == "changes"@ {
        assert("changes"@.len() != "results summary"@.len());
        assert("changes"@.len() != "result summary"@.len());
        assert("changes"@[0] != "summary"@[0]);
    }
    if spec_normalized_title(title) == "change summary"@ {
        assert("change summary"@.len() != "results summary"@.len());
        assert("change summary"@[0] != "result summary"@[0]);
        assert("change summary"@.len() != "summary"@.len());
    }
    if spec_normalized_title(title) == "verification"@ {
        assert("verification"@.len() != "results summary"@.len());
        assert("verification"@.len() != "result summary"@.len());
        assert("verification"@.len() != "summary"@.len());
        assert("verification"@[0] != "changes made"@[0]);
        assert("verification"@.len() != "changes"@.len());
        assert("verification"@.len() != "change summary"@.len());
    }
    if spec_normalized_title(title) == "validation"@ {
        assert("validation"@.len() != "results summary"@.len());
        assert("validation"@.len() != "result summary"@.len());
        assert("validation"@.len() != "summary"@.len());
        assert("validation"@.len() != "changes made"@.len());
        assert("validation"@.len() != "changes"@.len());
        assert("validation"@.len() != "change summary"@.len());
    }
    if spec_normalized_title(title) == "tests"@ {
        assert("tests"@.len() != "results summary"@.len());
        assert("tests"@.len() != "result summary"@.len());
        assert("tests"@.len() != "summary"@.len());
        assert("tests"@.len() != "changes made"@.len());
        assert("tests"@.len() != "changes"@.len());
        assert("tests"@.len() != "change summary"@.len());
    }
    if spec_normalized_title(title) == "test results"@ {
        assert("test results"@.len() != "results summary"@.len());
        assert("test results"@.len() != "result summary"@.len());
        assert("test results"@.len() != "summary"@.len());
        assert("test results"@[0] != "changes made"@[0]);
        assert("test results"@.len() != "changes"@.len());
        assert("test results"@.len() != "change summary"@.len());
    }
    if spec_normalized_title(title) == "usage"@ {
        assert("usage"@.len() != "results summary"@.len());
        assert("usage"@.len() != "result summary"@.len());
        assert("usage"@.len() != "summary"@.len());
        assert("usage"@.len() != "changes made"@.len());
        assert("usage"@.len() != "changes"@.len());
        assert("usage"@.len() != "change summary"@.len());
        assert("usage"@.len() != "verification"@.len());
        assert("usage"@.len() != "validation"@.len());
        assert("usage"@[0] != "tests"@[0]);
        assert("usage"@.len() != "test results"@.len());
    }
    if spec_normalized_title(title) == "how to use"@ {
        assert("how to use"@.len() != "results summary"@.len());
        assert("how to use"@.len() != "result summary"@.len());
        assert("how to use"@.len() != "summary"@.len());
        assert("how to use"@.len() != "changes made"@.len());
        assert("how to use"@.len() != "changes"@.len());
        assert("how to use"@.len() != "change summary"@.len());
        assert("how to use"@.len() != "verification"@.len());
        assert("how to use"@[0] != "validation"@[0]);
        assert("how to use"@.len() != "tests"@.len());
        assert("how to use"@.len() != "test results"@.len());
    }
    if spec_normalized_title(title) == "optional next step"@ {
        assert("optional next step"@.len() != "results summary"@.len());
        assert("optional next step"@.len() != "result summary"@.len());
        assert("optional next step"@.len() != "summary"@.len());
        assert("optional next step"@.len() != "changes made"@.len());
        assert("optional next step"@.len() != "changes"@.len());
        assert("optional next step"@.len() != "change summary"@.len());
        assert("optional next step"@.len() != "verification"@.len());
        assert("optional next step"@.len() != "validation"@.len());
        assert("optional next step"@.len() != "tests"@.len());
        assert("optional next step"@.len() != "test results"@.len());
        assert("optional next step"@.len() != "usage"@.len());
        assert("optional next step"@.len() != "how to use"@.len());
    }
    if spec_normalized_title(title) == "optional next steps"@ {
        assert("optional next steps"@.len() != "results summary"@.len());
        assert("optional next steps"@.len() != "result summary"@.len());
        assert("optional next steps"@.len() != "summary"@.len());
        assert("optional next steps"@.len() != "changes made"@.len());
        assert("optional next steps"@.len() != "changes"@.len());
        assert("optional next steps"@.len() != "change summary"@.len());
        assert("optional next steps"@.len() != "verification"@.len());
        assert("optional next steps"@.len() != "validation"@.len());
        assert("optional next steps"@.len() != "tests"@.len());
        assert("optional next steps"@.len() != "test results"@.len());
        assert("optional next steps"@.len() != "usage"@.len());
        assert("optional next steps"@.len() != "how to use"@.len());
    }
    if spec_normalized_title(title) == "next step"@ {
        assert("next step"@.len() != "results summary"@.len());
        assert("next step"@.len() != "result summary"@.len());
        assert("next step"@.len() != "summary"@.len());
        assert("next step"@.len() != "changes made"@.len());
        assert("next step"@.len() != "changes"@.len());
        assert("next step"@.len() != "change summary"@.len());
        assert("next step"@.len() != "verification"@.len());
        assert("next step"@.len() != "validation"@.len());
        assert("next step"@.len() != "tests"@.len());
        assert("next step"@.len() != "test results"@.len());
        assert("next step"@.len() != "usage"@.len());
        assert("next step"@.len() != "how to use"@.len());
    }
    if spec_normalized_title(title) == "next steps"@ {
        assert("next steps"@.len() != "results summary"@.len());
        assert("next steps"@.len() != "result summary"@.len());
        assert("next steps"@.len() != "summary"@.len());
        assert("next steps"@.len() != "changes made"@.len());
        assert("next steps"@.len() != "changes"@.len());
        assert("next steps"@.len() != "change summary"@.len());
        assert("next steps"@.len() != "verification"@.len());
        assert("next steps"@[0] != "validation"@[0]);
        assert("next steps"@.len() != "tests"@.len());
        assert("next steps"@.len() != "test results"@.len());
        assert("next steps"@.len() != "usage"@.len());
        assert("next steps"@[0] != "how to use"@[0]);
    }
    if spec_normalized_title(title) == "key points"@ {
        assert("key points"@.len() != "results summary"@.len());
        assert("key points"@.len() != "result summary"@.len());
        assert("key points"@.len() != "summary"@.len());
        assert("key points"@.len() != "changes made"@.len());
        assert("key points"@.len() != "changes"@.len());
        assert("key points"@.len() != "change summary"@.len());
        assert("key points"@.len() != "verification"@.len());
        assert("key points"@[0] != "validation"@[0]);
        assert("key points"@.len() != "tests"@.len());
        assert("key points"@.len() != "test results"@.len());
        assert("key points"@.len() != "usage"@.len());
        assert("key points"@[0] != "how to use"@[0]);
        assert("key points"@.len() != "optional next step"@.len());
        assert("key points"@.len() != "optional next steps"@.len());
        assert("key points"@.len() != "next step"@.len());
        assert("key points"@[0] != "next steps"@[0]);
    }
    if spec_normalized_title(title) == "highlights"@ {
        assert("highlights"@.len() != "results summary"@.len());
        assert("highlights"@.len() != "result summary"@.len());
        assert("highlights"@.len() != "summary"@.len());
        assert("highlights"@.len() != "changes made"@.len());
        assert("highlights"@.len() != "changes"@.len());
        assert("highlights"@.len() != "change summary"@.len());
        assert("highlights"@.len() != "verification"@.len());
        assert("highlights"@[0] != "validation"@[0]);
        assert("highlights"@.len() != "tests"@.len());
        assert("highlights"@.len() != "test results"@.len());
        assert("highlights"@.len() != "usage"@.len());
        assert("highlights"@[1] != "how to use"@[1]);
        assert("highlights"@.len() != "optional next step"@.len());
        assert("highlights"@.len() != "optional next steps"@.len());
        assert("highlights"@.len() != "next step"@.len());
        assert("highlights"@[0] != "next steps"@[0]);
    }
    if spec_normalized_title(title) == "key takeaways"@ {
        assert("key takeaways"@.len() != "results summary"@.len());
        assert("key takeaways"@.len() != "result summary"@.len());
        assert("key takeaways"@.len() != "summary"@.len());
        assert("key takeaways"@.len() != "changes made"@.len());
        assert("key takeaways"@.len() != "changes"@.len());
        assert("key takeaways"@.len() != "change summary"@.len());
        assert("key takeaways"@.len() != "verification"@.len());
        assert("key takeaways"@.len() != "validation"@.len());
        assert("key takeaways"@.len() != "tests"@.len());
        assert("key takeaways"@.len() != "test results"@.len());
        assert("key takeaways"@.len() != "usage"@.len());
        assert("key takeaways"@.len() != "how to use"@.len());
        assert("key takeaways"@.len() != "optional next step"@.len());
        assert("key takeaways"@.len() != "optional next steps"@.len());
        assert("key takeaways"@.len() != "next step"@.len());
        assert("key takeaways"@.len() != "next steps"@.len());
    }
}

/// The kind of a report section, by its folded title.
pub fn classify_report_section(title: &str) -> (r: ResponseCardSectionKind)
    ensures
        r == spec_classify(title@),
{
    let n = normalize_section_title(title);
    let s = n.as_str();
    if str_eq(s, "results summary") || str_eq(s, "result summary") || str_eq(s, "summary") {
        ResponseCardSectionKind::ResultsSummary
    } else if str_eq(s, "changes made") || str_eq(s, "changes") || str_eq(s, "change summary") {
        ResponseCardSectionKind::ChangesMade
    } else if str_eq(s, "verification") || str_eq(s, "validation") || str_eq(s, "tests") || str_eq(
        s,
        "test results",
    ) {
        ResponseCardSectionKind::Verification
    } else if str_eq(s, "usage") || str_eq(s, "how to use") {
        ResponseCardSectionKind::Usage
    } else if str_eq(s, "optional next step") || str_eq(s, "optional next steps") || str_eq(
        s,
        "next step",
    ) || str_eq(s, "next steps") {
        ResponseCardSectionKind::OptionalNextStep
    } else if str_eq(s, "key points") || str_eq(s, "highlights") || str_eq(s, "key takeaways") {
        ResponseCardSectionKind::KeyPoints
    } else {
        ResponseCardSectionKind::Custom
    }
}

// ---------------------------------------------------------------------------
// Sections
// ---------------------------------------------------------------------------

pub open spec fn opt_view(o: Option<String>) -> Option<Seq<char>> {
    match o {
        Some(s) => Some(s@),
        None => None,
    }
}

/// The view of a list of sections: optional title and body.
pub open spec fn section_views(v: Seq<(Option<String>, String)>) -> Seq<(Option<Seq<char>>, Seq<char>)> {
    v.map_values(|e: (Option<String>, String)| (opt_view(e.0), e.1@))
}

/// The sections after closing the current one: its lines joined; kept
/// only when the body is not blank.
pub open spec fn closed_sections(
    secs: Seq<(Option<Seq<char>>, Seq<char>)>,
    title: Option<Seq<char>>,
    cur: Seq<Seq<char>>,
) -> Seq<(Option<Seq<char>>, Seq<char>)> {
    let body = join(cur, "\n"@);
    if trim(body).len() == 0 {
        secs
    } else {
        secs.push((title, body))
    }
}

/// Closes the current section: appends it when its body is not blank, and
/// empties `lines` either way.
pub fn push_report_section(
    sections: &mut Vec<(Option<String>, String)>,
    title: Option<String>,
    lines: &mut Vec<String>,
)
    ensures
        section_views(final(sections)@) == closed_sections(
            section_views(old(sections)@),
            opt_view(title),
            views(old(lines)@),
        ),
        final(lines)@.len() == 0,
{
    let body = join_strings(lines, "\n");
    *lines = Vec::new();
    if is_blank(body.as_str()) {
        return;
    }
    let ghost t = opt_view(title);
    sections.push((title, body));
    proof {
        assert(section_views(sections@) =~= section_views(old(sections)@).push((t, body@)));
    }
}

/// Reading the lines of a report one by one: the closed sections, the
/// open section's title and lines, and whether a heading was seen.
pub open spec fn section_state(ls: Seq<Seq<char>>) -> (
    Seq<(Option<Seq<char>>, Seq<char>)>,
    Option<Seq<char>>,
    Seq<Seq<char>>,
    bool,
)
    decreases ls.len(),
{
    if ls.len() == 0 {
        (Seq::empty(), None, Seq::empty(), false)
    } else {
        let (secs, title, cur, saw) = section_state(ls.drop_last());
        match spec_heading(ls.last()) {
            Some(h) => (closed_sections(secs, title, cur), Some(h), Seq::empty(), true),
            None => (secs, title, cur.push(ls.last()), saw),
        }
    }
}

/// The sections of a report: the text between headings, titled by the
/// heading before it; blank sections dropped. A text without headings is
/// one untitled section holding all of it.
pub open spec fn spec_report_sections(text: Seq<char>) -> Seq<(Option<Seq<char>>, Seq<char>)> {
    let (secs, title, cur, saw) = section_state(lines(text));
    if !saw {
        seq![(None, text)]
    } else {
        closed_sections(secs, title, cur)
    }
}

fn copy_title(o: &Option<String>) -> (r: Option<String>)
    ensures
        opt_view(r) == opt_view(*o),
{
    match o {
        Some(s) => Some(s.clone()),
        None => None,
    }
}

pub fn split_report_sections(text: &str) -> (r: Vec<(Option<String>, String)>)
    ensures
        section_views(r@) == spec_report_sections(text@),
{
    let ls = split_lines(text);
    let mut sections: Vec<(Option<String>, String)> = Vec::new();
    let mut title: Option<String> = None;
    let mut cur: Vec<String> = Vec::new();
    let mut saw = false;
    let mut i: usize = 0;
    while i < ls.len()
        invariant
            i <= ls@.len(),
            views(ls@) == lines(text@),
            section_state(views(ls@).take(i as int)) == (section_views(sections@), opt_view(title), views(cur@), saw),
        decreases ls.len() - i,
    {
        proof {
            assert(views(ls@).take(i + 1).drop_last() =~= views(ls@).take(i as int));
            assert(views(ls@).take(i + 1).last() == ls@[i as int]@);
        }
        match parse_section_heading(ls[i].as_str()) {
            Some(h) => {
                saw = true;
                let t = copy_title(&title);
                push_report_section(&mut sections, t, &mut cur);
                proof {
                    assert(views(cur@) =~= Seq::<Seq<char>>::empty());
                }
                title = Some(h);
            },
            None => {
                cur.push(ls[i].clone());
                proof {
                    assert(views(cur@) =~= views(cur@.drop_last()).push(ls@[i as int]@));
                }
            },
        }
        i = i + 1;
    }
    proof {
        assert(views(ls@).take(ls@.len() as int) =~= views(ls@));
    }
    if !saw {
        let mut only: Vec<(Option<String>, String)> = Vec::new();
        only.push((None, text.to_owned()));
        proof {
            assert(section_views(only@) =~= seq![(None::<Seq<char>>, text@)]);
        }
        return only;
    }
    push_report_section(&mut sections, title, &mut cur);
    sections
}

// ---------------------------------------------------------------------------
// Markdown tables
// ---------------------------------------------------------------------------

/// The pieces of `s` between occurrences of `c` (at least one piece).
pub open spec fn split_on(s: Seq<char>, c: char) -> Seq<Seq<char>>
    decreases s.len(),
{
    if s.len() == 0 {
        seq![Seq::empty()]
    } else {
        let sp = split_on(s.drop_last(), c);
        if s.last() == c {
            sp.push(Seq::empty())
        } else {
            sp.update(sp.len() - 1, sp.last().push(s.last()))
        }
    }
}

pub proof fn lemma_split_on_nonempty(s: Seq<char>, c: char)
    ensures
        split_on(s, c).len() >= 1,
    decreases s.len(),
{
    if s.len() > 0 {
        lemma_split_on_nonempty(s.drop_last(), c);
    }
}

/// `s` without its leading `|` characters.
pub open spec fn trim_bars_start(s: Seq<char>) -> Seq<char>
    decreases s.len(),
{
    if s.len() > 0 && s[0] == '|' {
        trim_bars_start(s.drop_first())
    } else {
        s
    }
}

/// `s` without its trailing `|` characters.
pub open spec fn trim_bars_end(s: Seq<char>) -> Seq<char>
    decreases s.len(),
{
    if s.len() > 0 && s.last() == '|' {
        trim_bars_end(s.drop_last())
    } else {
        s
    }
}

/// `str::trim_matches('|')`.
pub open spec fn trim_bars(s: Seq<char>) -> Seq<char> {
    trim_bars_end(trim_bars_start(s))
}

/// A line that is a lone `|` once trimmed; reading it as a table row
/// slices an empty range backwards.
pub open spec fn lone_bar(line: Seq<char>) -> bool {
    trim(line) == seq!['|']
}

/// A table row: trimmed, it starts and ends with `|` and holds another `|`
/// in between.
pub open spec fn spec_table_row(line: Seq<char>) -> bool {
    let t = trim(line);
    t.len() > 0 && t[0] == '|' && t.last() == '|' && t.subrange(1, t.len() - 1).contains('|')
}

/// A separator cell: not blank once trimmed, and made of `-`, `:` and spaces.
pub open spec fn separator_cell(p: Seq<char>) -> bool {
    let q = trim(p);
    q.len() > 0 && forall|i: int| 0 <= i < q.len() ==> (#[trigger] q[i] == '-' || q[i] == ':' || q[i] == ' ')
}

/// A table separator row such as `|---|:-:|`.
pub open spec fn spec_table_separator(line: Seq<char>) -> bool {
    let t = trim(line);
    t.len() > 0 && t[0] == '|' && t.last() == '|' && forall|i: int|
        0 <= i < split_on(trim_bars(t), '|').len() ==> separator_cell(#[trigger] split_on(trim_bars(t), '|')[i])
}

fn trim_bars_vec(v: &Vec<char>) -> (r: Vec<char>)
    ensures
        r@ == trim_bars(v@),
{
    let mut a: usize = 0;
    proof {
        assert(v@.skip(0) =~= v@);
    }
    while a < v.len() && v[a] == '|'
        invariant
            a <= v@.len(),
            trim_bars_start(v@) == trim_bars_start(v@.skip(a as int)),
        decreases v.len() - a,
    {
        proof {
            assert(v@.skip(a as int).drop_first() =~= v@.skip(a + 1));
        }
        a = a + 1;
    }
    let mut b: usize = v.len();
    proof {
        assert(trim_bars_start(v@.skip(a as int)) == v@.skip(a as int));
        assert(v@.skip(a as int) =~= v@.subrange(a as int, b as int));
    }
    while b > a && v[b - 1] == '|'
        invariant
            a <= b <= v@.len(),
            trim_bars(v@) == trim_bars_end(v@.subrange(a as int, b as int)),
        decreases b,
    {
        proof {
            assert(v@.subrange(a as int, b as int).drop_last() =~= v@.subrange(a as int, b - 1));
        }
        b = b - 1;
    }
    proof {
        let u = v@.subrange(a as int, b as int);
        if u.len() > 0 {
            assert(u.last() == v@[b - 1]);
        }
    }
    slice_vec(v, a, b)
}

/// The pieces of `v` between its `c` characters.
fn split_chars(v: &Vec<char>, c: char) -> (r: Vec<Vec<char>>)
    ensures
        r@.map_values(|p: Vec<char>| p@) == split_on(v@, c),
{
    let mut out: Vec<Vec<char>> = Vec::new();
    let mut cur: Vec<char> = Vec::new();
    let mut i: usize = 0;
    while i < v.len()
        invariant
            i <= v@.len(),
            out@.map_values(|p: Vec<char>| p@).push(cur@) == split_on(v@.take(i as int), c),
        decreases v.len() - i,
    {
        proof {
            assert(v@.take(i + 1).drop_last() =~= v@.take(i as int));
            lemma_split_on_nonempty(v@.take(i as int), c);
        }
        if v[i] == c {
            let done = cur;
            out.push(done);
            cur = Vec::new();
            proof {
                assert(out@.map_values(|p: Vec<char>| p@).push(cur@) =~= split_on(v@.take(i as int), c).push(
                    Seq::empty(),
                ));
            }
        } else {
            cur.push(v[i]);
            proof {
                let sp = split_on(v@.take(i as int), c);
                assert(out@.map_values(|p: Vec<char>| p@).push(cur@) =~= sp.update(
                    sp.len() - 1,
                    sp.last().push(v@[i as int]),
                ));
            }
        }
        i = i + 1;
    }
    proof {
        assert(v@.take(v@.len() as int) =~= v@);
    }
    let last = cur;
    out.push(last);
    out
}

pub fn is_markdown_table_row(line: &str) -> (r: bool)
    requires
        !lone_bar(line@),
    ensures
        r == spec_table_row(line@),
{
    let t = chars_of(trim_string(line).as_str());
    if t.len() == 0 || t[0] != '|' || t[t.len() - 1] != '|' {
        return false;
    }
    proof {
        if t.len() == 1 {
            assert(t@ =~= seq!['|']);
        }
    }
    let inner = slice_vec(&t, 1, t.len() - 1);
    crate::chars::contains_char(&inner, '|')
}

fn is_separator_cell(p: &Vec<char>) -> (r: bool)
    ensures
        r == separator_cell(p@),
{
    let q = chars_of(trim_string(string_of(p.as_slice()).as_str()).as_str());
    if q.len() == 0 {
        return false;
    }
    let mut i: usize = 0;
    while i < q.len()
        invariant
            i <= q@.len(),
            q@ == trim(p@),
            forall|j: int| 0 <= j < i ==> (#[trigger] q@[j] == '-' || q@[j] == ':' || q@[j] == ' '),
        decreases q.len() - i,
    {
        let ch = q[i];
        if !(ch == '-' || ch == ':' || ch == ' ') {
            proof {
                assert(!(q@[i as int] == '-' || q@[i as int] == ':' || q@[i as int] == ' '));
            }
            return false;
        }
        i = i + 1;
    }
    true
}

pub fn is_markdown_table_separator(line: &str) -> (r: bool)
    ensures
        r == spec_table_separator(line@),
{
    let t = chars_of(trim_string(line).as_str());
    if t.len() == 0 || t[0] != '|' || t[t.len() - 1] != '|' {
        return false;
    }
    let inner = trim_bars_vec(&t);
    let parts = split_chars(&inner, '|');
    let ghost sp = split_on(trim_bars(t@), '|');
    let mut i: usize = 0;
    while i < parts.len()
        invariant
            i <= parts@.len(),
            parts@.map_values(|p: Vec<char>| p@) == sp,
            sp == split_on(trim_bars(trim(line@)), '|'),
            t@ == trim(line@),
            t@.len() > 0 && t@[0] == '|' && t@.last() == '|',
            forall|j: int| 0 <= j < i ==> separator_cell(#[trigger] sp[j]),
        decreases parts.len() - i,
    {
        proof {
            assert(sp[i as int] == parts@[i as int]@);
        }
        if !is_separator_cell(&parts[i]) {
            proof {
                assert(!separator_cell(sp[i as int]));
            }
            return false;
        }
        i = i + 1;
    }
    true
}

/// A table header: a row at `i` followed by a separator row.
pub open spec fn spec_table_header(ls: Seq<Seq<char>>, i: int) -> bool {
    i + 1 < ls.len() && spec_table_row(ls[i]) && spec_table_separator(ls[i + 1])
}

/// No line of `ls` is a lone `|`.
pub open spec fn no_lone_bar(ls: Seq<Seq<char>>) -> bool {
    forall|i: int| 0 <= i < ls.len() ==> !lone_bar(#[trigger] ls[i])
}

pub fn is_markdown_table_header(lines: &Vec<String>, index: usize) -> (r: bool)
    requires
        index < lines@.len() ==> !lone_bar(lines@[index as int]@),
    ensures
        r == spec_table_header(views(lines@), index as int),
{
    index < lines.len() && index + 1 < lines.len() && is_markdown_table_row(lines[index].as_str())
        && is_markdown_table_separator(lines[index + 1].as_str())
}

/// The cells of a table row: the trimmed line without its outer `|`
/// characters, split at `|`, each cell trimmed.
pub open spec fn spec_table_cells(line: Seq<char>) -> Seq<Seq<char>> {
    split_on(trim_bars(trim(line)), '|').map_values(|p: Seq<char>| trim(p))
}

pub fn parse_markdown_table_row(line: &str) -> (r: Vec<String>)
    ensures
        views(r@) == spec_table_cells(line@),
{
    let t = chars_of(trim_string(line).as_str());
    let inner = trim_bars_vec(&t);
    let parts = split_chars(&inner, '|');
    let ghost sp = split_on(trim_bars(t@), '|');
    let mut out: Vec<String> = Vec::new();
    let mut i: usize = 0;
    while i < parts.len()
        invariant
            i <= parts@.len(),
            parts@.map_values(|p: Vec<char>| p@) == sp,
            views(out@) == sp.take(i as int).map_values(|p: Seq<char>| trim(p)),
        decreases parts.len() - i,
    {
        let cell = trim_string(string_of(parts[i].as_slice()).as_str());
        out.push(cell);
        proof {
            assert(sp[i as int] == parts@[i as int]@);
            assert(sp.take(i + 1).map_values(|p: Seq<char>| trim(p)) =~= sp.take(i as int).map_values(
                |p: Seq<char>| trim(p),
            ).push(trim(sp[i as int])));
            assert(views(out@) =~= views(out@.drop_last()).push(cell@));
        }
        i = i + 1;
    }
    proof {
        assert(sp.take(sp.len() as int) =~= sp);
    }
    out
}

/// The number of consecutive table rows from `i` on.
pub open spec fn row_run(ls: Seq<Seq<char>>, i: int) -> nat
    decreases ls.len() - i,
{
    if 0 <= i < ls.len() && spec_table_row(ls[i]) {
        1 + row_run(ls, i + 1)
    } else {
        0
    }
}

/// The table body rows from `i` on: after each header and its separator,
/// the rows that follow it.
pub open spec fn rows_from(ls: Seq<Seq<char>>, i: int) -> nat
    decreases ls.len() - i,
{
    if i < 0 || i >= ls.len() {
        0
    } else if spec_table_header(ls, i) {
        proof {
            lemma_row_run_bound(ls, i + 2);
        }
        row_run(ls, i + 2) + rows_from(ls, i + 2 + row_run(ls, i + 2))
    } else {
        rows_from(ls, i + 1)
    }
}

pub proof fn lemma_row_run_bound(ls: Seq<Seq<char>>, i: int)
    requires
        0 <= i,
    ensures
        i + row_run(ls, i) <= if i <= ls.len() { ls.len() as int } else { i },
    decreases ls.len() - i,
{
    if 0 <= i < ls.len() && spec_table_row(ls[i]) {
        lemma_row_run_bound(ls, i + 1);
    }
}

pub proof fn lemma_rows_from_le(ls: Seq<Seq<char>>, i: int)
    requires
        0 <= i,
    ensures
        rows_from(ls, i) + i <= if i <= ls.len() { ls.len() as int } else { i },
    decreases ls.len() - i,
{
    if 0 <= i < ls.len() {
        if spec_table_header(ls, i) {
            lemma_row_run_bound(ls, i + 2);
            lemma_rows_from_le(ls, i + 2 + row_run(ls, i + 2));
        } else {
            lemma_rows_from_le(ls, i + 1);
        }
    }
}

/// The number of table body rows in `body`.
pub fn count_markdown_table_rows(body: &str) -> (r: usize)
    requires
        no_lone_bar(lines(body@)),
    ensures
        r == rows_from(lines(body@), 0),
{
    let ls = split_lines(body);
    let ghost l = views(ls@);
    let mut index: usize = 0;
    let mut rows: usize = 0;
    while index < ls.len()
        invariant
            l == views(ls@),
            l == lines(body@),
            no_lone_bar(l),
            index <= l.len(),
            rows <= index,
            rows + rows_from(l, index as int) == rows_from(l, 0),
        decreases ls.len() - index,
    {
        proof {
            assert(l[index as int] == ls@[index as int]@);
        }
        if is_markdown_table_header(&ls, index) {
            index = index + 2;
            let ghost start = index as int;
            let ghost rows0 = rows as int;
            proof {
                lemma_row_run_bound(l, start);
            }
            while index < ls.len() && is_markdown_table_row(ls[index].as_str())
                invariant
                    l == views(ls@),
                    no_lone_bar(l),
                    start <= index <= l.len(),
                    rows <= index,
                    rows == rows0 + (index - start),
                    row_run(l, start) == (index - start) + row_run(l, index as int),
                    rows0 + row_run(l, start) + rows_from(l, start + row_run(l, start)) == rows_from(l, 0),
                decreases ls.len() - index,
            {
                proof {
                    assert(l[index as int] == ls@[index as int]@);
                }
                rows = rows + 1;
                index = index + 1;
            }
            proof {
                if index < ls.len() {
                    assert(l[index as int] == ls@[index as int]@);
                }
            }
        } else {
            index = index + 1;
        }
    }
    rows
}

// ---------------------------------------------------------------------------
// Line shapes
// ---------------------------------------------------------------------------

/// A list item: `- `, `* `, or digits followed by the first `. ` of the line.
pub open spec fn spec_bullet(line: Seq<char>) -> bool {
    ||| starts_with(line, "- "@)
    ||| starts_with(line, "* "@)
    ||| exists|i: int|
        #![trigger occurs_at(line, ". "@, i)]
        0 < i && occurs_at(line, ". "@, i) && (forall|j: int| 0 <= j < i ==> !occurs_at(line, ". "@, j))
            && all_digits(line.take(i))
}

pub fn is_bullet_or_ordered_item(line: &str) -> (r: bool)
    ensures
        r == spec_bullet(line@),
{
    if str_starts_with(line, "- ") || str_starts_with(line, "* ") {
        return true;
    }
    let v = chars_of(line);
    let pat = chars_of(". ");
    match find_from(&v, &pat, 0) {
        Some(i) => {
            if i == 0 {
                proof {
                    assert forall|k: int| 0 < k && occurs_at(line@, ". "@, k) implies exists|j: int|
                        0 <= j < k && occurs_at(line@, ". "@, j) by {
                        assert(occurs_at(line@, ". "@, 0));
                    }
                }
                return false;
            }
            let mut j: usize = 0;
            while j < i
                invariant
                    j <= i <= v@.len(),
                    v@ == line@,
                    !starts_with(line@, "- "@) && !starts_with(line@, "* "@),
                    occurs_at(line@, ". "@, i as int),
                    forall|m: int| 0 <= m < i ==> !occurs_at(line@, ". "@, m),
                    forall|k: int| 0 <= k < j ==> is_digit(#[trigger] v@[k]),
                decreases i - j,
            {
                if !(v[j] >= '0' && v[j] <= '9') {
                    proof {
                        assert(!is_digit(v@.take(i as int)[j as int]));
                        assert forall|k: int| 0 < k && occurs_at(line@, ". "@, k) && (forall|m: int| 0 <= m < k ==> !occurs_at(line@, ". "@, m)) implies !all_digits(line@.take(k)) by {
                            if k != i {
                                if k < i {
                                    assert(!occurs_at(line@, ". "@, k));
                                } else {
                                    assert(occurs_at(line@, ". "@, i as int));
                                }
                            }
                            assert(line@.take(k)[j as int] == v@[j as int]);
                        }
                    }
                    return false;
                }
                j = j + 1;
            }
            proof {
                assert(all_digits(line@.take(i as int)));
            }
            true
        },
        None => false,
    }
}

pub open spec fn has_digit(s: Seq<char>) -> bool {
    exists|i: int| 0 <= i < s.len() && is_digit(#[trigger] s[i])
}

/// A cell that reads as a measurement: a `%`, a digit, or one of the
/// outcome words `pass`, `passed`, `failed`, `complete`, `eliminated`.
pub open spec fn spec_metric(text: Seq<char>) -> bool {
    let t = trim(text);
    t.contains('%') || has_digit(t) || t == "pass"@ || t == "passed"@ || t == "failed"@ || t
        == "complete"@ || t == "eliminated"@
}

pub fn looks_like_metric(text: &str) -> (r: bool)
    ensures
        r == spec_metric(text@),
{
    let t = trim_string(text);
    let v = chars_of(t.as_str());
    if crate::chars::contains_char(&v, '%') {
        return true;
    }
    let mut i: usize = 0;
    while i < v.len()
        invariant
            i <= v@.len(),
            v@ == trim(text@),
            forall|k: int| 0 <= k < i ==> !is_digit(#[trigger] v@[k]),
        decreases v.len() - i,
    {
        if v[i] >= '0' && v[i] <= '9' {
            proof {
                assert(is_digit(v@[i as int]));
            }
            return true;
        }
        i = i + 1;
    }
    let s = t.as_str();
    str_eq(s, "pass") || str_eq(s, "passed") || str_eq(s, "failed") || str_eq(s, "complete")
        || str_eq(s, "eliminated")
}

/// A cell that reads as code: a path, a `::` path, a dotted or snake_case
/// name, or a shell prompt.
pub open spec fn spec_code_token(text: Seq<char>) -> bool {
    let t = trim(text);
    starts_with(t, "/"@) || contains_seq(t, "::"@) || t.contains('.') || t.contains('_')
        || starts_with(t, "$"@)
}

pub fn looks_like_code_token(text: &str) -> (r: bool)
    ensures
        r == spec_code_token(text@),
{
    let t = trim_string(text);
    let v = chars_of(t.as_str());
    str_starts_with(t.as_str(), "/") || str_contains(t.as_str(), "::") || crate::chars::contains_char(&v, '.')
        || crate::chars::contains_char(&v, '_') || str_starts_with(t.as_str(), "$")
}

/// The lines of `text`, or one empty line for the empty text.
pub open spec fn spec_split_or_empty(text: Seq<char>) -> Seq<Seq<char>> {
    if text.len() == 0 {
        seq![Seq::empty()]
    } else {
        lines(text)
    }
}

pub fn split_or_empty(text: &str) -> (r: Vec<String>)
    ensures
        views(r@) == spec_split_or_empty(text@),
{
    if is_empty_str(text) {
        let mut r: Vec<String> = Vec::new();
        r.push(String::new());
        proof {
            assert(views(r@) =~= seq![Seq::<char>::empty()]);
        }
        r
    } else {
        split_lines(text)
    }
}

pub fn is_empty_str(s: &str) -> (r: bool)
    ensures
        r == (s@.len() == 0),
{
    chars_of(s).len() == 0
}

// ---------------------------------------------------------------------------
// Section summaries
// ---------------------------------------------------------------------------

/// The number of lines that are not blank.
pub open spec fn nonblank_count(ls: Seq<Seq<char>>) -> nat
    decreases ls.len(),
{
    if ls.len() == 0 {
        0
    } else {
        nonblank_count(ls.drop_last()) + if trim(ls.last()).len() > 0 {
            1nat
        } else {
            0nat
        }
    }
}

/// The number of non-blank lines that are list items once their leading
/// whitespace is removed.
pub open spec fn bullet_count(ls: Seq<Seq<char>>) -> nat
    decreases ls.len(),
{
    if ls.len() == 0 {
        0
    } else {
        bullet_count(ls.drop_last()) + if trim(ls.last()).len() > 0 && spec_bullet(trim_start(ls.last())) {
            1nat
        } else {
            0nat
        }
    }
}

/// A command line: a shell prompt `$` after leading whitespace, or a
/// backtick anywhere.
pub open spec fn command_line(l: Seq<char>) -> bool {
    starts_with(trim_start(l), "$"@) || l.contains('`')
}

/// The number of non-blank command lines.
pub open spec fn command_count(ls: Seq<Seq<char>>) -> nat
    decreases ls.len(),
{
    if ls.len() == 0 {
        0
    } else {
        command_count(ls.drop_last()) + if trim(ls.last()).len() > 0 && command_line(ls.last()) {
            1nat
        } else {
            0nat
        }
    }
}

/// The badge of a report section: items for lists, rows or checks for
/// verification, commands for usage, lines otherwise; none for a blank
/// body or a section kind that reports do not produce.
pub open spec fn spec_section_summary(kind: ResponseCardSectionKind, body: Seq<char>) -> Option<Seq<char>> {
    let ls = lines(body);
    let n = nonblank_count(ls);
    if n == 0 {
        None
    } else {
        match kind {
            ResponseCardSectionKind::ResultsSummary | ResponseCardSectionKind::ChangesMade
            | ResponseCardSectionKind::KeyPoints | ResponseCardSectionKind::OptionalNextStep => Some(
                if bullet_count(ls) > 0 {
                    dec(bullet_count(ls)) + " items"@
                } else {
                    dec(n) + " lines"@
                },
            ),
            ResponseCardSectionKind::Verification => Some(
                if rows_from(ls, 0) > 0 {
                    dec(rows_from(ls, 0)) + " rows"@
                } else {
                    dec(n) + " checks"@
                },
            ),
            ResponseCardSectionKind::Usage => Some(
                if command_count(ls) > 0 {
                    dec(command_count(ls)) + " commands"@
                } else {
                    dec(n) + " lines"@
                },
            ),
            ResponseCardSectionKind::Custom => Some(dec(n) + " lines"@),
            _ => None,
        }
    }
}

proof fn lemma_counts_bounded(ls: Seq<Seq<char>>)
    ensures
        nonblank_count(ls) <= ls.len(),
        bullet_count(ls) <= nonblank_count(ls),
        command_count(ls) <= nonblank_count(ls),
    decreases ls.len(),
{
    if ls.len() > 0 {
        lemma_counts_bounded(ls.drop_last());
    }
}

fn count_with_unit(n: usize, unit: &str) -> (r: String)
    ensures
        r@ == dec(n as nat) + unit@,
{
    let mut s = dec_usize(n);
    push_str(&mut s, unit);
    s
}

pub fn summarize_report_section(kind: ResponseCardSectionKind, body: &str) -> (r: Option<String>)
    requires
        no_lone_bar(lines(body@)),
    ensures
        opt_view(r) == spec_section_summary(kind, body@),
{
    let ls = split_lines(body);
    let ghost l = views(ls@);
    let mut nonblank: usize = 0;
    let mut bullets: usize = 0;
    let mut commands: usize = 0;
    let mut i: usize = 0;
    while i < ls.len()
        invariant
            i <= ls@.len(),
            l == views(ls@),
            nonblank == nonblank_count(l.take(i as int)),
            bullets == bullet_count(l.take(i as int)),
            commands == command_count(l.take(i as int)),
        decreases ls.len() - i,
    {
        proof {
            assert(l.take(i + 1).drop_last() =~= l.take(i as int));
            assert(l.take(i + 1).last() == ls@[i as int]@);
            lemma_counts_bounded(l.take(i as int));
        }
        let line = ls[i].as_str();
        if !is_blank(line) {
            nonblank = nonblank + 1;
            let lead = trim_start_string(line);
            if is_bullet_or_ordered_item(lead.as_str()) {
                bullets = bullets + 1;
            }
            if str_starts_with(lead.as_str(), "$") || crate::chars::contains_char(&chars_of(line), '`') {
                commands = commands + 1;
            }
        }
        i = i + 1;
    }
    proof {
        assert(l.take(ls@.len() as int) =~= l);
    }
    if nonblank == 0 {
        return None;
    }
    match kind {
        ResponseCardSectionKind::ResultsSummary | ResponseCardSectionKind::ChangesMade
        | ResponseCardSectionKind::KeyPoints | ResponseCardSectionKind::OptionalNextStep => {
            if bullets > 0 {
                Some(count_with_unit(bullets, " items"))
            } else {
                Some(count_with_unit(nonblank, " lines"))
            }
        },
        ResponseCardSectionKind::Verification => {
            let rows = count_markdown_table_rows(body);
            if rows > 0 {
                Some(count_with_unit(rows, " rows"))
            } else {
                Some(count_with_unit(nonblank, " checks"))
            }
        },
        ResponseCardSectionKind::Usage => {
            if commands > 0 {
                Some(count_with_unit(commands, " commands"))
            } else {
                Some(count_with_unit(nonblank, " lines"))
            }
        },
        ResponseCardSectionKind::Custom => Some(count_with_unit(nonblank, " lines")),
        _ => None,
    }
}

/// The first line of `text` that is not blank.
pub open spec fn spec_first_non_empty(ls: Seq<Seq<char>>) -> Option<Seq<char>>
    decreases ls.len(),
{
    if ls.len() == 0 {
        None
    } else if trim(ls[0]).len() > 0 {
        Some(ls[0])
    } else {
        spec_first_non_empty(ls.drop_first())
    }
}

pub fn first_non_empty_line(text: &str) -> (r: Option<String>)
    ensures
        opt_view(r) == spec_first_non_empty(lines(text@)),
{
    let ls = split_lines(text);
    let ghost l = views(ls@);
    let mut i: usize = 0;
    proof {
        assert(l.skip(0) =~= l);
    }
    while i < ls.len()
        invariant
            i <= ls@.len(),
            l == views(ls@),
            l == lines(text@),
            spec_first_non_empty(l) == spec_first_non_empty(l.skip(i as int)),
        decreases ls.len() - i,
    {
        proof {
            assert(l.skip(i as int)[0] == ls@[i as int]@);
            assert(l.skip(i as int).drop_first() =~= l.skip(i + 1));
        }
        if !is_blank(ls[i].as_str()) {
            return Some(ls[i].clone());
        }
        i = i + 1;
    }
    None
}

/// Skill ids joined with `, `, or `none`.
pub fn summarize_skill_ids(skill_ids: &Vec<String>) -> (r: String)
    ensures
        r@ == spec_join_or_none(views(skill_ids@)),
{
    join_or_none(skill_ids)
}

/// Skill ids joined with `, `, or `none`.
pub fn format_skill_ids(skill_ids: &Vec<String>) -> (r: String)
    ensures
        r@ == spec_join_or_none(views(skill_ids@)),
{
    join_or_none(skill_ids)
}

/// `key=value` entries joined with `, `, or `none`.
pub open spec fn spec_counter_map(counters: Seq<(String, u32)>) -> Seq<char> {
    if counters.len() == 0 {
        "none"@
    } else {
        join(counters.map_values(|e: (String, u32)| e.0@ + "="@ + dec(e.1 as nat)), ", "@)
    }
}

pub fn format_counter_map(counters: &Vec<(String, u32)>) -> (r: String)
    ensures
        r@ == spec_counter_map(counters@),
{
    if counters.len() == 0 {
        return "none".to_owned();
    }
    let mut parts: Vec<String> = Vec::new();
    let mut i: usize = 0;
    while i < counters.len()
        invariant
            i <= counters@.len(),
            views(parts@) == counters@.take(i as int).map_values(|e: (String, u32)| e.0@ + "="@ + dec(e.1 as nat)),
        decreases counters.len() - i,
    {
        let mut s = counters[i].0.clone();
        push_str(&mut s, "=");
        push_str(&mut s, dec_string(counters[i].1 as u64).as_str());
        let ghost sv = s@;
        parts.push(s);
        proof {
            let f = |e: (String, u32)| e.0@ + "="@ + dec(e.1 as nat);
            assert(counters@.take(i + 1).map_values(f) =~= counters@.take(i as int).map_values(f).push(f(counters@[i as int])));
            assert(views(parts@) =~= views(parts@.drop_last()).push(sv));
        }
        i = i + 1;
    }
    proof {
        assert(counters@.take(counters@.len() as int) =~= counters@);
    }
    join_strings(&parts, ", ")
}

/// The first `max_chars` characters of `text`, with `...` when it is longer.
pub fn truncate_preview(text: &str, max_chars: usize) -> (r: String)
    ensures
        r@ == preview_of(text@, max_chars as nat),
{
    preview_text(text, max_chars)
}

} // verus!
