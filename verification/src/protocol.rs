//! The read-only diagnostic surface that printers consume, the printer
//! contract itself, and the generic structural dump used for alternate-mode
//! rendering.

use vstd::prelude::*;
use vstd::string::StringExecFns;

verus! {

/// How serious a diagnostic is. A diagnostic that carries no explicit
/// severity is rendered as an error, but compares unequal to `Error`.
#[derive(Clone, Copy, Debug, PartialEq, Eq, Structural)]
pub enum Severity {
    Error,
    Warning,
    Advice,
}

/// One labeled source excerpt attached to a diagnostic. Only the optional
/// label is read when a report is rendered.
#[derive(Clone, Debug)]
pub struct Snippet {
    pub message: Option<String>,
}

/// The read-only view of a diagnostic that a printer renders: an optional
/// severity, a stable code, the main message (the diagnostic's display form),
/// optional help text, and an optional list of snippets.
#[derive(Clone, Debug)]
pub struct Diagnostic {
    pub severity: Option<Severity>,
    pub code: String,
    pub message: String,
    pub help: Option<String>,
    pub snippets: Option<Vec<Snippet>>,
}

/// The error a printer reports when its sink rejects a write. Rendering into
/// a `String` never fails, so the printers of this crate never produce it;
/// it is part of the contract for printers with fallible sinks of their own.
#[derive(Clone, Copy, Debug, PartialEq, Eq, Structural)]
pub struct FormatError;

/// The text of an optional field, as a printer reads it.
pub open spec fn opt_text_view(o: Option<String>) -> Option<Seq<char>> {
    match o {
        Some(s) => Some(s@),
        None => None,
    }
}

/// The word a report uses for a severity; an absent severity reads as an
/// error.
pub open spec fn severity_word(severity: Option<Severity>) -> Seq<char> {
    match severity {
        Some(Severity::Warning) => "warning"@,
        Some(Severity::Advice) => "advice"@,
        _ => "error"@,
    }
}

/// How the structural dump spells an optional piece of text.
pub open spec fn opt_text_dump(o: Option<Seq<char>>) -> Seq<char> {
    match o {
        Some(t) => "Some("@ + t + ")"@,
        None => "None"@,
    }
}

/// How the structural dump spells a severity field.
pub open spec fn severity_dump(severity: Option<Severity>) -> Seq<char> {
    match severity {
        Some(Severity::Error) => "Some(Error)"@,
        Some(Severity::Warning) => "Some(Warning)"@,
        Some(Severity::Advice) => "Some(Advice)"@,
        None => "None"@,
    }
}

/// How the structural dump spells one snippet.
pub open spec fn snippet_dump(snippet: Snippet) -> Seq<char> {
    "Snippet { message: "@ + opt_text_dump(opt_text_view(snippet.message)) + " }"@
}

/// The dumps of a list of snippets, in order.
pub open spec fn snippet_dump_list(snippets: Seq<Snippet>) -> Seq<Seq<char>>
    decreases snippets.len(),
{
    if snippets.len() == 0 {
        Seq::empty()
    } else {
        snippet_dump_list(snippets.drop_last()).push(snippet_dump(snippets.last()))
    }
}

/// A list of texts joined by a separator.
pub open spec fn join_with(xs: Seq<Seq<char>>, sep: Seq<char>) -> Seq<char>
    decreases xs.len(),
{
    if xs.len() == 0 {
        Seq::empty()
    } else if xs.len() == 1 {
        xs[0]
    } else {
        join_with(xs.drop_last(), sep) + sep + xs.last()
    }
}

/// How the structural dump spells the snippet field.
pub open spec fn snippets_dump(snippets: Option<Vec<Snippet>>) -> Seq<char> {
    match snippets {
        Some(v) => "Some(["@ + join_with(snippet_dump_list(v@), ", "@) + "])"@,
        None => "None"@,
    }
}

/// The generic structural dump of a diagnostic's fields: the alternate-mode
/// report, meant for debugging the diagnostic itself rather than presenting
/// it to a user. It is one newline-terminated line.
pub open spec fn structural_dump(d: Diagnostic) -> Seq<char> {
    "Diagnostic { severity: "@ + severity_dump(d.severity) + ", code: "@ + d.code@
        + ", message: "@ + d.message@ + ", help: "@ + opt_text_dump(opt_text_view(d.help))
        + ", snippets: "@ + snippets_dump(d.snippets) + " }\n"@
}

/// The contract every report printer meets: a call only appends to the sink;
/// a successful call appends a newline-terminated report; and in alternate
/// mode the report is exactly the structural dump of the diagnostic, never
/// the printer's own human-oriented rendering.
pub trait DiagnosticReportPrinter {
    fn render(&self, diagnostic: &Diagnostic, out: &mut String, alternate: bool) -> (r: Result<
        (),
        FormatError,
    >)
        ensures
            old(out)@.is_prefix_of(final(out)@),
            r is Ok ==> final(out)@.len() > old(out)@.len() && final(out)@.last() == '\n',
            alternate && r is Ok ==> final(out)@ == old(out)@ + structural_dump(*diagnostic),
    ;
}

/// The word a report uses for a severity; an absent severity reads as an
/// error.
pub fn severity_label(severity: &Option<Severity>) -> (r: &'static str)
    ensures
        r@ == severity_word(*severity),
{
    match severity {
        Some(Severity::Warning) => "warning",
        Some(Severity::Advice) => "advice",
        _ => "error",
    }
}

/// Joining one more text onto a joined list adds a separator exactly when
/// the list was not empty.
pub proof fn lemma_join_push(xs: Seq<Seq<char>>, sep: Seq<char>, x: Seq<char>)
    ensures
        join_with(xs.push(x), sep) == if xs.len() == 0 {
            x
        } else {
            (join_with(xs, sep) + sep + x)
        },
{
    assert(xs.push(x).drop_last() =~= xs);
    assert(xs.push(x).last() == x);
    if xs.len() == 0 {
        assert(join_with(xs.push(x), sep) == xs.push(x)[0]);
    }
}

/// Every snippet contributes one entry to the dump list.
proof fn lemma_snippet_dump_list_len(snippets: Seq<Snippet>)
    ensures
        snippet_dump_list(snippets).len() == snippets.len(),
    decreases snippets.len(),
{
    if snippets.len() > 0 {
        lemma_snippet_dump_list_len(snippets.drop_last());
    }
}

fn push_opt_text(text: &Option<String>, out: &mut String)
    ensures
        final(out)@ == old(out)@ + opt_text_dump(opt_text_view(*text)),
{
    match text {
        Some(t) => {
            out.append("Some(");
            out.append(t.as_str());
            out.append(")");
        },
        None => {
            out.append("None");
        },
    }
}

fn push_snippet_dumps(snippets: &Vec<Snippet>, out: &mut String)
    ensures
        final(out)@ == old(out)@ + join_with(snippet_dump_list(snippets@), ", "@),
{
    let ghost base: Seq<char> = out@;
    let mut i: usize = 0;
    while i < snippets.len()
        invariant
            i <= snippets.len(),
            out@ == base + join_with(snippet_dump_list(snippets@.take(i as int)), ", "@),
        decreases snippets.len() - i,
    {
        let ghost done: Seq<Snippet> = snippets@.take(i as int);
        if i > 0 {
            out.append(", ");
        }
        let s = &snippets[i];
        out.append("Snippet { message: ");
        push_opt_text(&s.message, out);
        out.append(" }");
        proof {
            lemma_snippet_dump_list_len(done);
            assert(snippets@.take(i + 1 as int).drop_last() =~= done);
            assert(snippets@.take(i + 1 as int).last() == snippets@[i as int]);
            lemma_join_push(snippet_dump_list(done), ", "@, snippet_dump(snippets@[i as int]));
            assert(out@ =~= base + join_with(
                snippet_dump_list(snippets@.take(i + 1 as int)),
                ", "@,
            ));
        }
        i += 1;
    }
    proof {
        assert(snippets@.take(snippets.len() as int) =~= snippets@);
    }
}

/// Appends the generic structural dump of `diagnostic` to `out`: the
/// alternate-mode report.
pub fn write_structural_dump(diagnostic: &Diagnostic, out: &mut String)
    ensures
        final(out)@ == old(out)@ + structural_dump(*diagnostic),
{
    let ghost d: Diagnostic = *diagnostic;
    let ghost base: Seq<char> = out@;
    out.append("Diagnostic { severity: ");
    match &diagnostic.severity {
        Some(Severity::Error) => out.append("Some(Error)"),
        Some(Severity::Warning) => out.append("Some(Warning)"),
        Some(Severity::Advice) => out.append("Some(Advice)"),
        None => out.append("None"),
    }
    let ghost part1: Seq<char> = "Diagnostic { severity: "@ + severity_dump(d.severity);
    proof {
        assert(out@ =~= base + part1);
    }
    out.append(", code: ");
    out.append(diagnostic.code.as_str());
    let ghost part2: Seq<char> = part1 + ", code: "@ + d.code@;
    proof {
        assert(out@ =~= base + part2);
    }
    out.append(", message: ");
    out.append(diagnostic.message.as_str());
    let ghost part3: Seq<char> = part2 + ", message: "@ + d.message@;
    proof {
        assert(out@ =~= base + part3);
    }
    out.append(", help: ");
    push_opt_text(&diagnostic.help, out);
    let ghost part4: Seq<char> = part3 + ", help: "@ + opt_text_dump(opt_text_view(d.help));
    proof {
        assert(out@ =~= base + part4);
    }
    out.append(", snippets: ");
    match &diagnostic.snippets {
        Some(v) => {
            out.append("Some([");
            push_snippet_dumps(v, out);
            out.append("])");
            proof {
                assert(out@ =~= base + part4 + ", snippets: "@ + snippets_dump(d.snippets));
            }
        },
        None => {
            out.append("None");
        },
    }
    let ghost part5: Seq<char> = part4 + ", snippets: "@ + snippets_dump(d.snippets);
    proof {
        assert(out@ =~= base + part5);
    }
    out.append(" }\n");
    proof {
        assert(out@ =~= base + structural_dump(d));
    }
}

/// The structural dump is never empty and always ends with a line break.
pub proof fn lemma_dump_terminated(d: Diagnostic)
    ensures
        structural_dump(d).len() > 0,
        structural_dump(d).last() == '\n',
{
    reveal_strlit(" }\n");
    assert(structural_dump(d).last() == " }\n"@[2]);
}

} // verus!
