//! The built-in report printers: the graphical and narratable defaults the
//! selection heuristic chooses between, and the deliberately informal
//! `JokePrinter` that demonstrates the full printer contract.

use vstd::prelude::*;
use vstd::string::StringExecFns;

use crate::protocol::Diagnostic;
use crate::protocol::DiagnosticReportPrinter;
use crate::protocol::FormatError;
use crate::protocol::Snippet;
use crate::protocol::join_with;
use crate::protocol::lemma_dump_terminated;
use crate::protocol::lemma_join_push;
use crate::protocol::opt_text_view;
use crate::protocol::severity_label;
use crate::protocol::severity_word;
use crate::protocol::structural_dump;
use crate::protocol::write_structural_dump;

verus! {

/// The labels of the snippets that carry one, in order.
pub open spec fn present_messages(snippets: Seq<Snippet>) -> Seq<Seq<char>>
    decreases snippets.len(),
{
    if snippets.len() == 0 {
        Seq::empty()
    } else {
        let rest = present_messages(snippets.drop_last());
        match snippets.last().message {
            Some(m) => rest.push(m@),
            None => rest,
        }
    }
}

/// The snippet portion of a joke report: the comma-joined labels, or a fixed
/// fallback when the diagnostic has no snippets or none of them carries a
/// label.
pub open spec fn snippet_text(snippets: Option<Vec<Snippet>>) -> Seq<char> {
    match snippets {
        Some(v) => if present_messages(v@).len() == 0 {
            "try and cause miette to panic"@
        } else {
            join_with(present_messages(v@), ", "@)
        },
        None => "try and cause miette to panic"@,
    }
}

/// The help portion of a joke report: the diagnostic's help text, or a fixed
/// fallback when it has none.
pub open spec fn help_text(help: Option<Seq<char>>) -> Seq<char> {
    match help {
        Some(h) => h,
        None => "have you tried not failing?"@,
    }
}

/// The first line of a joke report: the severity word, the diagnostic's
/// display form, and the help portion.
pub open spec fn joke_line1(d: Diagnostic) -> Seq<char> {
    "me, with "@ + severity_word(d.severity) + " "@ + d.message@ + ": "@ + help_text(
        opt_text_view(d.help),
    ) + "\n"@
}

/// The second line of a joke report: it ends with the diagnostic's code,
/// followed by the snippet portion.
pub open spec fn joke_line2(d: Diagnostic) -> Seq<char> {
    "miette, her eyes enormous: oh! oh! jail for mother for One Thousand Years!!!! "@ + d.code@
        + ": "@ + snippet_text(d.snippets) + "\n"@
}

/// The whole human-oriented report of the joke printer.
pub open spec fn joke_report(d: Diagnostic) -> Seq<char> {
    joke_line1(d) + joke_line2(d)
}

/// Literally what it says on the tin.
#[derive(Clone, Copy, Debug, PartialEq, Eq, Structural)]
pub struct JokePrinter;

/// The one-line report of the graphical stand-in.
pub open spec fn graphical_report(d: Diagnostic) -> Seq<char> {
    "["@ + d.code@ + "] "@ + severity_word(d.severity) + ": "@ + d.message@ + "\n"@
}

/// Chosen when color and interactivity are available. The full color and
/// box-drawing renderer is an outside collaborator; this stand-in writes a
/// single bracketed summary line that meets the printer contract.
#[derive(Clone, Copy, Debug, PartialEq, Eq, Structural)]
pub struct GraphicalReportPrinter;

impl GraphicalReportPrinter {
    pub fn new() -> GraphicalReportPrinter {
        GraphicalReportPrinter
    }
}

/// The one-line report of the narratable stand-in.
pub open spec fn narratable_report(d: Diagnostic) -> Seq<char> {
    severity_word(d.severity) + ": "@ + d.message@ + "\n"@
}

/// Chosen when color is off or the output is not interactive. The full
/// plain-prose renderer is an outside collaborator; this stand-in writes a
/// single unstyled line that meets the printer contract.
#[derive(Clone, Copy, Debug, PartialEq, Eq, Structural)]
pub struct NarratableReportPrinter;

/// Appends the snippet portion of a joke report.
fn push_snippet_text(snippets: &Vec<Snippet>, out: &mut String)
    ensures
        final(out)@ == old(out)@ + snippet_text(Some(*snippets)),
{
    let mut joined: String = String::new();
    let mut found = false;
    let mut i: usize = 0;
    while i < snippets.len()
        invariant
            i <= snippets.len(),
            found <==> present_messages(snippets@.take(i as int)).len() > 0,
            joined@ == join_with(present_messages(snippets@.take(i as int)), ", "@),
        decreases snippets.len() - i,
    {
        let ghost done: Seq<Snippet> = snippets@.take(i as int);
        proof {
            assert(snippets@.take(i + 1 as int).drop_last() =~= done);
            assert(snippets@.take(i + 1 as int).last() == snippets@[i as int]);
        }
        match &snippets[i].message {
            Some(m) => {
                if found {
                    joined.append(", ");
                }
                joined.append(m.as_str());
                proof {
                    lemma_join_push(present_messages(done), ", "@, m@);
                }
                found = true;
            },
            None => {},
        }
        i += 1;
    }
    proof {
        assert(snippets@.take(snippets.len() as int) =~= snippets@);
    }
    if found {
        out.append(joined.as_str());
    } else {
        out.append("try and cause miette to panic");
    }
}

impl DiagnosticReportPrinter for JokePrinter {
    /// The informal two-line report: rendering never fails, and in normal
    /// mode the appended text is exactly `joke_report`.
    fn render(&self, diagnostic: &Diagnostic, out: &mut String, alternate: bool) -> (r: Result<
        (),
        FormatError,
    >)
        ensures
            r is Ok,
            !alternate ==> final(out)@ == old(out)@ + joke_report(*diagnostic),
    {
        if alternate {
            write_structural_dump(diagnostic, out);
            proof {
                lemma_dump_terminated(*diagnostic);
                assert(old(out)@.is_prefix_of(out@));
            }
            return Ok(());
        }
        let ghost d: Diagnostic = *diagnostic;
        let ghost base: Seq<char> = out@;
        out.append("me, with ");
        out.append(severity_label(&diagnostic.severity));
        out.append(" ");
        out.append(diagnostic.message.as_str());
        out.append(": ");
        match &diagnostic.help {
            Some(h) => out.append(h.as_str()),
            None => out.append("have you tried not failing?"),
        }
        out.append("\n");
        proof {
            assert(out@ =~= base + joke_line1(d));
        }
        out.append("miette, her eyes enormous: oh! oh! jail for mother for One Thousand Years!!!! ");
        out.append(diagnostic.code.as_str());
        out.append(": ");
        match &diagnostic.snippets {
            Some(v) => push_snippet_text(v, out),
            None => out.append("try and cause miette to panic"),
        }
        out.append("\n");
        proof {
            assert(out@ =~= base + joke_report(d));
            reveal_strlit("\n");
            assert(out@.last() == '\n');
            assert(base.is_prefix_of(out@));
        }
        Ok(())
    }
}

impl DiagnosticReportPrinter for GraphicalReportPrinter {
    /// The stand-in graphical report: rendering never fails, and in normal
    /// mode the appended text is exactly `graphical_report`.
    fn render(&self, diagnostic: &Diagnostic, out: &mut String, alternate: bool) -> (r: Result<
        (),
        FormatError,
    >)
        ensures
            r is Ok,
            !alternate ==> final(out)@ == old(out)@ + graphical_report(*diagnostic),
    {
        if alternate {
            write_structural_dump(diagnostic, out);
            proof {
                lemma_dump_terminated(*diagnostic);
                assert(old(out)@.is_prefix_of(out@));
            }
            return Ok(());
        }
        let ghost base: Seq<char> = out@;
        out.append("[");
        out.append(diagnostic.code.as_str());
        out.append("] ");
        out.append(severity_label(&diagnostic.severity));
        out.append(": ");
        out.append(diagnostic.message.as_str());
        out.append("\n");
        proof {
            assert(out@ =~= base + graphical_report(*diagnostic));
            reveal_strlit("\n");
            assert(out@.last() == '\n');
            assert(base.is_prefix_of(out@));
        }
        Ok(())
    }
}

impl DiagnosticReportPrinter for NarratableReportPrinter {
    /// The stand-in narratable report: rendering never fails, and in normal
    /// mode the appended text is exactly `narratable_report`.
    fn render(&self, diagnostic: &Diagnostic, out: &mut String, alternate: bool) -> (r: Result<
        (),
        FormatError,
    >)
        ensures
            r is Ok,
            !alternate ==> final(out)@ == old(out)@ + narratable_report(*diagnostic),
    {
        if alternate {
            write_structural_dump(diagnostic, out);
            proof {
                lemma_dump_terminated(*diagnostic);
                assert(old(out)@.is_prefix_of(out@));
            }
            return Ok(());
        }
        let ghost base: Seq<char> = out@;
        out.append(severity_label(&diagnostic.severity));
        out.append(": ");
        out.append(diagnostic.message.as_str());
        out.append("\n");
        proof {
            assert(out@ =~= base + narratable_report(*diagnostic));
            reveal_strlit("\n");
            assert(out@.last() == '\n');
            assert(base.is_prefix_of(out@));
        }
        Ok(())
    }
}

/// The active printer a registry can hold: one of the built-in renderers.
#[derive(Clone, Copy, Debug, PartialEq, Eq, Structural)]
pub enum Printer {
    Graphical(GraphicalReportPrinter),
    Narratable(NarratableReportPrinter),
    Joke(JokePrinter),
}

/// The report a printer appends in normal mode.
pub open spec fn normal_report(p: Printer, d: Diagnostic) -> Seq<char> {
    match p {
        Printer::Graphical(_) => graphical_report(d),
        Printer::Narratable(_) => narratable_report(d),
        Printer::Joke(_) => joke_report(d),
    }
}

/// An alternate-mode report is never a human-oriented one: whatever the
/// diagnostic, the structural dump differs from every built-in printer's
/// normal report, already in its first character.
pub proof fn lemma_alternate_differs(p: Printer, d: Diagnostic)
    ensures
        normal_report(p, d) != structural_dump(d),
{
    reveal_strlit("Diagnostic { severity: ");
    reveal_strlit("me, with ");
    reveal_strlit("[");
    reveal_strlit("warning");
    reveal_strlit("advice");
    reveal_strlit("error");
    assert(structural_dump(d)[0] == 'D');
    match p {
        Printer::Graphical(_) => {
            assert(normal_report(p, d)[0] == '[');
        },
        Printer::Narratable(_) => {
            assert(normal_report(p, d)[0] != 'D');
        },
        Printer::Joke(_) => {
            assert(normal_report(p, d)[0] == 'm');
        },
    }
}

impl DiagnosticReportPrinter for Printer {
    /// Dispatches to the held printer: rendering never fails, and in normal
    /// mode the appended text is exactly that printer's `normal_report`.
    fn render(&self, diagnostic: &Diagnostic, out: &mut String, alternate: bool) -> (r: Result<
        (),
        FormatError,
    >)
        ensures
            r is Ok,
            !alternate ==> final(out)@ == old(out)@ + normal_report(*self, *diagnostic),
    {
        match self {
            Printer::Graphical(p) => p.render(diagnostic, out, alternate),
            Printer::Narratable(p) => p.render(diagnostic, out, alternate),
            Printer::Joke(p) => p.render(diagnostic, out, alternate),
        }
    }
}

} // verus!
