use miette_printer::Diagnostic;
use miette_printer::DiagnosticReportPrinter;
use miette_printer::GraphicalReportPrinter;
use miette_printer::JokePrinter;
use miette_printer::NarratableReportPrinter;
use miette_printer::Severity;
use miette_printer::Snippet;
use miette_printer::severity_label;
use miette_printer::write_structural_dump;

fn snippet(message: Option<&str>) -> Snippet {
    Snippet { message: message.map(String::from) }
}

fn warning_with_snippet() -> Diagnostic {
    Diagnostic {
        severity: Some(Severity::Warning),
        code: String::from("E100"),
        message: String::from("oops"),
        help: None,
        snippets: Some(vec![snippet(Some("bad token"))]),
    }
}

#[test]
fn severity_labels() {
    assert_eq!(severity_label(&Some(Severity::Error)), "error");
    assert_eq!(severity_label(&Some(Severity::Warning)), "warning");
    assert_eq!(severity_label(&Some(Severity::Advice)), "advice");
    assert_eq!(severity_label(&None), "error");
}

#[test]
fn joke_warning_with_snippet() {
    let d = warning_with_snippet();
    let mut out = String::new();
    let r = JokePrinter.render(&d, &mut out, false);
    assert!(matches!(r, Ok(())));
    let mut lines = out.lines();
    let line1 = lines.next().unwrap();
    let line2 = lines.next().unwrap();
    assert!(lines.next().is_none());
    assert!(line1.contains(" warning "));
    assert!(line1.ends_with(": have you tried not failing?"));
    assert!(line2.ends_with("E100: bad token"));
    assert_eq!(
        out,
        "me, with warning oops: have you tried not failing?\n\
         miette, her eyes enormous: oh! oh! jail for mother for One Thousand Years!!!! E100: bad token\n"
    );
}

#[test]
fn joke_absent_severity_and_no_snippets() {
    let d = Diagnostic {
        severity: None,
        code: String::from("E200"),
        message: String::from("boom"),
        help: Some(String::from("fix it")),
        snippets: None,
    };
    let mut out = String::new();
    assert!(matches!(JokePrinter.render(&d, &mut out, false), Ok(())));
    assert!(out.starts_with("me, with error boom: fix it\n"));
    assert!(out.ends_with("E200: try and cause miette to panic\n"));
}

#[test]
fn joke_joins_present_snippet_messages() {
    let d = Diagnostic {
        severity: Some(Severity::Advice),
        code: String::from("E300"),
        message: String::from("hm"),
        help: None,
        snippets: Some(vec![
            snippet(Some("first")),
            snippet(None),
            snippet(Some("second")),
        ]),
    };
    let mut out = String::new();
    assert!(matches!(JokePrinter.render(&d, &mut out, false), Ok(())));
    assert!(out.ends_with("E300: first, second\n"));
}

#[test]
fn joke_falls_back_when_no_snippet_carries_a_message() {
    let d = Diagnostic {
        severity: Some(Severity::Error),
        code: String::from("E400"),
        message: String::from("bad"),
        help: None,
        snippets: Some(vec![snippet(None), snippet(None)]),
    };
    let mut out = String::new();
    assert!(matches!(JokePrinter.render(&d, &mut out, false), Ok(())));
    assert!(out.ends_with("E400: try and cause miette to panic\n"));

    let empty = Diagnostic { snippets: Some(vec![]), ..d };
    let mut out2 = String::new();
    assert!(matches!(JokePrinter.render(&empty, &mut out2, false), Ok(())));
    assert!(out2.ends_with("E400: try and cause miette to panic\n"));
}

#[test]
fn structural_dump_spells_every_field() {
    let d = warning_with_snippet();
    let mut out = String::new();
    write_structural_dump(&d, &mut out);
    assert_eq!(
        out,
        "Diagnostic { severity: Some(Warning), code: E100, message: oops, help: None, \
         snippets: Some([Snippet { message: Some(bad token) }]) }\n"
    );
}

#[test]
fn alternate_mode_is_the_structural_dump_for_every_printer() {
    let d = warning_with_snippet();
    let mut expected = String::new();
    write_structural_dump(&d, &mut expected);

    let mut joke = String::new();
    assert!(matches!(JokePrinter.render(&d, &mut joke, true), Ok(())));
    assert_eq!(joke, expected);

    let mut graphical = String::new();
    assert!(matches!(GraphicalReportPrinter::new().render(&d, &mut graphical, true), Ok(())));
    assert_eq!(graphical, expected);

    let mut narratable = String::new();
    assert!(matches!(NarratableReportPrinter.render(&d, &mut narratable, true), Ok(())));
    assert_eq!(narratable, expected);

    // The normal human-oriented path writes something else entirely.
    let mut normal = String::new();
    assert!(matches!(JokePrinter.render(&d, &mut normal, false), Ok(())));
    assert_ne!(normal, expected);
}

#[test]
fn graphical_and_narratable_normal_reports() {
    let d = warning_with_snippet();
    let mut g = String::new();
    assert!(matches!(GraphicalReportPrinter::new().render(&d, &mut g, false), Ok(())));
    assert_eq!(g, "[E100] warning: oops\n");

    let mut n = String::new();
    assert!(matches!(NarratableReportPrinter.render(&d, &mut n, false), Ok(())));
    assert_eq!(n, "warning: oops\n");
}

#[test]
fn printer_enum_dispatches_to_the_held_printer() {
    let d = warning_with_snippet();
    let mut via_enum = String::new();
    let p = miette_printer::Printer::Narratable(NarratableReportPrinter);
    assert!(matches!(p.render(&d, &mut via_enum, false), Ok(())));
    assert_eq!(via_enum, "warning: oops\n");
}

#[test]
fn render_appends_after_existing_text() {
    let d = warning_with_snippet();
    let mut out = String::from("prefix|");
    assert!(matches!(NarratableReportPrinter.render(&d, &mut out, false), Ok(())));
    assert_eq!(out, "prefix|warning: oops\n");
}
