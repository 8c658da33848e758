//! The default-printer selection heuristic: a pure function of an
//! environment snapshot (the `NO_COLOR` and `CLICOLOR` variables) and the
//! ambient terminal and CI signals.

use vstd::prelude::*;

use crate::printer::GraphicalReportPrinter;
use crate::printer::NarratableReportPrinter;
use crate::printer::Printer;

verus! {

/// Whether fancy (color) mode is on, in precedence order: a set `NO_COLOR`
/// decides alone, and enables color only for the literal value "0"; else a
/// set `CLICOLOR` enables color for any value other than "0"; else color is
/// on exactly when both standard streams are interactive and the process is
/// not in a CI environment.
pub open spec fn fancy_enabled(
    no_color: Option<Seq<char>>,
    clicolor: Option<Seq<char>>,
    out_tty: bool,
    err_tty: bool,
    ci: bool,
) -> bool {
    match no_color {
        Some(v) => v == "0"@,
        None => match clicolor {
            Some(v) => v != "0"@,
            None => out_tty && err_tty && !ci,
        },
    }
}

/// The built-in printer the heuristic instantiates for a fancy-mode choice.
pub open spec fn default_printer_for(fancy: bool) -> Printer {
    if fancy {
        Printer::Graphical(GraphicalReportPrinter)
    } else {
        Printer::Narratable(NarratableReportPrinter)
    }
}

/// What the environment variables alone say of a default printer: it is the
/// heuristic's choice under some value of the ambient terminal and CI
/// signals. When one of the variables decides, this pins the printer.
pub open spec fn default_matches_env(
    p: Printer,
    no_color: Option<Seq<char>>,
    clicolor: Option<Seq<char>>,
) -> bool {
    exists|out_tty: bool, err_tty: bool, ci: bool|
        p == default_printer_for(#[trigger] fancy_enabled(no_color, clicolor, out_tty, err_tty, ci))
}

/// The text of an environment lookup, as the heuristic reads it.
pub open spec fn env_view(o: Option<String>) -> Option<Seq<char>> {
    match o {
        Some(s) => Some(s@),
        None => None,
    }
}

/// Relies on atty::is(atty::Stream::Stdout): whether standard output is an
/// interactive terminal. An ambient signal; nothing is promised of it.
#[verifier::external_body]
fn stdout_is_tty() -> bool {
    atty::is(atty::Stream::Stdout)
}

/// Relies on atty::is(atty::Stream::Stderr): whether standard error is an
/// interactive terminal. An ambient signal; nothing is promised of it.
#[verifier::external_body]
fn stderr_is_tty() -> bool {
    atty::is(atty::Stream::Stderr)
}

/// Relies on ci_info::is_ci: whether a CI environment is detected. An
/// ambient signal; nothing is promised of it.
#[verifier::external_body]
fn detect_ci() -> bool {
    ci_info::is_ci()
}

/// The selection heuristic on an explicit snapshot of its inputs.
pub fn select_fancy(
    no_color: &Option<String>,
    clicolor: &Option<String>,
    out_tty: bool,
    err_tty: bool,
    ci: bool,
) -> (r: bool)
    ensures
        r == fancy_enabled(env_view(*no_color), env_view(*clicolor), out_tty, err_tty, ci),
{
    let zero: String = "0".to_owned();
    match no_color {
        Some(v) => *v == zero,
        None => match clicolor {
            Some(v) => !(*v == zero),
            None => out_tty && err_tty && !ci,
        },
    }
}

/// The default printer for the given environment snapshot: the graphical
/// printer when the heuristic enables fancy mode under the ambient terminal
/// and CI signals read here, the narratable printer otherwise.
pub fn get_default_printer(no_color: &Option<String>, clicolor: &Option<String>) -> (r: Printer)
    ensures
        r is Graphical || r is Narratable,
        default_matches_env(r, env_view(*no_color), env_view(*clicolor)),
{
    let out_tty = stdout_is_tty();
    let err_tty = stderr_is_tty();
    let ci = detect_ci();
    let fancy = select_fancy(no_color, clicolor, out_tty, err_tty, ci);
    let r = if fancy {
        Printer::Graphical(GraphicalReportPrinter::new())
    } else {
        Printer::Narratable(NarratableReportPrinter)
    };
    proof {
        assert(r == default_printer_for(
            fancy_enabled(env_view(*no_color), env_view(*clicolor), out_tty, err_tty, ci),
        ));
    }
    r
}

/// `NO_COLOR=0` enables fancy mode whatever `CLICOLOR` and the ambient
/// signals hold.
pub proof fn lemma_no_color_zero_wins(
    clicolor: Option<Seq<char>>,
    out_tty: bool,
    err_tty: bool,
    ci: bool,
)
    ensures
        fancy_enabled(Some("0"@), clicolor, out_tty, err_tty, ci),
{
}

/// `NO_COLOR` set to anything other than "0" disables fancy mode, whatever
/// `CLICOLOR` and the ambient signals hold.
pub proof fn lemma_no_color_other_disables(
    v: Seq<char>,
    clicolor: Option<Seq<char>>,
    out_tty: bool,
    err_tty: bool,
    ci: bool,
)
    requires
        v != "0"@,
    ensures
        !fancy_enabled(Some(v), clicolor, out_tty, err_tty, ci),
{
}

/// With `NO_COLOR` unset, `CLICOLOR=0` disables fancy mode whatever the
/// ambient signals hold.
pub proof fn lemma_clicolor_zero_disables(out_tty: bool, err_tty: bool, ci: bool)
    ensures
        !fancy_enabled(None, Some("0"@), out_tty, err_tty, ci),
{
}

/// With neither variable set, fancy mode equals: both standard streams are
/// interactive and the process is not in CI.
pub proof fn lemma_ambient_decides(out_tty: bool, err_tty: bool, ci: bool)
    ensures
        fancy_enabled(None, None, out_tty, err_tty, ci) == (out_tty && err_tty && !ci),
{
}

} // verus!
