use miette_printer::JokePrinter;
use miette_printer::NarratableReportPrinter;
use miette_printer::Printer;
use miette_printer::Registry;
use miette_printer::RegistryError;
use miette_printer::get_printer;
use miette_printer::set_printer;

fn s(text: &str) -> Option<String> {
    Some(String::from(text))
}

#[test]
fn first_set_succeeds() {
    let mut reg = Registry::new();
    let r = set_printer(&mut reg, Printer::Joke(JokePrinter));
    assert!(matches!(r, Ok(())));
}

#[test]
fn second_set_yields_already_set_and_first_printer_stays() {
    let mut reg = Registry::new();
    assert!(matches!(set_printer(&mut reg, Printer::Joke(JokePrinter)), Ok(())));
    let second = set_printer(&mut reg, Printer::Narratable(NarratableReportPrinter));
    assert!(matches!(second, Err(RegistryError::AlreadySet)));
    let third = set_printer(&mut reg, Printer::Joke(JokePrinter));
    assert!(matches!(third, Err(RegistryError::AlreadySet)));
    let active = get_printer(&mut reg, &None, &None);
    assert_eq!(active, Printer::Joke(JokePrinter));
}

#[test]
fn set_after_lazy_default_yields_already_set() {
    let mut reg = Registry::new();
    let defaulted = get_printer(&mut reg, &s("1"), &None);
    assert!(matches!(defaulted, Printer::Narratable(_)));
    let r = set_printer(&mut reg, Printer::Joke(JokePrinter));
    assert!(matches!(r, Err(RegistryError::AlreadySet)));
}

#[test]
fn every_get_observes_the_same_printer() {
    let mut reg = Registry::new();
    let first = get_printer(&mut reg, &s("0"), &None);
    assert!(matches!(first, Printer::Graphical(_)));
    // A later environment change is not re-evaluated.
    let second = get_printer(&mut reg, &s("1"), &None);
    let third = get_printer(&mut reg, &None, &s("0"));
    assert_eq!(first, second);
    assert_eq!(first, third);
}

#[test]
fn get_returns_the_explicitly_set_printer() {
    let mut reg = Registry::new();
    assert!(matches!(set_printer(&mut reg, Printer::Joke(JokePrinter)), Ok(())));
    let active = get_printer(&mut reg, &s("0"), &None);
    assert_eq!(active, Printer::Joke(JokePrinter));
}

#[test]
fn lazy_default_follows_the_environment_snapshot() {
    let mut reg = Registry::new();
    assert!(matches!(get_printer(&mut reg, &None, &s("0")), Printer::Narratable(_)));
    let mut reg2 = Registry::new();
    assert!(matches!(get_printer(&mut reg2, &None, &s("1")), Printer::Graphical(_)));
}
