//! The set-once printer registry: a write-once, read-many slot that holds
//! the active printer, populated either by one explicit override or by the
//! lazy default the selection heuristic chooses.

use vstd::prelude::*;

use crate::printer::Printer;
use crate::select::default_matches_env;
use crate::select::env_view;
use crate::select::get_default_printer;

verus! {

/// The error `set_printer` reports when a printer, explicit or lazily
/// defaulted, already occupies the slot. The configuration is then fixed for
/// the life of the registry, and the rejected printer is discarded.
#[derive(Clone, Copy, Debug, PartialEq, Eq, Structural)]
pub enum RegistryError {
    AlreadySet,
}

#[verifier::external_type_specification]
#[verifier::external_body]
#[verifier::reject_recursive_types(T)]
pub struct ExOnceCell<T>(once_cell::sync::OnceCell<T>);

/// What the registry's cell holds: nothing while it is empty, and the one
/// printer that populated it afterwards.
pub uninterp spec fn cell_contents(c: once_cell::sync::OnceCell<Printer>) -> Option<Printer>;

/// Relies on once_cell::sync::OnceCell::new: a fresh cell is empty.
#[verifier::external_body]
fn cell_new() -> (c: once_cell::sync::OnceCell<Printer>)
    ensures
        cell_contents(c) is None,
{
    once_cell::sync::OnceCell::new()
}

/// Relies on once_cell::sync::OnceCell::set: it stores the value and returns
/// Ok exactly when the cell is empty; a full cell keeps its value and hands
/// the rejected one back in Err.
#[verifier::external_body]
fn cell_set(c: &mut once_cell::sync::OnceCell<Printer>, p: Printer) -> (r: Result<(), Printer>)
    ensures
        r is Ok <==> cell_contents(*old(c)) is None,
        r matches Err(q) ==> q == p,
        cell_contents(*old(c)) is None ==> cell_contents(*final(c)) == Some(p),
        cell_contents(*old(c)) is Some ==> cell_contents(*final(c)) == cell_contents(*old(c)),
{
    c.set(p)
}

/// Relies on once_cell::sync::OnceCell::get: it returns the stored value
/// when the cell is full and nothing when it is empty.
#[verifier::external_body]
fn cell_get(c: &once_cell::sync::OnceCell<Printer>) -> (r: Option<Printer>)
    ensures
        r == cell_contents(*c),
{
    c.get().copied()
}

/// Relies on once_cell::sync::OnceCell::get_or_init: it returns the stored
/// value of a full cell unchanged, and stores and returns the given value
/// when the cell is empty.
#[verifier::external_body]
fn cell_get_or_init(c: &mut once_cell::sync::OnceCell<Printer>, p: Printer) -> (r: Printer)
    ensures
        cell_contents(*final(c)) == Some(r),
        cell_contents(*old(c)) is Some ==> cell_contents(*old(c)) == Some(r),
        cell_contents(*old(c)) is None ==> r == p,
{
    *c.get_or_init(move || p)
}

/// The process-wide holder of the active printer: a single write-once slot,
/// created empty, populated at most once — by an explicit `set_printer` or
/// by lazy default construction — and never emptied again.
pub struct Registry {
    cell: once_cell::sync::OnceCell<Printer>,
}

impl View for Registry {
    type V = Option<Printer>;

    closed spec fn view(&self) -> Option<Printer> {
        cell_contents(self.cell)
    }
}

impl Registry {
    /// A fresh, empty registry.
    pub fn new() -> (r: Registry)
        ensures
            r@ is None,
    {
        Registry { cell: cell_new() }
    }
}

/// The slot after a set: the given printer if the slot was empty, the old
/// occupant otherwise.
pub open spec fn registry_after_set(s: Option<Printer>, p: Printer) -> Option<Printer> {
    if s is None {
        Some(p)
    } else {
        s
    }
}

/// Whether a set on a slot in this state is rejected.
pub open spec fn set_rejected(s: Option<Printer>) -> bool {
    s is Some
}

/// The slot after a get that would lazily default to `d`: populated either
/// way, and unchanged if it already was.
pub open spec fn registry_after_get(s: Option<Printer>, d: Printer) -> Option<Printer> {
    if s is None {
        Some(d)
    } else {
        s
    }
}

/// The printer a get observes: the occupant, or the lazy default `d` it
/// installs in an empty slot.
pub open spec fn observed_printer(s: Option<Printer>, d: Printer) -> Printer {
    match s {
        Some(p) => p,
        None => d,
    }
}

/// Makes `printer` the permanent active printer of `registry` if no printer,
/// explicit or lazily defaulted, has been established yet; otherwise reports
/// `AlreadySet`, leaves the occupant in place and discards `printer`.
pub fn set_printer(registry: &mut Registry, printer: Printer) -> (r: Result<(), RegistryError>)
    ensures
        final(registry)@ == registry_after_set(old(registry)@, printer),
        r is Err <==> set_rejected(old(registry)@),
        r matches Err(e) ==> e == RegistryError::AlreadySet,
        old(registry)@ is None ==> final(registry)@ == Some(printer),
{
    match cell_set(&mut registry.cell, printer) {
        Ok(_) => Ok(()),
        Err(_) => Err(RegistryError::AlreadySet),
    }
}

/// Returns the active printer of `registry`. An empty slot is first
/// populated with the default the selection heuristic chooses from the given
/// environment snapshot and the ambient terminal and CI signals, read here
/// and only here; a populated slot is returned as it is, the environment
/// unread. This call never fails.
pub fn get_printer(
    registry: &mut Registry,
    no_color: &Option<String>,
    clicolor: &Option<String>,
) -> (r: Printer)
    ensures
        final(registry)@ == Some(r),
        old(registry)@ matches Some(p) ==> r == p && final(registry)@ == old(registry)@,
        old(registry)@ is None ==> default_matches_env(r, env_view(*no_color), env_view(*clicolor))
            && (r is Graphical || r is Narratable),
{
    match cell_get(&registry.cell) {
        Some(p) => p,
        None => {
            let d = get_default_printer(no_color, clicolor);
            cell_get_or_init(&mut registry.cell, d)
        },
    }
}

/// Once any set has run, the slot is populated, every further set is
/// rejected and changes nothing, and a first set on an empty slot installs
/// exactly its own printer.
pub proof fn lemma_second_set_rejected(s0: Option<Printer>, p1: Printer, p2: Printer)
    ensures
        registry_after_set(s0, p1) is Some,
        set_rejected(registry_after_set(s0, p1)),
        registry_after_set(registry_after_set(s0, p1), p2) == registry_after_set(s0, p1),
        s0 is None ==> registry_after_set(s0, p1) == Some(p1),
{
}

/// After a get has populated the slot, lazily or not, a set is rejected and
/// changes nothing.
pub proof fn lemma_set_after_get_rejected(s0: Option<Printer>, d: Printer, p: Printer)
    ensures
        set_rejected(registry_after_get(s0, d)),
        registry_after_set(registry_after_get(s0, d), p) == registry_after_get(s0, d),
{
}

/// Every get leaves the slot populated, and later gets observe the printer
/// the first one did and change nothing: one printer identity per registry.
pub proof fn lemma_get_stable(s0: Option<Printer>, d1: Printer, d2: Printer)
    ensures
        registry_after_get(s0, d1) is Some,
        registry_after_get(registry_after_get(s0, d1), d2) == registry_after_get(s0, d1),
        observed_printer(registry_after_get(s0, d1), d2) == observed_printer(s0, d1),
{
}

} // verus!
