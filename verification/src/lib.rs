//! A pluggable diagnostic-report printer: a printer contract, an
//! environment-driven default selection between a graphical and a narratable
//! renderer, and a process-wide set-once registry for the active printer.

pub mod printer;
pub mod protocol;
pub mod registry;
pub mod select;

pub use printer::GraphicalReportPrinter;
pub use printer::JokePrinter;
pub use printer::NarratableReportPrinter;
pub use printer::Printer;
pub use protocol::Diagnostic;
pub use protocol::DiagnosticReportPrinter;
pub use protocol::FormatError;
pub use protocol::Severity;
pub use protocol::Snippet;
pub use protocol::severity_label;
pub use protocol::write_structural_dump;
pub use registry::Registry;
pub use registry::RegistryError;
pub use registry::get_printer;
pub use registry::set_printer;
pub use select::get_default_printer;
pub use select::select_fancy;
