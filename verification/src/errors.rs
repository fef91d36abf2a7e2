use vstd::prelude::*;
use vstd::string::StringExecFns;

verus! {

/// Everything the initialization and shutdown paths can report.
#[derive(Debug)]
pub enum ObservlibError {
    /// The trace backend alone failed to shut down.
    TracerShutdown(String),
    /// The metric backend alone failed to shut down.
    MeterShutdown(String),
    /// The log backend alone failed to shut down.
    LoggerShutdown(String),
    /// One or more backends failed during a coordinated shutdown; the message
    /// lists every failed backend with its reason, newline-joined, in the
    /// fixed attempt order.
    MultipleShutdownFailures(String),
    /// The deadline fired before the coordinated shutdown finished; the
    /// backends' outcome was not yet known, so no detail is carried.
    ShutdownTimeout,
    /// The worker context failed to run the coordinated shutdown to
    /// completion at all.
    TaskJoin(String),
    /// A backend's exporter could not be constructed at startup.
    ExporterConstruction(String),
}

/// The human-readable message of each error.
pub open spec fn spec_describe(e: ObservlibError) -> Seq<char> {
    match e {
        ObservlibError::TracerShutdown(s) => "Failed to shutdown tracer provider: "@ + s@,
        ObservlibError::MeterShutdown(s) => "Failed to shutdown meter provider: "@ + s@,
        ObservlibError::LoggerShutdown(s) => "Failed to shutdown logger provider: "@ + s@,
        ObservlibError::MultipleShutdownFailures(s) => "Multiple shutdown failures: "@ + s@,
        ObservlibError::ShutdownTimeout => "Shutdown timeout exceeded"@,
        ObservlibError::TaskJoin(s) => "Task join error: "@ + s@,
        ObservlibError::ExporterConstruction(s) => "Failed to create exporter: "@ + s@,
    }
}

impl ObservlibError {
    /// Renders the error as its human-readable message.
    pub fn describe(&self) -> (r: String)
        ensures
            r@ == spec_describe(*self),
    {
        match self {
            ObservlibError::TracerShutdown(s) => {
                let mut r = "Failed to shutdown tracer provider: ".to_owned();
                r.append(s.as_str());
                r
            },
            ObservlibError::MeterShutdown(s) => {
                let mut r = "Failed to shutdown meter provider: ".to_owned();
                r.append(s.as_str());
                r
            },
            ObservlibError::LoggerShutdown(s) => {
                let mut r = "Failed to shutdown logger provider: ".to_owned();
                r.append(s.as_str());
                r
            },
            ObservlibError::MultipleShutdownFailures(s) => {
                let mut r = "Multiple shutdown failures: ".to_owned();
                r.append(s.as_str());
                r
            },
            ObservlibError::ShutdownTimeout => "Shutdown timeout exceeded".to_owned(),
            ObservlibError::TaskJoin(s) => {
                let mut r = "Task join error: ".to_owned();
                r.append(s.as_str());
                r
            },
            ObservlibError::ExporterConstruction(s) => {
                let mut r = "Failed to create exporter: ".to_owned();
                r.append(s.as_str());
                r
            },
        }
    }
}

} // verus!
