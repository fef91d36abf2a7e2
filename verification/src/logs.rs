use vstd::prelude::*;
use crate::errors::ObservlibError;
use opentelemetry_otlp::LogExporter;
use opentelemetry_otlp::Protocol;
use opentelemetry_otlp::WithExportConfig;
use opentelemetry_sdk::Resource;
use opentelemetry_sdk::logs::SdkLoggerProvider;

verus! {

#[verifier::external_type_specification]
#[verifier::external_body]
pub struct ExSdkLoggerProvider(SdkLoggerProvider);

/// Relies on SdkLoggerProvider::clone: the copy shares the same live log
/// pipeline, so shutting down either handle shuts down both.
pub assume_specification[ <SdkLoggerProvider as Clone>::clone ](
    provider: &SdkLoggerProvider,
) -> SdkLoggerProvider;

/// Relies on opentelemetry_otlp::LogExporter's builder and
/// opentelemetry_sdk::logs::SdkLoggerProvider's builder: an OTLP HTTP
/// binary-encoded log exporter sending to `url`, wrapped in a batching
/// provider tagged with `resource`; the builder's error is handed back as
/// its message.
#[verifier::external_body]
fn build_logger_provider(resource: Resource, url: &str) -> (r: Result<
    SdkLoggerProvider,
    String,
>) {
    let exporter = LogExporter::builder()
        .with_http()
        .with_protocol(Protocol::HttpBinary)
        .with_endpoint(url)
        .build()
        .map_err(|e| format!("{e}"))?;
    Ok(SdkLoggerProvider::builder()
        .with_batch_exporter(exporter)
        .with_resource(resource)
        .build())
}

/// Builds the log backend: a batching OTLP exporter at the log path of
/// `endpoint`. A failure here is fatal to initialization, never part of the
/// shutdown error taxonomy.
pub fn init_logs(resource: Resource, endpoint: &str) -> (r: Result<
    SdkLoggerProvider,
    ObservlibError,
>)
    ensures
        r matches Err(e) ==> e matches ObservlibError::ExporterConstruction(_),
{
    let url = crate::endpoint_url(endpoint, "/v1/logs");
    match build_logger_provider(resource, url.as_str()) {
        Ok(provider) => Ok(provider),
        Err(reason) => Err(ObservlibError::ExporterConstruction(reason)),
    }
}

/// Relies on SdkLoggerProvider::shutdown: flushes pending log records and
/// shuts the log pipeline down, once; a failure is handed back as its
/// message.
#[verifier::external_body]
pub(crate) fn shutdown_logger(provider: &SdkLoggerProvider) -> (r: Result<(), String>) {
    provider.shutdown().map_err(|e| format!("{e}"))
}

} // verus!
