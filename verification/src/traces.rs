use vstd::prelude::*;
use crate::errors::ObservlibError;
use opentelemetry_otlp::Protocol;
use opentelemetry_otlp::SpanExporter;
use opentelemetry_otlp::WithExportConfig;
use opentelemetry_sdk::Resource;
use opentelemetry_sdk::trace::SdkTracerProvider;

verus! {

#[verifier::external_type_specification]
#[verifier::external_body]
pub struct ExSdkTracerProvider(SdkTracerProvider);

/// Relies on SdkTracerProvider::clone: the copy shares the same live trace
/// pipeline, so shutting down either handle shuts down both.
pub assume_specification[ <SdkTracerProvider as Clone>::clone ](
    provider: &SdkTracerProvider,
) -> SdkTracerProvider;

/// Relies on opentelemetry_otlp::SpanExporter's builder and
/// opentelemetry_sdk::trace::SdkTracerProvider's builder: an OTLP HTTP
/// binary-encoded span exporter sending to `url`, wrapped in a batching
/// provider tagged with `resource`; the builder's error is handed back as
/// its message.
#[verifier::external_body]
fn build_tracer_provider(resource: Resource, url: &str) -> (r: Result<
    SdkTracerProvider,
    String,
>) {
    let exporter = SpanExporter::builder()
        .with_http()
        .with_protocol(Protocol::HttpBinary)
        .with_endpoint(url)
        .build()
        .map_err(|e| format!("{e}"))?;
    Ok(SdkTracerProvider::builder()
        .with_batch_exporter(exporter)
        .with_resource(resource)
        .build())
}

/// Builds the trace backend: a batching OTLP exporter at the trace path of
/// `endpoint`. A failure here is fatal to initialization, never part of the
/// shutdown error taxonomy.
pub fn init_traces(resource: Resource, endpoint: &str) -> (r: Result<
    SdkTracerProvider,
    ObservlibError,
>)
    ensures
        r matches Err(e) ==> e matches ObservlibError::ExporterConstruction(_),
{
    let url = crate::endpoint_url(endpoint, "/v1/traces");
    match build_tracer_provider(resource, url.as_str()) {
        Ok(provider) => Ok(provider),
        Err(reason) => Err(ObservlibError::ExporterConstruction(reason)),
    }
}

/// Relies on SdkTracerProvider::shutdown: flushes pending spans and shuts
/// the trace pipeline down, once; a failure is handed back as its message.
#[verifier::external_body]
pub(crate) fn shutdown_tracer(provider: &SdkTracerProvider) -> (r: Result<(), String>) {
    provider.shutdown().map_err(|e| format!("{e}"))
}

} // verus!
