use vstd::prelude::*;
use crate::errors::ObservlibError;
use opentelemetry_otlp::MetricExporter;
use opentelemetry_otlp::Protocol;
use opentelemetry_otlp::WithExportConfig;
use opentelemetry_sdk::Resource;
use opentelemetry_sdk::metrics::SdkMeterProvider;

verus! {

#[verifier::external_type_specification]
#[verifier::external_body]
pub struct ExSdkMeterProvider(SdkMeterProvider);

/// Relies on SdkMeterProvider::clone: the copy shares the same live metric
/// pipeline, so shutting down either handle shuts down both.
pub assume_specification[ <SdkMeterProvider as Clone>::clone ](
    provider: &SdkMeterProvider,
) -> SdkMeterProvider;

/// Relies on opentelemetry_otlp::MetricExporter's builder and
/// opentelemetry_sdk::metrics::SdkMeterProvider's builder: an OTLP HTTP
/// binary-encoded metric exporter sending to `url`, driven by a periodic
/// reader, tagged with `resource`; the builder's error is handed back as
/// its message.
#[verifier::external_body]
fn build_meter_provider(resource: Resource, url: &str) -> (r: Result<
    SdkMeterProvider,
    String,
>) {
    let exporter = MetricExporter::builder()
        .with_http()
        .with_protocol(Protocol::HttpBinary)
        .with_endpoint(url)
        .build()
        .map_err(|e| format!("{e}"))?;
    Ok(SdkMeterProvider::builder()
        .with_periodic_exporter(exporter)
        .with_resource(resource)
        .build())
}

/// Builds the metric backend: a timer-driven OTLP exporter at the metric
/// path of `endpoint`. A failure here is fatal to initialization, never part
/// of the shutdown error taxonomy.
pub fn init_metrics(resource: Resource, endpoint: &str) -> (r: Result<
    SdkMeterProvider,
    ObservlibError,
>)
    ensures
        r matches Err(e) ==> e matches ObservlibError::ExporterConstruction(_),
{
    let url = crate::endpoint_url(endpoint, "/v1/metrics");
    match build_meter_provider(resource, url.as_str()) {
        Ok(provider) => Ok(provider),
        Err(reason) => Err(ObservlibError::ExporterConstruction(reason)),
    }
}

/// Relies on SdkMeterProvider::shutdown: flushes collected metrics and shuts
/// the metric pipeline down, once; a failure is handed back as its message.
#[verifier::external_body]
pub(crate) fn shutdown_meter(provider: &SdkMeterProvider) -> (r: Result<(), String>) {
    provider.shutdown().map_err(|e| format!("{e}"))
}

} // verus!
