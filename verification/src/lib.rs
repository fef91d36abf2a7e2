//! Coordinated setup and graceful shutdown of three telemetry export
//! backends — distributed tracing, metrics and log export — that share one
//! process-wide identity descriptor but fail independently. The shutdown
//! coordinator attempts all three backends in a fixed order, never
//! short-circuits, and folds the failures into a single aggregate outcome;
//! a deadline-bounded variant resolves the race between the coordinator and
//! a timer.

use vstd::prelude::*;
use vstd::string::StringExecFns;
use opentelemetry::KeyValue;
use opentelemetry_sdk::Resource;
use opentelemetry_sdk::logs::SdkLoggerProvider;
use opentelemetry_sdk::metrics::SdkMeterProvider;
use opentelemetry_sdk::trace::SdkTracerProvider;

pub mod coordinator;
pub mod deadline;
pub mod descriptor;
pub mod errors;
pub mod logs;
pub mod metrics;
pub mod traces;

pub use coordinator::aggregate_shutdown_results;
pub use deadline::DeadlineEvent;
pub use deadline::resolve_async_shutdown;
pub use descriptor::DescriptorCache;
pub use descriptor::IdentityDescriptor;
pub use errors::ObservlibError;

verus! {

#[verifier::external_type_specification]
#[verifier::external_body]
pub struct ExResource(Resource);

pub assume_specification[ <Resource as Clone>::clone ](r: &Resource) -> (res: Resource);

/// The full exporter URL for one signal: the endpoint under the scheme,
/// followed by the signal's path.
pub fn endpoint_url(endpoint: &str, path: &str) -> (r: String)
    ensures
        r@ == "http://"@ + endpoint@ + path@,
{
    let mut url = "http://".to_owned();
    url.append(endpoint);
    url.append(path);
    url
}

/// Relies on opentelemetry_sdk::Resource's builder: a resource carrying the
/// descriptor's service name and each of its key/value attributes.
#[verifier::external_body]
fn build_otel_resource(descriptor: &IdentityDescriptor) -> Resource {
    Resource::builder()
        .with_service_name(descriptor.service_name.clone())
        .with_attributes(
            descriptor.attributes.iter().map(|kv| KeyValue::new(kv.0.clone(), kv.1.clone())),
        )
        .build()
}

/// Owns one live handle of each of the three backend kinds; a manager with
/// only some of them is not representable. Single-use: after a shutdown
/// attempt, further attempts may report failure for already-stopped
/// backends.
#[derive(Clone)]
pub struct OtelManager {
    logger: SdkLoggerProvider,
    meter: SdkMeterProvider,
    tracer: SdkTracerProvider,
    descriptor: IdentityDescriptor,
}

impl OtelManager {
    /// The content of the identity descriptor the backends were built with.
    pub closed spec fn spec_descriptor(self) -> crate::descriptor::DescriptorModel {
        self.descriptor.model()
    }

    /// The identity descriptor the backends were built with.
    pub fn descriptor(&self) -> (d: &IdentityDescriptor)
        ensures
            d.model() == self.spec_descriptor(),
    {
        &self.descriptor
    }

    /// The live log backend handle, for wiring a log bridge outside the
    /// library.
    pub fn logger(&self) -> &SdkLoggerProvider {
        &self.logger
    }

    /// The live metric backend handle.
    pub fn meter(&self) -> &SdkMeterProvider {
        &self.meter
    }

    /// The live trace backend handle.
    pub fn tracer(&self) -> &SdkTracerProvider {
        &self.tracer
    }

    /// Attempts shutdown of the trace, the metric and the log backend, in
    /// that fixed order, unconditionally — an early failure never skips a
    /// later attempt — and folds the three results into a single outcome.
    pub fn shutdown(&self) -> (r: Result<(), ObservlibError>)
        ensures
            crate::coordinator::is_aggregate_outcome(r),
    {
        let t = crate::traces::shutdown_tracer(&self.tracer);
        let ghost tv = crate::coordinator::res_view(t);
        let m = crate::metrics::shutdown_meter(&self.meter);
        let ghost mv = crate::coordinator::res_view(m);
        let l = crate::logs::shutdown_logger(&self.logger);
        let ghost lv = crate::coordinator::res_view(l);
        let r = crate::coordinator::aggregate_shutdown_results(t, m, l);
        proof {
            assert(crate::coordinator::aggregate_matches(r, tv, mv, lv));
        }
        r
    }
}

/// Builds the shared identity descriptor — first-call-wins through `cache` —
/// and the three backend handles pointed at `endpoint` under each signal's
/// path. A backend that cannot be constructed aborts initialization.
pub fn initialize_telemetry(
    cache: &mut DescriptorCache,
    service_name: &str,
    endpoint: &str,
    attributes: Vec<(String, String)>,
) -> (r: Result<OtelManager, ObservlibError>)
    ensures
        final(cache).cached() == crate::descriptor::cached_after(
            old(cache).cached(),
            service_name@,
            attributes.deep_view(),
        ),
        r matches Ok(manager) ==> manager.spec_descriptor() == crate::descriptor::served(
            old(cache).cached(),
            service_name@,
            attributes.deep_view(),
        ),
        r matches Err(e) ==> e matches ObservlibError::ExporterConstruction(_),
{
    let descriptor = cache.get_or_init(service_name, attributes);
    let resource = build_otel_resource(&descriptor);
    let logger = match crate::logs::init_logs(resource.clone(), endpoint) {
        Ok(provider) => provider,
        Err(e) => {
            return Err(e);
        },
    };
    let tracer = match crate::traces::init_traces(resource.clone(), endpoint) {
        Ok(provider) => provider,
        Err(e) => {
            return Err(e);
        },
    };
    let meter = match crate::metrics::init_metrics(resource, endpoint) {
        Ok(provider) => provider,
        Err(e) => {
            return Err(e);
        },
    };
    Ok(OtelManager { logger, meter, tracer, descriptor })
}

} // verus!
