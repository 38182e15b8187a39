//! The interfaces that subscription parsers, exporters and hardware-ID
//! providers implement.

use vstd::prelude::*;
use crate::error::Error;
use crate::models::{HwidInfo, OutputFormat, ProxyNode, SubscriptionFormat};

verus! {

/// Parses subscription bodies into nodes.
pub trait NodeParser {
    fn parse(&self, input: &str) -> Result<Vec<ProxyNode>, Error>;

    fn detect_format(&self, input: &str) -> SubscriptionFormat;
}

/// Renders nodes in a client's subscription format.
pub trait NodeExporter {
    fn export(&self, nodes: &[ProxyNode], format: &OutputFormat) -> Result<String, Error>;
}

/// Supplies the device's hardware ID and the information behind it.
pub trait HwidProvider {
    fn generate(&self) -> Result<String, Error>;

    fn get_device_info(&self) -> Result<HwidInfo, Error>;
}

} // verus!
