//! Configuration descriptors consumed by the core: shared device
//! metadata and the per-device descriptor that selects a variant.
//!
//! Reading and decoding a configuration file is the embedding program's
//! job; the core only receives the fully-resolved descriptors below.

use vstd::prelude::*;

use crate::network_bioreactor::NetworkReactorConfig;
use crate::test_bioreactor::TestReactorConfig;

verus! {

/// Metadata shared by all device variants: a unique identifier, a
/// human-readable name and an optional description. All three are
/// assigned at configuration time and immutable afterwards.
#[derive(Debug)]
pub struct DeviceMetadata {
    pub id: String,
    pub name: String,
    pub description: Option<String>,
}

impl Clone for DeviceMetadata {
    fn clone(&self) -> (r: Self)
        ensures
            r == *self,
    {
        DeviceMetadata {
            id: self.id.clone(),
            name: self.name.clone(),
            description: match &self.description {
                Some(d) => Some(d.clone()),
                None => None,
            },
        }
    }
}

/// One entry of the configured device list, tagged by variant.
///
/// A network device carries the IPv4 address (as its four octets) and
/// the TCP port its supervisor should listen on; a missing address
/// stands for the loopback address.
#[derive(Debug)]
pub enum DeviceConfig {
    TestDevice { meta: DeviceMetadata },
    NetworkDevice { meta: DeviceMetadata, address: Option<[u8; 4]>, port: u16 },
}

impl DeviceConfig {
    /// Convert this descriptor into a test-device configuration, if it
    /// describes the test variant.
    pub fn to_test_device(&self) -> (r: Option<TestReactorConfig>)
        ensures
            match self {
                DeviceConfig::TestDevice { meta } => r matches Some(c) && c.meta == *meta,
                _ => r is None,
            },
    {
        match self {
            DeviceConfig::TestDevice { meta } => Some(TestReactorConfig { meta: meta.clone() }),
            _ => None,
        }
    }

    /// Convert this descriptor into a network-device configuration, if
    /// it describes the network variant. A missing address defaults to
    /// the loopback address.
    pub fn to_network_device(&self) -> (r: Option<NetworkReactorConfig>)
        ensures
            match self {
                DeviceConfig::NetworkDevice { meta, address, port } => {
                    &&& r matches Some(c)
                    &&& c.meta == *meta
                    &&& c.port == *port
                    &&& c.address == (match address {
                        Some(a) => *a,
                        None => [127u8, 0u8, 0u8, 1u8],
                    })
                },
                _ => r is None,
            },
    {
        match self {
            DeviceConfig::NetworkDevice { meta, address, port } => {
                let resolved: [u8; 4] = match address {
                    Some(a) => *a,
                    None => [127u8, 0u8, 0u8, 1u8],
                };
                Some(NetworkReactorConfig { meta: meta.clone(), address: resolved, port: *port })
            },
            _ => None,
        }
    }
}

} // verus!
