//! Endpoint resolution: flattening a device's descriptor tree of
//! configurations, interfaces, alternate settings and endpoints into the
//! ordered candidate list a session picks from, together with the device
//! identity match and the endpoint-selection policy.

use vstd::prelude::*;

use crate::DriverError;

verus! {

/// Vendor identifier of the one supported device.
pub const VENDOR_ID: u16 = 0x1038;

/// Product identifier of the one supported device.
pub const PRODUCT_ID: u16 = 0x150d;

/// One alternate setting of an interface: its setting number and the
/// addresses of the endpoints it exposes, in descriptor order.
#[derive(Clone, Debug)]
pub struct AltSetting {
    pub number: u8,
    pub endpoints: Vec<u8>,
}

/// One interface of a configuration, with its alternate settings in
/// descriptor order.
#[derive(Clone, Debug)]
pub struct InterfaceInfo {
    pub number: u8,
    pub alt_settings: Vec<AltSetting>,
}

/// One configuration of a device, with its interfaces in descriptor order.
#[derive(Clone, Debug)]
pub struct ConfigInfo {
    pub number: u8,
    pub interfaces: Vec<InterfaceInfo>,
}

/// The descriptor tree of a device, as far as it could be introspected.
/// Configurations or interfaces that could not be read are simply absent:
/// degraded enumeration is not an error.
#[derive(Clone, Debug)]
pub struct DeviceInfo {
    pub configs: Vec<ConfigInfo>,
}

/// A candidate for control transfers: one combination of configuration,
/// interface, alternate setting and endpoint address on a discovered device.
/// It is a plan, not a resource.
#[derive(Clone, Copy, Debug, PartialEq, Eq, Structural)]
pub struct Endpoint {
    pub config: u8,
    pub interface: u8,
    pub alt_setting: u8,
    pub address: u8,
}

/// The descriptors of one alternate setting, in endpoint order.
pub open spec fn alt_endpoints(cfg: u8, iface: u8, alt: AltSetting) -> Seq<Endpoint> {
    alt.endpoints@.map_values(
        |addr: u8| Endpoint { config: cfg, interface: iface, alt_setting: alt.number, address: addr },
    )
}

/// The descriptors of the first `n` alternate settings of an interface.
pub open spec fn interface_endpoints_upto(cfg: u8, iface: InterfaceInfo, n: int) -> Seq<Endpoint>
    decreases n,
{
    if n <= 0 {
        Seq::empty()
    } else {
        interface_endpoints_upto(cfg, iface, n - 1) + alt_endpoints(
            cfg,
            iface.number,
            iface.alt_settings@[n - 1],
        )
    }
}

/// The descriptors of one interface, over all its alternate settings.
pub open spec fn interface_endpoints(cfg: u8, iface: InterfaceInfo) -> Seq<Endpoint> {
    interface_endpoints_upto(cfg, iface, iface.alt_settings@.len() as int)
}

/// The descriptors of the first `n` interfaces of a configuration.
pub open spec fn config_endpoints_upto(cfg: ConfigInfo, n: int) -> Seq<Endpoint>
    decreases n,
{
    if n <= 0 {
        Seq::empty()
    } else {
        config_endpoints_upto(cfg, n - 1) + interface_endpoints(cfg.number, cfg.interfaces@[n - 1])
    }
}

/// The descriptors of one configuration, over all its interfaces.
pub open spec fn config_endpoints(cfg: ConfigInfo) -> Seq<Endpoint> {
    config_endpoints_upto(cfg, cfg.interfaces@.len() as int)
}

/// The descriptors of the first `n` configurations of a device.
pub open spec fn device_endpoints_upto(dev: DeviceInfo, n: int) -> Seq<Endpoint>
    decreases n,
{
    if n <= 0 {
        Seq::empty()
    } else {
        device_endpoints_upto(dev, n - 1) + config_endpoints(dev.configs@[n - 1])
    }
}

/// Every endpoint of a device, in enumeration order: configuration, then
/// interface, then alternate setting, then endpoint.
pub open spec fn device_endpoints(dev: DeviceInfo) -> Seq<Endpoint> {
    device_endpoints_upto(dev, dev.configs@.len() as int)
}

/// Enumerate every endpoint of the introspected device, in enumeration
/// order. Never fails: a device without endpoints yields an empty list.
#[verifier::loop_isolation(false)]
pub fn resolve(dev: &DeviceInfo) -> (r: Vec<Endpoint>)
    ensures
        r@ == device_endpoints(*dev),
{
    let mut out: Vec<Endpoint> = Vec::new();
    let mut ci: usize = 0;
    while ci < dev.configs.len()
        invariant
            ci <= dev.configs@.len(),
            out@ == device_endpoints_upto(*dev, ci as int),
        decreases dev.configs@.len() - ci,
    {
        let cfg = &dev.configs[ci];
        let mut ii: usize = 0;
        while ii < cfg.interfaces.len()
            invariant
                ii <= cfg.interfaces@.len(),
                out@ == device_endpoints_upto(*dev, ci as int) + config_endpoints_upto(
                    *cfg,
                    ii as int,
                ),
            decreases cfg.interfaces@.len() - ii,
        {
            let iface = &cfg.interfaces[ii];
            let mut ai: usize = 0;
            while ai < iface.alt_settings.len()
                invariant
                    ai <= iface.alt_settings@.len(),
                    out@ == device_endpoints_upto(*dev, ci as int) + config_endpoints_upto(
                        *cfg,
                        ii as int,
                    ) + interface_endpoints_upto(cfg.number, *iface, ai as int),
                decreases iface.alt_settings@.len() - ai,
            {
                let alt = &iface.alt_settings[ai];
                let mut ei: usize = 0;
                while ei < alt.endpoints.len()
                    invariant
                        ei <= alt.endpoints@.len(),
                        out@ == device_endpoints_upto(*dev, ci as int) + config_endpoints_upto(
                            *cfg,
                            ii as int,
                        ) + interface_endpoints_upto(cfg.number, *iface, ai as int) + alt_endpoints(
                            cfg.number,
                            iface.number,
                            *alt,
                        ).take(ei as int),
                    decreases alt.endpoints@.len() - ei,
                {
                    out.push(
                        Endpoint {
                            config: cfg.number,
                            interface: iface.number,
                            alt_setting: alt.number,
                            address: alt.endpoints[ei],
                        },
                    );
                    ei = ei + 1;
                    proof {
                        assert(alt_endpoints(cfg.number, iface.number, *alt).take(ei as int)
                            =~= alt_endpoints(cfg.number, iface.number, *alt).take(
                            ei - 1,
                        ).push(alt_endpoints(cfg.number, iface.number, *alt)[ei - 1]));
                    }
                }
                ai = ai + 1;
                proof {
                    assert(alt_endpoints(cfg.number, iface.number, *alt).take(
                        alt.endpoints@.len() as int,
                    ) =~= alt_endpoints(cfg.number, iface.number, *alt));
                    assert(iface.alt_settings@[ai - 1] == *alt);
                }
            }
            ii = ii + 1;
            proof {
                assert(cfg.interfaces@[ii - 1] == *iface);
            }
        }
        ci = ci + 1;
        proof {
            assert(dev.configs@[ci - 1] == *cfg);
        }
    }
    out
}

/// A descriptor tree in which every configuration has `m` interfaces, every
/// interface `a` alternate settings, and every alternate setting `k`
/// endpoints.
pub open spec fn uniform_topology(dev: DeviceInfo, m: int, a: int, k: int) -> bool {
    &&& forall|ci: int|
        0 <= ci < dev.configs@.len() ==> (#[trigger] dev.configs@[ci]).interfaces@.len() == m
    &&& forall|ci: int, ii: int|
        0 <= ci < dev.configs@.len() && 0 <= ii < dev.configs@[ci].interfaces@.len() ==> (
        #[trigger] dev.configs@[ci].interfaces@[ii]).alt_settings@.len() == a
    &&& forall|ci: int, ii: int, ai: int|
        0 <= ci < dev.configs@.len() && 0 <= ii < dev.configs@[ci].interfaces@.len() && 0 <= ai
            < dev.configs@[ci].interfaces@[ii].alt_settings@.len() ==> (
        #[trigger] dev.configs@[ci].interfaces@[ii].alt_settings@[ai]).endpoints@.len() == k
}

proof fn lemma_interface_count_uniform(cfg: u8, iface: InterfaceInfo, n: int, k: int)
    requires
        0 <= n <= iface.alt_settings@.len(),
        forall|ai: int|
            0 <= ai < iface.alt_settings@.len() ==> (
            #[trigger] iface.alt_settings@[ai]).endpoints@.len() == k,
    ensures
        interface_endpoints_upto(cfg, iface, n).len() == n * k,
    decreases n,
{
    if n > 0 {
        lemma_interface_count_uniform(cfg, iface, n - 1, k);
        assert(n * k == (n - 1) * k + k) by (nonlinear_arith);
    } else {
        assert(n * k == 0) by (nonlinear_arith)
            requires
                n == 0,
        ;
    }
}

proof fn lemma_config_count_uniform(cfg: ConfigInfo, n: int, a: int, k: int)
    requires
        0 <= n <= cfg.interfaces@.len(),
        forall|ii: int|
            0 <= ii < cfg.interfaces@.len() ==> (
            #[trigger] cfg.interfaces@[ii]).alt_settings@.len() == a,
        forall|ii: int, ai: int|
            0 <= ii < cfg.interfaces@.len() && 0 <= ai
                < cfg.interfaces@[ii].alt_settings@.len() ==> (
            #[trigger] cfg.interfaces@[ii].alt_settings@[ai]).endpoints@.len() == k,
    ensures
        config_endpoints_upto(cfg, n).len() == n * (a * k),
    decreases n,
{
    if n > 0 {
        lemma_config_count_uniform(cfg, n - 1, a, k);
        lemma_interface_count_uniform(cfg.number, cfg.interfaces@[n - 1], a, k);
        assert(n * (a * k) == (n - 1) * (a * k) + a * k) by (nonlinear_arith);
    } else {
        assert(n * (a * k) == 0) by (nonlinear_arith)
            requires
                n == 0,
        ;
    }
}

proof fn lemma_device_count_uniform(dev: DeviceInfo, n: int, m: int, a: int, k: int)
    requires
        uniform_topology(dev, m, a, k),
        0 <= n <= dev.configs@.len(),
    ensures
        device_endpoints_upto(dev, n).len() == n * (m * (a * k)),
    decreases n,
{
    if n > 0 {
        lemma_device_count_uniform(dev, n - 1, m, a, k);
        lemma_config_count_uniform(dev.configs@[n - 1], m, a, k);
        assert(n * (m * (a * k)) == (n - 1) * (m * (a * k)) + m * (a * k)) by (nonlinear_arith);
    } else {
        assert(n * (m * (a * k)) == 0) by (nonlinear_arith)
            requires
                n == 0,
        ;
    }
}

/// Enumeration of a device with `n` configurations, each with `m`
/// interfaces, each with `a` alternate settings of `k` endpoints each,
/// yields exactly `n * m * a * k` descriptors.
pub proof fn lemma_uniform_endpoint_count(dev: DeviceInfo, m: int, a: int, k: int)
    requires
        uniform_topology(dev, m, a, k),
    ensures
        device_endpoints(dev).len() == dev.configs@.len() * (m * (a * k)),
{
    lemma_device_count_uniform(dev, dev.configs@.len() as int, m, a, k);
}

/// The endpoint-selection policy: the first endpoint in enumeration order,
/// or `NoEndpoint` when enumeration produced nothing.
pub fn select_endpoint(endpoints: &Vec<Endpoint>) -> (r: Result<Endpoint, DriverError>)
    ensures
        endpoints@.len() > 0 ==> r == Ok::<Endpoint, DriverError>(endpoints@[0]),
        endpoints@.len() == 0 ==> r == Err::<Endpoint, DriverError>(DriverError::NoEndpoint),
{
    if endpoints.len() > 0 {
        Ok(endpoints[0])
    } else {
        Err(DriverError::NoEndpoint)
    }
}

/// Whether a device's identifiers match the one supported device.
pub open spec fn is_target(vendor: u16, product: u16) -> bool {
    vendor == VENDOR_ID && product == PRODUCT_ID
}

/// Whether `ids[i]` is the first identifier pair matching the supported
/// device.
pub open spec fn first_match(ids: Seq<(u16, u16)>, i: int) -> bool {
    &&& 0 <= i < ids.len()
    &&& is_target(ids[i].0, ids[i].1)
    &&& forall|j: int| 0 <= j < i ==> !is_target(ids[j].0, ids[j].1)
}

/// Scan the identifier pairs of the attached devices and pick the first one
/// matching the supported vendor/product pair.
#[verifier::loop_isolation(false)]
pub fn find_device(ids: &Vec<(u16, u16)>) -> (r: Option<usize>)
    ensures
        r matches Some(i) ==> first_match(ids@, i as int),
        r is None ==> forall|j: int| 0 <= j < ids@.len() ==> !is_target(ids@[j].0, ids@[j].1),
{
    let mut i: usize = 0;
    while i < ids.len()
        invariant
            i <= ids@.len(),
            forall|j: int| 0 <= j < i ==> !is_target(ids@[j].0, ids@[j].1),
        decreases ids@.len() - i,
    {
        let (v, p) = ids[i];
        if v == VENDOR_ID && p == PRODUCT_ID {
            return Some(i);
        }
        i = i + 1;
    }
    None
}

} // verus!
