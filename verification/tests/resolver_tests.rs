use qck_prism::resolver::{
    find_device, resolve, select_endpoint, AltSetting, ConfigInfo, DeviceInfo, Endpoint,
    InterfaceInfo, PRODUCT_ID, VENDOR_ID,
};
use qck_prism::DriverError;

fn uniform_device(n: u8, m: u8, a: u8, k: u8) -> DeviceInfo {
    let mut configs = Vec::new();
    for ci in 0..n {
        let mut interfaces = Vec::new();
        for ii in 0..m {
            let mut alt_settings = Vec::new();
            for ai in 0..a {
                let endpoints = (0..k).map(|ei| 0x80 + ei).collect();
                alt_settings.push(AltSetting {
                    number: ai,
                    endpoints,
                });
            }
            interfaces.push(InterfaceInfo {
                number: ii,
                alt_settings,
            });
        }
        configs.push(ConfigInfo {
            number: ci + 1,
            interfaces,
        });
    }
    DeviceInfo { configs }
}

#[test]
fn uniform_enumeration_count() {
    let dev = uniform_device(2, 3, 1, 2);
    let eps = resolve(&dev);
    assert_eq!(eps.len(), 2 * 3 * 1 * 2);
    let dev2 = uniform_device(1, 2, 2, 3);
    assert_eq!(resolve(&dev2).len(), 1 * 2 * 2 * 3);
}

#[test]
fn enumeration_order_is_deterministic() {
    let dev = uniform_device(2, 2, 1, 2);
    let eps = resolve(&dev);
    let expected = vec![
        Endpoint { config: 1, interface: 0, alt_setting: 0, address: 0x80 },
        Endpoint { config: 1, interface: 0, alt_setting: 0, address: 0x81 },
        Endpoint { config: 1, interface: 1, alt_setting: 0, address: 0x80 },
        Endpoint { config: 1, interface: 1, alt_setting: 0, address: 0x81 },
        Endpoint { config: 2, interface: 0, alt_setting: 0, address: 0x80 },
        Endpoint { config: 2, interface: 0, alt_setting: 0, address: 0x81 },
        Endpoint { config: 2, interface: 1, alt_setting: 0, address: 0x80 },
        Endpoint { config: 2, interface: 1, alt_setting: 0, address: 0x81 },
    ];
    assert_eq!(eps, expected);
    assert_eq!(resolve(&dev), expected);
}

#[test]
fn empty_device_yields_nothing() {
    let dev = DeviceInfo { configs: Vec::new() };
    assert!(resolve(&dev).is_empty());
}

#[test]
fn ragged_device_counts_real_descriptors() {
    // One config whose first interface has one alternate setting with two
    // endpoints and whose second interface has none at all.
    let dev = DeviceInfo {
        configs: vec![ConfigInfo {
            number: 1,
            interfaces: vec![
                InterfaceInfo {
                    number: 0,
                    alt_settings: vec![AltSetting {
                        number: 0,
                        endpoints: vec![0x81, 0x02],
                    }],
                },
                InterfaceInfo {
                    number: 1,
                    alt_settings: Vec::new(),
                },
            ],
        }],
    };
    let eps = resolve(&dev);
    assert_eq!(eps.len(), 2);
    assert_eq!(eps[0].address, 0x81);
    assert_eq!(eps[1].address, 0x02);
}

#[test]
fn selection_picks_first_endpoint() {
    let dev = uniform_device(2, 2, 1, 2);
    let eps = resolve(&dev);
    let chosen = select_endpoint(&eps).unwrap();
    assert_eq!(
        chosen,
        Endpoint { config: 1, interface: 0, alt_setting: 0, address: 0x80 }
    );
}

#[test]
fn selection_on_empty_is_no_endpoint() {
    let eps = Vec::new();
    assert_eq!(select_endpoint(&eps), Err(DriverError::NoEndpoint));
}

#[test]
fn device_scan_picks_first_match() {
    let ids = vec![
        (0x1234, 0x5678),
        (VENDOR_ID, 0x9999),
        (VENDOR_ID, PRODUCT_ID),
        (VENDOR_ID, PRODUCT_ID),
    ];
    assert_eq!(find_device(&ids), Some(2));
}

#[test]
fn device_scan_without_match() {
    assert_eq!(find_device(&Vec::new()), None);
    let ids = vec![(0x1038, 0x1038), (0x150d, 0x150d)];
    assert_eq!(find_device(&ids), None);
}
