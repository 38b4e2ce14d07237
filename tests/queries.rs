use rascal::enumerate::{device_ids_from, get_device_ids, get_platform_ids, platform_ids_from, IdTarget};
use rascal::flags::{DeviceType, QueueProperties};
use rascal::handle::{DeviceId, PlatformId};
use rascal::protocol::{Outcome, Request, Violation};
use rascal::query::{
    get_device_info, get_platform_info, DeviceInfoBool, DeviceInfoClUint, DeviceInfoDeviceType,
    DeviceInfoString, PlatformInfo,
};
use rascal::status::Status;

fn platform(raw: usize) -> PlatformId {
    match platform_ids_from(0, vec![raw]) {
        Outcome::Done(ids) => ids[0],
        other => panic!("unexpected {:?}", other),
    }
}

fn device(raw: usize) -> DeviceId {
    match device_ids_from(0, vec![raw]) {
        Outcome::Done(ids) => ids[0],
        other => panic!("unexpected {:?}", other),
    }
}

#[test]
fn platform_listing_asks_count_first() {
    let q = get_platform_ids();
    assert_eq!(q.target, IdTarget::Platforms);
    assert_eq!(q.count_request(), Request::PlatformIds { num_entries: 0 });
    assert_eq!(
        q.after_count(0, 3),
        Outcome::Done(Some(Request::PlatformIds { num_entries: 3 }))
    );
}

#[test]
fn zero_platforms_is_an_empty_success() {
    let q = get_platform_ids();
    assert_eq!(q.after_count(0, 0), Outcome::Done(None));
    assert_eq!(platform_ids_from(0, Vec::new()), Outcome::Done(Vec::new()));
}

#[test]
fn platform_listing_failure_is_returned() {
    let q = get_platform_ids();
    assert_eq!(q.after_count(-6, 0), Outcome::Failed(Status::OutOfHostMemory));
    assert_eq!(q.after_count(-1, 0), Outcome::Failed(Status::DeviceNotFound));
    assert_eq!(platform_ids_from(-6, vec![1]), Outcome::Failed(Status::OutOfHostMemory));
}

#[test]
fn platform_ids_keep_runtime_order() {
    match platform_ids_from(0, vec![30, 10, 20]) {
        Outcome::Done(ids) => {
            let raw: Vec<usize> = ids.iter().map(|p| p.as_raw()).collect();
            assert_eq!(raw, vec![30, 10, 20]);
        }
        other => panic!("unexpected {:?}", other),
    }
}

#[test]
fn device_listing_is_scoped_and_filtered() {
    let p = platform(0x100);
    let q = get_device_ids(p, DeviceType::gpu());
    assert_eq!(
        q.count_request(),
        Request::DeviceIds { platform: p, device_type: DeviceType::gpu(), num_entries: 0 }
    );
    assert_eq!(
        q.after_count(0, 2),
        Outcome::Done(Some(Request::DeviceIds {
            platform: p,
            device_type: DeviceType::gpu(),
            num_entries: 2
        }))
    );
    assert_eq!(q.after_count(0, 0), Outcome::Done(None));
    assert_eq!(q.after_count(-32, 0), Outcome::Failed(Status::InvalidPlatform));
    match device_ids_from(0, vec![7, 8]) {
        Outcome::Done(ids) => assert_eq!(ids.iter().map(|d| d.as_raw()).collect::<Vec<_>>(), vec![7, 8]),
        other => panic!("unexpected {:?}", other),
    }
}

#[test]
fn platform_string_query_uses_two_calls() {
    let p = platform(0x200);
    let q = get_platform_info(p, PlatformInfo::Version);
    assert_eq!(q.size_request(), Request::PlatformInfo { platform: p, param: 0x0901, size: 0 });
    assert_eq!(
        q.after_size(0, 11),
        Outcome::Done(Request::PlatformInfo { platform: p, param: 0x0901, size: 11 })
    );
    assert_eq!(q.finish(0, b"OpenCL 1.2\0".to_vec()), Outcome::Done("OpenCL 1.2".to_string()));
}

#[test]
fn string_query_with_zero_size_is_a_violation() {
    let q = get_platform_info(platform(1), PlatformInfo::Name);
    assert_eq!(q.after_size(0, 0), Outcome::Fatal(Violation::EmptyBuffer));
}

#[test]
fn string_query_failures() {
    let q = get_platform_info(platform(1), PlatformInfo::Name);
    assert_eq!(q.after_size(-32, 0), Outcome::Failed(Status::InvalidPlatform));
    assert_eq!(q.after_size(7, 4), Outcome::Fatal(Violation::UnknownStatus(7)));
    assert_eq!(q.finish(-30, Vec::new()), Outcome::Failed(Status::InvalidValue));
    assert_eq!(
        q.finish(0, b"OpenCL".to_vec()),
        Outcome::Fatal(Violation::MissingTerminator(b'L'))
    );
}

#[test]
fn platform_selectors_match_native_values() {
    assert_eq!(PlatformInfo::Profile.param(), 0x0900);
    assert_eq!(PlatformInfo::Name.param(), 0x0902);
    assert_eq!(PlatformInfo::Vendor.param(), 0x0903);
    assert_eq!(PlatformInfo::Extensions.param(), 0x0904);
}

#[test]
fn device_string_query() {
    let d = device(0x300);
    let q = get_device_info(d, DeviceInfoString::Name);
    assert_eq!(q.request(), Request::DeviceInfo { device: d, param: 0x102B, size: 0 });
    assert_eq!(
        q.after_size(0, 5),
        Outcome::Done(Request::DeviceInfo { device: d, param: 0x102B, size: 5 })
    );
    assert_eq!(q.finish(0, b"Tahi\0".to_vec()), Outcome::Done("Tahi".to_string()));
}

#[test]
fn device_bool_query() {
    let d = device(0x300);
    let q = get_device_info(d, DeviceInfoBool::Available);
    assert_eq!(q.request(), Request::DeviceInfo { device: d, param: 0x1027, size: 4 });
    assert_eq!(q.finish(0, 1), Outcome::Done(true));
    assert_eq!(q.finish(0, 0), Outcome::Done(false));
    assert_eq!(q.finish(-33, 0), Outcome::Failed(Status::InvalidDevice));
}

#[test]
fn device_uint_query() {
    let d = device(0x300);
    let q = get_device_info(d, DeviceInfoClUint::MaxComputeUnits);
    assert_eq!(q.request(), Request::DeviceInfo { device: d, param: 0x1002, size: 4 });
    assert_eq!(q.finish(0, 16), Outcome::Done(16));
    assert_eq!(q.finish(-30, 16), Outcome::Failed(Status::InvalidValue));
}

#[test]
fn gpu_bit_decodes_to_gpu_only() {
    let d = device(0x300);
    let q = get_device_info(d, DeviceInfoDeviceType);
    assert_eq!(q.request(), Request::DeviceInfo { device: d, param: 0x1000, size: 8 });
    match q.finish(0, 4) {
        Outcome::Done(t) => {
            assert!(t.contains(DeviceType::gpu()));
            assert!(!t.contains(DeviceType::cpu()));
            assert_eq!(t.bits(), 4);
        }
        other => panic!("unexpected {:?}", other),
    }
}

#[test]
fn unknown_device_type_bits_are_fatal() {
    let q = get_device_info(device(1), DeviceInfoDeviceType);
    let bits = 1u64 << 40 | 4;
    assert_eq!(q.finish(0, bits), Outcome::Fatal(Violation::UnknownDeviceType(bits)));
}

#[test]
fn flag_sets_reject_unknown_bits_alike() {
    assert!(DeviceType::from_bits(1u64 << 33).is_none());
    assert_eq!(DeviceType::from_bits(6).map(|t| t.bits()), Some(6));
    assert!(QueueProperties::from_bits(4).is_none());
    assert_eq!(QueueProperties::from_bits(3).map(|p| p.bits()), Some(3));
}

#[test]
fn device_type_constants() {
    assert_eq!(DeviceType::default_device().bits(), 1);
    assert_eq!(DeviceType::cpu().bits(), 2);
    assert_eq!(DeviceType::gpu().bits(), 4);
    assert_eq!(DeviceType::accelerator().bits(), 8);
    assert_eq!(DeviceType::all().bits(), 0xFFFF_FFFF);
    assert!(DeviceType::all().contains(DeviceType::accelerator()));
}

#[test]
fn no_matching_device_is_an_empty_listing() {
    let q = get_device_ids(platform(0x100), DeviceType::accelerator());
    assert_eq!(q.after_count(-1, 0), Outcome::Done(None));
    assert_eq!(q.after_count(-1001, 0), Outcome::Failed(Status::PlatformNotFoundKhr));
    assert_eq!(device_ids_from(0, Vec::new()), Outcome::Done(Vec::new()));
}

#[test]
fn platform_not_found_is_an_empty_listing() {
    let q = get_platform_ids();
    assert_eq!(q.after_count(-1001, 0), Outcome::Done(None));
}

#[test]
fn queue_property_constructors() {
    assert_eq!(QueueProperties::empty().bits(), 0);
    assert_eq!(QueueProperties::out_of_order_exec_mode_enable().bits(), 1);
    assert_eq!(QueueProperties::profiling_enable().bits(), 2);
}
