use rascal::enumerate::{device_ids_from, platform_ids_from};
use rascal::flags::QueueProperties;
use rascal::handle::{DeviceId, ObjectKind, PlatformId};
use rascal::hl;
use rascal::protocol::{Outcome, Request, Violation};
use rascal::resource::{
    context_properties, create_command_queue, create_context, create_mem_device_buffer,
    must_retain, release_outcome, CommandQueue, Context, Mem, MemProt, CONTEXT_PLATFORM,
};
use rascal::status::Status;

fn platform(raw: usize) -> PlatformId {
    match platform_ids_from(0, vec![raw]) {
        Outcome::Done(ids) => ids[0],
        other => panic!("unexpected {:?}", other),
    }
}

fn devices(raw: Vec<usize>) -> Vec<DeviceId> {
    match device_ids_from(0, raw) {
        Outcome::Done(ids) => ids,
        other => panic!("unexpected {:?}", other),
    }
}

fn context(raw: usize) -> Context {
    match Context::from_created(0, raw) {
        Outcome::Done(c) => c,
        other => panic!("unexpected {:?}", other),
    }
}

fn mem(raw: usize) -> Mem {
    match Mem::from_created(0, raw) {
        Outcome::Done(m) => m,
        other => panic!("unexpected {:?}", other),
    }
}

#[test]
fn context_with_no_devices_is_rejected() {
    assert_eq!(create_context(platform(1), &[]), Err(Status::InvalidValue));
}

#[test]
fn context_request_embeds_platform() {
    let p = platform(0xABC);
    let ds = devices(vec![5, 6]);
    assert_eq!(context_properties(p), vec![CONTEXT_PLATFORM, 0xABC, 0]);
    assert_eq!(
        create_context(p, &ds),
        Ok(Request::CreateContext { properties: vec![0x1084, 0xABC, 0], devices: ds.clone() })
    );
}

#[test]
fn context_creation_failure_is_recoverable() {
    assert!(matches!(Context::from_created(-5, 0), Outcome::Failed(Status::OutOfResources)));
    assert!(matches!(Context::from_created(99, 0), Outcome::Fatal(Violation::UnknownStatus(99))));
    assert_eq!(context(0x77).as_raw(), 0x77);
}

#[test]
fn mem_prot_flags_match_native_bits() {
    assert_eq!(MemProt::ReadWrite.to_mem_flags().bits(), 1);
    assert_eq!(MemProt::WriteOnly.to_mem_flags().bits(), 2);
    assert_eq!(MemProt::ReadOnly.to_mem_flags().bits(), 4);
}

#[test]
fn buffer_request_carries_context_mode_and_size() {
    let c = context(0x40);
    assert_eq!(
        create_mem_device_buffer(&c, MemProt::ReadOnly, 1024),
        Request::CreateBuffer { context: 0x40, flags: MemProt::ReadOnly.to_mem_flags(), size: 1024 }
    );
    assert!(matches!(Mem::from_created(-61, 0), Outcome::Failed(Status::InvalidBufferSize)));
}

#[test]
fn queue_request_carries_context_and_device() {
    let c = context(0x40);
    let d = devices(vec![9])[0];
    let props = QueueProperties::profiling_enable();
    assert_eq!(
        create_command_queue(&c, d, props),
        Request::CreateCommandQueue { context: 0x40, device: d, queue_properties: props }
    );
    match CommandQueue::from_created(0, 0x41) {
        Outcome::Done(q) => {
            assert_eq!(q.retain_request(), Request::Retain { kind: ObjectKind::CommandQueue, handle: 0x41 });
            assert_eq!(q.release(), Request::Release { kind: ObjectKind::CommandQueue, handle: 0x41 });
        }
        other => panic!("unexpected {:?}", other),
    }
}

#[test]
fn duplicate_outlives_first_owner() {
    let first = mem(0x50);
    assert_eq!(first.retain_request(), Request::Retain { kind: ObjectKind::Mem, handle: 0x50 });
    let duplicate = match first.try_clone(0) {
        Outcome::Done(d) => d,
        other => panic!("unexpected {:?}", other),
    };
    assert_eq!(first.release(), Request::Release { kind: ObjectKind::Mem, handle: 0x50 });
    assert_eq!(duplicate.as_raw(), 0x50);
    assert_eq!(duplicate.retain_request(), Request::Retain { kind: ObjectKind::Mem, handle: 0x50 });
    assert_eq!(duplicate.release(), Request::Release { kind: ObjectKind::Mem, handle: 0x50 });
}

#[test]
fn retains_and_releases_balance() {
    let mut owners = vec![context(0x60)];
    let mut calls = Vec::new();
    for _ in 0..3 {
        calls.push(owners[0].retain_request());
        let d = match owners[0].try_clone(0) {
            Outcome::Done(d) => d,
            other => panic!("unexpected {:?}", other),
        };
        owners.push(d);
    }
    while let Some(c) = owners.pop() {
        calls.push(c.release());
    }
    let retains = calls.iter().filter(|c| matches!(c, Request::Retain { .. })).count();
    let releases = calls.iter().filter(|c| matches!(c, Request::Release { .. })).count();
    assert_eq!(retains, 3);
    assert_eq!(releases, 4);
    assert_eq!(1 + retains as i64 - releases as i64, 0);
}

#[test]
fn failed_retain_is_returned_or_fatal() {
    let m = mem(0x70);
    assert!(matches!(m.try_clone(-38), Outcome::Failed(Status::InvalidMemObject)));
    assert!(matches!(
        must_retain(m.try_clone(-38)),
        Outcome::Fatal(Violation::RetainFailed(Status::InvalidMemObject))
    ));
    assert!(matches!(must_retain(m.try_clone(0)), Outcome::Done(_)));
}

#[test]
fn failed_release_is_fatal() {
    assert_eq!(release_outcome(0), Outcome::Done(()));
    assert_eq!(
        release_outcome(-34),
        Outcome::Fatal(Violation::ReleaseFailed(Status::InvalidContext))
    );
    assert_eq!(release_outcome(3), Outcome::Fatal(Violation::UnknownStatus(3)));
}

#[test]
fn facade_lists_and_queries() {
    let q = hl::get_platforms();
    assert_eq!(q.count_request(), Request::PlatformIds { num_entries: 0 });
    let ps = match hl::platforms_from(platform_ids_from(0, vec![3, 4])) {
        Outcome::Done(ps) => ps,
        other => panic!("unexpected {:?}", other),
    };
    assert_eq!(ps.len(), 2);
    assert_eq!(ps[1].id().as_raw(), 4);
    assert_eq!(ps[0].name().size_request(), Request::PlatformInfo { platform: ps[0].id(), param: 0x0902, size: 0 });
    assert_eq!(ps[0].version().info.param(), 0x0901);
    assert_eq!(ps[0].profile().info.param(), 0x0900);
    assert_eq!(ps[0].vendor().info.param(), 0x0903);
    assert_eq!(ps[0].extensions().info.param(), 0x0904);
    let dq = ps[0].get_devices();
    assert_eq!(
        dq.count_request(),
        Request::DeviceIds {
            platform: ps[0].id(),
            device_type: rascal::flags::DeviceType::all(),
            num_entries: 0
        }
    );
}

#[test]
fn facade_makes_discovery_failures_fatal() {
    assert_eq!(
        hl::platforms_from(Outcome::Failed(Status::OutOfHostMemory)),
        Outcome::Fatal(Violation::QueryFailed(Status::OutOfHostMemory))
    );
    assert_eq!(
        hl::expect_discovered::<String>(Outcome::Failed(Status::InvalidDevice)),
        Outcome::Fatal(Violation::QueryFailed(Status::InvalidDevice))
    );
    assert_eq!(hl::expect_discovered(Outcome::Done(5u32)), Outcome::Done(5u32));
    assert_eq!(hl::compute_units_from(Outcome::Done(12)), Outcome::Done(12usize));
    assert_eq!(
        hl::compute_units_from(Outcome::Failed(Status::InvalidValue)),
        Outcome::Fatal(Violation::QueryFailed(Status::InvalidValue))
    );
}

#[test]
fn facade_device_queries() {
    let ds = match hl::devices_from(device_ids_from(0, vec![11])) {
        Outcome::Done(ds) => ds,
        other => panic!("unexpected {:?}", other),
    };
    let d = ds[0];
    assert_eq!(d.id().as_raw(), 11);
    assert_eq!(d.name().request(), Request::DeviceInfo { device: d.id(), param: 0x102B, size: 0 });
    assert_eq!(d.profile().request(), Request::DeviceInfo { device: d.id(), param: 0x102E, size: 0 });
    assert_eq!(d.vendor().request(), Request::DeviceInfo { device: d.id(), param: 0x102C, size: 0 });
    assert_eq!(d.device_version().request(), Request::DeviceInfo { device: d.id(), param: 0x102F, size: 0 });
    assert_eq!(d.driver_version().request(), Request::DeviceInfo { device: d.id(), param: 0x102D, size: 0 });
    assert_eq!(d.extensions().request(), Request::DeviceInfo { device: d.id(), param: 0x1030, size: 0 });
    assert_eq!(d.device_type().request(), Request::DeviceInfo { device: d.id(), param: 0x1000, size: 8 });
    assert_eq!(d.num_compute_units().request(), Request::DeviceInfo { device: d.id(), param: 0x1002, size: 4 });
}

#[test]
fn facade_context_creation() {
    let p = match hl::platforms_from(platform_ids_from(0, vec![1])) {
        Outcome::Done(ps) => ps[0],
        other => panic!("unexpected {:?}", other),
    };
    assert_eq!(p.create_context(&[]), Err(Status::InvalidValue));
    let ds = match hl::devices_from(device_ids_from(0, vec![2, 3])) {
        Outcome::Done(ds) => ds,
        other => panic!("unexpected {:?}", other),
    };
    assert_eq!(
        p.create_context(&ds),
        Ok(Request::CreateContext { properties: vec![0x1084, 1, 0], devices: vec![ds[0].id(), ds[1].id()] })
    );
    assert!(matches!(
        hl::Context::from_created(Context::from_created(-2, 0)),
        Outcome::Failed(Status::DeviceNotAvailable)
    ));
    match hl::Context::from_created(Context::from_created(0, 0x90)) {
        Outcome::Done(c) => {
            assert_eq!(c.inner().as_raw(), 0x90);
            assert_eq!(c.into_inner().release(), Request::Release { kind: ObjectKind::Context, handle: 0x90 });
        }
        other => panic!("unexpected {:?}", other),
    }
}
