use std::sync::Arc;
use vm_devices::vfio::iommufd_nesting::{
    query_host_caps, AccelSetup, AccelStep, AttachTarget, HostCapsError, HwInfo,
    IommufdStreamBackend, KernelCall, KernelReply, SmmuAccelState, StreamBackendState,
    StreamConfig, StreamError, StreamStep, Transition,
};

const SMMUV3: u32 = 2;

fn refused() -> KernelReply {
    Err(anyhow::Error::msg("refused"))
}

fn show<T: std::fmt::Debug>(value: &T) -> String {
    format!("{:?}", value)
}

/// Nest parent 10, vIOMMU 20, abort HWPT 30.
fn accel() -> Arc<SmmuAccelState> {
    let setup = SmmuAccelState::new(1, 5)
        .advance(Ok(10))
        .advance(Ok(20))
        .advance(Ok(30));
    match setup {
        AccelSetup::Done(accel) => Arc::new(accel),
        other => panic!("{:?}", other),
    }
}

struct Device {
    backend: IommufdStreamBackend,
    state: StreamBackendState,
}

impl Device {
    fn teardown(&mut self) -> Vec<KernelCall> {
        self.backend.teardown(&mut self.state)
    }
}

fn device() -> Device {
    let (backend, state) = IommufdStreamBackend::new(accel(), 1);
    Device { backend, state }
}

fn drive(
    device: &mut Device,
    config: StreamConfig,
    replies: Vec<KernelReply>,
) -> (Vec<KernelCall>, Result<(), StreamError>) {
    let mut calls = Vec::new();
    let mut replies = replies.into_iter();
    let Device { backend, state } = device;
    let mut transition = backend.set_stream_config(state, config);
    while let Some(call) = backend.call(&transition) {
        calls.push(call);
        transition = backend.advance(state, transition, replies.next().unwrap());
    }
    assert!(replies.next().is_none());
    let result = match transition {
        Transition::Done => Ok(()),
        Transition::Failed(error) => Err(error),
        other => panic!("{:?}", other),
    };
    (calls, result)
}

fn translate(sid: u32) -> StreamConfig {
    StreamConfig::Translate {
        sid,
        nested_ste: [0xb, 0xc],
    }
}

fn alloc_vdevice(virtual_id: u64) -> KernelCall {
    KernelCall::AllocVdevice {
        viommu_id: 20,
        dev_id: 1,
        virtual_id,
    }
}

fn alloc_nested() -> KernelCall {
    KernelCall::AllocHwpt {
        nest_parent: false,
        dev_id: 1,
        parent_id: 20,
        ste: Some([0xb, 0xc]),
    }
}

fn attach(hwpt_id: u32) -> KernelCall {
    KernelCall::Attach { hwpt_id }
}

fn destroy(id: u32) -> KernelCall {
    KernelCall::Destroy { id }
}

#[test]
fn host_caps_of_an_smmuv3() {
    let info = HwInfo {
        data_type: SMMUV3,
        idr: [1, 2, 3, 4, 5, 6],
    };
    assert_eq!(
        query_host_caps(Ok(info), SMMUV3).unwrap(),
        [1, 2, 3, 4, 5, 6]
    );
}

#[test]
fn host_caps_of_another_iommu() {
    let info = HwInfo {
        data_type: 1,
        idr: [0; 6],
    };
    assert!(matches!(
        query_host_caps(Ok(info), SMMUV3),
        Err(HostCapsError::UnexpectedType(1))
    ));
}

#[test]
fn host_caps_query_failed() {
    match query_host_caps(Err(anyhow::Error::msg("no device")), SMMUV3) {
        Err(HostCapsError::QueryFailed(error)) => assert_eq!(error.to_string(), "no device"),
        other => panic!("{:?}", other),
    }
}

#[test]
fn setup_makes_three_requests() {
    let setup = SmmuAccelState::new(1, 5);
    assert_eq!(
        show(&setup.call()),
        show(&Some(KernelCall::AllocHwpt {
            nest_parent: true,
            dev_id: 1,
            parent_id: 5,
            ste: None,
        }))
    );
    let setup = setup.advance(Ok(10));
    assert_eq!(
        show(&setup.call()),
        show(&Some(KernelCall::AllocViommu {
            dev_id: 1,
            hwpt_id: 10,
        }))
    );
    let setup = setup.advance(Ok(20));
    assert_eq!(
        show(&setup.call()),
        show(&Some(KernelCall::AllocHwpt {
            nest_parent: false,
            dev_id: 1,
            parent_id: 20,
            ste: Some([1, 0]),
        }))
    );
    let setup = setup.advance(Ok(30));
    assert!(setup.call().is_none());
    match setup {
        AccelSetup::Done(accel) => {
            assert_eq!(accel.s2_parent_hwpt_id(), 10);
            assert_eq!(accel.viommu_id(), 20);
            assert_eq!(accel.abort_hwpt_id(), 30);
        }
        other => panic!("{:?}", other),
    }
}

#[test]
fn setup_fails_at_each_step() {
    for (granted, step) in [
        (0, AccelStep::AllocS2Parent),
        (1, AccelStep::AllocViommu),
        (2, AccelStep::AllocAbort),
    ] {
        let mut setup = SmmuAccelState::new(1, 5);
        for id in 0..granted {
            setup = setup.advance(Ok(id));
        }
        let setup = setup.advance(refused());
        assert!(setup.call().is_none());
        match setup.advance(Ok(9)) {
            AccelSetup::Failed(error) => {
                assert_eq!(error.step, step);
                assert_eq!(error.source.to_string(), "refused");
            }
            other => panic!("{:?}", other),
        }
    }
}

#[test]
fn abort_and_bypass_attach_to_shared_tables() {
    let mut device = device();
    let (calls, result) = drive(&mut device, StreamConfig::Bypass, vec![Ok(0)]);
    assert!(result.is_ok());
    assert_eq!(show(&calls), show(&vec![attach(10)]));
    let (calls, result) = drive(&mut device, StreamConfig::Abort, vec![Ok(0)]);
    assert!(result.is_ok());
    assert_eq!(show(&calls), show(&vec![attach(30)]));
    assert_eq!(show(&device.teardown()), show(&vec![KernelCall::Detach]));
}

#[test]
fn first_translation_allocates_the_vdevice() {
    let mut device = device();
    let (calls, result) = drive(&mut device, translate(0x108), vec![Ok(40), Ok(50), Ok(0)]);
    assert!(result.is_ok());
    assert_eq!(
        show(&calls),
        show(&vec![alloc_vdevice(0x108), alloc_nested(), attach(50)])
    );
    assert_eq!(
        show(&device.teardown()),
        show(&vec![KernelCall::Detach, destroy(50), destroy(40)])
    );
    assert_eq!(show(&device.teardown()), show(&vec![KernelCall::Detach]));
}

#[test]
fn next_translation_replaces_the_nested_table() {
    let mut device = device();
    drive(&mut device, translate(8), vec![Ok(40), Ok(50), Ok(0)])
        .1
        .unwrap_or_else(|error| panic!("{:?}", error));
    // A failure to destroy the old table does not matter.
    let (calls, result) = drive(&mut device, translate(8), vec![Ok(51), Ok(0), refused()]);
    assert!(result.is_ok());
    assert_eq!(
        show(&calls),
        show(&vec![alloc_nested(), attach(51), destroy(50)])
    );
    let (calls, result) = drive(&mut device, StreamConfig::Abort, vec![Ok(0), Ok(0)]);
    assert!(result.is_ok());
    assert_eq!(show(&calls), show(&vec![attach(30), destroy(51)]));
    assert_eq!(
        show(&device.teardown()),
        show(&vec![KernelCall::Detach, destroy(40)])
    );
}

#[test]
fn failed_attachment_keeps_the_nested_table() {
    let mut device = device();
    assert!(drive(&mut device, translate(8), vec![Ok(40), Ok(50), Ok(0)])
        .1
        .is_ok());
    for (config, target) in [
        (StreamConfig::Abort, AttachTarget::Abort),
        (StreamConfig::Bypass, AttachTarget::S2Parent),
    ] {
        let (calls, result) = drive(&mut device, config, vec![refused()]);
        assert_eq!(calls.len(), 1);
        assert_eq!(result.unwrap_err().step, StreamStep::Attach(target));
    }
    let (calls, result) = drive(&mut device, translate(8), vec![Ok(51), refused()]);
    assert_eq!(show(&calls), show(&vec![alloc_nested(), attach(51)]));
    assert_eq!(
        result.unwrap_err().step,
        StreamStep::Attach(AttachTarget::Nested { hwpt_id: 51 })
    );
    let (calls, _) = drive(&mut device, StreamConfig::Bypass, vec![Ok(0), Ok(0)]);
    assert_eq!(show(&calls), show(&vec![attach(10), destroy(50)]));
}

#[test]
fn failed_allocations() {
    let mut device = device();
    let (calls, result) = drive(&mut device, translate(8), vec![refused()]);
    assert_eq!(show(&calls), show(&vec![alloc_vdevice(8)]));
    assert_eq!(
        result.unwrap_err().step,
        StreamStep::AllocVdevice {
            dev_id: 1,
            stream_id: 8
        }
    );
    // The vDevice stays allocated when the nested table is refused.
    let (_, result) = drive(&mut device, translate(8), vec![Ok(40), refused()]);
    assert_eq!(result.unwrap_err().step, StreamStep::AllocNested);
    let (calls, result) = drive(&mut device, translate(9), vec![Ok(50), Ok(0)]);
    assert!(result.is_ok());
    assert_eq!(show(&calls), show(&vec![alloc_nested(), attach(50)]));
}

#[test]
fn invalidation_is_forwarded_as_two_words() {
    let bytes: [u8; 16] = [
        0x11, 0x22, 0x33, 0x44, 0x55, 0x66, 0x77, 0x88, 0xff, 0, 0, 0, 0, 0, 0, 0x80,
    ];
    assert_eq!(
        show(&device().backend.on_tlbi(&bytes)),
        show(&KernelCall::Invalidate {
            viommu_id: 20,
            cmd: [0x8877_6655_4433_2211, 0x8000_0000_0000_00ff],
        })
    );
    match device().backend.on_tlbi(&[0xff; 16]) {
        KernelCall::Invalidate { cmd, .. } => assert_eq!(cmd, [u64::MAX, u64::MAX]),
        other => panic!("{:?}", other),
    }
}

#[test]
fn any_granted_configurations() {
    let mut device = device();
    let configs = [
        StreamConfig::Bypass,
        translate(0x10),
        translate(0x20),
        StreamConfig::Abort,
        translate(0x30),
    ];
    let mut next: u32 = 100;
    let (mut allocated, mut destroyed, mut attached) = (Vec::new(), Vec::new(), Vec::new());
    let mut sids = Vec::new();
    for config in configs {
        let Device { backend, state } = &mut device;
        let mut transition = backend.set_stream_config(state, config);
        while let Some(call) = backend.call(&transition) {
            next += 1;
            match call {
                KernelCall::AllocHwpt { .. } => allocated.push(next),
                KernelCall::AllocVdevice { virtual_id, .. } => sids.push(virtual_id),
                KernelCall::Attach { hwpt_id } => attached.push(hwpt_id),
                KernelCall::Destroy { id } => destroyed.push(id),
                other => panic!("{:?}", other),
            }
            transition = backend.advance(state, transition, Ok(next));
        }
        assert!(matches!(transition, Transition::Done));
    }
    assert_eq!(sids, vec![0x10]);
    assert_eq!(allocated.len(), 3);
    assert_eq!(destroyed, allocated[..2].to_vec());
    assert_eq!(
        attached,
        vec![10, allocated[0], allocated[1], 30, allocated[2]]
    );
    assert_eq!(
        show(&device.teardown()),
        show(&vec![KernelCall::Detach, destroy(allocated[2]), destroy(102)])
    );
}

#[test]
fn any_answers_keep_track_of_the_attachment() {
    let mut device = device();
    // The vDevice is refused, then granted once; two attachments are refused.
    let steps: Vec<(StreamConfig, Vec<KernelReply>)> = vec![
        (translate(1), vec![refused()]),
        (translate(2), vec![Ok(40), Ok(50), Ok(0)]),
        (StreamConfig::Abort, vec![refused()]),
        (translate(3), vec![Ok(51), refused()]),
        (translate(4), vec![Ok(52), Ok(0), refused()]),
        (StreamConfig::Bypass, vec![refused()]),
    ];
    let mut destroy_requests = Vec::new();
    let mut made = 0;
    for (config, replies) in steps {
        let granted = replies.first().map(|reply| reply.is_ok());
        let (calls, _) = drive(&mut device, config, replies);
        if matches!(calls[0], KernelCall::AllocVdevice { .. }) && granted == Some(true) {
            made += 1;
        }
        for call in calls {
            if let KernelCall::Destroy { id } = call {
                destroy_requests.push(id);
            }
        }
    }
    assert_eq!(made, 1);
    assert_eq!(destroy_requests, vec![50]);
    assert_eq!(
        show(&device.teardown()),
        show(&vec![KernelCall::Detach, destroy(52), destroy(40)])
    );
}
