use samd_dma::dma::channel::DMA_INVALID_CHANNEL;
use samd_dma::dma::config::{
    dma_get_config_defaults, DmaAddressIncrementStepSize, DmaBeatSize, DmaBlockAction,
    DmaCallbackType, DmaDescriptorConfig, DmaEventInputAction, DmaEventOutputSelection,
    DmaEventsConfig, DmaPriorityLevel, DmaResourceConfig, DmaStepSelection,
    DmaTransferTriggerAction,
};
use samd_dma::dma::controller::DmaController;
use samd_dma::dma::descriptor::DmacDescriptor;
use samd_dma::dma::engine::{_dma_set_config, dma_bring_up, dma_reset_channel};
use samd_dma::dma::registers::{
    chctrlb_value, DmacRegister, HardwareOp, DMAC_CHINTFLAG_SUSP, DMAC_CHINTFLAG_TCMPL,
    DMAC_CHINTFLAG_TERR,
};
use samd_dma::dma::resource::{DmaDispatch, DmaResource, StatusCode};

const DESCRIPTORS: u32 = 0x3000_0000;
const WRITE_BACK: u32 = 0x3000_0100;

fn controller(channels: u8) -> DmaController {
    DmaController::new(channels, DESCRIPTORS, WRITE_BACK).unwrap()
}

fn descriptor(count: u16, valid: bool) -> DmacDescriptor {
    DmacDescriptor::from_config(&DmaDescriptorConfig {
        descriptor_valid: valid,
        event_output_selection: DmaEventOutputSelection::Disable,
        block_action: DmaBlockAction::Int,
        beat_size: DmaBeatSize::Byte,
        src_increment_enable: true,
        dst_increment_enable: true,
        step_selection: DmaStepSelection::Dst,
        step_size: DmaAddressIncrementStepSize::StepSize1,
        block_transfer_count: count,
        source_address: 0x2000_0000,
        destination_address: 0x2000_1000,
        next_descriptor_address: 0,
    })
}

fn nothing() -> DmaDispatch {
    DmaDispatch { event: None, clear: None, callback: None }
}

fn clear(flag: u8) -> Option<HardwareOp> {
    Some(HardwareOp::Write { register: DmacRegister::ChIntFlag, value: flag as u32 })
}

fn allocate(c: &mut DmaController) -> u8 {
    c.dma_allocate(&dma_get_config_defaults()).unwrap().resource.channel_id()
}

fn armed(count: u16) -> DmaController {
    let mut c = controller(2);
    assert_eq!(allocate(&mut c), 0);
    assert!(c.dma_add_descriptor(0, descriptor(count, true)).is_ok());
    assert!(c.dma_start_transfer_job(0).is_ok());
    c
}

#[test]
fn control_word_of_the_defaults() {
    assert_eq!(chctrlb_value(&dma_get_config_defaults()), 0x00c0_0000);
}

#[test]
fn control_word_with_every_field() {
    let config = DmaResourceConfig {
        priority: DmaPriorityLevel::Level2,
        peripheral_trigger: 0x45,
        trigger_action: DmaTransferTriggerAction::Beat,
        event_config: DmaEventsConfig {
            input_action: DmaEventInputAction::Resume,
            event_output_enable: true,
        },
    };
    assert_eq!(chctrlb_value(&config), 0x0080_055d);
}

#[test]
fn event_input_is_enabled_only_with_an_action() {
    let mut config = dma_get_config_defaults();
    config.trigger_action = DmaTransferTriggerAction::Block;
    assert_eq!(chctrlb_value(&config), 0);
    config.event_config.input_action = DmaEventInputAction::Trig;
    assert_eq!(chctrlb_value(&config), 0x09);
    config.event_config.input_action = DmaEventInputAction::SSkip;
    assert_eq!(chctrlb_value(&config), 0x0e);
    config.event_config.input_action = DmaEventInputAction::NoAct;
    config.event_config.event_output_enable = true;
    assert_eq!(chctrlb_value(&config), 0x10);
    config.event_config.event_output_enable = false;
    config.priority = DmaPriorityLevel::Level3;
    assert_eq!(chctrlb_value(&config), 0x60);
    config.priority = DmaPriorityLevel::Level0;
    config.peripheral_trigger = 0x3f;
    assert_eq!(chctrlb_value(&config), 0x3f00);
    config.peripheral_trigger = 0xc0;
    assert_eq!(chctrlb_value(&config), 0);
}

#[test]
fn bring_up_sequence() {
    assert_eq!(
        dma_bring_up(DESCRIPTORS, WRITE_BACK),
        vec![
            HardwareOp::SetBits { register: DmacRegister::AhbMask, mask: 0x20 },
            HardwareOp::SetBits { register: DmacRegister::ApbbMask, mask: 0x10 },
            HardwareOp::Write { register: DmacRegister::Ctrl, value: 0x0001 },
            HardwareOp::Write { register: DmacRegister::BaseAddr, value: DESCRIPTORS },
            HardwareOp::Write { register: DmacRegister::WrbAddr, value: WRITE_BACK },
            HardwareOp::Write { register: DmacRegister::Ctrl, value: 0x0f02 },
        ]
    );
    assert_eq!(
        dma_reset_channel(7),
        vec![
            HardwareOp::Write { register: DmacRegister::ChId, value: 7 },
            HardwareOp::Write { register: DmacRegister::ChCtrlA, value: 0x01 },
        ]
    );
}

#[test]
fn set_config_selects_clears_trigger_and_writes_control() {
    let mut c = controller(4);
    allocate(&mut c);
    allocate(&mut c);
    let third = c.dma_allocate(&dma_get_config_defaults()).unwrap().resource;
    assert_eq!(third.channel_id(), 2);
    let mut config = dma_get_config_defaults();
    config.priority = DmaPriorityLevel::Level1;
    let ops = _dma_set_config(&third, &config);
    assert_eq!(
        ops,
        vec![
            HardwareOp::Write { register: DmacRegister::ChId, value: 2 },
            HardwareOp::ClearBits { register: DmacRegister::SwTrigCtrl, mask: 0x4 },
            HardwareOp::Write { register: DmacRegister::ChCtrlB, value: 0x00c0_0020 },
        ]
    );
    assert_eq!(_dma_set_config(&third, &config), ops);
}

#[test]
fn no_controller_for_zero_or_too_many_channels() {
    assert!(DmaController::new(0, 0, 0).is_none());
    assert!(DmaController::new(33, 0, 0).is_none());
    assert!(DmaController::new(32, 0, 0).is_some());
}

#[test]
fn new_controller_holds_nothing() {
    let c = controller(2);
    assert!(!c.is_initialized());
    assert_eq!(c.channel_count(), 2);
    assert_eq!(c.free_channel_count(), 2);
    assert_eq!(c.resource(0), None);
    assert_eq!(c.resource(1), None);
    assert_eq!(c.resource(2), None);
    assert_eq!(c.descriptor(0), Some(DmacDescriptor::new()));
    assert_eq!(c.write_back(1), Some(DmacDescriptor::new()));
    assert_eq!(c.descriptor(2), None);
}

#[test]
fn first_allocation_brings_the_hardware_up() {
    let mut c = controller(2);
    let config = dma_get_config_defaults();
    let first = c.dma_allocate(&config).unwrap();
    assert_eq!(first.resource.channel_id(), 0);
    assert_eq!(first.resource.job_status(), StatusCode::Uninitialized);
    assert_eq!(first.resource.transferred_size(), 0);
    assert_eq!(first.resource.descriptor(), DmacDescriptor::new());
    let mut expected = dma_bring_up(DESCRIPTORS, WRITE_BACK);
    expected.push(HardwareOp::Write { register: DmacRegister::ChId, value: 0 });
    expected.push(HardwareOp::Write { register: DmacRegister::ChCtrlA, value: 1 });
    expected.push(HardwareOp::Write { register: DmacRegister::ChId, value: 0 });
    expected.push(HardwareOp::ClearBits { register: DmacRegister::SwTrigCtrl, mask: 1 });
    expected.push(HardwareOp::Write { register: DmacRegister::ChCtrlB, value: 0x00c0_0000 });
    assert_eq!(first.ops, expected);
    assert_eq!(first.ops.len(), 11);
    assert!(c.is_initialized());
    assert_eq!(c.resource(0), Some(first.resource));

    let second = c.dma_allocate(&config).unwrap();
    assert_eq!(second.resource.channel_id(), 1);
    assert_eq!(
        second.ops,
        vec![
            HardwareOp::Write { register: DmacRegister::ChId, value: 1 },
            HardwareOp::Write { register: DmacRegister::ChCtrlA, value: 1 },
            HardwareOp::Write { register: DmacRegister::ChId, value: 1 },
            HardwareOp::ClearBits { register: DmacRegister::SwTrigCtrl, mask: 2 },
            HardwareOp::Write { register: DmacRegister::ChCtrlB, value: 0x00c0_0000 },
        ]
    );
}

#[test]
fn capacity_two_scenario() {
    let mut c = controller(2);
    let a = allocate(&mut c);
    let b = allocate(&mut c);
    assert_eq!((a, b), (0, 1));
    let third = c.dma_allocate(&dma_get_config_defaults());
    assert!(matches!(third, Err(StatusCode::ErrNotFound)));
    assert!(c.dma_release(0));
    assert_eq!(allocate(&mut c), 0);
}

#[test]
fn exhaustion_touches_nothing() {
    let mut c = controller(1);
    allocate(&mut c);
    assert!(c.enable_callback(0, DmaCallbackType::Done));
    let before = c.resource(0);
    for _ in 0..3 {
        assert!(matches!(c.dma_allocate(&dma_get_config_defaults()), Err(StatusCode::ErrNotFound)));
        assert_eq!(c.free_channel_count(), 0);
        assert_eq!(c.resource(0), before);
    }
}

#[test]
fn release_clears_the_registry_and_frees_the_channel() {
    let mut c = controller(3);
    allocate(&mut c);
    allocate(&mut c);
    assert_eq!(c.free_channel_count(), 1);
    assert!(c.dma_release(1));
    assert_eq!(c.resource(1), None);
    assert_eq!(c.free_channel_count(), 2);
    assert!(!c.dma_release(1));
    assert!(!c.dma_release(2));
    assert!(!c.dma_release(3));
    assert!(!c.dma_release(DMA_INVALID_CHANNEL));
    assert_eq!(c.free_channel_count(), 2);
    assert!(c.resource(0).is_some());
    assert_eq!(allocate(&mut c), 1);
}

#[test]
fn stale_interrupt_is_absorbed() {
    let mut c = controller(2);
    assert_eq!(c.dmac_handler_select(0), None);
    assert_eq!(c.dmac_handler(0, DMAC_CHINTFLAG_TCMPL), nothing());
    allocate(&mut c);
    assert!(c.enable_callback(0, DmaCallbackType::Done));
    assert_eq!(c.dmac_handler_select(1), None);
    assert_eq!(c.dmac_handler(1, 0x07), nothing());
    assert_eq!(c.dmac_handler(2, 0x07), nothing());
    assert_eq!(c.dmac_handler(DMA_INVALID_CHANNEL, 0x07), nothing());
    assert_eq!(c.resource(0).unwrap().job_status(), StatusCode::Uninitialized);
    assert!(c.dma_release(0));
    assert_eq!(c.dmac_handler_select(0), None);
    assert_eq!(c.dmac_handler(0, DMAC_CHINTFLAG_TCMPL), nothing());
    assert_eq!(c.resource(0), None);
}

#[test]
fn handler_selects_the_channel_of_a_resource() {
    let mut c = controller(2);
    allocate(&mut c);
    allocate(&mut c);
    assert_eq!(
        c.dmac_handler_select(1),
        Some(HardwareOp::Write { register: DmacRegister::ChId, value: 1 })
    );
}

#[test]
fn only_done_enabled_gets_no_call_on_error() {
    let mut c = controller(2);
    allocate(&mut c);
    assert!(c.enable_callback(0, DmaCallbackType::Done));
    let d = c.dmac_handler(0, DMAC_CHINTFLAG_TERR);
    assert_eq!(d.event, Some(DmaCallbackType::Error));
    assert_eq!(d.callback, None);
    assert_eq!(d.clear, clear(DMAC_CHINTFLAG_TERR));
    assert_eq!(c.resource(0).unwrap().job_status(), StatusCode::ErrIO);
    let d = c.dmac_handler(0, DMAC_CHINTFLAG_SUSP);
    assert_eq!(d.callback, None);
    let d = c.dmac_handler(0, DMAC_CHINTFLAG_TCMPL);
    assert_eq!(d.callback, Some(DmaCallbackType::Done));
}

#[test]
fn each_event_sets_its_status_and_clears_its_flag() {
    let mut c = controller(1);
    allocate(&mut c);
    assert!(c.enable_callback(0, DmaCallbackType::Error));
    assert!(c.enable_callback(0, DmaCallbackType::Done));
    assert!(c.enable_callback(0, DmaCallbackType::Suspend));

    let d = c.dmac_handler(0, DMAC_CHINTFLAG_SUSP);
    assert_eq!(
        d,
        DmaDispatch {
            event: Some(DmaCallbackType::Suspend),
            clear: clear(0x04),
            callback: Some(DmaCallbackType::Suspend),
        }
    );
    assert_eq!(c.resource(0).unwrap().job_status(), StatusCode::Suspend);

    let d = c.dmac_handler(0, DMAC_CHINTFLAG_TCMPL);
    assert_eq!(
        d,
        DmaDispatch {
            event: Some(DmaCallbackType::Done),
            clear: clear(0x02),
            callback: Some(DmaCallbackType::Done),
        }
    );
    assert_eq!(c.resource(0).unwrap().job_status(), StatusCode::OK);

    let d = c.dmac_handler(0, DMAC_CHINTFLAG_TERR);
    assert_eq!(
        d,
        DmaDispatch {
            event: Some(DmaCallbackType::Error),
            clear: clear(0x01),
            callback: Some(DmaCallbackType::Error),
        }
    );
    assert_eq!(c.resource(0).unwrap().job_status(), StatusCode::ErrIO);

    assert_eq!(c.dmac_handler(0, 0), nothing());
    assert_eq!(c.dmac_handler(0, 0xf8), nothing());
    assert_eq!(c.resource(0).unwrap().job_status(), StatusCode::ErrIO);
}

#[test]
fn error_goes_before_done_and_done_before_suspend() {
    let mut c = controller(1);
    allocate(&mut c);
    assert!(c.enable_callback(0, DmaCallbackType::Error));
    assert!(c.enable_callback(0, DmaCallbackType::Done));
    assert!(c.enable_callback(0, DmaCallbackType::Suspend));
    assert_eq!(c.dmac_handler(0, 0x07).event, Some(DmaCallbackType::Error));
    assert_eq!(c.dmac_handler(0, 0x03).event, Some(DmaCallbackType::Error));
    assert_eq!(c.dmac_handler(0, 0x05).event, Some(DmaCallbackType::Error));
    assert_eq!(c.dmac_handler(0, 0x06).event, Some(DmaCallbackType::Done));
    assert_eq!(c.dmac_handler(0, 0x06).clear, clear(0x02));
    assert_eq!(c.resource(0).unwrap().job_status(), StatusCode::OK);
}

#[test]
fn callbacks_can_be_enabled_and_disabled() {
    let mut c = controller(2);
    allocate(&mut c);
    assert!(!c.enable_callback(1, DmaCallbackType::Done));
    assert!(!c.enable_callback(0, DmaCallbackType::N));
    assert!(!c.disable_callback(0, DmaCallbackType::N));
    assert!(!c.disable_callback(5, DmaCallbackType::Done));
    let r = c.resource(0).unwrap();
    assert!(!r.callback_enabled(DmaCallbackType::Error));
    assert!(!r.callback_enabled(DmaCallbackType::Done));
    assert!(!r.callback_enabled(DmaCallbackType::Suspend));
    assert!(!r.callback_enabled(DmaCallbackType::N));
    assert!(c.enable_callback(0, DmaCallbackType::Suspend));
    assert!(c.enable_callback(0, DmaCallbackType::Error));
    let r = c.resource(0).unwrap();
    assert!(r.callback_enabled(DmaCallbackType::Error));
    assert!(!r.callback_enabled(DmaCallbackType::Done));
    assert!(r.callback_enabled(DmaCallbackType::Suspend));
    assert!(c.disable_callback(0, DmaCallbackType::Error));
    assert!(c.disable_callback(0, DmaCallbackType::Done));
    let r = c.resource(0).unwrap();
    assert!(!r.callback_enabled(DmaCallbackType::Error));
    assert!(r.callback_enabled(DmaCallbackType::Suspend));
    assert_eq!(c.dmac_handler(0, 0x01).callback, None);
    assert_eq!(c.dmac_handler(0, 0x04).callback, Some(DmaCallbackType::Suspend));
}

#[test]
fn unallocated_resource() {
    let mut r = DmaResource::new();
    assert_eq!(r.channel_id(), DMA_INVALID_CHANNEL);
    assert_eq!(r.job_status(), StatusCode::Uninitialized);
    assert_eq!(r.transferred_size(), 0);
    assert!(r.enable_callback(DmaCallbackType::Done));
    assert!(!r.enable_callback(DmaCallbackType::N));
    assert!(r.callback_enabled(DmaCallbackType::Done));
    let d = r.handle_interrupt(0x02, 9);
    assert_eq!(d.callback, Some(DmaCallbackType::Done));
    assert_eq!(r.transferred_size(), 9);
    assert_eq!(r.job_status(), StatusCode::OK);
    assert!(r.disable_callback(DmaCallbackType::Done));
    assert_eq!(r.handle_interrupt(0x02, 3).callback, None);
    assert_eq!(r.transferred_size(), 3);
}

#[test]
fn never_started_transfer_has_moved_nothing() {
    let mut c = controller(2);
    allocate(&mut c);
    c.dmac_handler(0, DMAC_CHINTFLAG_TCMPL);
    assert_eq!(c.resource(0).unwrap().transferred_size(), 0);

    allocate(&mut c);
    assert!(c.dma_add_descriptor(1, descriptor(500, true)).is_ok());
    assert_eq!(c.descriptor(1).unwrap().btcnt, 500);
    assert_eq!(c.write_back(1).unwrap().btcnt, 500);
    let mut left = descriptor(500, true);
    left.btcnt = 100;
    assert!(!c.record_write_back(1, left));
    c.dmac_handler(1, 0);
    assert_eq!(c.resource(1).unwrap().transferred_size(), 0);
    assert_eq!(c.resource(1).unwrap().job_status(), StatusCode::Uninitialized);
}

#[test]
fn transferred_is_count_less_remaining() {
    for (count, remaining) in [(100u16, 40u16), (100, 0), (100, 100), (1, 0), (0xffff, 1), (7, 7)] {
        let mut c = armed(count);
        let mut left = descriptor(count, true);
        left.btcnt = remaining;
        assert!(c.record_write_back(0, left));
        c.dmac_handler(0, DMAC_CHINTFLAG_TCMPL);
        let r = c.resource(0).unwrap();
        assert_eq!(r.transferred_size(), (count - remaining) as u32);
        assert_eq!(r.job_status(), StatusCode::OK);
    }
}

#[test]
fn transferred_is_computed_anew_at_every_interrupt() {
    let mut c = armed(64);
    let mut left = descriptor(64, true);
    left.btcnt = 48;
    assert!(c.record_write_back(0, left));
    c.dmac_handler(0, DMAC_CHINTFLAG_SUSP);
    assert_eq!(c.resource(0).unwrap().transferred_size(), 16);
    left.btcnt = 0;
    assert!(c.record_write_back(0, left));
    c.dmac_handler(0, 0);
    assert_eq!(c.resource(0).unwrap().transferred_size(), 64);
    assert_eq!(c.resource(0).unwrap().job_status(), StatusCode::Suspend);
}

#[test]
fn write_back_beyond_the_block_is_refused() {
    let mut c = armed(10);
    let mut left = descriptor(10, true);
    left.btcnt = 11;
    assert!(!c.record_write_back(0, left));
    assert!(!c.record_write_back(1, descriptor(0, true)));
    assert!(!c.record_write_back(2, descriptor(0, true)));
    c.dmac_handler(0, DMAC_CHINTFLAG_TCMPL);
    assert_eq!(c.resource(0).unwrap().transferred_size(), 0);
}

#[test]
fn add_descriptor_installs_it() {
    let mut c = controller(2);
    allocate(&mut c);
    let d = descriptor(12, true);
    assert_eq!(
        c.dma_add_descriptor(0, d),
        Ok(HardwareOp::StoreDescriptor { channel: 0, descriptor: d })
    );
    assert_eq!(c.resource(0).unwrap().descriptor(), d);
    assert_eq!(c.descriptor(0), Some(d));
    assert_eq!(c.write_back(0), Some(d));
    assert_eq!(c.dma_add_descriptor(1, d), Err(StatusCode::ErrInvalidArg));
    assert_eq!(c.dma_add_descriptor(2, d), Err(StatusCode::ErrInvalidArg));
    assert_eq!(c.descriptor(1), Some(DmacDescriptor::new()));
}

#[test]
fn start_transfer_makes_the_job_busy() {
    let mut c = controller(2);
    allocate(&mut c);
    assert_eq!(c.dma_start_transfer_job(1), Err(StatusCode::ErrInvalidArg));
    assert_eq!(c.dma_start_transfer_job(9), Err(StatusCode::ErrInvalidArg));
    assert_eq!(c.dma_start_transfer_job(0), Err(StatusCode::ErrInvalidArg));
    assert!(c.dma_add_descriptor(0, descriptor(8, false)).is_ok());
    assert_eq!(c.dma_start_transfer_job(0), Err(StatusCode::ErrInvalidArg));
    assert_eq!(c.resource(0).unwrap().job_status(), StatusCode::Uninitialized);
    assert!(c.dma_add_descriptor(0, descriptor(8, true)).is_ok());
    assert_eq!(
        c.dma_start_transfer_job(0),
        Ok(vec![
            HardwareOp::Write { register: DmacRegister::ChId, value: 0 },
            HardwareOp::SetBits { register: DmacRegister::ChCtrlA, mask: 0x02 },
        ])
    );
    assert_eq!(c.resource(0).unwrap().job_status(), StatusCode::Busy);
    assert_eq!(c.dma_start_transfer_job(0), Err(StatusCode::Busy));
    assert_eq!(c.dma_add_descriptor(0, descriptor(9, true)), Err(StatusCode::Busy));
    assert_eq!(c.descriptor(0).unwrap().btcnt, 8);
}

#[test]
fn a_finished_job_can_be_started_again() {
    let mut c = armed(20);
    let mut left = descriptor(20, true);
    left.btcnt = 0;
    assert!(c.record_write_back(0, left));
    c.dmac_handler(0, DMAC_CHINTFLAG_TCMPL);
    assert_eq!(c.resource(0).unwrap().transferred_size(), 20);
    assert!(c.dma_start_transfer_job(0).is_ok());
    assert_eq!(c.write_back(0).unwrap().btcnt, 20);
    c.dmac_handler(0, 0);
    assert_eq!(c.resource(0).unwrap().transferred_size(), 0);
    assert_eq!(c.resource(0).unwrap().job_status(), StatusCode::Busy);
}

#[test]
fn a_reallocated_channel_starts_afresh() {
    let mut c = armed(30);
    assert!(c.enable_callback(0, DmaCallbackType::Error));
    let mut left = descriptor(30, true);
    left.btcnt = 10;
    assert!(c.record_write_back(0, left));
    assert!(c.dma_release(0));
    let again = c.dma_allocate(&dma_get_config_defaults()).unwrap();
    assert_eq!(again.resource.channel_id(), 0);
    assert_eq!(again.ops.len(), 5);
    assert_eq!(c.resource(0), Some(again.resource));
    assert!(!again.resource.callback_enabled(DmaCallbackType::Error));
    assert_eq!(c.descriptor(0), Some(DmacDescriptor::new()));
    assert_eq!(c.write_back(0), Some(DmacDescriptor::new()));
    let d = c.dmac_handler(0, DMAC_CHINTFLAG_TERR);
    assert_eq!(d.callback, None);
    assert_eq!(c.resource(0).unwrap().transferred_size(), 0);
}

#[test]
fn configure_needs_a_resource() {
    let mut c = controller(3);
    allocate(&mut c);
    allocate(&mut c);
    let mut config = dma_get_config_defaults();
    config.peripheral_trigger = 0x12;
    config.trigger_action = DmaTransferTriggerAction::Beat;
    assert_eq!(
        c.configure(1, &config),
        Ok(vec![
            HardwareOp::Write { register: DmacRegister::ChId, value: 1 },
            HardwareOp::ClearBits { register: DmacRegister::SwTrigCtrl, mask: 2 },
            HardwareOp::Write { register: DmacRegister::ChCtrlB, value: 0x0080_1200 },
        ])
    );
    assert_eq!(c.configure(1, &config), c.configure(1, &config));
    assert_eq!(c.configure(2, &config), Err(StatusCode::ErrInvalidArg));
    assert_eq!(c.configure(3, &config), Err(StatusCode::ErrInvalidArg));
    assert_eq!(c.configure(DMA_INVALID_CHANNEL, &config), Err(StatusCode::ErrInvalidArg));
}
