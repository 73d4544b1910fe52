use samd_dma::dma::config::{
    dma_get_config_defaults, DmaAddressIncrementStepSize, DmaBeatSize, DmaBlockAction,
    DmaCallbackType, DmaDescriptorConfig, DmaEventInputAction, DmaEventOutputSelection,
    DmaEventsConfig, DmaPriorityLevel, DmaResourceConfig, DmaStepSelection,
    DmaTransferTriggerAction,
};
use samd_dma::dma::descriptor::{BtCtrlType, DmacDescriptor};
use samd_dma::dma::store::DescriptorStore;

fn sample_config() -> DmaDescriptorConfig {
    DmaDescriptorConfig {
        descriptor_valid: true,
        event_output_selection: DmaEventOutputSelection::Beat,
        block_action: DmaBlockAction::Int,
        beat_size: DmaBeatSize::Word,
        src_increment_enable: true,
        dst_increment_enable: false,
        step_selection: DmaStepSelection::Src,
        step_size: DmaAddressIncrementStepSize::StepSize128,
        block_transfer_count: 100,
        source_address: 0x2000_0100,
        destination_address: 0x4200_0828,
        next_descriptor_address: 0,
    }
}

#[test]
fn config_defaults() {
    let config = dma_get_config_defaults();
    assert_eq!(
        config,
        DmaResourceConfig {
            priority: DmaPriorityLevel::Level0,
            peripheral_trigger: 0,
            trigger_action: DmaTransferTriggerAction::Transaction,
            event_config: DmaEventsConfig {
                input_action: DmaEventInputAction::NoAct,
                event_output_enable: false,
            },
        }
    );
}

#[test]
fn field_values_of_the_enums() {
    assert_eq!(DmaPriorityLevel::Level0.bits(), 0);
    assert_eq!(DmaPriorityLevel::Level3.bits(), 3);
    assert_eq!(DmaEventInputAction::NoAct.bits(), 0);
    assert_eq!(DmaEventInputAction::Trig.bits(), 1);
    assert_eq!(DmaEventInputAction::CTrig.bits(), 2);
    assert_eq!(DmaEventInputAction::CBlock.bits(), 3);
    assert_eq!(DmaEventInputAction::Suspend.bits(), 4);
    assert_eq!(DmaEventInputAction::Resume.bits(), 5);
    assert_eq!(DmaEventInputAction::SSkip.bits(), 6);
    assert_eq!(DmaAddressIncrementStepSize::StepSize1.bits(), 0);
    assert_eq!(DmaAddressIncrementStepSize::StepSize16.bits(), 4);
    assert_eq!(DmaAddressIncrementStepSize::StepSize128.bits(), 7);
    assert_eq!(DmaStepSelection::Dst.bits(), 0);
    assert_eq!(DmaStepSelection::Src.bits(), 1);
    assert_eq!(DmaBeatSize::Byte.bits(), 0);
    assert_eq!(DmaBeatSize::Hword.bits(), 1);
    assert_eq!(DmaBeatSize::Word.bits(), 2);
    assert_eq!(DmaBlockAction::NoAct.bits(), 0);
    assert_eq!(DmaBlockAction::Both.bits(), 3);
    assert_eq!(DmaEventOutputSelection::Disable.bits(), 0);
    assert_eq!(DmaEventOutputSelection::Block.bits(), 1);
    assert_eq!(DmaEventOutputSelection::Reserved.bits(), 2);
    assert_eq!(DmaEventOutputSelection::Beat.bits(), 3);
    assert_eq!(DmaTransferTriggerAction::Block.bits(), 0);
    assert_eq!(DmaTransferTriggerAction::Beat.bits(), 2);
    assert_eq!(DmaTransferTriggerAction::Transaction.bits(), 3);
    assert_eq!(DmaCallbackType::Error.index(), 0);
    assert_eq!(DmaCallbackType::Done.index(), 1);
    assert_eq!(DmaCallbackType::Suspend.index(), 2);
    assert_eq!(DmaCallbackType::N.index(), 3);
}

#[test]
fn descriptor_from_config_packs_every_field() {
    let d = DmacDescriptor::from_config(&sample_config());
    assert_eq!(d.btctrl.bits(), 0xf60f);
    assert!(d.btctrl.valid());
    assert_eq!(d.btctrl.evosel(), 3);
    assert_eq!(d.btctrl.blockact(), 1);
    assert_eq!(d.btctrl.beatsize(), 2);
    assert!(d.btctrl.srcinc());
    assert!(!d.btctrl.dstinc());
    assert!(d.btctrl.stepsel());
    assert_eq!(d.btctrl.stepsize(), 7);
    assert_eq!(d.btcnt, 100);
    assert_eq!(d.src_addr, 0x2000_0100);
    assert_eq!(d.dst_addr, 0x4200_0828);
    assert_eq!(d.desc_addr, 0);
}

#[test]
fn descriptor_of_an_all_zero_config_is_the_empty_one_but_for_its_words() {
    let config = DmaDescriptorConfig {
        descriptor_valid: false,
        event_output_selection: DmaEventOutputSelection::Disable,
        block_action: DmaBlockAction::NoAct,
        beat_size: DmaBeatSize::Byte,
        src_increment_enable: false,
        dst_increment_enable: false,
        step_selection: DmaStepSelection::Dst,
        step_size: DmaAddressIncrementStepSize::StepSize1,
        block_transfer_count: 0,
        source_address: 0,
        destination_address: 0,
        next_descriptor_address: 0,
    };
    assert_eq!(DmacDescriptor::from_config(&config), DmacDescriptor::new());
    assert_eq!(DmacDescriptor::new().btctrl.bits(), 0);
    assert!(!DmacDescriptor::new().btctrl.valid());
}

#[test]
fn each_single_field_lands_in_its_bits() {
    let mut w = BtCtrlType::new();
    w.set_valid(true);
    assert_eq!(w.bits(), 0x0001);
    let mut w = BtCtrlType::new();
    w.set_evosel(1);
    assert_eq!(w.bits(), 0x0002);
    let mut w = BtCtrlType::new();
    w.set_blockact(3);
    assert_eq!(w.bits(), 0x0018);
    let mut w = BtCtrlType::new();
    w.set_beatsize(1);
    assert_eq!(w.bits(), 0x0100);
    let mut w = BtCtrlType::new();
    w.set_srcinc(true);
    assert_eq!(w.bits(), 0x0400);
    let mut w = BtCtrlType::new();
    w.set_dstinc(true);
    assert_eq!(w.bits(), 0x0800);
    let mut w = BtCtrlType::new();
    w.set_stepsel(true);
    assert_eq!(w.bits(), 0x1000);
    let mut w = BtCtrlType::new();
    w.set_stepsize(5);
    assert_eq!(w.bits(), 0xa000);
}

#[test]
fn setters_keep_the_other_fields_and_cut_the_value_to_the_field() {
    let mut w = DmacDescriptor::from_config(&sample_config()).btctrl;
    w.set_evosel(0xfffd);
    assert_eq!(w.evosel(), 1);
    assert_eq!(w.bits(), 0xf60b);
    w.set_stepsize(8);
    assert_eq!(w.stepsize(), 0);
    assert_eq!(w.bits(), 0x160b);
    w.set_valid(false);
    assert_eq!(w.bits(), 0x160a);
    w.set_srcinc(false);
    w.set_dstinc(true);
    assert_eq!(w.bits(), 0x1a0a);
    w.set_stepsel(false);
    w.set_beatsize(0);
    w.set_blockact(0);
    assert_eq!(w.bits(), 0x0802);
}

#[test]
fn new_store_is_empty() {
    let store = DescriptorStore::new(3, 0x3000_0000, 0x3000_0040);
    assert_eq!(store.channel_count(), 3);
    assert_eq!(store.descriptor_base(), 0x3000_0000);
    assert_eq!(store.write_back_base(), 0x3000_0040);
    for channel in 0..3u8 {
        assert_eq!(store.descriptor(channel), Some(DmacDescriptor::new()));
        assert_eq!(store.write_back(channel), Some(DmacDescriptor::new()));
        assert_eq!(store.transferred(channel), Some(0));
    }
    assert_eq!(store.descriptor(3), None);
    assert_eq!(store.write_back(3), None);
    assert_eq!(store.transferred(3), None);
}

#[test]
fn store_counts_what_is_transferred() {
    let mut store = DescriptorStore::new(2, 0, 0);
    let d = DmacDescriptor::from_config(&sample_config());
    assert!(store.install(1, d));
    assert_eq!(store.descriptor(1), Some(d));
    assert_eq!(store.write_back(1), Some(d));
    assert_eq!(store.transferred(1), Some(0));
    assert_eq!(store.descriptor(0), Some(DmacDescriptor::new()));

    let mut left = d;
    left.btcnt = 37;
    assert!(store.record_write_back(1, left));
    assert_eq!(store.transferred(1), Some(63));
    assert_eq!(store.descriptor(1), Some(d));
    assert_eq!(store.write_back(1), Some(left));

    left.btcnt = 0;
    assert!(store.record_write_back(1, left));
    assert_eq!(store.transferred(1), Some(100));
    left.btcnt = 100;
    assert!(store.record_write_back(1, left));
    assert_eq!(store.transferred(1), Some(0));
}

#[test]
fn store_refuses_what_cannot_be() {
    let mut store = DescriptorStore::new(2, 0, 0);
    let d = DmacDescriptor::from_config(&sample_config());
    assert!(!store.install(2, d));
    assert!(store.install(0, d));
    let mut left = d;
    left.btcnt = 101;
    assert!(!store.record_write_back(0, left));
    assert_eq!(store.write_back(0), Some(d));
    left.btcnt = 1;
    assert!(!store.record_write_back(1, left));
    assert!(!store.record_write_back(2, left));
    assert_eq!(store.transferred(0), Some(0));
    assert_eq!(store.transferred(1), Some(0));
}

#[test]
fn full_block_count_fits() {
    let mut store = DescriptorStore::new(1, 0, 0);
    let mut d = DmacDescriptor::new();
    d.btcnt = 0xffff;
    assert!(store.install(0, d));
    let mut left = d;
    left.btcnt = 0;
    assert!(store.record_write_back(0, left));
    assert_eq!(store.transferred(0), Some(0xffff));
}
