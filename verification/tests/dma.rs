use bl602_hal::dma::single_buffer::Config;
use bl602_hal::dma::single_channel::{
    channel_setup, check_irq, config, irq_bit, BurstSize, ChannelSetup, FlowControl,
    SingleChannel, TransferWidth,
};
use bl602_hal::dma::{
    ChannelIndex, DMAExt, MemoryBuffer, ReadTarget, WriteTarget, CH0, CH1, CH2, CH3, DMA,
};

struct UartTx;

impl WriteTarget for UartTx {
    type TransmittedWord = u8;

    fn tx_treq() -> Option<u8> {
        Some(1)
    }

    fn tx_address_count(&mut self) -> (u32, u32) {
        (0x4000_a088, u32::MAX)
    }

    fn tx_increment(&self) -> bool {
        false
    }
}

struct UartRx;

impl ReadTarget for UartRx {
    type ReceivedWord = u8;

    fn rx_treq() -> Option<u8> {
        Some(0)
    }

    fn rx_address_count(&self) -> (u32, u32) {
        (0x4000_a08c, u32::MAX)
    }

    fn rx_increment(&self) -> bool {
        false
    }
}

#[test]
fn engine_is_enabled_on_creation_and_disabled_on_release() {
    let (dma, enable) = DMA::new(42u32);
    assert!(enable);
    let (block, enable) = dma.free();
    assert_eq!(block, 42);
    assert!(!enable);
}

#[test]
fn channels_know_their_indices() {
    let channels = DMA::new(()).0.split();
    assert_eq!(channels.ch0.id(), 0);
    assert_eq!(channels.ch1.id(), 1);
    assert_eq!(channels.ch2.id(), 2);
    assert_eq!(channels.ch3.id(), 3);
    assert_eq!((CH0::id(), CH1::id(), CH2::id(), CH3::id()), (0, 1, 2, 3));
}

#[test]
fn interrupt_bits() {
    assert_eq!((irq_bit(0), irq_bit(1), irq_bit(2), irq_bit(3)), (1, 2, 4, 8));
    assert_eq!(check_irq(0b0100, 2), Some(4));
    assert_eq!(check_irq(0b0100, 1), None);
    assert_eq!(check_irq(0xffff_fff7, 3), None);
    assert_eq!(check_irq(0xffff_ffff, 0), Some(1));
    assert_eq!(check_irq(0, 0), None);
}

#[test]
fn field_values() {
    assert_eq!((TransferWidth::TW8.bits(), TransferWidth::TW16.bits(), TransferWidth::TW32.bits()), (0, 1, 2));
    assert_eq!(
        (BurstSize::BS1.bits(), BurstSize::BS4.bits(), BurstSize::BS8.bits(), BurstSize::BS16.bits()),
        (0, 1, 2, 3)
    );
    assert_eq!(
        (FlowControl::M2M.bits(), FlowControl::M2P.bits(), FlowControl::P2M.bits(), FlowControl::P2P.bits()),
        (0, 1, 2, 3)
    );
}

#[test]
fn memory_to_memory_setup() {
    let setup = channel_setup(2, (0x2000_0000, 100), true, None, (0x2000_1000, 64), true, None);
    assert_eq!(
        setup,
        ChannelSetup {
            transfer_size: 64,
            src_burst: 0,
            dst_burst: 0,
            src_width: 0,
            dst_width: 0,
            src_increment: true,
            dst_increment: true,
            protection: 0,
            tc_interrupt: true,
            src_peripheral: 0,
            dst_peripheral: 0,
            flow_control: FlowControl::M2M,
            tc_mask: false,
            err_mask: true,
            src_addr: 0x2000_0000,
            dst_addr: 0x2000_1000,
            irq_clear: 4,
        }
    );
}

#[test]
fn transfer_size_is_the_smaller_count_up_to_the_limit() {
    let size = |src: u32, dst: u32| channel_setup(0, (0, src), true, None, (0, dst), true, None).transfer_size;
    assert_eq!(size(0, 10), 0);
    assert_eq!(size(10, 3), 3);
    assert_eq!(size(4095, 5000), 4095);
    assert_eq!(size(4096, 5000), 4095);
    assert_eq!(size(u32::MAX, u32::MAX), 4095);
    assert_eq!(size(70_000, 65_536), 4095);
}

#[test]
fn flow_control_follows_the_request_numbers() {
    let flow = |rx: Option<u8>, tx: Option<u8>| {
        let s = channel_setup(1, (0, 1), false, rx, (0, 1), false, tx);
        (s.src_peripheral, s.dst_peripheral, s.flow_control)
    };
    assert_eq!(flow(None, None), (0, 0, FlowControl::M2M));
    assert_eq!(flow(None, Some(9)), (0, 9, FlowControl::M2P));
    assert_eq!(flow(Some(7), None), (7, 0, FlowControl::P2M));
    assert_eq!(flow(Some(7), Some(9)), (7, 9, FlowControl::P2P));
}

#[test]
fn setup_asks_the_targets() {
    let mut channels = DMA::new(()).0.split();
    let from = MemoryBuffer { address: 0x4200_0000, len: 12 };
    let mut to = UartTx;
    let setup = config(&mut channels.ch1, &from, &mut to);
    assert_eq!(setup, channel_setup(1, (0x4200_0000, 12), true, None, (0x4000_a088, u32::MAX), false, Some(1)));
    assert_eq!(setup.transfer_size, 12);
    assert_eq!(setup.flow_control, FlowControl::M2P);
    assert_eq!(setup.irq_clear, 2);
}

#[test]
fn transfer_from_start_to_end() {
    let channels = DMA::new(()).0.split();
    let to = MemoryBuffer { address: 0x4200_0100, len: 8 };
    let (mut transfer, setup) = Config::new(channels.ch3, UartRx, to).start();
    assert_eq!(setup.transfer_size, 8);
    assert_eq!(setup.flow_control, FlowControl::P2M);
    assert_eq!((setup.src_addr, setup.dst_addr), (0x4000_a08c, 0x4200_0100));
    assert_eq!(setup.irq_clear, 8);
    assert!(!transfer.is_done(true));
    assert!(transfer.is_done(false));
    assert_eq!(transfer.check_tc_irq(0b0111), None);
    assert_eq!(transfer.check_tc_irq(0b1000), Some(8));
    assert_eq!(transfer.check_err_irq(0), None);
    assert_eq!(transfer.check_err_irq(0b1111), Some(8));
    let transfer = match transfer.wait(true) {
        Err(still_running) => still_running,
        Ok(_) => panic!("the channel is still enabled"),
    };
    match transfer.wait(false) {
        Ok((ch, _from, to)) => {
            assert_eq!(ch.id(), 3);
            assert_eq!(to, MemoryBuffer { address: 0x4200_0100, len: 8 });
        }
        Err(_) => panic!("the channel is disabled"),
    }
}

#[test]
fn memory_buffer_as_a_target() {
    let mut buffer = MemoryBuffer { address: 0x2000_0040, len: 16 };
    assert_eq!(<MemoryBuffer as ReadTarget>::rx_treq(), None);
    assert_eq!(<MemoryBuffer as WriteTarget>::tx_treq(), None);
    assert_eq!(buffer.rx_address_count(), (0x2000_0040, 16));
    assert_eq!(buffer.tx_address_count(), (0x2000_0040, 16));
    assert!(buffer.rx_increment());
    assert!(buffer.tx_increment());
}

#[test]
fn setup_words() {
    let setup = channel_setup(0, (0, 0x123), true, Some(3), (0, 0x1000), false, Some(0x21));
    assert_eq!(setup.control_word(), 0x8400_0123);
    assert_eq!(setup.config_fields(), 3 << 1 | 1 << 6 | 3 << 11 | 1 << 14);
    let memory = channel_setup(1, (0, 4095), true, None, (0, 4095), true, None);
    assert_eq!(memory.control_word(), 0x8c00_0fff);
    assert_eq!(memory.config_fields(), 0x4000);
    let widest = ChannelSetup {
        transfer_size: u16::MAX,
        src_burst: 0xff,
        dst_burst: 0xff,
        src_width: 0xff,
        dst_width: 0xff,
        protection: 0xff,
        src_peripheral: 0xff,
        dst_peripheral: 0xff,
        tc_mask: true,
        ..setup
    };
    assert_eq!(widest.control_word(), 0xf4ff_ffff);
    assert_eq!(widest.config_fields(), 0xdffe);
}

#[test]
fn transfer_gives_back_what_it_was_built_from() {
    let channels = DMA::new(()).0.split();
    let from = MemoryBuffer { address: 0x4200_0000, len: 32 };
    let to = MemoryBuffer { address: 0x4200_1000, len: 32 };
    let (transfer, setup) = Config::new(channels.ch0, from, to).start();
    assert_eq!(setup, channel_setup(0, (0x4200_0000, 32), true, None, (0x4200_1000, 32), true, None));
    match transfer.wait(false) {
        Ok((ch, source, sink)) => {
            assert_eq!(ch.id(), 0);
            assert_eq!(source, from);
            assert_eq!(sink, to);
        }
        Err(_) => panic!("the channel is disabled"),
    }
}
