use bl602_hal::gpio::{
    I2cRole, Parts, PinSetup, SchmittSelect, SignalSelect, SpiRole, PIN_FIELDS_MASK,
};

#[test]
fn pins_know_their_numbers() {
    let parts = Parts::new();
    assert_eq!(parts.pin0.number(), 0);
    assert_eq!(parts.pin7.number(), 7);
    assert_eq!(parts.pin22.number(), 22);
    assert_eq!(parts.uart_mux0.signal(), 0);
    assert_eq!(parts.uart_mux7.signal(), 7);
}

#[test]
fn floating_output_setup() {
    let parts = Parts::new();
    let (pin, setup) = parts.pin5.into_floating_output();
    assert_eq!(pin.number(), 5);
    assert_eq!(
        setup,
        PinSetup {
            pin: 5,
            cfg_register: 2,
            func_sel: 11,
            input_enable: false,
            pull_up: false,
            pull_down: false,
            drive: 0,
            schmitt: false,
            output_enable: true,
        }
    );
}

#[test]
fn gpio_modes_differ_in_pulls_and_direction() {
    let parts = Parts::new();
    let (_, a) = parts.pin0.into_pull_up_output();
    assert_eq!((a.func_sel, a.pull_up, a.pull_down, a.input_enable, a.output_enable), (11, true, false, false, true));
    let (_, b) = parts.pin1.into_pull_down_output();
    assert_eq!((b.func_sel, b.pull_up, b.pull_down, b.input_enable, b.output_enable), (11, false, true, false, true));
    let (_, c) = parts.pin2.into_floating_input();
    assert_eq!((c.func_sel, c.pull_up, c.pull_down, c.input_enable, c.output_enable), (11, false, false, true, false));
    let (_, d) = parts.pin3.into_pull_up_input();
    assert_eq!((d.func_sel, d.pull_up, d.pull_down, d.input_enable, d.output_enable), (11, true, false, true, false));
    let (_, e) = parts.pin4.into_pull_down_input();
    assert_eq!((e.func_sel, e.pull_up, e.pull_down, e.input_enable, e.output_enable), (11, false, true, true, false));
}

#[test]
fn alternate_functions() {
    let parts = Parts::new();
    let (_, uart) = parts.pin16.into_uart();
    assert_eq!((uart.pin, uart.cfg_register, uart.func_sel), (16, 8, 7));
    assert_eq!((uart.pull_up, uart.pull_down, uart.input_enable, uart.output_enable), (true, false, true, false));
    let (_, spi) = parts.pin3.into_spi();
    assert_eq!((spi.pin, spi.cfg_register, spi.func_sel), (3, 1, 4));
    let (_, i2c) = parts.pin22.into_i2c();
    assert_eq!((i2c.pin, i2c.cfg_register, i2c.func_sel), (22, 11, 6));
}

#[test]
fn mode_can_change_again() {
    let parts = Parts::new();
    let (output, _) = parts.pin9.into_floating_output();
    let (input, setup) = output.into_pull_up_input();
    assert_eq!(input.number(), 9);
    assert_eq!(setup.cfg_register, 4);
    assert!(setup.input_enable);
}

#[test]
fn pin_roles() {
    let parts = Parts::new();
    assert_eq!(parts.pin0.uart_signal(), 0);
    assert_eq!(parts.pin7.uart_signal(), 7);
    assert_eq!(parts.pin8.uart_signal(), 0);
    assert_eq!(parts.pin22.uart_signal(), 6);
    assert_eq!(parts.pin0.spi_role(), SpiRole::Miso);
    assert_eq!(parts.pin1.spi_role(), SpiRole::Mosi);
    assert_eq!(parts.pin2.spi_role(), SpiRole::Ss);
    assert_eq!(parts.pin3.spi_role(), SpiRole::Sclk);
    assert_eq!(parts.pin20.spi_role(), SpiRole::Miso);
    assert_eq!(parts.pin22.spi_role(), SpiRole::Ss);
    assert_eq!(parts.pin4.i2c_role(), I2cRole::Scl);
    assert_eq!(parts.pin5.i2c_role(), I2cRole::Sda);
}

#[test]
fn schmitt_trigger_writes() {
    let parts = Parts::new();
    let mut pin = parts.pin11;
    assert_eq!(pin.enable_smitter(), SchmittSelect { pin: 11, cfg_register: 5, enabled: true });
    assert_eq!(pin.disable_smitter(), SchmittSelect { pin: 11, cfg_register: 5, enabled: false });
}

#[test]
fn uart_signal_routing() {
    let parts = Parts::new();
    let (_, a) = parts.uart_mux0.into_uart0_rts();
    assert_eq!(a, SignalSelect { signal: 0, function: 0 });
    let (_, b) = parts.uart_mux1.into_uart0_cts();
    assert_eq!(b, SignalSelect { signal: 1, function: 1 });
    let (_, c) = parts.uart_mux2.into_uart0_tx();
    assert_eq!(c, SignalSelect { signal: 2, function: 2 });
    let (_, d) = parts.uart_mux3.into_uart0_rx();
    assert_eq!(d, SignalSelect { signal: 3, function: 3 });
    let (_, e) = parts.uart_mux4.into_uart1_rts();
    assert_eq!(e, SignalSelect { signal: 4, function: 4 });
    let (_, f) = parts.uart_mux5.into_uart1_cts();
    assert_eq!(f, SignalSelect { signal: 5, function: 5 });
    let (_, g) = parts.uart_mux6.into_uart1_tx();
    assert_eq!(g, SignalSelect { signal: 6, function: 6 });
    let (mux, h) = parts.uart_mux7.into_uart1_rx();
    assert_eq!(h, SignalSelect { signal: 7, function: 7 });
    assert_eq!(mux.signal(), 7);
}

#[test]
fn pin_fields_in_the_register() {
    let parts = Parts::new();
    let (_, output) = parts.pin4.into_floating_output();
    assert_eq!(output.fields(), 0x0b00);
    assert!(!output.upper_half());
    let (_, uart) = parts.pin7.into_uart();
    assert_eq!(uart.fields(), 0x0711);
    assert!(uart.upper_half());
    let (_, down) = parts.pin2.into_pull_down_input();
    assert_eq!(down.fields(), 0x0b21);
    let every = PinSetup {
        pin: 1,
        cfg_register: 0,
        func_sel: 0xff,
        input_enable: true,
        pull_up: true,
        pull_down: true,
        drive: 0xff,
        schmitt: true,
        output_enable: false,
    };
    assert_eq!(every.fields(), PIN_FIELDS_MASK);
}
