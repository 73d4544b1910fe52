use samd_dma::qspi::{
    Command, Error, InstructionFrame, Qspi, QspiOp, QspiRegister, TransferType, Width, QSPI_AHB,
};

const ALL: [Command; 16] = [
    Command::Read,
    Command::QuadRead,
    Command::ReadId,
    Command::PageProgram,
    Command::QuadPageProgram,
    Command::ReadStatus,
    Command::ReadStatus2,
    Command::WriteStatus,
    Command::WriteStatus2,
    Command::EnableReset,
    Command::Reset,
    Command::WriteEnable,
    Command::WriteDisable,
    Command::EraseSector,
    Command::EraseBlock,
    Command::EraseChip,
];

fn finish() -> Vec<QspiOp> {
    vec![
        QspiOp::Write { register: QspiRegister::CtrlA, value: 0x0100_0002 },
        QspiOp::WaitFor { flag: 0x400 },
        QspiOp::Modify { register: QspiRegister::IntFlag, clear: 0, set: 0x400 },
    ]
}

#[test]
fn instruction_bytes() {
    let bytes: Vec<u8> = ALL.iter().map(|c| c.bits()).collect();
    assert_eq!(
        bytes,
        vec![
            0x03, 0x6b, 0x9f, 0x02, 0x32, 0x05, 0x35, 0x01, 0x31, 0x66, 0x99, 0x06, 0x04, 0x20,
            0xd8, 0xc7
        ]
    );
    assert_eq!(QSPI_AHB, 0x0400_0000);
}

#[test]
fn each_function_takes_its_own_commands() {
    let qspi = Qspi::new();
    for command in ALL {
        let plain = matches!(
            command,
            Command::WriteEnable | Command::WriteDisable | Command::Reset | Command::EnableReset
        );
        let read = matches!(
            command,
            Command::Read
                | Command::QuadRead
                | Command::ReadId
                | Command::ReadStatus
                | Command::ReadStatus2
        );
        let write = matches!(
            command,
            Command::PageProgram
                | Command::QuadPageProgram
                | Command::WriteStatus
                | Command::WriteStatus2
        );
        let erase =
            matches!(command, Command::EraseSector | Command::EraseBlock | Command::EraseChip);
        assert_eq!(qspi.run_command(command).is_ok(), plain);
        assert_eq!(qspi.read_command(command, 4).is_ok(), read);
        assert_eq!(qspi.write_command(command, 4).is_ok(), write);
        assert_eq!(qspi.erase_command(command, 0x1000).is_ok(), erase);
        if !plain {
            assert_eq!(qspi.run_command(command), Err(Error::CommandFunctionMismatch));
        }
        if !read {
            assert_eq!(qspi.read_command(command, 4), Err(Error::CommandFunctionMismatch));
        }
        if !write {
            assert_eq!(qspi.write_command(command, 4), Err(Error::CommandFunctionMismatch));
        }
        if !erase {
            assert_eq!(qspi.erase_command(command, 0), Err(Error::CommandFunctionMismatch));
        }
    }
}

#[test]
fn frame_words() {
    let frame = InstructionFrame {
        width: Width::QuadOutput,
        tfrtype: TransferType::ReadMemory,
        instren: true,
        addren: true,
        dataen: true,
        dummylen: 8,
    };
    assert_eq!(frame.bits(), 0x0008_10b2);
    let frame = InstructionFrame {
        width: Width::SingleBitSpi,
        tfrtype: TransferType::Write,
        instren: false,
        addren: false,
        dataen: false,
        dummylen: 0xff,
    };
    assert_eq!(frame.bits(), 0x001f_2000);
    let frame = InstructionFrame {
        width: Width::SingleBitSpi,
        tfrtype: TransferType::WriteMemory,
        instren: false,
        addren: false,
        dataen: true,
        dummylen: 0,
    };
    assert_eq!(frame.bits(), 0x0000_3080);
}

#[test]
fn plain_command_steps() {
    let mut expected = vec![
        QspiOp::Write { register: QspiRegister::InstrFrame, value: 0x10 },
        QspiOp::Write { register: QspiRegister::InstrCtrl, value: 0x06 },
        QspiOp::Read { register: QspiRegister::InstrFrame },
    ];
    expected.extend(finish());
    assert_eq!(Qspi::new().run_command(Command::WriteEnable), Ok(expected));
}

#[test]
fn read_command_steps() {
    let mut expected = vec![
        QspiOp::Write { register: QspiRegister::InstrFrame, value: 0x90 },
        QspiOp::Write { register: QspiRegister::InstrCtrl, value: 0x9f },
        QspiOp::Read { register: QspiRegister::InstrFrame },
        QspiOp::CopyFromMemory { offset: 0, len: 3 },
    ];
    expected.extend(finish());
    assert_eq!(Qspi::new().read_command(Command::ReadId, 3), Ok(expected));

    let mut expected = vec![
        QspiOp::Write { register: QspiRegister::InstrFrame, value: 0x90 },
        QspiOp::Write { register: QspiRegister::InstrCtrl, value: 0x05 },
        QspiOp::Read { register: QspiRegister::InstrFrame },
    ];
    expected.extend(finish());
    assert_eq!(Qspi::new().read_command(Command::ReadStatus, 0), Ok(expected));
}

#[test]
fn write_command_steps() {
    let mut expected = vec![
        QspiOp::Write { register: QspiRegister::InstrFrame, value: 0x2090 },
        QspiOp::Write { register: QspiRegister::InstrCtrl, value: 0x01 },
        QspiOp::Read { register: QspiRegister::InstrFrame },
        QspiOp::CopyToMemory { offset: 0, len: 2 },
    ];
    expected.extend(finish());
    assert_eq!(Qspi::new().write_command(Command::WriteStatus, 2), Ok(expected));

    let mut expected = vec![
        QspiOp::Write { register: QspiRegister::InstrFrame, value: 0x2010 },
        QspiOp::Write { register: QspiRegister::InstrCtrl, value: 0x31 },
        QspiOp::Read { register: QspiRegister::InstrFrame },
    ];
    expected.extend(finish());
    assert_eq!(Qspi::new().write_command(Command::WriteStatus2, 0), Ok(expected));
}

#[test]
fn erase_command_steps() {
    let mut expected = vec![
        QspiOp::Write { register: QspiRegister::InstrFrame, value: 0x2030 },
        QspiOp::Write { register: QspiRegister::InstrAddr, value: 0x0001_0000 },
        QspiOp::Write { register: QspiRegister::InstrCtrl, value: 0xd8 },
        QspiOp::Read { register: QspiRegister::InstrFrame },
    ];
    expected.extend(finish());
    assert_eq!(Qspi::new().erase_command(Command::EraseBlock, 0x0001_0000), Ok(expected));

    let mut expected = vec![
        QspiOp::Write { register: QspiRegister::InstrFrame, value: 0x2030 },
        QspiOp::Write { register: QspiRegister::InstrCtrl, value: 0xc7 },
        QspiOp::Read { register: QspiRegister::InstrFrame },
    ];
    expected.extend(finish());
    assert_eq!(Qspi::new().erase_command(Command::EraseChip, 0x0001_0000), Ok(expected));
}

#[test]
fn memory_steps() {
    let mut expected = vec![
        QspiOp::Write { register: QspiRegister::InstrFrame, value: 0x0008_10b2 },
        QspiOp::Write { register: QspiRegister::InstrCtrl, value: 0x6b },
        QspiOp::Read { register: QspiRegister::InstrFrame },
        QspiOp::CopyFromMemory { offset: 0x200, len: 256 },
    ];
    expected.extend(finish());
    assert_eq!(Qspi::new().read_memory(0x200, 256), expected);

    let mut expected = vec![
        QspiOp::Write { register: QspiRegister::InstrFrame, value: 0x0000_30b2 },
        QspiOp::Write { register: QspiRegister::InstrCtrl, value: 0x32 },
        QspiOp::Read { register: QspiRegister::InstrFrame },
        QspiOp::CopyToMemory { offset: 0x300, len: 16 },
    ];
    expected.extend(finish());
    assert_eq!(Qspi::new().write_memory(0x300, 16), expected);

    let mut expected = vec![
        QspiOp::Write { register: QspiRegister::InstrFrame, value: 0x0000_30b2 },
        QspiOp::Write { register: QspiRegister::InstrCtrl, value: 0x32 },
        QspiOp::Read { register: QspiRegister::InstrFrame },
    ];
    expected.extend(finish());
    assert_eq!(Qspi::new().write_memory(0x300, 0), expected);
}

#[test]
fn setup_steps() {
    let qspi = Qspi::new();
    assert_eq!(qspi.baud(), 14);
    assert_eq!(
        qspi.setup(),
        vec![
            QspiOp::Modify { register: QspiRegister::MclkApbcMask, clear: 0, set: 0x2000 },
            QspiOp::Modify { register: QspiRegister::MclkAhbMask, clear: 0x0020_0000, set: 0x2000 },
            QspiOp::Modify { register: QspiRegister::CtrlA, clear: 0, set: 0x1 },
            QspiOp::Modify { register: QspiRegister::Baud, clear: 0xff03, set: 0x0e00 },
            QspiOp::Modify { register: QspiRegister::CtrlB, clear: 0xf31, set: 0x11 },
            QspiOp::Modify { register: QspiRegister::CtrlA, clear: 0, set: 0x2 },
        ]
    );
}

#[test]
fn clock_divider() {
    let mut qspi = Qspi::new();
    assert_eq!(
        qspi.set_clk_divider(4),
        QspiOp::Write { register: QspiRegister::Baud, value: 0x0300 }
    );
    assert_eq!(qspi.baud(), 3);
    assert_eq!(
        qspi.set_clk_divider(0),
        QspiOp::Write { register: QspiRegister::Baud, value: 0 }
    );
    assert_eq!(qspi.baud(), 0);
    assert_eq!(
        qspi.set_clk_divider(1),
        QspiOp::Write { register: QspiRegister::Baud, value: 0 }
    );
    assert_eq!(
        qspi.set_clk_divider(255),
        QspiOp::Write { register: QspiRegister::Baud, value: 0xfe00 }
    );
    assert_eq!(qspi.baud(), 254);
}
