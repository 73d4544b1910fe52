//! The command protocol of a serial flash behind the QSPI peripheral: which
//! commands go with which kind of transfer, and the register accesses that
//! run one.

use vstd::prelude::*;

verus! {

/// Where the peripheral maps the flash into the address space.
pub const QSPI_AHB: u32 = 0x0400_0000;

/// The baud setting after start-up: the main clock divided by fifteen.
pub const QSPI_DEFAULT_BAUD: u8 = 14;

/// Value of `CTRLA` that starts an instruction: enabled, last transfer.
pub const QSPI_CTRLA_ENABLE_LASTXFER: u32 = 0x0100_0002;

/// Software reset bit of `CTRLA`.
pub const QSPI_CTRLA_SWRST: u32 = 0x0000_0001;

/// Enable bit of `CTRLA`.
pub const QSPI_CTRLA_ENABLE: u32 = 0x0000_0002;

/// The fields of `CTRLB` that start-up sets: mode, chip select mode and
/// data length.
pub const QSPI_CTRLB_SETUP_FIELDS: u32 = 0x0000_0f31;

/// Their values: memory mode, chip select released after the last
/// transfer, eight bits of data.
pub const QSPI_CTRLB_SETUP: u32 = 0x0000_0011;

/// The clock polarity and phase bits of `BAUD` with its baud field.
pub const QSPI_BAUD_SETUP_FIELDS: u32 = 0x0000_ff03;

/// Instruction end flag of `INTFLAG`.
pub const QSPI_INTFLAG_INSTREND: u32 = 0x0000_0400;

/// `QSPI` bit of the main clock's APBC mask and of its AHB mask.
pub const MCLK_MASK_QSPI: u32 = 0x0000_2000;

/// `QSPI_2X` bit of the main clock's AHB mask.
pub const MCLK_AHBMASK_QSPI_2X: u32 = 0x0020_0000;

/// Why a command was not run.
#[derive(Clone, Copy, Debug, PartialEq, Eq, Structural)]
pub enum Error {
    /// The command you selected cannot be performed by this function
    CommandFunctionMismatch,
}

/// The commands of the flash.
#[derive(Clone, Copy, Debug, PartialEq, Eq, Structural)]
pub enum Command {
    Read,
    QuadRead,
    ReadId,
    PageProgram,
    QuadPageProgram,
    ReadStatus,
    ReadStatus2,
    WriteStatus,
    WriteStatus2,
    EnableReset,
    Reset,
    WriteEnable,
    WriteDisable,
    EraseSector,
    EraseBlock,
    EraseChip,
}

impl Command {
    /// The instruction byte of the command.
    pub open spec fn spec_bits(self) -> u8 {
        match self {
            Command::Read => 0x03,
            Command::QuadRead => 0x6B,
            Command::ReadId => 0x9F,
            Command::PageProgram => 0x02,
            Command::QuadPageProgram => 0x32,
            Command::ReadStatus => 0x05,
            Command::ReadStatus2 => 0x35,
            Command::WriteStatus => 0x01,
            Command::WriteStatus2 => 0x31,
            Command::EnableReset => 0x66,
            Command::Reset => 0x99,
            Command::WriteEnable => 0x06,
            Command::WriteDisable => 0x04,
            Command::EraseSector => 0x20,
            Command::EraseBlock => 0xD8,
            Command::EraseChip => 0xC7,
        }
    }

    /// The instruction byte of the command.
    #[verifier::when_used_as_spec(spec_bits)]
    pub fn bits(self) -> (bits: u8)
        ensures
            bits == self.spec_bits(),
    {
        match self {
            Command::Read => 0x03,
            Command::QuadRead => 0x6B,
            Command::ReadId => 0x9F,
            Command::PageProgram => 0x02,
            Command::QuadPageProgram => 0x32,
            Command::ReadStatus => 0x05,
            Command::ReadStatus2 => 0x35,
            Command::WriteStatus => 0x01,
            Command::WriteStatus2 => 0x31,
            Command::EnableReset => 0x66,
            Command::Reset => 0x99,
            Command::WriteEnable => 0x06,
            Command::WriteDisable => 0x04,
            Command::EraseSector => 0x20,
            Command::EraseBlock => 0xD8,
            Command::EraseChip => 0xC7,
        }
    }

    /// Whether the command neither takes nor gives data.
    pub open spec fn is_plain(self) -> bool {
        self == Command::WriteEnable || self == Command::WriteDisable || self == Command::Reset
            || self == Command::EnableReset
    }

    /// Whether the command reads from the flash.
    pub open spec fn is_read(self) -> bool {
        self == Command::Read || self == Command::QuadRead || self == Command::ReadId || self
            == Command::ReadStatus || self == Command::ReadStatus2
    }

    /// Whether the command writes to the flash.
    pub open spec fn is_write(self) -> bool {
        self == Command::PageProgram || self == Command::QuadPageProgram || self
            == Command::WriteStatus || self == Command::WriteStatus2
    }

    /// Whether the command erases.
    pub open spec fn is_erase(self) -> bool {
        self == Command::EraseSector || self == Command::EraseBlock || self == Command::EraseChip
    }

    /// Whether the command takes an address in the instruction address
    /// register.
    pub open spec fn takes_address(self) -> bool {
        self == Command::EraseSector || self == Command::EraseBlock
    }
}

/// How many lines carry the instruction, the address and the data.
#[derive(Clone, Copy, Debug, PartialEq, Eq, Structural)]
pub enum Width {
    /// Everything on one line.
    SingleBitSpi,
    /// Instruction and address on one line, data on four.
    QuadOutput,
}

impl Width {
    /// The value of the frame's `WIDTH` field.
    pub open spec fn spec_bits(self) -> u32 {
        match self {
            Width::SingleBitSpi => 0,
            Width::QuadOutput => 2,
        }
    }
}

/// The kind of transfer of an instruction frame.
#[derive(Clone, Copy, Debug, PartialEq, Eq, Structural)]
pub enum TransferType {
    /// Read transfer from the serial memory.
    Read,
    /// Read data transfer from the serial memory, through the memory map.
    ReadMemory,
    /// Write transfer into the serial memory.
    Write,
    /// Write data transfer into the serial memory, through the memory map.
    WriteMemory,
}

impl TransferType {
    /// The value of the frame's `TFRTYPE` field.
    pub open spec fn spec_bits(self) -> u32 {
        match self {
            TransferType::Read => 0,
            TransferType::ReadMemory => 1,
            TransferType::Write => 2,
            TransferType::WriteMemory => 3,
        }
    }
}

/// An instruction frame: what an instruction is made of.  Addresses always
/// have 24 bits; there is no option code.
#[derive(Clone, Copy, Debug, PartialEq, Eq, Structural)]
pub struct InstructionFrame {
    pub width: Width,
    pub tfrtype: TransferType,
    /// An instruction is sent.
    pub instren: bool,
    /// An address is sent.
    pub addren: bool,
    /// Data is sent or received.
    pub dataen: bool,
    /// The number of dummy cycles, of which the field holds five bits.
    pub dummylen: u8,
}

/// The fields of an `INSTRFRAME` word.  Together they cover all of its bits.
pub struct InstrFrameView {
    /// Bits 0 to 2.
    pub width: u32,
    /// Bit 4.
    pub instren: bool,
    /// Bit 5.
    pub addren: bool,
    /// Bit 7.
    pub dataen: bool,
    /// Bits 12 and 13.
    pub tfrtype: u32,
    /// Bits 16 to 20.
    pub dummylen: u32,
    /// Every other bit, in its place: the option code fields, the address
    /// length, continuous read mode, double data rate and the unused bits.
    pub others: u32,
}

/// The fields of the `INSTRFRAME` word `word`.
pub open spec fn instrframe_fields(word: u32) -> InstrFrameView {
    InstrFrameView {
        width: word & 7,
        instren: (word >> 4) & 1 == 1,
        addren: (word >> 5) & 1 == 1,
        dataen: (word >> 7) & 1 == 1,
        tfrtype: (word >> 12) & 3,
        dummylen: (word >> 16) & 0x1f,
        others: word & 0xffe0_cf48,
    }
}

impl InstructionFrame {
    /// The `INSTRFRAME` word of the frame.
    pub open spec fn spec_bits(self) -> u32 {
        self.width.spec_bits() | (if self.instren {
            0x10u32
        } else {
            0u32
        }) | (if self.addren {
            0x20u32
        } else {
            0u32
        }) | (if self.dataen {
            0x80u32
        } else {
            0u32
        }) | (self.tfrtype.spec_bits() << 12) | (((self.dummylen & 0x1f) as u32) << 16)
    }

    /// The `INSTRFRAME` word of the frame has the fields of the frame, and
    /// zero in every other bit.
    pub proof fn lemma_bits(self)
        ensures
            instrframe_fields(self.spec_bits()) == (InstrFrameView {
                width: self.width.spec_bits(),
                instren: self.instren,
                addren: self.addren,
                dataen: self.dataen,
                tfrtype: self.tfrtype.spec_bits(),
                dummylen: (self.dummylen & 0x1f) as u32,
                others: 0,
            }),
    {
        let w = self.width.spec_bits();
        let t = self.tfrtype.spec_bits();
        let i = self.instren;
        let a = self.addren;
        let d = self.dataen;
        let raw = self.dummylen;
        assert((raw & 0x1f) < 0x20) by (bit_vector);
        let y = (raw & 0x1f) as u32;
        let word = self.spec_bits();
        assert({
            &&& word & 7 == w
            &&& ((word >> 4) & 1 == 1) == i
            &&& ((word >> 5) & 1 == 1) == a
            &&& ((word >> 7) & 1 == 1) == d
            &&& (word >> 12) & 3 == t
            &&& (word >> 16) & 0x1f == y
            &&& word & 0xffe0_cf48 == 0
        }) by (bit_vector)
            requires
                w < 4,
                t < 4,
                y < 0x20,
                word == w | (if i {
                    0x10u32
                } else {
                    0u32
                }) | (if a {
                    0x20u32
                } else {
                    0u32
                }) | (if d {
                    0x80u32
                } else {
                    0u32
                }) | (t << 12) | (y << 16),
        ;
    }

    /// The `INSTRFRAME` word of the frame.
    #[verifier::when_used_as_spec(spec_bits)]
    pub fn bits(self) -> (word: u32)
        ensures
            word == self.spec_bits(),
            instrframe_fields(word) == (InstrFrameView {
                width: self.width.spec_bits(),
                instren: self.instren,
                addren: self.addren,
                dataen: self.dataen,
                tfrtype: self.tfrtype.spec_bits(),
                dummylen: (self.dummylen & 0x1f) as u32,
                others: 0,
            }),
    {
        proof {
            self.lemma_bits();
        }
        let width: u32 = match self.width {
            Width::SingleBitSpi => 0,
            Width::QuadOutput => 2,
        };
        let tfrtype: u32 = match self.tfrtype {
            TransferType::Read => 0,
            TransferType::ReadMemory => 1,
            TransferType::Write => 2,
            TransferType::WriteMemory => 3,
        };
        width | (if self.instren {
            0x10u32
        } else {
            0u32
        }) | (if self.addren {
            0x20u32
        } else {
            0u32
        }) | (if self.dataen {
            0x80u32
        } else {
            0u32
        }) | (tfrtype << 12) | (((self.dummylen & 0x1f) as u32) << 16)
    }
}

/// The registers that the driver accesses.
#[derive(Clone, Copy, Debug, PartialEq, Eq, Structural)]
pub enum QspiRegister {
    /// APBC clock mask of the main clock.
    MclkApbcMask,
    /// AHB clock mask of the main clock.
    MclkAhbMask,
    CtrlA,
    CtrlB,
    Baud,
    InstrAddr,
    InstrCtrl,
    InstrFrame,
    IntFlag,
}

/// One step of a transfer, for the caller to perform.
#[derive(Clone, Copy, Debug, PartialEq, Eq, Structural)]
pub enum QspiOp {
    /// Write `value` to `register`.
    Write { register: QspiRegister, value: u32 },
    /// Read `register`, clear the bits of `clear` in what was read, set
    /// those of `set`, and write it back.
    Modify { register: QspiRegister, clear: u32, set: u32 },
    /// Read `register` and drop what was read.
    Read { register: QspiRegister },
    /// Copy `len` bytes of the caller's data to the flash's memory map,
    /// `offset` bytes from its start.
    CopyToMemory { offset: u32, len: usize },
    /// Copy `len` bytes from the flash's memory map, `offset` bytes from its
    /// start, to the caller's buffer.
    CopyFromMemory { offset: u32, len: usize },
    /// Wait until `INTFLAG` shows the bits of `flag`.
    WaitFor { flag: u32 },
}

/// The frame of a command without data.
pub open spec fn plain_frame() -> InstructionFrame {
    InstructionFrame {
        width: Width::SingleBitSpi,
        tfrtype: TransferType::Read,
        instren: true,
        addren: false,
        dataen: false,
        dummylen: 0,
    }
}

/// The frame of a command that reads.
pub open spec fn read_frame() -> InstructionFrame {
    InstructionFrame { dataen: true, ..plain_frame() }
}

/// The frame of a command that writes `len` bytes: with data exactly if
/// there are any.
pub open spec fn write_frame(len: usize) -> InstructionFrame {
    InstructionFrame { tfrtype: TransferType::Write, dataen: len > 0, ..plain_frame() }
}

/// The frame of a command that erases.
pub open spec fn erase_frame() -> InstructionFrame {
    InstructionFrame { tfrtype: TransferType::Write, addren: true, ..plain_frame() }
}

/// The frame of a read through the memory map: data on four lines after
/// eight dummy cycles.
pub open spec fn read_memory_frame() -> InstructionFrame {
    InstructionFrame {
        width: Width::QuadOutput,
        tfrtype: TransferType::ReadMemory,
        instren: true,
        addren: true,
        dataen: true,
        dummylen: 8,
    }
}

/// The frame of a write through the memory map: data on four lines.
pub open spec fn write_memory_frame() -> InstructionFrame {
    InstructionFrame {
        width: Width::QuadOutput,
        tfrtype: TransferType::WriteMemory,
        instren: true,
        addren: true,
        dataen: true,
        dummylen: 0,
    }
}

/// The steps that start an instruction and see it through: the
/// instruction goes, the chip select is released after it, and its end is
/// awaited and acknowledged.
pub open spec fn finish_ops() -> Seq<QspiOp> {
    seq![
        QspiOp::Write { register: QspiRegister::CtrlA, value: QSPI_CTRLA_ENABLE_LASTXFER },
        QspiOp::WaitFor { flag: QSPI_INTFLAG_INSTREND },
        QspiOp::Modify { register: QspiRegister::IntFlag, clear: 0, set: QSPI_INTFLAG_INSTREND },
    ]
}

/// The steps of an instruction that writes `len` bytes at `addr`.  The
/// address goes into the instruction address register for the commands
/// that take one there; the frame register is read back before any data
/// moves; data is copied only if there is any.
pub open spec fn write_instruction_ops(command: Command, addr: u32, len: usize) -> Seq<QspiOp> {
    (if command.takes_address() {
        seq![QspiOp::Write { register: QspiRegister::InstrAddr, value: addr }]
    } else {
        Seq::empty()
    }) + seq![
        QspiOp::Write { register: QspiRegister::InstrCtrl, value: command.spec_bits() as u32 },
        QspiOp::Read { register: QspiRegister::InstrFrame },
    ] + (if len > 0 {
        seq![QspiOp::CopyToMemory { offset: addr, len }]
    } else {
        Seq::empty()
    }) + finish_ops()
}

/// The steps of an instruction that reads `len` bytes at `addr`.
pub open spec fn read_instruction_ops(command: Command, addr: u32, len: usize) -> Seq<QspiOp> {
    seq![
        QspiOp::Write { register: QspiRegister::InstrCtrl, value: command.spec_bits() as u32 },
        QspiOp::Read { register: QspiRegister::InstrFrame },
    ] + (if len > 0 {
        seq![QspiOp::CopyFromMemory { offset: addr, len }]
    } else {
        Seq::empty()
    }) + finish_ops()
}

/// The step that sets the instruction frame.
pub open spec fn frame_op(frame: InstructionFrame) -> Seq<QspiOp> {
    seq![QspiOp::Write { register: QspiRegister::InstrFrame, value: frame.spec_bits() }]
}

/// The steps that bring the peripheral up with the baud setting `baud`: its
/// clocks are enabled at single data rate, it is reset, set up for SPI mode
/// 0 and for memory mode with eight bits of data, and enabled.
pub open spec fn setup_ops(baud: u8) -> Seq<QspiOp> {
    seq![
        QspiOp::Modify { register: QspiRegister::MclkApbcMask, clear: 0, set: MCLK_MASK_QSPI },
        QspiOp::Modify {
            register: QspiRegister::MclkAhbMask,
            clear: MCLK_AHBMASK_QSPI_2X,
            set: MCLK_MASK_QSPI,
        },
        QspiOp::Modify { register: QspiRegister::CtrlA, clear: 0, set: QSPI_CTRLA_SWRST },
        QspiOp::Modify {
            register: QspiRegister::Baud,
            clear: QSPI_BAUD_SETUP_FIELDS,
            set: (baud as u32) << 8,
        },
        QspiOp::Modify {
            register: QspiRegister::CtrlB,
            clear: QSPI_CTRLB_SETUP_FIELDS,
            set: QSPI_CTRLB_SETUP,
        },
        QspiOp::Modify { register: QspiRegister::CtrlA, clear: 0, set: QSPI_CTRLA_ENABLE },
    ]
}

fn push_finish(ops: &mut Vec<QspiOp>)
    ensures
        final(ops)@ == old(ops)@ + finish_ops(),
{
    ops.push(QspiOp::Write { register: QspiRegister::CtrlA, value: QSPI_CTRLA_ENABLE_LASTXFER });
    ops.push(QspiOp::WaitFor { flag: QSPI_INTFLAG_INSTREND });
    ops.push(
        QspiOp::Modify { register: QspiRegister::IntFlag, clear: 0, set: QSPI_INTFLAG_INSTREND },
    );
    assert(ops@ =~= old(ops)@ + finish_ops());
}

/// Adds to `ops` the steps of an instruction that writes `len` bytes at
/// `addr`.
pub fn run_write_instruction(ops: &mut Vec<QspiOp>, command: Command, addr: u32, len: usize)
    ensures
        final(ops)@ == old(ops)@ + write_instruction_ops(command, addr, len),
{
    match command {
        Command::EraseSector | Command::EraseBlock => {
            ops.push(QspiOp::Write { register: QspiRegister::InstrAddr, value: addr });
        },
        _ => {},
    }
    ops.push(QspiOp::Write { register: QspiRegister::InstrCtrl, value: command.bits() as u32 });
    ops.push(QspiOp::Read { register: QspiRegister::InstrFrame });
    if len > 0 {
        ops.push(QspiOp::CopyToMemory { offset: addr, len });
    }
    push_finish(ops);
    assert(ops@ =~= old(ops)@ + write_instruction_ops(command, addr, len));
}

/// Adds to `ops` the steps of an instruction that reads `len` bytes at
/// `addr`.
pub fn run_read_instruction(ops: &mut Vec<QspiOp>, command: Command, addr: u32, len: usize)
    ensures
        final(ops)@ == old(ops)@ + read_instruction_ops(command, addr, len),
{
    ops.push(QspiOp::Write { register: QspiRegister::InstrCtrl, value: command.bits() as u32 });
    ops.push(QspiOp::Read { register: QspiRegister::InstrFrame });
    if len > 0 {
        ops.push(QspiOp::CopyFromMemory { offset: addr, len });
    }
    push_finish(ops);
    assert(ops@ =~= old(ops)@ + read_instruction_ops(command, addr, len));
}

fn frame_ops(frame: InstructionFrame) -> (ops: Vec<QspiOp>)
    ensures
        ops@ == frame_op(frame),
{
    let mut ops: Vec<QspiOp> = Vec::new();
    ops.push(QspiOp::Write { register: QspiRegister::InstrFrame, value: frame.bits() });
    ops
}

/// The driver of the flash: what software knows of the peripheral.
#[derive(Clone, Copy, Debug, PartialEq, Eq)]
pub struct Qspi {
    baud: u8,
}

impl Qspi {
    /// The baud setting: the main clock is divided by one more than it.
    pub closed spec fn spec_baud(self) -> u8 {
        self.baud
    }

    /// A driver with the baud setting of start-up.
    pub fn new() -> (qspi: Qspi)
        ensures
            qspi.spec_baud() == QSPI_DEFAULT_BAUD,
    {
        Qspi { baud: QSPI_DEFAULT_BAUD }
    }

    /// The baud setting.
    #[verifier::when_used_as_spec(spec_baud)]
    pub fn baud(self) -> (baud: u8)
        ensures
            baud == self.spec_baud(),
    {
        self.baud
    }

    /// The steps that bring the peripheral up with this driver's baud
    /// setting.
    pub fn setup(&self) -> (ops: Vec<QspiOp>)
        ensures
            ops@ == setup_ops(self.spec_baud()),
    {
        let mut ops: Vec<QspiOp> = Vec::new();
        ops.push(
            QspiOp::Modify { register: QspiRegister::MclkApbcMask, clear: 0, set: MCLK_MASK_QSPI },
        );
        ops.push(
            QspiOp::Modify {
                register: QspiRegister::MclkAhbMask,
                clear: MCLK_AHBMASK_QSPI_2X,
                set: MCLK_MASK_QSPI,
            },
        );
        ops.push(QspiOp::Modify { register: QspiRegister::CtrlA, clear: 0, set: QSPI_CTRLA_SWRST });
        ops.push(
            QspiOp::Modify {
                register: QspiRegister::Baud,
                clear: QSPI_BAUD_SETUP_FIELDS,
                set: (self.baud as u32) << 8,
            },
        );
        ops.push(
            QspiOp::Modify {
                register: QspiRegister::CtrlB,
                clear: QSPI_CTRLB_SETUP_FIELDS,
                set: QSPI_CTRLB_SETUP,
            },
        );
        ops.push(QspiOp::Modify { register: QspiRegister::CtrlA, clear: 0, set: QSPI_CTRLA_ENABLE });
        ops
    }

    /// Run a generic command that neither takes nor receives data
    pub fn run_command(&self, command: Command) -> (result: Result<Vec<QspiOp>, Error>)
        ensures
            result is Ok <==> command.is_plain(),
            result matches Err(e) ==> e == Error::CommandFunctionMismatch,
            result matches Ok(ops) ==> ops@ == frame_op(plain_frame()) + read_instruction_ops(
                command,
                0,
                0,
            ),
    {
        match command {
            Command::WriteEnable | Command::WriteDisable | Command::Reset | Command::EnableReset => (),
            _ => {
                return Err(Error::CommandFunctionMismatch);
            },
        }
        let mut ops = frame_ops(
            InstructionFrame {
                width: Width::SingleBitSpi,
                tfrtype: TransferType::Read,
                instren: true,
                addren: false,
                dataen: false,
                dummylen: 0,
            },
        );
        run_read_instruction(&mut ops, command, 0, 0);
        Ok(ops)
    }

    /// Run one of the read commands, for a response of `len` bytes
    pub fn read_command(&self, command: Command, len: usize) -> (result: Result<
        Vec<QspiOp>,
        Error,
    >)
        ensures
            result is Ok <==> command.is_read(),
            result matches Err(e) ==> e == Error::CommandFunctionMismatch,
            result matches Ok(ops) ==> ops@ == frame_op(read_frame()) + read_instruction_ops(
                command,
                0,
                len,
            ),
    {
        match command {
            Command::Read
            | Command::QuadRead
            | Command::ReadId
            | Command::ReadStatus
            | Command::ReadStatus2 => (),
            _ => {
                return Err(Error::CommandFunctionMismatch);
            },
        }
        let mut ops = frame_ops(
            InstructionFrame {
                width: Width::SingleBitSpi,
                tfrtype: TransferType::Read,
                instren: true,
                addren: false,
                dataen: true,
                dummylen: 0,
            },
        );
        run_read_instruction(&mut ops, command, 0, len);
        Ok(ops)
    }

    /// Run one of the write commands, with `len` bytes of data
    pub fn write_command(&self, command: Command, len: usize) -> (result: Result<
        Vec<QspiOp>,
        Error,
    >)
        ensures
            result is Ok <==> command.is_write(),
            result matches Err(e) ==> e == Error::CommandFunctionMismatch,
            result matches Ok(ops) ==> ops@ == frame_op(write_frame(len)) + write_instruction_ops(
                command,
                0,
                len,
            ),
    {
        match command {
            Command::PageProgram
            | Command::QuadPageProgram
            | Command::WriteStatus
            | Command::WriteStatus2 => (),
            _ => {
                return Err(Error::CommandFunctionMismatch);
            },
        }
        let mut ops = frame_ops(
            InstructionFrame {
                width: Width::SingleBitSpi,
                tfrtype: TransferType::Write,
                instren: true,
                addren: false,
                dataen: len > 0,
                dummylen: 0,
            },
        );
        run_write_instruction(&mut ops, command, 0, len);
        Ok(ops)
    }

    /// Run one of the erase commands
    pub fn erase_command(&self, command: Command, address: u32) -> (result: Result<
        Vec<QspiOp>,
        Error,
    >)
        ensures
            result is Ok <==> command.is_erase(),
            result matches Err(e) ==> e == Error::CommandFunctionMismatch,
            result matches Ok(ops) ==> ops@ == frame_op(erase_frame()) + write_instruction_ops(
                command,
                address,
                0,
            ),
    {
        match command {
            Command::EraseSector | Command::EraseBlock | Command::EraseChip => (),
            _ => {
                return Err(Error::CommandFunctionMismatch);
            },
        }
        let mut ops = frame_ops(
            InstructionFrame {
                width: Width::SingleBitSpi,
                tfrtype: TransferType::Write,
                instren: true,
                addren: true,
                dataen: false,
                dummylen: 0,
            },
        );
        run_write_instruction(&mut ops, command, address, 0);
        Ok(ops)
    }

    /// Read a sequential block of memory of `len` bytes at `addr`
    pub fn read_memory(&self, addr: u32, len: usize) -> (ops: Vec<QspiOp>)
        ensures
            ops@ == frame_op(read_memory_frame()) + read_instruction_ops(
                Command::QuadRead,
                addr,
                len,
            ),
    {
        let mut ops = frame_ops(
            InstructionFrame {
                width: Width::QuadOutput,
                tfrtype: TransferType::ReadMemory,
                instren: true,
                addren: true,
                dataen: true,
                dummylen: 8,
            },
        );
        run_read_instruction(&mut ops, Command::QuadRead, addr, len);
        ops
    }

    /// Write a sequential block of memory of `len` bytes to `addr`
    pub fn write_memory(&self, addr: u32, len: usize) -> (ops: Vec<QspiOp>)
        ensures
            ops@ == frame_op(write_memory_frame()) + write_instruction_ops(
                Command::QuadPageProgram,
                addr,
                len,
            ),
    {
        let mut ops = frame_ops(
            InstructionFrame {
                width: Width::QuadOutput,
                tfrtype: TransferType::WriteMemory,
                instren: true,
                addren: true,
                dataen: true,
                dummylen: 0,
            },
        );
        run_write_instruction(&mut ops, Command::QuadPageProgram, addr, len);
        ops
    }

    /// Set the clock divider, relative to the main clock.  The baud setting
    /// is one less than the divider, and zero for a divider of zero.  The
    /// answer is the step that writes it.
    pub fn set_clk_divider(&mut self, value: u8) -> (op: QspiOp)
        ensures
            final(self).spec_baud() == if value == 0 {
                0
            } else {
                value - 1
            },
            op == (QspiOp::Write {
                register: QspiRegister::Baud,
                value: (final(self).spec_baud() as u32) << 8,
            }),
    {
        self.baud = value.saturating_sub(1);
        QspiOp::Write { register: QspiRegister::Baud, value: (self.baud as u32) << 8 }
    }
}

} // verus!
