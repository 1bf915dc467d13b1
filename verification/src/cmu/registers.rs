//! The register interface of the clock management unit.
//!
//! The library never touches the hardware. Every transition of a clock token says which fields of
//! the control block are to be stored and which status bits are to be polled, in order, and hands
//! that to a [`Cmu`], which keeps the operations until the caller has performed them.
//!
//! Fields are named, not numbered: where a field selects one of a few sources or bands the value
//! is the selection, and where it holds a prescaler the value is the divisor. How a selection is
//! encoded in bits is left to whoever performs the operation.

use vstd::prelude::*;

verus! {

/// The registers of the control block that the clock tree stores to.
#[derive(Clone, Copy, Debug, PartialEq, Eq, Structural)]
pub enum Register {
    /// `CMU_CTRL`
    Ctrl,
    /// `CMU_HFCORECLKDIV`
    HfCoreClkDiv,
    /// `CMU_HFPERCLKDIV`
    HfPerClkDiv,
    /// `CMU_HFRCOCTRL`
    HfRcoCtrl,
    /// `CMU_AUXHFRCOCTRL`
    AuxHfRcoCtrl,
    /// `CMU_OSCENCMD`
    OscEnCmd,
    /// `CMU_CMD`
    Cmd,
    /// `CMU_LFCLKSEL`
    LfClkSel,
    /// `CMU_HFCORECLKEN0`
    HfCoreClkEn0,
    /// `CMU_HFPERCLKEN0`
    HfPerClkEn0,
    /// `CMU_LFACLKEN0`
    LfaClkEn0,
    /// `CMU_LFBCLKEN0`
    LfbClkEn0,
    /// `CMU_LFCCLKEN0`
    LfcClkEn0,
    /// `CMU_LFAPRESC0`
    LfaPresc0,
    /// `CMU_LFBPRESC0`
    LfbPresc0,
    /// `CMU_USHFRCOCTRL`
    UsHfRcoCtrl,
    /// `CMU_USHFRCOTUNE`
    UsHfRcoTune,
    /// `CMU_USHFRCOCONF`
    UsHfRcoConf,
}

/// The bits of `CMU_SYNCBUSY`. Each is set while a store to the register of the same name is still
/// on its way through the bridge into the low-frequency domain.
#[derive(Clone, Copy, Debug, PartialEq, Eq, Structural)]
pub enum SyncBusyFlag {
    LfaClkEn0,
    LfaPresc0,
    LfbClkEn0,
    LfbPresc0,
    LfcClkEn0,
}

/// The bits of `CMU_STATUS` that a transition waits for.
#[derive(Clone, Copy, Debug, PartialEq, Eq, Structural)]
pub enum StatusFlag {
    /// `HFRCORDY`
    HfRcoRdy,
    /// `AUXHFRCORDY`
    AuxHfRcoRdy,
    /// `LFRCORDY`
    LfRcoRdy,
    /// `USHFRCORDY`
    UsHfRcoRdy,
    /// `USBCLFXOSEL`
    UsbcLfXoSel,
    /// `USBCLFRCOSEL`
    UsbcLfRcoSel,
    /// `USBCUSHFRCOSEL`
    UsbcUsHfRcoSel,
}

/// The commands of `CMU_OSCENCMD`: each is one bit, and storing it set starts or stops an
/// oscillator.
#[derive(Clone, Copy, Debug, PartialEq, Eq, Structural)]
pub enum OscillatorCommand {
    HfRcoEn,
    HfRcoDis,
    AuxHfRcoEn,
    AuxHfRcoDis,
    LfRcoEn,
    LfRcoDis,
    UsHfRcoEn,
    UsHfRcoDis,
    HfXoDis,
    LfXoDis,
}

/// The sources that `HFCLKSEL` selects among.
#[derive(Clone, Copy, Debug, PartialEq, Eq, Structural)]
pub enum HfClkSelect {
    HfRco,
    HfXo,
    LfRco,
    LfXo,
    UsHfRcoDiv2,
}

/// The sources that `USBCCLKSEL` selects among.
#[derive(Clone, Copy, Debug, PartialEq, Eq, Structural)]
pub enum UsbcClkSelect {
    LfXo,
    LfRco,
    UsHfRco,
}

/// The values of the `LFA` and `LFB` fields of `CMU_LFCLKSEL`.
#[derive(Clone, Copy, Debug, PartialEq, Eq, Structural)]
pub enum LfSelect {
    Disabled,
    LfRco,
    LfXo,
    HfCoreClkLeDiv2,
}

/// The values of the `LFC` field of `CMU_LFCLKSEL`.
#[derive(Clone, Copy, Debug, PartialEq, Eq, Structural)]
pub enum LfcSelect {
    Disabled,
    LfRco,
    LfXo,
}

/// The frequency bands of the `HFRCO` and of the `AUXHFRCO`.
#[derive(Clone, Copy, Debug, PartialEq, Eq, Structural)]
pub enum HfRcoBand {
    Mhz1,
    Mhz7,
    Mhz11,
    Mhz14,
    Mhz21,
}

impl HfRcoBand {
    /// The frequency of the band in hertz.
    pub open spec fn spec_hertz(self) -> u64 {
        match self {
            HfRcoBand::Mhz1 => 1_000_000,
            HfRcoBand::Mhz7 => 7_000_000,
            HfRcoBand::Mhz11 => 11_000_000,
            HfRcoBand::Mhz14 => 14_000_000,
            HfRcoBand::Mhz21 => 21_000_000,
        }
    }

    /// The frequency of the band in hertz.
    #[verifier::when_used_as_spec(spec_hertz)]
    pub fn hertz(self) -> (hertz: u64)
        ensures
            hertz == self.spec_hertz(),
    {
        match self {
            HfRcoBand::Mhz1 => 1_000_000,
            HfRcoBand::Mhz7 => 7_000_000,
            HfRcoBand::Mhz11 => 11_000_000,
            HfRcoBand::Mhz14 => 14_000_000,
            HfRcoBand::Mhz21 => 21_000_000,
        }
    }
}

/// The frequency bands of the `USHFRCO`.
#[derive(Clone, Copy, Debug, PartialEq, Eq, Structural)]
pub enum UsHfRcoBand {
    Mhz24,
    Mhz48,
}

impl UsHfRcoBand {
    /// The frequency of the band in hertz.
    pub open spec fn spec_hertz(self) -> u64 {
        match self {
            UsHfRcoBand::Mhz24 => 24_000_000,
            UsHfRcoBand::Mhz48 => 48_000_000,
        }
    }

    /// The frequency of the band in hertz.
    #[verifier::when_used_as_spec(spec_hertz)]
    pub fn hertz(self) -> (hertz: u64)
        ensures
            hertz == self.spec_hertz(),
    {
        match self {
            UsHfRcoBand::Mhz24 => 24_000_000,
            UsHfRcoBand::Mhz48 => 48_000_000,
        }
    }
}

/// The enable bits of `CMU_HFCORECLKEN0`.
#[derive(Clone, Copy, Debug, PartialEq, Eq, Structural)]
pub enum CoreClockGate {
    Aes,
    Dma,
    Le,
    Usbc,
    Usb,
}

/// The enable bits of `CMU_HFPERCLKEN0`.
#[derive(Clone, Copy, Debug, PartialEq, Eq, Structural)]
pub enum PeripheralClockGate {
    Timer0,
    Timer1,
    Timer2,
    Usart0,
    Usart1,
    Acmp0,
    Prs,
    Idac0,
    Gpio,
    Vcmp,
    Adc0,
    I2c0,
}

/// A field of a register together with the value to store in it.
#[derive(Clone, Copy, Debug, PartialEq, Eq, Structural)]
pub enum Field {
    /// `CMU_CTRL.HFCLKDIV`, as the raw field: the divisor less one.
    HfClkDiv(u8),
    /// `CMU_CMD.HFCLKSEL`
    HfClkSel(HfClkSelect),
    /// `CMU_CMD.USBCCLKSEL`
    UsbcClkSel(UsbcClkSelect),
    /// `CMU_HFCORECLKDIV.HFCORECLKDIV`, as the divisor.
    HfCoreClkDiv(u16),
    /// `CMU_HFCORECLKDIV.HFCORECLKLEDIV`: set divides by four, clear by two.
    HfCoreClkLeDiv(bool),
    /// `CMU_HFPERCLKDIV.HFPERCLKDIV`, as the divisor.
    HfPerClkDiv(u16),
    /// `CMU_HFPERCLKDIV.HFPERCLKEN`
    HfPerClkEn(bool),
    /// One enable bit of `CMU_HFCORECLKEN0`.
    CoreClockEnable(CoreClockGate, bool),
    /// One enable bit of `CMU_HFPERCLKEN0`.
    PeripheralClockEnable(PeripheralClockGate, bool),
    /// `CMU_HFRCOCTRL.BAND`
    HfRcoBand(HfRcoBand),
    /// `CMU_HFRCOCTRL.TUNING`
    HfRcoTuning(u8),
    /// `CMU_AUXHFRCOCTRL.BAND`
    AuxHfRcoBand(HfRcoBand),
    /// `CMU_AUXHFRCOCTRL.TUNING`
    AuxHfRcoTuning(u8),
    /// `CMU_USHFRCOCONF.BAND`
    UsHfRcoBand(UsHfRcoBand),
    /// `CMU_USHFRCOCONF.USHFRCODIV2DIS`
    UsHfRcoDiv2Dis(bool),
    /// `CMU_USHFRCOCTRL.TUNING`
    UsHfRcoTuning(u8),
    /// `CMU_USHFRCOTUNE.FINETUNING`
    UsHfRcoFineTuning(u8),
    /// One command bit of `CMU_OSCENCMD`, stored set.
    Oscillator(OscillatorCommand),
    /// `CMU_LFCLKSEL.LFA`
    Lfa(LfSelect),
    /// `CMU_LFCLKSEL.LFAE`
    Lfae(bool),
    /// `CMU_LFCLKSEL.LFB`
    Lfb(LfSelect),
    /// `CMU_LFCLKSEL.LFBE`
    Lfbe(bool),
    /// `CMU_LFCLKSEL.LFC`
    Lfc(LfcSelect),
    /// `CMU_LFAPRESC0.RTC`, as the divisor.
    RtcPrescaler(u16),
    /// `CMU_LFACLKEN0.RTC`
    RtcEnable(bool),
    /// `CMU_LFBPRESC0.LEUART0`, as the divisor.
    Leuart0Prescaler(u8),
    /// `CMU_LFBCLKEN0.LEUART0`
    Leuart0Enable(bool),
    /// `CMU_LFCCLKEN0.USBLE`
    UsbLeEnable(bool),
}

impl Field {
    /// The register that holds this field.
    pub open spec fn spec_register(self) -> Register {
        match self {
            Field::HfClkDiv(_) => Register::Ctrl,
            Field::HfClkSel(_) => Register::Cmd,
            Field::UsbcClkSel(_) => Register::Cmd,
            Field::HfCoreClkDiv(_) => Register::HfCoreClkDiv,
            Field::HfCoreClkLeDiv(_) => Register::HfCoreClkDiv,
            Field::HfPerClkDiv(_) => Register::HfPerClkDiv,
            Field::HfPerClkEn(_) => Register::HfPerClkDiv,
            Field::CoreClockEnable(_, _) => Register::HfCoreClkEn0,
            Field::PeripheralClockEnable(_, _) => Register::HfPerClkEn0,
            Field::HfRcoBand(_) => Register::HfRcoCtrl,
            Field::HfRcoTuning(_) => Register::HfRcoCtrl,
            Field::AuxHfRcoBand(_) => Register::AuxHfRcoCtrl,
            Field::AuxHfRcoTuning(_) => Register::AuxHfRcoCtrl,
            Field::UsHfRcoBand(_) => Register::UsHfRcoConf,
            Field::UsHfRcoDiv2Dis(_) => Register::UsHfRcoConf,
            Field::UsHfRcoTuning(_) => Register::UsHfRcoCtrl,
            Field::UsHfRcoFineTuning(_) => Register::UsHfRcoTune,
            Field::Oscillator(_) => Register::OscEnCmd,
            Field::Lfa(_) => Register::LfClkSel,
            Field::Lfae(_) => Register::LfClkSel,
            Field::Lfb(_) => Register::LfClkSel,
            Field::Lfbe(_) => Register::LfClkSel,
            Field::Lfc(_) => Register::LfClkSel,
            Field::RtcPrescaler(_) => Register::LfaPresc0,
            Field::RtcEnable(_) => Register::LfaClkEn0,
            Field::Leuart0Prescaler(_) => Register::LfbPresc0,
            Field::Leuart0Enable(_) => Register::LfbClkEn0,
            Field::UsbLeEnable(_) => Register::LfcClkEn0,
        }
    }

    /// The register that holds this field.
    #[verifier::when_used_as_spec(spec_register)]
    pub fn register(self) -> (register: Register)
        ensures
            register == self.spec_register(),
    {
        match self {
            Field::HfClkDiv(_) => Register::Ctrl,
            Field::HfClkSel(_) | Field::UsbcClkSel(_) => Register::Cmd,
            Field::HfCoreClkDiv(_) | Field::HfCoreClkLeDiv(_) => Register::HfCoreClkDiv,
            Field::HfPerClkDiv(_) | Field::HfPerClkEn(_) => Register::HfPerClkDiv,
            Field::CoreClockEnable(_, _) => Register::HfCoreClkEn0,
            Field::PeripheralClockEnable(_, _) => Register::HfPerClkEn0,
            Field::HfRcoBand(_) | Field::HfRcoTuning(_) => Register::HfRcoCtrl,
            Field::AuxHfRcoBand(_) | Field::AuxHfRcoTuning(_) => Register::AuxHfRcoCtrl,
            Field::UsHfRcoBand(_) | Field::UsHfRcoDiv2Dis(_) => Register::UsHfRcoConf,
            Field::UsHfRcoTuning(_) => Register::UsHfRcoCtrl,
            Field::UsHfRcoFineTuning(_) => Register::UsHfRcoTune,
            Field::Oscillator(_) => Register::OscEnCmd,
            Field::Lfa(_) | Field::Lfae(_) | Field::Lfb(_) | Field::Lfbe(_) | Field::Lfc(_) => {
                Register::LfClkSel
            },
            Field::RtcPrescaler(_) => Register::LfaPresc0,
            Field::RtcEnable(_) => Register::LfaClkEn0,
            Field::Leuart0Prescaler(_) => Register::LfbPresc0,
            Field::Leuart0Enable(_) => Register::LfbClkEn0,
            Field::UsbLeEnable(_) => Register::LfcClkEn0,
        }
    }
}

impl Register {
    /// The bit of `CMU_SYNCBUSY` that guards this register, for the registers that lie behind the
    /// bridge into the low-frequency domain.
    pub open spec fn spec_sync_busy(self) -> Option<SyncBusyFlag> {
        match self {
            Register::LfaClkEn0 => Some(SyncBusyFlag::LfaClkEn0),
            Register::LfaPresc0 => Some(SyncBusyFlag::LfaPresc0),
            Register::LfbClkEn0 => Some(SyncBusyFlag::LfbClkEn0),
            Register::LfbPresc0 => Some(SyncBusyFlag::LfbPresc0),
            Register::LfcClkEn0 => Some(SyncBusyFlag::LfcClkEn0),
            _ => None,
        }
    }

    /// The bit of `CMU_SYNCBUSY` that guards this register, for the registers that lie behind the
    /// bridge into the low-frequency domain.
    #[verifier::when_used_as_spec(spec_sync_busy)]
    pub fn sync_busy(self) -> (flag: Option<SyncBusyFlag>)
        ensures
            flag == self.spec_sync_busy(),
    {
        match self {
            Register::LfaClkEn0 => Some(SyncBusyFlag::LfaClkEn0),
            Register::LfaPresc0 => Some(SyncBusyFlag::LfaPresc0),
            Register::LfbClkEn0 => Some(SyncBusyFlag::LfbClkEn0),
            Register::LfbPresc0 => Some(SyncBusyFlag::LfbPresc0),
            Register::LfcClkEn0 => Some(SyncBusyFlag::LfcClkEn0),
            _ => None,
        }
    }
}

/// One access to the control block.
#[derive(Clone, Copy, Debug, PartialEq, Eq, Structural)]
pub enum Operation {
    /// Store the register with this field as given and every other field at its reset value.
    Write(Field),
    /// Store the register with these two fields as given and every other field at its reset
    /// value.
    WritePair(Field, Field),
    /// Read the register, replace this field, and store the result.
    Modify(Field),
    /// Read the register, replace these two fields, and store the result.
    ModifyPair(Field, Field),
    /// Read `CMU_STATUS` again and again until this bit is set. There is no timeout: while the
    /// bit stays clear the caller hangs.
    WaitUntilSet(StatusFlag),
    /// Read `CMU_SYNCBUSY` again and again until this bit is clear. There is no timeout: while
    /// the bit stays set the caller hangs.
    WaitUntilClear(SyncBusyFlag),
}

impl Operation {
    /// The register that this operation stores to, if it stores at all.
    pub open spec fn spec_register(self) -> Option<Register> {
        match self {
            Operation::Write(field) => Some(field.spec_register()),
            Operation::WritePair(field, _) => Some(field.spec_register()),
            Operation::Modify(field) => Some(field.spec_register()),
            Operation::ModifyPair(field, _) => Some(field.spec_register()),
            Operation::WaitUntilSet(_) => None,
            Operation::WaitUntilClear(_) => None,
        }
    }

    /// The register that this operation stores to, if it stores at all.
    #[verifier::when_used_as_spec(spec_register)]
    pub fn register(self) -> (register: Option<Register>)
        ensures
            register == self.spec_register(),
    {
        match self {
            Operation::Write(field) | Operation::WritePair(field, _) => Some(field.register()),
            Operation::Modify(field) | Operation::ModifyPair(field, _) => Some(field.register()),
            Operation::WaitUntilSet(_) | Operation::WaitUntilClear(_) => None,
        }
    }

    /// Whether this operation changes the hardware, rather than only reading it.
    pub open spec fn is_store(self) -> bool {
        self.spec_register().is_some()
    }

    /// An operation on two fields names two fields of one register.
    pub open spec fn well_formed(self) -> bool {
        match self {
            Operation::WritePair(first, second) => first.spec_register()
                == second.spec_register(),
            Operation::ModifyPair(first, second) => first.spec_register()
                == second.spec_register(),
            _ => true,
        }
    }

    /// The bit of `CMU_SYNCBUSY` that has to be clear before this operation, if there is one.
    pub open spec fn spec_guard(self) -> Option<SyncBusyFlag> {
        match self.spec_register() {
            Some(register) => register.spec_sync_busy(),
            None => None,
        }
    }

    /// The bit of `CMU_SYNCBUSY` that has to be clear before this operation, if there is one.
    #[verifier::when_used_as_spec(spec_guard)]
    pub fn guard(self) -> (flag: Option<SyncBusyFlag>)
        ensures
            flag == self.spec_guard(),
    {
        match self.register() {
            Some(register) => register.sync_busy(),
            None => None,
        }
    }

    /// This operation as it is issued: behind a poll of its guard, where it has one.
    pub open spec fn guarded(self) -> Seq<Operation> {
        match self.spec_guard() {
            Some(flag) => seq![Operation::WaitUntilClear(flag), self],
            None => seq![self],
        }
    }
}

/// The number of stores among some operations.
pub open spec fn stores(operations: Seq<Operation>) -> nat
    decreases operations.len(),
{
    if operations.len() == 0 {
        0
    } else {
        stores(operations.drop_last()) + if operations.last().is_store() {
            1nat
        } else {
            0nat
        }
    }
}

/// One more operation is one more store if it is a store, and none if it is a poll.
pub proof fn lemma_stores_of_push(operations: Seq<Operation>, operation: Operation)
    ensures
        stores(operations.push(operation)) == stores(operations) + if operation.is_store() {
            1nat
        } else {
            0nat
        },
{
    let longer = operations.push(operation);
    assert(longer.drop_last() =~= operations);
}

/// A store issued behind its guard is one store, whether it has a guard or not.
pub proof fn lemma_stores_of_guarded(operation: Operation)
    requires
        operation.is_store(),
    ensures
        stores(operation.guarded()) == 1,
{
    let none = Seq::<Operation>::empty();
    match operation.spec_guard() {
        Some(flag) => {
            let poll = Operation::WaitUntilClear(flag);
            lemma_stores_of_push(none, poll);
            lemma_stores_of_push(none.push(poll), operation);
            assert(operation.guarded() =~= none.push(poll).push(operation));
        },
        None => {
            lemma_stores_of_push(none, operation);
        },
    }
}

/// The discipline of the low-frequency domain: a store to a register behind the bridge comes
/// directly after a poll that saw the register's bit in `CMU_SYNCBUSY` clear, and never first.
pub open spec fn synchronized(operations: Seq<Operation>) -> bool {
    forall|i: int|
        0 <= i < operations.len() ==> (#[trigger] operations[i].spec_guard() matches Some(flag)
            ==> i > 0 && operations[i - 1] == Operation::WaitUntilClear(flag))
}

/// The control block as the library sees it: the operations issued against it and not yet taken
/// by the caller, oldest first, and whether its clocks have been claimed.
#[derive(Debug)]
pub struct Cmu {
    issued: Vec<Operation>,
    claimed: bool,
}

impl View for Cmu {
    type V = Seq<Operation>;

    closed spec fn view(&self) -> Seq<Operation> {
        self.issued@
    }
}

impl Cmu {
    #[verifier::type_invariant]
    spec fn disciplined(self) -> bool {
        &&& synchronized(self.issued@)
        &&& forall|i: int|
            0 <= i < self.issued@.len() ==> (#[trigger] self.issued@[i]).well_formed()
    }

    /// Whether the initial state of the clocks has been handed out.
    pub closed spec fn spec_is_claimed(&self) -> bool {
        self.claimed
    }

    /// A control block fresh out of reset: nothing issued, nothing claimed.
    pub fn new() -> (cmu: Cmu)
        ensures
            cmu@ == Seq::<Operation>::empty(),
            !cmu.spec_is_claimed(),
    {
        Cmu { issued: Vec::new(), claimed: false }
    }

    /// Whether the initial state of the clocks has been handed out.
    #[verifier::when_used_as_spec(spec_is_claimed)]
    pub fn is_claimed(&self) -> (claimed: bool)
        ensures
            claimed == self.spec_is_claimed(),
    {
        self.claimed
    }

    /// The operations issued and not yet taken, oldest first. They keep the discipline of the
    /// low-frequency domain, and each is well formed.
    pub fn issued(&self) -> (operations: &Vec<Operation>)
        ensures
            operations@ == self@,
            synchronized(operations@),
            forall|i: int| 0 <= i < operations@.len() ==> (#[trigger] operations@[i]).well_formed(),
    {
        proof {
            use_type_invariant(self);
        }
        &self.issued
    }

    /// Takes the operations issued so far, oldest first, for the caller to perform in that
    /// order, and leaves none behind.
    pub fn take(&mut self) -> (operations: Vec<Operation>)
        ensures
            operations@ == old(self)@,
            synchronized(operations@),
            forall|i: int| 0 <= i < operations@.len() ==> (#[trigger] operations@[i]).well_formed(),
            final(self)@ == Seq::<Operation>::empty(),
            final(self).spec_is_claimed() == old(self).spec_is_claimed(),
    {
        proof {
            use_type_invariant(&*self);
        }
        let mut operations: Vec<Operation> = Vec::new();
        std::mem::swap(&mut self.issued, &mut operations);
        operations
    }

    /// Marks the clocks as claimed.
    pub(crate) fn claim(&mut self)
        ensures
            final(self)@ == old(self)@,
            final(self).spec_is_claimed(),
    {
        proof {
            use_type_invariant(&*self);
        }
        self.claimed = true;
    }

    /// Issues one operation, behind a poll of its guard where it has one.
    pub(crate) fn issue(&mut self, operation: Operation)
        requires
            operation.well_formed(),
        ensures
            final(self)@ == old(self)@ + operation.guarded(),
            final(self).spec_is_claimed() == old(self).spec_is_claimed(),
    {
        proof {
            use_type_invariant(&*self);
        }
        let mut issued: Vec<Operation> = Vec::new();
        std::mem::swap(&mut self.issued, &mut issued);
        match operation.guard() {
            Some(flag) => {
                issued.push(Operation::WaitUntilClear(flag));
                issued.push(operation);
            },
            None => {
                issued.push(operation);
            },
        }
        std::mem::swap(&mut self.issued, &mut issued);
    }
}

} // verus!
