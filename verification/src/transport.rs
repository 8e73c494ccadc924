//! The byte transport between the driver and the controller.
//!
//! The driver never opens a bus itself. Whoever constructs it hands in a
//! `Transport`: two blocking primitives, one for the command register and
//! one for the display memory. `I2cTransport` is the transport over an I2C
//! adapter; `Recorder` is a transport that keeps what it was given in
//! memory, for use where no panel is attached.

use vstd::prelude::*;
use crate::protocol::Transfer;

verus! {

/// The transport could not deliver a byte.
#[derive(Clone, Copy, Debug, PartialEq, Eq, Structural)]
pub struct BusError;

/// A synchronous byte transport to one controller.
pub trait Transport {
    /// The transfers that this transport has accepted so far, oldest first.
    spec fn sent(&self) -> Seq<Transfer>;

    /// The state of the transport makes certain that the next `n`
    /// transfers will be accepted. Where a bus outside decides, this holds
    /// of no `n` but zero.
    spec fn accepts(&self, n: nat) -> bool;

    /// The state of the transport makes certain that the next `k`
    /// transfers will be accepted and the one after them refused.
    spec fn refuses_after(&self, k: nat) -> bool;

    /// Writes one byte to the command register. A byte that was accepted
    /// is appended to `sent`; a refused one leaves `sent` as it was. Where
    /// the state of the transport makes the outcome certain, that is the
    /// outcome, and one transfer less lies ahead.
    fn send_command(&mut self, byte: u8) -> (r: Result<(), BusError>)
        ensures
            r is Ok ==> final(self).sent() == old(self).sent().push(Transfer::Command(byte)),
            r is Err ==> final(self).sent() == old(self).sent(),
            forall|n: nat|
                n > 0 && #[trigger] old(self).accepts(n) ==> r is Ok
                    && final(self).accepts((n - 1) as nat),
            old(self).refuses_after(0) ==> r is Err,
            forall|k: nat|
                k > 0 && #[trigger] old(self).refuses_after(k) ==> r is Ok
                    && final(self).refuses_after((k - 1) as nat),
    ;

    /// Writes one byte to the display memory, on the terms of
    /// `send_command`.
    fn send_data(&mut self, byte: u8) -> (r: Result<(), BusError>)
        ensures
            r is Ok ==> final(self).sent() == old(self).sent().push(Transfer::Data(byte)),
            r is Err ==> final(self).sent() == old(self).sent(),
            forall|n: nat|
                n > 0 && #[trigger] old(self).accepts(n) ==> r is Ok
                    && final(self).accepts((n - 1) as nat),
            old(self).refuses_after(0) ==> r is Err,
            forall|k: nat|
                k > 0 && #[trigger] old(self).refuses_after(k) ==> r is Ok
                    && final(self).refuses_after((k - 1) as nat),
    ;
}

/// The outcome that the state of a transport owed to a delivery of `plan`,
/// in order and up to the first refusal. A transport that was certain to
/// accept as many transfers as the plan holds took them all. A transport
/// that was certain to refuse after `k` transfers took `k` of them and
/// made the delivery fail where the plan is longer than that, and took
/// them all where it is not. What was certain before holds afterwards of
/// the transfers that are left.
pub open spec fn owed<B: Transport>(
    before: B,
    after: B,
    plan: Seq<Transfer>,
    outcome: Result<(), BusError>,
) -> bool {
    &&& forall|n: nat|
        n >= plan.len() && #[trigger] before.accepts(n) ==> outcome is Ok && after.accepts(
            (n - plan.len()) as nat,
        )
    &&& forall|k: nat| #[trigger]
        before.refuses_after(k) ==> if k < plan.len() {
            outcome is Err && after.sent() == before.sent() + plan.take(k as int)
        } else {
            outcome is Ok && after.refuses_after((k - plan.len()) as nat)
        }
}

/// What a transport has accepted after it was asked to deliver `plan` in
/// order and stopped at the first refusal: the whole plan on success, a
/// proper prefix of it on failure.
pub open spec fn delivered(
    before: Seq<Transfer>,
    after: Seq<Transfer>,
    plan: Seq<Transfer>,
    outcome: Result<(), BusError>,
) -> bool {
    match outcome {
        Ok(_) => after == before + plan,
        Err(_) => exists|accepted: int|
            0 <= accepted < plan.len() && after == before + #[trigger] plan.take(accepted),
    }
}

/// Two deliveries in a row are one delivery of the two plans joined, with
/// the outcome of the second.
pub proof fn lemma_delivered_then(
    before: Seq<Transfer>,
    middle: Seq<Transfer>,
    after: Seq<Transfer>,
    head: Seq<Transfer>,
    tail: Seq<Transfer>,
    outcome: Result<(), BusError>,
)
    requires
        delivered(before, middle, head, Ok(())),
        delivered(middle, after, tail, outcome),
    ensures
        delivered(before, after, head + tail, outcome),
{
    match outcome {
        Ok(_) => {
            assert(after =~= before + (head + tail));
        },
        Err(_) => {
            let accepted = choose|accepted: int|
                0 <= accepted < tail.len() && after == middle + #[trigger] tail.take(accepted);
            let total = head.len() + accepted;
            assert((head + tail).take(total) =~= head + tail.take(accepted));
            assert(after =~= before + (head + tail).take(total));
        },
    }
}

/// Two deliveries in a row owe what one delivery of the two plans joined
/// owes, where the first went through.
pub proof fn lemma_owed_then<B: Transport>(
    before: B,
    middle: B,
    after: B,
    head: Seq<Transfer>,
    tail: Seq<Transfer>,
    outcome: Result<(), BusError>,
)
    requires
        delivered(before.sent(), middle.sent(), head, Ok(())),
        owed(before, middle, head, Ok(())),
        owed(middle, after, tail, outcome),
    ensures
        owed(before, after, head + tail, outcome),
{
    let plan = head + tail;
    assert forall|n: nat| n >= plan.len() && #[trigger] before.accepts(n) implies outcome is Ok
        && after.accepts((n - plan.len()) as nat) by {
        assert(middle.accepts((n - head.len()) as nat));
    }
    assert forall|k: nat| #[trigger] before.refuses_after(k) implies if k < plan.len() {
        outcome is Err && after.sent() == before.sent() + plan.take(k as int)
    } else {
        outcome is Ok && after.refuses_after((k - plan.len()) as nat)
    } by {
        assert(k >= head.len());
        let rest = (k - head.len()) as nat;
        assert(middle.refuses_after(rest));
        if k < plan.len() {
            assert(plan.take(k as int) =~= head + tail.take(rest as int));
            assert(after.sent() =~= before.sent() + plan.take(k as int));
        }
    }
}

/// A delivery that failed owes the same to any longer plan that starts
/// with the same transfers.
pub proof fn lemma_owed_failed_early<B: Transport>(
    before: B,
    after: B,
    head: Seq<Transfer>,
    tail: Seq<Transfer>,
    error: BusError,
)
    requires
        owed(before, after, head, Err(error)),
    ensures
        owed(before, after, head + tail, Err(error)),
{
    let plan = head + tail;
    assert forall|n: nat| n >= plan.len() && #[trigger] before.accepts(n) implies false by {}
    assert forall|k: nat| #[trigger] before.refuses_after(k) implies k < plan.len()
        && after.sent() == before.sent() + plan.take(k as int) by {
        assert(k < head.len());
        assert(plan.take(k as int) =~= head.take(k as int));
    }
}

/// Hands one transfer to the primitive of `bus` that its kind calls for.
/// Where the state of the transport makes the outcome certain, that is the
/// outcome.
pub fn send<B: Transport>(bus: &mut B, transfer: Transfer) -> (r: Result<(), BusError>)
    ensures
        r is Ok ==> final(bus).sent() == old(bus).sent().push(transfer),
        r is Err ==> final(bus).sent() == old(bus).sent(),
        forall|n: nat|
            n > 0 && #[trigger] old(bus).accepts(n) ==> r is Ok
                && final(bus).accepts((n - 1) as nat),
        old(bus).refuses_after(0) ==> r is Err,
        forall|k: nat|
            k > 0 && #[trigger] old(bus).refuses_after(k) ==> r is Ok
                && final(bus).refuses_after((k - 1) as nat),
{
    match transfer {
        Transfer::Command(byte) => bus.send_command(byte),
        Transfer::Data(byte) => bus.send_data(byte),
    }
}

/// Delivers `plan` to `bus` strictly in order, one transfer after the
/// other, and gives up at the first one that the bus refuses: a refused
/// transfer is not tried again and nothing is sent after it. An empty plan
/// touches the bus not at all and succeeds. Where the state of the
/// transport makes the outcome certain, that is the outcome.
pub fn send_all<B: Transport>(bus: &mut B, plan: &Vec<Transfer>) -> (r: Result<(), BusError>)
    ensures
        delivered(old(bus).sent(), final(bus).sent(), plan@, r),
        owed(*old(bus), *final(bus), plan@, r),
        plan@.len() == 0 ==> r is Ok && *final(bus) == *old(bus),
{
    let mut i: usize = 0;
    while i < plan.len()
        invariant
            i <= plan.len(),
            bus.sent() == old(bus).sent() + plan@.take(i as int),
            i == 0 ==> *bus == *old(bus),
            forall|n: nat|
                n >= plan@.len() && #[trigger] old(bus).accepts(n) ==> bus.accepts((n - i) as nat),
            forall|k: nat| #[trigger]
                old(bus).refuses_after(k) ==> k >= i && bus.refuses_after((k - i) as nat),
        decreases plan.len() - i,
    {
        let transfer: Transfer = plan[i];
        match send(bus, transfer) {
            Ok(_) => {
                assert(plan@.take(i + 1) =~= plan@.take(i as int).push(plan@[i as int]));
                assert(bus.sent() =~= old(bus).sent() + plan@.take(i + 1));
            },
            Err(e) => {
                return Err(e);
            },
        }
        i = i + 1;
    }
    assert(plan@.take(i as int) =~= plan@);
    Ok(())
}

/// A bus on which every write is a register byte followed by a value byte,
/// as an SMBus "write byte data" is: all that is asked of an I2C adapter.
pub trait RegisterBus {
    /// Writes `value` to `register` and waits for the outcome.
    fn write_byte_data(&mut self, register: u8, value: u8) -> Result<(), BusError>;
}

/// The transport over a register bus: each transfer is one write, with the
/// control byte for its kind as the register and the byte it carries as
/// the value. `sent` lists the transfers whose write the bus accepted.
pub struct I2cTransport<D: RegisterBus> {
    device: D,
    accepted: Ghost<Seq<Transfer>>,
}

impl<D: RegisterBus> I2cTransport<D> {
    /// The bus that the transport writes to.
    pub closed spec fn device(&self) -> D {
        self.device
    }

    /// A transport over `device` that has sent nothing yet.
    pub fn new(device: D) -> (transport: I2cTransport<D>)
        ensures
            transport.device() == device,
            transport.sent() == Seq::<Transfer>::empty(),
    {
        I2cTransport { device, accepted: Ghost(Seq::empty()) }
    }

    /// Gives the bus back and ends the transport.
    pub fn release(self) -> (device: D)
        ensures
            device == self.device(),
    {
        self.device
    }

    /// Frames `transfer` as one write on the bus.
    fn write(&mut self, transfer: Transfer) -> (r: Result<(), BusError>)
        ensures
            r is Ok ==> final(self).sent() == old(self).sent().push(transfer),
            r is Err ==> final(self).sent() == old(self).sent(),
    {
        // The bus decides the outcome. Its answer is noted in the log and
        // handed on as it came.
        let outcome = self.device.write_byte_data(
            transfer.control_byte(),
            transfer.payload(),
        );
        self.settle(transfer, outcome)
    }
}

impl<D: RegisterBus> Transport for I2cTransport<D> {
    closed spec fn sent(&self) -> Seq<Transfer> {
        self.accepted@
    }

    fn send_command(&mut self, byte: u8) -> (r: Result<(), BusError>) {
        self.write(Transfer::Command(byte))
    }

    fn send_data(&mut self, byte: u8) -> (r: Result<(), BusError>) {
        self.write(Transfer::Data(byte))
    }

    /// Nothing in the transport tells what the bus will answer, so only
    /// of no transfers at all is it certain that they will be accepted.
    open spec fn accepts(&self, n: nat) -> bool {
        n == 0
    }

    /// Nothing in the transport tells when the bus will refuse.
    open spec fn refuses_after(&self, k: nat) -> bool {
        false
    }
}

impl<D: RegisterBus> I2cTransport<D> {
    /// Notes what the bus answered to the write of `transfer`: an accepted
    /// transfer joins `sent`, a refused one does not. The answer is handed
    /// on as it came, and the bus is not touched.
    fn settle(&mut self, transfer: Transfer, outcome: Result<(), BusError>) -> (r: Result<
        (),
        BusError,
    >)
        ensures
            r == outcome,
            outcome is Ok ==> final(self).sent() == old(self).sent().push(transfer),
            outcome is Err ==> final(self).sent() == old(self).sent(),
            final(self).device() == old(self).device(),
    {
        match outcome {
            Ok(done) => {
                self.accepted = Ghost(self.accepted@.push(transfer));
                Ok(done)
            },
            Err(e) => Err(e),
        }
    }
}

/// A transport that records what it is given instead of driving a panel,
/// and that can be told to refuse one transfer.
pub struct Recorder {
    log: Vec<Transfer>,
    fuse: Option<usize>,
}

impl Recorder {
    /// The transfers still to be accepted before one is refused, if a
    /// refusal is armed.
    pub closed spec fn fuse(&self) -> Option<nat> {
        match self.fuse {
            Some(n) => Some(n as nat),
            None => None,
        }
    }

    /// The state of the fuse after one more transfer was attempted.
    pub open spec fn burn(fuse: Option<nat>) -> Option<nat> {
        match fuse {
            Some(n) => if n == 0 {
                None
            } else {
                Some((n - 1) as nat)
            },
            None => None,
        }
    }

    /// A recorder that accepts everything.
    pub fn new() -> (recorder: Recorder)
        ensures
            recorder.sent() == Seq::<Transfer>::empty(),
            recorder.fuse() == None::<nat>,
    {
        Recorder { log: Vec::new(), fuse: None }
    }

    /// A recorder that accepts `accepted` transfers, refuses the one after
    /// them, and accepts everything from then on.
    pub fn failing_after(accepted: usize) -> (recorder: Recorder)
        ensures
            recorder.sent() == Seq::<Transfer>::empty(),
            recorder.fuse() == Some(accepted as nat),
    {
        Recorder { log: Vec::new(), fuse: Some(accepted) }
    }

    /// Arms a refusal: the next `accepted` transfers pass, the one after
    /// them fails.
    pub fn fail_after(&mut self, accepted: usize)
        ensures
            final(self).sent() == old(self).sent(),
            final(self).fuse() == Some(accepted as nat),
    {
        self.fuse = Some(accepted);
    }

    /// The accepted transfers, oldest first.
    pub fn transfers(&self) -> (log: &Vec<Transfer>)
        ensures
            log@ == self.sent(),
    {
        &self.log
    }

    /// Forgets the recorded transfers. An armed refusal stays armed.
    pub fn reset(&mut self)
        ensures
            final(self).sent() == Seq::<Transfer>::empty(),
            final(self).fuse() == old(self).fuse(),
    {
        self.log = Vec::new();
    }

    fn accept(&mut self, transfer: Transfer) -> (r: Result<(), BusError>)
        ensures
            r is Err <==> old(self).fuse() == Some(0nat),
            r is Ok ==> final(self).sent() == old(self).sent().push(transfer),
            r is Err ==> final(self).sent() == old(self).sent(),
            final(self).fuse() == Self::burn(old(self).fuse()),
    {
        match self.fuse {
            Some(n) => {
                if n == 0 {
                    self.fuse = None;
                    return Err(BusError);
                }
                self.fuse = Some(n - 1);
            },
            None => {},
        }
        self.log.push(transfer);
        Ok(())
    }
}

impl Transport for Recorder {
    closed spec fn sent(&self) -> Seq<Transfer> {
        self.log@
    }

    /// A recorder accepts whatever comes while no refusal is armed, and
    /// as many transfers as its fuse counts while one is.
    open spec fn accepts(&self, n: nat) -> bool {
        match self.fuse() {
            Some(left) => n <= left,
            None => true,
        }
    }

    /// A recorder refuses the transfer on which its fuse has run down.
    open spec fn refuses_after(&self, k: nat) -> bool {
        self.fuse() == Some(k)
    }

    fn send_command(&mut self, byte: u8) -> (r: Result<(), BusError>)
        ensures
            r is Err <==> old(self).fuse() == Some(0nat),
            final(self).fuse() == Self::burn(old(self).fuse()),
    {
        self.accept(Transfer::Command(byte))
    }

    fn send_data(&mut self, byte: u8) -> (r: Result<(), BusError>)
        ensures
            r is Err <==> old(self).fuse() == Some(0nat),
            final(self).fuse() == Self::burn(old(self).fuse()),
    {
        self.accept(Transfer::Data(byte))
    }
}

/// A delivery that failed is also a failed delivery of any longer plan
/// that starts with the same transfers.
pub proof fn lemma_delivered_failed_early(
    before: Seq<Transfer>,
    after: Seq<Transfer>,
    head: Seq<Transfer>,
    tail: Seq<Transfer>,
    error: BusError,
)
    requires
        delivered(before, after, head, Err(error)),
    ensures
        delivered(before, after, head + tail, Err(error)),
{
    let accepted = choose|accepted: int|
        0 <= accepted < head.len() && after == before + #[trigger] head.take(accepted);
    assert((head + tail).take(accepted) =~= head.take(accepted));
}

} // verus!
