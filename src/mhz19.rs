use vstd::prelude::*;
use crate::bus::{CountDown, SerialOp, SerialRead, SerialWrite};

verus! {

/// First byte of every frame.
pub const START_BYTE: u8 = 0xFF;

/// Device identifier, the second byte of every frame.
pub const DEVICE_ID: u8 = 0x01;

/// Number of bytes in a frame, in each direction.
pub const FRAME_LEN: usize = 9;

/// Sum of the bytes of `s`, as an unbounded integer.
pub open spec fn byte_sum(s: Seq<u8>) -> int
    decreases s.len(),
{
    if s.len() == 0 {
        0
    } else {
        byte_sum(s.drop_last()) + s.last()
    }
}

/// The checksum byte: 255 minus the sum of the bytes taken modulo 256.
pub open spec fn checksum_of(s: Seq<u8>) -> u8 {
    (255 - byte_sum(s) % 256) as u8
}

/// Computes the checksum of a frame body (the eight bytes before the checksum).
pub fn crc(data: &[u8]) -> (r: u8)
    ensures
        r == checksum_of(data@),
{
    let mut result: u8 = 0;
    let mut i: usize = 0;
    while i < data.len()
        invariant
            i <= data@.len(),
            result as int == byte_sum(data@.take(i as int)) % 256,
        decreases data@.len() - i,
    {
        let number = data[i];
        proof {
            assert(data@.take(i as int + 1).drop_last() == data@.take(i as int));
        }
        result = result.wrapping_add(number);
        i += 1;
    }
    proof {
        assert(data@.take(data@.len() as int) == data@);
    }
    255u8 - result
}


/// The command codes understood by the sensor.
#[derive(Clone, Copy, Debug, PartialEq, Eq, Structural)]
pub enum Command {
    ReadConcentration,
    CalibrateZeroPoint,
    CalibrateSpanPoint,
    OnOffAutoCalibration,
    DetectionRangeSetting,
}

/// The byte that encodes a command on the wire.
pub open spec fn command_code(c: Command) -> u8 {
    match c {
        Command::ReadConcentration => 0x86,
        Command::CalibrateZeroPoint => 0x87,
        Command::CalibrateSpanPoint => 0x88,
        Command::OnOffAutoCalibration => 0x79,
        Command::DetectionRangeSetting => 0x99,
    }
}

impl Command {
    pub fn code(&self) -> (r: u8)
        ensures
            r == command_code(*self),
    {
        match self {
            Command::ReadConcentration => 0x86,
            Command::CalibrateZeroPoint => 0x87,
            Command::CalibrateSpanPoint => 0x88,
            Command::OnOffAutoCalibration => 0x79,
            Command::DetectionRangeSetting => 0x99,
        }
    }
}

/// Full-scale detection ranges of the sensor, in ppm.
#[derive(Clone, Copy, Debug, PartialEq, Eq, Structural)]
pub enum Range {
    _1000,
    _2000,
    _3000,
    _5000,
    _10000,
}

/// Errors of a sensor operation.
#[derive(Clone, Copy, Debug, PartialEq, Eq, Structural)]
pub enum Mhz19Errors {
    /// The transport refused a byte of the outgoing frame.
    WriteFailed,
    /// No complete frame arrived before the deadline.
    TimedOut,
    /// Nine bytes arrived but their checksum does not match.
    IntegrityFailure,
    /// An argument is out of range.
    InvalidArgument,
}

/// The first eight bytes of the frame for command byte `cmd` and arguments `args`.
pub open spec fn frame_body(cmd: u8, args: Seq<u8>) -> Seq<u8> {
    seq![START_BYTE, DEVICE_ID, cmd, args[0], args[1], args[2], args[3], args[4]]
}

/// The complete frame for command byte `cmd` and arguments `args`.
pub open spec fn frame_of(cmd: u8, args: Seq<u8>) -> Seq<u8> {
    frame_body(cmd, args).push(checksum_of(frame_body(cmd, args)))
}

/// A frame is well formed when it has nine bytes and the last one is the
/// checksum of the eight before it.
pub open spec fn is_valid_frame(f: Seq<u8>) -> bool {
    f.len() == FRAME_LEN && f[8] == checksum_of(f.take(8))
}

/// Builds the frame that sends command byte `cmd` with the argument block `data`.
pub fn build_frame(cmd: u8, data: [u8; 5]) -> (r: [u8; 9])
    ensures
        r@ == frame_of(cmd, data@),
{
    let body: [u8; 8] = [START_BYTE, DEVICE_ID, cmd, data[0], data[1], data[2], data[3], data[4]];
    assert(body@ == frame_body(cmd, data@));
    let c = crc(&body);
    let r: [u8; 9] = [body[0], body[1], body[2], body[3], body[4], body[5], body[6], body[7], c];
    assert(r@ == frame_of(cmd, data@));
    r
}

/// Tells whether the trailing byte of `frame` is the checksum of the rest.
pub fn frame_is_valid(frame: &[u8; 9]) -> (r: bool)
    ensures
        r == is_valid_frame(frame@),
{
    let body: [u8; 8] = [frame[0], frame[1], frame[2], frame[3], frame[4], frame[5], frame[6], frame[7]];
    assert(body@ == frame@.take(8));
    crc(&body) == frame[8]
}


/// Deadline, in timer ticks, within which a reply must arrive.
pub const RESPONSE_TIMEOUT: u32 = 1000;

/// First argument byte of the auto-calibration command when it switches calibration on.
pub const AUTO_CALIBRATION_ON: u8 = 0xA0;

/// The concentration carried by a reply: bytes 2 and 3, big-endian.
pub open spec fn concentration_spec(f: Seq<u8>) -> u16 {
    (f[2] as int * 256 + f[3] as int) as u16
}

/// The frame that asks the sensor for the gas concentration.
pub fn read_concentration_request() -> (r: [u8; 9])
    ensures
        r@ == frame_of(command_code(Command::ReadConcentration), seq![0u8, 0u8, 0u8, 0u8, 0u8]),
{
    let data: [u8; 5] = [0u8, 0u8, 0u8, 0u8, 0u8];
    let r = build_frame(Command::ReadConcentration.code(), data);
    assert(data@ == seq![0u8, 0u8, 0u8, 0u8, 0u8]);
    r
}

/// The first argument byte of the auto-calibration command.
pub open spec fn auto_calibration_arg(state: bool) -> u8 {
    if state {
        AUTO_CALIBRATION_ON
    } else {
        0
    }
}

/// The frame that switches the sensor's automatic calibration on or off.
pub fn auto_calibration_request(state: bool) -> (r: [u8; 9])
    ensures
        r@ == frame_of(
            command_code(Command::OnOffAutoCalibration),
            seq![auto_calibration_arg(state), 0u8, 0u8, 0u8, 0u8],
        ),
{
    let mut state_val: u8 = 0x00;
    if state {
        state_val = AUTO_CALIBRATION_ON;
    }
    let data: [u8; 5] = [state_val, 0u8, 0u8, 0u8, 0u8];
    assert(data@ == seq![auto_calibration_arg(state), 0u8, 0u8, 0u8, 0u8]);
    build_frame(Command::OnOffAutoCalibration.code(), data)
}

/// Decodes the concentration, in ppm, from a reply frame.
pub fn concentration_of(frame: &[u8; 9]) -> (r: u16)
    ensures
        r == concentration_spec(frame@),
{
    (frame[2] as u16) * 256 + (frame[3] as u16)
}

/// What one poll of the transport observed.
#[derive(Clone, Copy, Debug, PartialEq, Eq, Structural)]
pub enum PollEvent {
    /// The deadline has elapsed.
    Expired,
    /// The deadline has not elapsed and no byte is available yet.
    Idle,
    /// The deadline has not elapsed and this byte was read.
    Received(u8),
}

/// Where a reply stands after a poll.
#[derive(Clone, Copy, Debug)]
pub enum Collect {
    /// More bytes are needed.
    Pending,
    /// A well-formed frame was received.
    Complete([u8; 9]),
    /// The exchange failed.
    Failed(Mhz19Errors),
}

/// The mathematical form of [`Collect`].
pub enum Outcome {
    Pending,
    Complete(Seq<u8>),
    Failed(Mhz19Errors),
}

impl View for Collect {
    type V = Outcome;

    open spec fn view(&self) -> Outcome {
        match self {
            Collect::Pending => Outcome::Pending,
            Collect::Complete(f) => Outcome::Complete(f@),
            Collect::Failed(e) => Outcome::Failed(*e),
        }
    }
}

/// One transition of the reply collector: from the bytes received so far and
/// a poll event, the bytes held afterwards and the outcome. A finished
/// exchange, successful or not, leaves nothing behind.
pub open spec fn step_spec(received: Seq<u8>, ev: PollEvent) -> (Seq<u8>, Outcome) {
    match ev {
        PollEvent::Expired => (Seq::empty(), Outcome::Failed(Mhz19Errors::TimedOut)),
        PollEvent::Idle => (received, Outcome::Pending),
        PollEvent::Received(b) => {
            let r = received.push(b);
            if r.len() < FRAME_LEN {
                (r, Outcome::Pending)
            } else if is_valid_frame(r) {
                (Seq::empty(), Outcome::Complete(r))
            } else {
                (Seq::empty(), Outcome::Failed(Mhz19Errors::IntegrityFailure))
            }
        },
    }
}

/// Runs the collector over a sequence of poll events, stopping at the first
/// event that finishes the exchange.
pub open spec fn run_spec(received: Seq<u8>, events: Seq<PollEvent>) -> (Seq<u8>, Outcome)
    decreases events.len(),
{
    if events.len() == 0 {
        (received, Outcome::Pending)
    } else {
        let (next, out) = step_spec(received, events[0]);
        if out is Pending {
            run_spec(next, events.drop_first())
        } else {
            (next, out)
        }
    }
}

/// The bytes of a reply received so far.
pub struct ReceiveState {
    buffer: [u8; 9],
    count: usize,
}

impl View for ReceiveState {
    type V = Seq<u8>;

    closed spec fn view(&self) -> Seq<u8> {
        self.buffer@.take(self.count as int)
    }
}

impl ReceiveState {
    /// Fewer than a whole frame is ever held between polls.
    #[verifier::type_invariant]
    spec fn inv(&self) -> bool {
        self.count < FRAME_LEN
    }

    /// The receive state at the start of an exchange: no byte yet.
    pub fn new() -> (r: Self)
        ensures
            r@ == Seq::<u8>::empty(),
    {
        ReceiveState { buffer: [0u8; 9], count: 0 }
    }

    /// The number of bytes received so far.
    pub fn count(&self) -> (r: usize)
        ensures
            r == self@.len(),
            r < FRAME_LEN,
    {
        proof {
            use_type_invariant(self);
        }
        self.count
    }

    /// Feeds one poll event to the collector.
    pub fn step(&mut self, ev: PollEvent) -> (r: Collect)
        ensures
            old(self)@.len() < FRAME_LEN,
            (final(self)@, r@) == step_spec(old(self)@, ev),
            final(self)@.len() < FRAME_LEN,
    {
        proof {
            use_type_invariant(&*self);
        }
        match ev {
            PollEvent::Expired => {
                self.count = 0;
                Collect::Failed(Mhz19Errors::TimedOut)
            },
            PollEvent::Idle => Collect::Pending,
            PollEvent::Received(b) => {
                let ghost before = self@;
                self.buffer[self.count] = b;
                let filled = self.count + 1;
                assert(self.buffer@.take(filled as int) == before.push(b));
                if filled < FRAME_LEN {
                    self.count = filled;
                    Collect::Pending
                } else {
                    let frame = self.buffer;
                    self.count = 0;
                    assert(frame@ == before.push(b));
                    if frame_is_valid(&frame) {
                        Collect::Complete(frame)
                    } else {
                        Collect::Failed(Mhz19Errors::IntegrityFailure)
                    }
                }
            },
        }
    }
}


/// The checksum of an eight-byte body is a function of the bytes alone and
/// equals 255 minus their sum modulo 256, with no further increment.
pub proof fn lemma_checksum_stable(a: Seq<u8>, b: Seq<u8>)
    requires
        a.len() == 8,
        a == b,
    ensures
        checksum_of(a) == checksum_of(b),
        checksum_of(a) as int == 255 - byte_sum(a) % 256,
{
}

/// A frame produced by the builder always passes its own checksum check.
pub proof fn lemma_built_frame_is_valid(cmd: u8, args: Seq<u8>)
    requires
        args.len() == 5,
    ensures
        is_valid_frame(frame_of(cmd, args)),
{
    let f = frame_of(cmd, args);
    assert(f.take(8) == frame_body(cmd, args));
}

/// Whenever a run of the collector finishes, it leaves no byte behind.
pub proof fn lemma_finished_run_leaves_nothing(received: Seq<u8>, events: Seq<PollEvent>)
    requires
        !(run_spec(received, events).1 is Pending),
    ensures
        run_spec(received, events).0 == Seq::<u8>::empty(),
    decreases events.len(),
{
    let (next, out) = step_spec(received, events[0]);
    if out is Pending {
        lemma_finished_run_leaves_nothing(next, events.drop_first());
    }
}

/// A finished exchange does not affect the next one: after it, the collector
/// answers any sequence of polls exactly as a fresh collector would.
pub proof fn lemma_exchange_independent_of_previous(first: Seq<PollEvent>, second: Seq<PollEvent>)
    requires
        !(run_spec(Seq::empty(), first).1 is Pending),
    ensures
        run_spec(run_spec(Seq::empty(), first).0, second) == run_spec(Seq::empty(), second),
{
    lemma_finished_run_leaves_nothing(Seq::empty(), first);
}


/// How many of `events` deliver a byte.
pub open spec fn received_count(events: Seq<PollEvent>) -> nat
    decreases events.len(),
{
    if events.len() == 0 {
        0
    } else {
        (if events[0] is Received { 1nat } else { 0nat }) + received_count(events.drop_first())
    }
}

/// A reply cut short, fewer than nine bytes in all, never yields a frame.
pub proof fn lemma_truncated_reply_never_completes(received: Seq<u8>, events: Seq<PollEvent>)
    requires
        received.len() + received_count(events) < FRAME_LEN,
    ensures
        !(run_spec(received, events).1 is Complete),
    decreases events.len(),
{
    if events.len() > 0 {
        let (next, out) = step_spec(received, events[0]);
        if out is Pending {
            lemma_truncated_reply_never_completes(next, events.drop_first());
        }
    }
}

/// The operations of a gas-concentration sensor.
pub trait Mhz19Trait {
    type Error;

    fn init(&mut self) -> Result<(), Self::Error>;

    fn get_co2(&mut self) -> Result<u16, Self::Error>;

    fn set_auto_calibration(&mut self, state: bool) -> Result<(), Self::Error>;

    fn set_range(&mut self) -> Result<(), Self::Error>;
}


/// The port exchanges of a frame whose bytes were all taken, in order.
pub open spec fn accepted_writes(frame: Seq<u8>) -> Seq<SerialOp> {
    Seq::new(frame.len(), |i: int| SerialOp::Write { word: frame[i], ok: true })
}

/// The port exchanges of sending `frame`, with result `r`: every byte in
/// order on success; on failure the bytes before the refused one, then the
/// refused one, and nothing after it.
pub open spec fn frame_sent(
    before: Seq<SerialOp>,
    after: Seq<SerialOp>,
    frame: Seq<u8>,
    r: Result<(), Mhz19Errors>,
) -> bool {
    match r {
        Ok(_) => after == before + accepted_writes(frame),
        Err(e) => e == Mhz19Errors::WriteFailed && exists|k: int|
            0 <= k < frame.len() && after == #[trigger] (before + accepted_writes(frame.take(k))).push(
                SerialOp::Write { word: frame[k], ok: false },
            ),
    }
}

/// The exchanges of one poll that yielded `ev`: the timer is asked first,
/// and the port only where the timer has not expired.
pub open spec fn poll_ops(ev: PollEvent) -> Seq<SerialOp> {
    match ev {
        PollEvent::Expired => seq![SerialOp::Wait { expired: true }],
        PollEvent::Idle => seq![SerialOp::Wait { expired: false }, SerialOp::Read { byte: None }],
        PollEvent::Received(b) => seq![
            SerialOp::Wait { expired: false },
            SerialOp::Read { byte: Some(b) },
        ],
    }
}

/// An MH-Z19 gas sensor on a serial port, with the timer that bounds each
/// wait for a reply.
pub struct Mhz19<SerialType, TimerType> {
    serial: SerialType,
    timer: TimerType,
    rx: ReceiveState,
    ops: Ghost<Seq<SerialOp>>,
}

impl<SerialType, TimerType> Mhz19<SerialType, TimerType> {
    pub fn new(serial: SerialType, timer: TimerType) -> (r: Self)
        ensures
            r.received() == Seq::<u8>::empty(),
            r.ops() == Seq::<SerialOp>::empty(),
    {
        Mhz19 { serial, timer, rx: ReceiveState::new(), ops: Ghost(Seq::empty()) }
    }

    /// The bytes of the current reply received so far.
    pub closed spec fn received(&self) -> Seq<u8> {
        self.rx@
    }

    /// Every exchange with the port and the timer so far, in order.
    pub closed spec fn ops(&self) -> Seq<SerialOp> {
        self.ops@
    }

    /// Feeds one poll event to the reply collector.
    pub fn feed(&mut self, ev: PollEvent) -> (r: Collect)
        ensures
            (final(self).received(), r@) == step_spec(old(self).received(), ev),
            final(self).ops() == old(self).ops(),
    {
        self.rx.step(ev)
    }
}

impl<SerialType: SerialRead + SerialWrite, TimerType: CountDown> Mhz19<SerialType, TimerType> {
    /// Sends `frame` byte by byte, stopping at the first byte the port refuses.
    pub fn send(&mut self, frame: &[u8; 9]) -> (r: Result<(), Mhz19Errors>)
        ensures
            frame_sent(old(self).ops(), final(self).ops(), frame@, r),
            final(self).received() == old(self).received(),
    {
        let mut i: usize = 0;
        while i < FRAME_LEN
            invariant
                i <= FRAME_LEN,
                frame@.len() == FRAME_LEN,
                self.received() == old(self).received(),
                self.ops() == old(self).ops() + accepted_writes(frame@.take(i as int)),
            decreases FRAME_LEN - i,
        {
            let ghost before = self.ops@;
            let accepted = self.serial.write(frame[i]);
            match accepted {
                Ok(()) => {
                    self.ops = Ghost(self.ops@.push(SerialOp::Write { word: frame[i as int], ok: true }));
                    assert(accepted_writes(frame@.take(i as int + 1)) =~= accepted_writes(
                        frame@.take(i as int),
                    ).push(SerialOp::Write { word: frame[i as int], ok: true }));
                    assert(self.ops@ =~= old(self).ops() + accepted_writes(frame@.take(i as int + 1)));
                },
                Err(()) => {
                    self.ops = Ghost(self.ops@.push(SerialOp::Write { word: frame[i as int], ok: false }));
                    assert(frame_sent(old(self).ops(), self.ops@, frame@, Err(Mhz19Errors::WriteFailed)));
                    return Err(Mhz19Errors::WriteFailed);
                },
            }
            i += 1;
        }
        assert(frame@.take(9) =~= frame@);
        Ok(())
    }

    /// Builds the frame for command byte `cmd` with arguments `data` and sends it.
    pub fn command(&mut self, cmd: u8, data: [u8; 5]) -> (r: Result<(), Mhz19Errors>)
        ensures
            frame_sent(old(self).ops(), final(self).ops(), frame_of(cmd, data@), r),
            final(self).received() == old(self).received(),
    {
        let frame = build_frame(cmd, data);
        self.send(&frame)
    }

    /// Asks the sensor for the gas concentration.
    pub fn send_read_request(&mut self) -> (r: Result<(), Mhz19Errors>)
        ensures
            frame_sent(
                old(self).ops(),
                final(self).ops(),
                frame_of(command_code(Command::ReadConcentration), seq![0u8, 0u8, 0u8, 0u8, 0u8]),
                r,
            ),
            final(self).received() == old(self).received(),
    {
        let frame = read_concentration_request();
        self.send(&frame)
    }

    /// Switches the sensor's automatic calibration on or off. No reply is
    /// waited for.
    pub fn send_auto_calibration(&mut self, state: bool) -> (r: Result<(), Mhz19Errors>)
        ensures
            frame_sent(
                old(self).ops(),
                final(self).ops(),
                frame_of(
                    command_code(Command::OnOffAutoCalibration),
                    seq![auto_calibration_arg(state), 0u8, 0u8, 0u8, 0u8],
                ),
                r,
            ),
            final(self).received() == old(self).received(),
    {
        let frame = auto_calibration_request(state);
        self.send(&frame)
    }

    /// Arms the reply deadline and forgets any bytes of an earlier reply.
    pub fn start_response(&mut self)
        ensures
            final(self).received() == Seq::<u8>::empty(),
            final(self).ops() == old(self).ops().push(SerialOp::Start { ticks: RESPONSE_TIMEOUT }),
    {
        self.timer.start(RESPONSE_TIMEOUT);
        self.ops = Ghost(self.ops@.push(SerialOp::Start { ticks: RESPONSE_TIMEOUT }));
        self.rx = ReceiveState::new();
    }

    /// Polls once: the deadline first, then, where it has not passed, the
    /// serial port. The event returned is what they reported.
    pub fn poll(&mut self) -> (r: PollEvent)
        ensures
            final(self).received() == old(self).received(),
            final(self).ops() == old(self).ops() + poll_ops(r),
    {
        if self.timer.expired() {
            self.ops = Ghost(self.ops@.push(SerialOp::Wait { expired: true }));
            assert(self.ops@ =~= old(self).ops() + poll_ops(PollEvent::Expired));
            PollEvent::Expired
        } else {
            self.ops = Ghost(self.ops@.push(SerialOp::Wait { expired: false }));
            let byte = self.serial.read();
            self.ops = Ghost(self.ops@.push(SerialOp::Read { byte }));
            match byte {
                Some(b) => {
                    assert(self.ops@ =~= old(self).ops() + poll_ops(PollEvent::Received(b)));
                    PollEvent::Received(b)
                },
                None => {
                    assert(self.ops@ =~= old(self).ops() + poll_ops(PollEvent::Idle));
                    PollEvent::Idle
                },
            }
        }
    }
}

} // verus!
