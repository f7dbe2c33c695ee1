//! The flashing protocol of a CAN bootloader as a state machine.
//!
//! A `Session` holds the steps of the command in progress. Its driver asks
//! `next_action` what to do, performs it on a transport, and reports back
//! with `sent` or `received`; a transport failure is reported with
//! `abandon`. A command's phase is reached only once all of its steps are
//! done, each awaited acknowledgement included.

use vstd::prelude::*;
use vstd::slice::slice_subrange;

use crate::error::Error;
use crate::filter::{negotiate, standard_filter, combined_filter, FilterPlan};
use crate::frame::{data_frame, Frame, FrameView, Id, MAX_STANDARD_ID};

verus! {

/// Identifier of the synchronisation command.
pub const SYNC_ID: u32 = 0x79;

/// Identifier of the erase command.
pub const ERASE_ID: u32 = 0x43;

/// Identifier of the write-memory command and of its acknowledgements.
pub const WRITE_ID: u32 = 0x31;

/// Identifier of the frames that carry the bytes of a write.
pub const WRITE_DATA_ID: u32 = 0x04;

/// Identifier of the go (jump) command.
pub const GO_ID: u32 = 0x21;

/// The single payload byte of an acknowledgement.
pub const ACK: u8 = 0x79;

/// Payload of the erase command: erase all of the memory.
pub const ERASE_ALL: u8 = 0xFF;

/// Most bytes one write-memory command carries.
pub const BLOCK_LEN: usize = 256;

/// A valid acknowledgement of the command on `id`: a standard frame on
/// `id` whose payload is the one byte `ACK`.
pub open spec fn is_ack(f: FrameView, id: u32) -> bool {
    f.id == Id::Standard(id) && f.data == seq![ACK]
}

/// Whether `frame` acknowledges the command on `id`.
pub fn is_ack_for(frame: &Frame, id: u32) -> (r: bool)
    ensures
        r == is_ack(frame@, id),
{
    let d = frame.data();
    let r = frame.is_standard() && frame.id().id() == id && d.len() == 1 && d[0] == ACK;
    assert(d@.len() == 1 && d@[0] == ACK ==> d@ =~= seq![ACK]);
    r
}

/// One step of a command.
#[derive(Clone, Copy, Debug)]
pub enum Step {
    /// Transmit this frame.
    Send(Frame),
    /// Receive one frame, which must acknowledge the command on this
    /// identifier.
    AwaitAck(u32),
}

pub ghost enum StepView {
    Send(FrameView),
    AwaitAck(u32),
}

impl View for Step {
    type V = StepView;

    open spec fn view(&self) -> StepView {
        match self {
            Step::Send(f) => StepView::Send(f@),
            Step::AwaitAck(id) => StepView::AwaitAck(*id),
        }
    }
}

pub open spec fn step_views(steps: Seq<Step>) -> Seq<StepView> {
    steps.map_values(|s: Step| s@)
}

/// Sending a standard data frame on `id` with payload `data`.
pub open spec fn command(id: u32, data: Seq<u8>) -> StepView {
    StepView::Send(data_frame(Id::Standard(id), data))
}

/// A 32-bit value as four bytes, most significant first.
pub open spec fn be32(a: u32) -> Seq<u8> {
    seq![
        #[verifier::truncate] ((a >> 24u32) as u8),
        #[verifier::truncate] ((a >> 16u32) as u8),
        #[verifier::truncate] ((a >> 8u32) as u8),
        #[verifier::truncate] (a as u8),
    ]
}

pub open spec fn enable_script() -> Seq<StepView> {
    seq![command(SYNC_ID, seq![]), StepView::AwaitAck(SYNC_ID)]
}

/// The erase command is acknowledged twice, once per erase phase.
pub open spec fn erase_script() -> Seq<StepView> {
    seq![command(ERASE_ID, seq![ERASE_ALL]), StepView::AwaitAck(ERASE_ID), StepView::AwaitAck(ERASE_ID)]
}

pub open spec fn go_script(address: u32) -> Seq<StepView> {
    seq![command(GO_ID, be32(address)), StepView::AwaitAck(GO_ID)]
}

/// How many frames of at most eight bytes carry `n` bytes.
pub open spec fn chunk_count(n: nat) -> nat {
    (n + 7) / 8
}

/// The `k`-th piece of at most eight bytes of `block`.
pub open spec fn chunk(block: Seq<u8>, k: int) -> Seq<u8> {
    block.subrange(8 * k, if 8 * k + 8 <= block.len() { 8 * k + 8 } else { block.len() as int })
}

/// The header of a write: the address, most significant byte first, then
/// the block's length less one.
pub open spec fn write_header(address: u32, len: nat) -> Seq<u8> {
    be32(address).push(#[verifier::truncate] ((len - 1) as u8))
}

/// Writing one block at `address`: the header and its acknowledgement, the
/// bytes in frames of at most eight with no acknowledgement between them,
/// then one acknowledgement of the whole block.
pub open spec fn write_block_script(address: u32, block: Seq<u8>) -> Seq<StepView> {
    seq![command(WRITE_ID, write_header(address, block.len())), StepView::AwaitAck(WRITE_ID)]
        + Seq::new(chunk_count(block.len()), |k: int| command(WRITE_DATA_ID, chunk(block, k)))
        + seq![StepView::AwaitAck(WRITE_ID)]
}

/// Where the update stands: the last command that completed.
#[derive(Clone, Copy, Debug, PartialEq, Eq, Structural)]
pub enum Phase {
    Created,
    Enabled,
    Erased,
    Writing,
    Jumped,
}

/// What the driver of a session is to do next.
#[derive(Clone, Copy, Debug)]
pub enum Action {
    Transmit(Frame),
    /// Receive one frame and hand it to `received`.
    ReceiveAck(u32),
    /// No command is in progress.
    Idle,
}

/// A session as a value: its phase, its address cursor, the steps still to
/// do, and the phase and cursor it takes once they are done.
pub ghost struct SessionView {
    pub phase: Phase,
    pub cursor: u32,
    pub pending: Seq<StepView>,
    pub on_done: Phase,
    pub next_cursor: u32,
}

pub open spec fn idle(s: SessionView) -> bool {
    s.pending.len() == 0
}

/// Starting a command with these steps.
pub open spec fn start(
    s: SessionView,
    script: Seq<StepView>,
    on_done: Phase,
    next_cursor: u32,
) -> SessionView {
    SessionView { pending: script, on_done, next_cursor, ..s }
}

/// One step done; after the last, the command's phase and cursor hold.
pub open spec fn advance(s: SessionView) -> SessionView {
    if s.pending.len() <= 1 {
        SessionView { phase: s.on_done, cursor: s.next_cursor, pending: seq![], ..s }
    } else {
        SessionView { pending: s.pending.drop_first(), ..s }
    }
}

/// The command in progress is dropped; phase and cursor stay.
pub open spec fn abandon(s: SessionView) -> SessionView {
    SessionView { pending: seq![], ..s }
}

/// The frame `f` came while an acknowledgement was awaited.
pub open spec fn receive(s: SessionView, f: FrameView) -> SessionView {
    match s.pending[0] {
        StepView::AwaitAck(id) => if is_ack(f, id) {
            advance(s)
        } else {
            abandon(s)
        },
        StepView::Send(_) => s,
    }
}

/// One update of one target's firmware.
#[derive(Debug)]
pub struct Session {
    phase: Phase,
    cursor: u32,
    script: Vec<Step>,
    pos: usize,
    on_done: Phase,
    next_cursor: u32,
}

impl View for Session {
    type V = SessionView;

    closed spec fn view(&self) -> SessionView {
        SessionView {
            phase: self.phase,
            cursor: self.cursor,
            pending: step_views(self.script@.subrange(self.pos as int, self.script@.len() as int)),
            on_done: self.on_done,
            next_cursor: self.next_cursor,
        }
    }
}

/// A standard data frame of the protocol.
fn command_frame(id: u32, data: &[u8]) -> (f: Frame)
    requires
        id <= MAX_STANDARD_ID,
        data@.len() <= 8,
    ensures
        StepView::Send(f@) == command(id, data@),
{
    Frame::new_standard(id, data).unwrap()
}

impl Session {
    pub closed spec fn wf(&self) -> bool {
        self.pos <= self.script@.len()
    }

    pub fn new() -> (r: Session)
        ensures
            r.wf(),
            r@ == (SessionView {
                phase: Phase::Created,
                cursor: 0,
                pending: seq![],
                on_done: Phase::Created,
                next_cursor: 0,
            }),
    {
        let r = Session {
            phase: Phase::Created,
            cursor: 0,
            script: Vec::new(),
            pos: 0,
            on_done: Phase::Created,
            next_cursor: 0,
        };
        assert(r@.pending =~= seq![]);
        r
    }

    pub fn phase(&self) -> (r: Phase)
        ensures
            r == self@.phase,
    {
        self.phase
    }

    pub fn cursor(&self) -> (r: u32)
        ensures
            r == self@.cursor,
    {
        self.cursor
    }

    pub fn is_idle(&self) -> (r: bool)
        requires
            self.wf(),
        ensures
            r == idle(self@),
    {
        self.pos >= self.script.len()
    }

    fn load(&mut self, script: Vec<Step>, on_done: Phase, next_cursor: u32)
        requires
            old(self).wf(),
        ensures
            final(self).wf(),
            final(self)@ == start(old(self)@, step_views(script@), on_done, next_cursor),
    {
        self.script = script;
        self.pos = 0;
        self.on_done = on_done;
        self.next_cursor = next_cursor;
        assert(self.script@.subrange(0, self.script@.len() as int) =~= self.script@);
    }

    /// Starts the synchronisation command, which locks the bootloader on
    /// this bus.
    pub fn enable(&mut self)
        requires
            old(self).wf(),
            idle(old(self)@),
        ensures
            final(self).wf(),
            final(self)@ == start(old(self)@, enable_script(), Phase::Enabled, old(self)@.cursor),
    {
        let empty: [u8; 0] = [];
        assert(empty@ =~= seq![]);
        let script = vec![Step::Send(command_frame(SYNC_ID, empty.as_slice())), Step::AwaitAck(SYNC_ID)];
        assert(step_views(script@) =~= enable_script());
        let c = self.cursor;
        self.load(script, Phase::Enabled, c);
    }

    /// Starts erasing all of the target's memory.
    pub fn erase(&mut self)
        requires
            old(self).wf(),
            idle(old(self)@),
        ensures
            final(self).wf(),
            final(self)@ == start(old(self)@, erase_script(), Phase::Erased, old(self)@.cursor),
    {
        let payload: [u8; 1] = [ERASE_ALL];
        assert(payload@ =~= seq![ERASE_ALL]);
        let script = vec![
            Step::Send(command_frame(ERASE_ID, payload.as_slice())),
            Step::AwaitAck(ERASE_ID),
            Step::AwaitAck(ERASE_ID),
        ];
        assert(step_views(script@) =~= erase_script());
        let c = self.cursor;
        self.load(script, Phase::Erased, c);
    }

    /// Starts the jump to `address`.
    pub fn go(&mut self, address: u32)
        requires
            old(self).wf(),
            idle(old(self)@),
        ensures
            final(self).wf(),
            final(self)@ == start(old(self)@, go_script(address), Phase::Jumped, old(self)@.cursor),
    {
        let payload: [u8; 4] = [
            #[verifier::truncate] ((address >> 24u32) as u8),
            #[verifier::truncate] ((address >> 16u32) as u8),
            #[verifier::truncate] ((address >> 8u32) as u8),
            #[verifier::truncate] (address as u8),
        ];
        assert(payload@ =~= be32(address));
        let script = vec![Step::Send(command_frame(GO_ID, payload.as_slice())), Step::AwaitAck(GO_ID)];
        assert(step_views(script@) =~= go_script(address));
        let c = self.cursor;
        self.load(script, Phase::Jumped, c);
    }

    /// Sets the address at which the next block is written.
    pub fn start_write(&mut self, address: u32)
        requires
            old(self).wf(),
            idle(old(self)@),
        ensures
            final(self).wf(),
            final(self)@ == (SessionView { cursor: address, ..old(self)@ }),
    {
        self.cursor = address;
    }

    /// Starts writing `block` at the cursor; once it is acknowledged the
    /// cursor has moved past it.
    pub fn write_block(&mut self, block: &[u8])
        requires
            old(self).wf(),
            idle(old(self)@),
            1 <= block@.len() <= BLOCK_LEN,
            old(self)@.cursor + block@.len() <= u32::MAX,
        ensures
            final(self).wf(),
            final(self)@ == start(
                old(self)@,
                write_block_script(old(self)@.cursor, block@),
                Phase::Writing,
                (old(self)@.cursor + block@.len()) as u32,
            ),
    {
        let a = self.cursor;
        let n = block.len();
        let header: [u8; 5] = [
            #[verifier::truncate] ((a >> 24u32) as u8),
            #[verifier::truncate] ((a >> 16u32) as u8),
            #[verifier::truncate] ((a >> 8u32) as u8),
            #[verifier::truncate] (a as u8),
            #[verifier::truncate] ((n - 1) as u8),
        ];
        assert(header@ =~= write_header(a, n as nat));
        let mut script = vec![Step::Send(command_frame(WRITE_ID, header.as_slice())), Step::AwaitAck(WRITE_ID)];
        let ghost head = seq![command(WRITE_ID, write_header(a, n as nat)), StepView::AwaitAck(WRITE_ID)];
        let ghost pieces = |k: int| command(WRITE_DATA_ID, chunk(block@, k));
        assert(step_views(script@) =~= head + Seq::new(0, pieces));
        let mut off: usize = 0;
        let mut k: usize = 0;
        while off < n
            invariant
                n == block@.len(),
                1 <= n <= BLOCK_LEN,
                off == 8 * k,
                off < n + 8,
                pieces == (|k: int| command(WRITE_DATA_ID, chunk(block@, k))),
                step_views(script@) == head + Seq::new(k as nat, pieces),
            decreases n + 8 - off,
        {
            let end: usize = if off + 8 <= n { off + 8 } else { n };
            let piece = slice_subrange(block, off, end);
            let f = command_frame(WRITE_DATA_ID, piece);
            assert(piece@ == chunk(block@, k as int));
            let ghost before = script@;
            script.push(Step::Send(f));
            assert(step_views(script@) =~= step_views(before).push(StepView::Send(f@)));
            assert(Seq::new((k + 1) as nat, pieces) =~= Seq::new(k as nat, pieces).push(pieces(k as int)));
            assert(step_views(script@) =~= head + Seq::new((k + 1) as nat, pieces));
            off = off + 8;
            k = k + 1;
        }
        assert(k == chunk_count(n as nat)) by (nonlinear_arith)
            requires
                off == 8 * k,
                n <= off,
                off < n + 8,
        ;
        let ghost before = script@;
        script.push(Step::AwaitAck(WRITE_ID));
        assert(step_views(script@) =~= step_views(before).push(StepView::AwaitAck(WRITE_ID)));
        assert(step_views(script@) =~= write_block_script(a, block@));
        self.load(script, Phase::Writing, (a + n as u32) as u32);
    }

    /// What to do next for the command in progress.
    pub fn next_action(&self) -> (r: Action)
        requires
            self.wf(),
        ensures
            idle(self@) ==> r is Idle,
            !idle(self@) ==> match self@.pending[0] {
                StepView::Send(fv) => r matches Action::Transmit(f) && f@ == fv,
                StepView::AwaitAck(id) => r matches Action::ReceiveAck(i) && i == id,
            },
    {
        if self.pos >= self.script.len() {
            Action::Idle
        } else {
            assert(self@.pending[0] == self.script@[self.pos as int]@);
            match &self.script[self.pos] {
                Step::Send(f) => Action::Transmit(*f),
                Step::AwaitAck(id) => Action::ReceiveAck(*id),
            }
        }
    }

    fn step_done(&mut self)
        requires
            old(self).wf(),
            !idle(old(self)@),
        ensures
            final(self).wf(),
            final(self)@ == advance(old(self)@),
    {
        let len = self.script.len();
        assert(self@.pending.len() == len - self.pos);
        self.pos = self.pos + 1;
        if self.pos >= self.script.len() {
            self.phase = self.on_done;
            self.cursor = self.next_cursor;
            assert(self@.pending =~= seq![]);
        } else {
            assert(self@.pending =~= old(self)@.pending.drop_first());
        }
    }

    /// The frame of the current step has been transmitted.
    pub fn sent(&mut self)
        requires
            old(self).wf(),
            !idle(old(self)@),
            old(self)@.pending[0] is Send,
        ensures
            final(self).wf(),
            final(self)@ == advance(old(self)@),
    {
        self.step_done();
    }

    /// A frame came while the current step awaits an acknowledgement. A
    /// valid one completes the step; any other frame abandons the command
    /// and is returned in `UnexpectedAcknowledgement`.
    pub fn received(&mut self, frame: Frame) -> (r: Result<(), Error>)
        requires
            old(self).wf(),
            !idle(old(self)@),
            old(self)@.pending[0] is AwaitAck,
        ensures
            final(self).wf(),
            final(self)@ == receive(old(self)@, frame@),
            r is Ok <==> is_ack(frame@, old(self)@.pending[0]->AwaitAck_0),
            r matches Err(e) ==> e == Error::UnexpectedAcknowledgement(frame),
    {
        assert(self@.pending[0] == self.script@[self.pos as int]@);
        let id = match &self.script[self.pos] {
            Step::AwaitAck(id) => *id,
            Step::Send(_) => 0,
        };
        if is_ack_for(&frame, id) {
            self.step_done();
            Ok(())
        } else {
            self.abandon();
            Err(Error::UnexpectedAcknowledgement(frame))
        }
    }

    /// Drops the command in progress, as after a transport failure; phase
    /// and cursor stay as they were.
    pub fn abandon(&mut self)
        requires
            old(self).wf(),
        ensures
            final(self).wf(),
            final(self)@ == abandon(old(self)@),
    {
        self.pos = self.script.len();
        assert(self@.pending =~= seq![]);
    }
}

/// Enabling completes exactly when the one frame received after the sync
/// command acknowledges it; any other frame ends the command with the
/// phase as it was.
pub proof fn lemma_enable_single_ack(s: SessionView, f: FrameView)
    requires
        idle(s),
    ensures
        ({
            let t = receive(advance(start(s, enable_script(), Phase::Enabled, s.cursor)), f);
            &&& idle(t)
            &&& is_ack(f, SYNC_ID) ==> t.phase == Phase::Enabled
            &&& !is_ack(f, SYNC_ID) ==> t.phase == s.phase
            &&& t.cursor == s.cursor
        }),
{
    let u = advance(start(s, enable_script(), Phase::Enabled, s.cursor));
    assert(u.pending =~= seq![StepView::AwaitAck(SYNC_ID)]);
}

/// Erasing takes two acknowledgements: after the command and one of them
/// the phase has not moved and a second is awaited, so a failure there
/// leaves the phase as it was; the second completes the erase.
pub proof fn lemma_erase_needs_two_acks(s: SessionView, f: FrameView, g: FrameView)
    requires
        idle(s),
        is_ack(f, ERASE_ID),
    ensures
        ({
            let t = receive(advance(start(s, erase_script(), Phase::Erased, s.cursor)), f);
            &&& t.phase == s.phase
            &&& t.pending == seq![StepView::AwaitAck(ERASE_ID)]
            &&& abandon(t).phase == s.phase
            &&& is_ack(g, ERASE_ID) ==> receive(t, g).phase == Phase::Erased && idle(receive(t, g))
            &&& !is_ack(g, ERASE_ID) ==> receive(t, g).phase == s.phase && idle(receive(t, g))
        }),
{
    let u = advance(start(s, erase_script(), Phase::Erased, s.cursor));
    assert(u.pending =~= seq![StepView::AwaitAck(ERASE_ID), StepView::AwaitAck(ERASE_ID)]);
    let t = receive(u, f);
    assert(t.pending =~= seq![StepView::AwaitAck(ERASE_ID)]);
}

/// The identifiers on which the bootloader answers.
pub open spec fn protocol_ids() -> Seq<u32> {
    seq![SYNC_ID, ERASE_ID, WRITE_ID, GO_ID]
}

/// The filters that admit the bootloader's answers, on a transport with
/// `slots` discrete filters and, if `mask_supported`, one masked filter.
pub fn protocol_filters(slots: usize, mask_supported: bool) -> (r: Result<FilterPlan, Error>)
    ensures
        slots >= 4 ==> (r matches Ok(FilterPlan::List(v)) && v@.len() == 4 && (forall|i: int|
            0 <= i < 4 ==> #[trigger] v@[i]@ == standard_filter(protocol_ids()[i]))),
        slots < 4 && mask_supported ==> (r matches Ok(FilterPlan::Masked(f)) && f@
            == combined_filter(protocol_ids())),
        slots < 4 && !mask_supported ==> (r matches Err(e) && e is InsufficientFilterCapacity),
{
    let ids: [u32; 4] = [SYNC_ID, ERASE_ID, WRITE_ID, GO_ID];
    assert(ids@ =~= protocol_ids());
    negotiate(ids.as_slice(), slots, mask_supported)
}

} // verus!
