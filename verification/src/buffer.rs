//! Buffers on their way across the boundary.
//!
//! Input is lent to the engine, which keeps a copy of its own. Output is
//! copied out of the engine into a buffer that the host owns from then on; the
//! host's account of external memory grows by the buffer's length when it is
//! handed over and shrinks by the same amount when the host lets it go.

use vstd::prelude::*;
use vstd::slice::slice_to_vec;
use crate::context::{answers, fault_kind, job_of, refused_as, Context, KeepAlive};
use crate::error::{surfaced, BridgeError, ErrorKind, Fault};

verus! {

/// Bytes that now belong to the host, with the amount that was added to the
/// host's account of external memory when they were handed over.
///
/// The amount is fixed when the buffer is made and travels with it, so that
/// letting go takes off exactly what handing over put on.
#[derive(Debug)]
pub struct HostBuffer {
    bytes: Vec<u8>,
    charged: i64,
}

impl View for HostBuffer {
    type V = Seq<u8>;

    closed spec fn view(&self) -> Seq<u8> {
        self.bytes@
    }
}

/// By how much the host's account changes when a buffer of `len` bytes is
/// handed over.
pub open spec fn hand_off_adjustment(len: nat) -> int {
    len as int
}

/// By how much the host's account changes when a buffer that was charged
/// `charged` bytes is let go.
pub open spec fn release_adjustment(charged: int) -> int {
    -charged
}

impl HostBuffer {
    #[verifier::type_invariant]
    spec fn charged_for_its_bytes(self) -> bool {
        self.charged as int == self.bytes@.len()
    }

    /// What was added to the host's account for this buffer.
    pub closed spec fn charged(&self) -> int {
        self.charged as int
    }

    /// A buffer is charged for each of its bytes, no more and no less.
    pub open spec fn wf(&self) -> bool {
        self.charged() == hand_off_adjustment(self@.len())
    }

    /// A buffer for the host that holds a copy of `view`, or nothing where
    /// the length is more than the host's account can take.
    fn copy_of(view: &[u8]) -> (r: Option<HostBuffer>)
        ensures
            match r {
                Some(buffer) => view@.len() <= i64::MAX && buffer@ == view@ && buffer.wf(),
                None => view@.len() > i64::MAX,
            },
    {
        let len = view.len();
        if len as u64 <= i64::MAX as u64 {
            Some(HostBuffer { bytes: slice_to_vec(view), charged: len as i64 })
        } else {
            None
        }
    }

    /// The bytes.
    pub fn bytes(&self) -> (bytes: &[u8])
        ensures
            bytes@ == self@,
    {
        self.bytes.as_slice()
    }

    /// How many bytes there are.
    pub fn len(&self) -> (len: usize)
        ensures
            len == self@.len(),
    {
        self.bytes.len()
    }

    /// By how much the host's account grows when this buffer is handed over.
    pub fn charge(&self) -> (delta: i64)
        ensures
            delta == self.charged(),
    {
        self.charged
    }
}

/// Lends `bytes` to the engine as the input of `slot`.
///
/// The engine is handed exactly `slot` and `bytes`; it keeps a copy. A call
/// that is turned away changes nothing and never reaches the engine.
pub fn add_input_bytes<E, F>(
    keep: &KeepAlive,
    ctx: &mut Context<E>,
    slot: i32,
    bytes: &[u8],
    copy_in: F,
) -> (r: Result<(), BridgeError>) where
    F: FnOnce(&mut E, i32, &[u8]) -> Result<(), Fault>,

    requires
        forall|engine: &mut E| copy_in.requires((engine, slot, bytes)),
    ensures
        match job_of(keep@, old(ctx)@).refusal() {
            Some(kind) => final(ctx)@ == old(ctx)@ && refused_as(r, kind),
            None => exists|engine: &mut E, outcome: Result<(), Fault>|
                {
                    &&& *engine == old(ctx)@.engine->0
                    &&& #[trigger] copy_in.ensures((engine, slot, bytes), outcome)
                    &&& final(ctx)@ == old(ctx)@.after_call(*final(engine), fault_kind(outcome))
                    &&& answers(r, outcome)
                },
        },
{
    match ctx.screen(keep) {
        Err(error) => Err(error),
        Ok(()) => {
            let outcome = copy_in(ctx.engine_mut(), slot, bytes);
            ctx.settle(outcome)
        },
    }
}

/// Has the engine set up `slot` to receive output.
///
/// A call that is turned away changes nothing and never reaches the engine.
pub fn add_output_buffer<E, F>(
    keep: &KeepAlive,
    ctx: &mut Context<E>,
    slot: i32,
    open_slot: F,
) -> (r: Result<(), BridgeError>) where
    F: FnOnce(&mut E, i32) -> Result<(), Fault>,

    requires
        forall|engine: &mut E| open_slot.requires((engine, slot)),
    ensures
        match job_of(keep@, old(ctx)@).refusal() {
            Some(kind) => final(ctx)@ == old(ctx)@ && refused_as(r, kind),
            None => exists|engine: &mut E, outcome: Result<(), Fault>|
                {
                    &&& *engine == old(ctx)@.engine->0
                    &&& #[trigger] open_slot.ensures((engine, slot), outcome)
                    &&& final(ctx)@ == old(ctx)@.after_call(*final(engine), fault_kind(outcome))
                    &&& answers(r, outcome)
                },
        },
{
    match ctx.screen(keep) {
        Err(error) => Err(error),
        Ok(()) => {
            let outcome = open_slot(ctx.engine_mut(), slot);
            ctx.settle(outcome)
        },
    }
}

/// What the host gets for what the engine showed of a slot: a buffer of its
/// own with the same bytes, charged for each of them, or the engine's fault.
/// A view too long for the host's account counts as a failed copy.
pub open spec fn handed_off(result: Result<HostBuffer, BridgeError>, outcome: Result<&[u8], Fault>) -> bool {
    match outcome {
        Ok(view) => if view@.len() <= i64::MAX {
            result matches Ok(buffer) && buffer@ == view@ && buffer.wf()
        } else {
            refused_as(result, ErrorKind::CopyFailed)
        },
        Err(fault) => result matches Err(error) && error@ == surfaced(fault@),
    }
}

/// Copies the output of `slot` out of the engine into a buffer for the host.
///
/// `read` shows what the engine holds for the slot; the host gets a copy and
/// the amount by which its account of external memory has to grow. A call
/// that is turned away changes nothing and never reaches the engine.
pub fn get_output_buffer_bytes<E, F>(
    keep: &KeepAlive,
    ctx: &mut Context<E>,
    slot: i32,
    read: F,
) -> (r: Result<HostBuffer, BridgeError>) where
    F: for<'a> FnOnce(&'a mut E, i32) -> Result<&'a [u8], Fault>,

    requires
        forall|engine: &mut E| read.requires((engine, slot)),
    ensures
        match job_of(keep@, old(ctx)@).refusal() {
            Some(kind) => final(ctx)@ == old(ctx)@ && refused_as(r, kind),
            None => exists|engine: &mut E, outcome: Result<&[u8], Fault>|
                {
                    &&& *engine == old(ctx)@.engine->0
                    &&& #[trigger] read.ensures((engine, slot), outcome)
                    &&& final(ctx)@ == old(ctx)@.after_call(*final(engine), fault_kind(outcome))
                    &&& handed_off(r, outcome)
                },
        },
{
    match ctx.screen(keep) {
        Err(error) => Err(error),
        Ok(()) => {
            let copied = match read(ctx.engine_mut(), slot) {
                Ok(view) => Ok(HostBuffer::copy_of(view)),
                Err(fault) => Err(fault),
            };
            match ctx.settle(copied) {
                Ok(Some(buffer)) => Ok(buffer),
                Ok(None) => Err(BridgeError::bare(ErrorKind::CopyFailed)),
                Err(error) => Err(error),
            }
        },
    }
}

/// Takes a buffer back from the host and frees it. Returns by how much the
/// host's account changes: down by what the buffer was charged.
pub fn handle_buffer_drop(buffer: HostBuffer) -> (delta: i64)
    ensures
        buffer.wf(),
        delta == release_adjustment(buffer.charged()),
{
    proof {
        use_type_invariant(&buffer);
    }
    -buffer.charged
}

/// Handing a buffer over and letting it go again leaves the host's account
/// where it was.
pub proof fn lemma_release_undoes_hand_off(account: int, buffer: HostBuffer)
    requires
        buffer.wf(),
    ensures
        account + hand_off_adjustment(buffer@.len()) + release_adjustment(buffer.charged()) == account,
        buffer.charged() == buffer@.len(),
{
}

/// The bytes of all the buffers together.
pub open spec fn total_len(buffers: Seq<HostBuffer>) -> int
    decreases buffers.len(),
{
    if buffers.len() == 0 {
        0
    } else {
        total_len(buffers.drop_last()) + buffers.last()@.len()
    }
}

/// What the host's account took on for all the buffers together.
pub open spec fn total_charged(buffers: Seq<HostBuffer>) -> int
    decreases buffers.len(),
{
    if buffers.len() == 0 {
        0
    } else {
        total_charged(buffers.drop_last()) + buffers.last().charged()
    }
}

/// What the host's account gives up when all the buffers are let go.
pub open spec fn total_released(buffers: Seq<HostBuffer>) -> int
    decreases buffers.len(),
{
    if buffers.len() == 0 {
        0
    } else {
        total_released(buffers.drop_last()) + release_adjustment(buffers.last().charged())
    }
}

/// However many buffers the host holds, its account is up by exactly their
/// bytes, and letting all of them go takes exactly that off again.
pub proof fn lemma_account_follows_buffers(buffers: Seq<HostBuffer>)
    requires
        forall|i: int| 0 <= i < buffers.len() ==> (#[trigger] buffers[i]).wf(),
    ensures
        total_charged(buffers) == total_len(buffers),
        total_charged(buffers) + total_released(buffers) == 0,
        total_len(buffers) >= 0,
    decreases buffers.len(),
{
    if buffers.len() > 0 {
        let earlier = buffers.drop_last();
        assert forall|i: int| 0 <= i < earlier.len() implies (#[trigger] earlier[i]).wf() by {
            assert(earlier[i] == buffers[i]);
        }
        lemma_account_follows_buffers(earlier);
        assert(buffers.last() == buffers[buffers.len() - 1]);
    }
}

} // verus!
