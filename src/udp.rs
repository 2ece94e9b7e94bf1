use vstd::prelude::*;

use crate::config::{default_config, option_plan, option_steps, push_option_steps, NetConfig, SockOpt};
use crate::error::NetError;
use crate::platform::Platform;
use crate::raw::{
    decode_of, decode_sockaddr, image_complete, image_of, native_of, sockaddr_image, to_sockaddr,
    AddrView, Domain, SocketAddress, Type,
};
use crate::setup::{push_step, steps_view, SetupSession, SetupStep, SetupStepView};

verus! {

/// Length given to a receive buffer that arrives with no storage at all.
pub const DEFAULT_DATAGRAM_CAPACITY: usize = 2048;

/// Relies on `Vec::capacity`: the number of elements the vector can hold
/// without reallocating, never less than its length.
#[verifier::external_body]
fn capacity_of(v: &Vec<u8>) -> (r: usize)
    ensures
        r >= v@.len(),
{
    v.capacity()
}

/// The steps that bind a datagram socket of `addr`'s family to `addr`:
/// non-blocking mode, the options of `cfg`, IPv6-only where the address is
/// IPv6 and `cfg` names it, then the bind.
pub open spec fn bind_plan(addr: AddrView, cfg: NetConfig, pf: Platform) -> Seq<SetupStepView> {
    seq![SetupStepView::NonBlocking(true)] + option_steps(
        option_plan(addr.domain(), Type::Dgram, cfg, pf),
    ) + (match (addr.domain(), cfg.ipv6_only) {
        (Domain::Ipv6, Some(only)) => seq![SetupStepView::SetOption(SockOpt::Ipv6Only(only))],
        _ => seq![],
    }) + seq![SetupStepView::Bind(image_of(native_of(addr, pf), pf))]
}

/// The address a dual-stack socket binds to: the IPv6 unspecified address.
pub open spec fn dual_stack_addr(port: u16) -> AddrView {
    AddrView::V6 { ip: Seq::new(16, |i: int| 0u8), port, flowinfo: 0, scope_id: 0 }
}

/// The steps that bind an IPv6 datagram socket to the unspecified address at
/// `port`, with IPv6-only forced to what `cfg` names, or off.
pub open spec fn dual_stack_plan(port: u16, cfg: NetConfig, pf: Platform) -> Seq<SetupStepView> {
    seq![SetupStepView::NonBlocking(true)] + option_steps(
        option_plan(Domain::Ipv6, Type::Dgram, cfg, pf),
    ) + seq![
        SetupStepView::SetOption(
            SockOpt::Ipv6Only(
                match cfg.ipv6_only {
                    Some(only) => only,
                    None => false,
                },
            ),
        ),
    ] + seq![SetupStepView::Bind(image_of(native_of(dual_stack_addr(port), pf), pf))]
}

/// Begins binding a datagram socket, created for `addr`'s family, to `addr`.
pub fn bind(addr: &SocketAddress, cfg: &NetConfig, pf: &Platform) -> (r: SetupSession)
    ensures
        r.wf(),
        r.steps() == bind_plan(addr@, *cfg, *pf),
        r.results() == Seq::<Result<(), NetError>>::empty(),
{
    let (domain, sa, _len) = to_sockaddr(addr, pf);
    let mut steps: Vec<SetupStep> = Vec::new();
    push_step(&mut steps, SetupStep::NonBlocking(true));
    push_option_steps(&mut steps, domain, Type::Dgram, cfg, pf);
    let ghost mid = steps_view(steps@);
    match (domain, cfg.ipv6_only) {
        (Domain::Ipv6, Some(only)) => push_step(
            &mut steps,
            SetupStep::SetOption(SockOpt::Ipv6Only(only)),
        ),
        _ => {
            assert(steps_view(steps@) =~= mid + seq![]);
        },
    }
    push_step(&mut steps, SetupStep::Bind(sockaddr_image(&sa, pf)));
    assert(steps_view(steps@) =~= bind_plan(addr@, *cfg, *pf));
    SetupSession::new(steps)
}

/// Begins binding an IPv6 datagram socket to the unspecified address at
/// `port`, so that IPv4-mapped traffic is received too unless `cfg` asks for
/// IPv6 only.
pub fn bind_dual_stack(port: u16, cfg: &NetConfig, pf: &Platform) -> (r: SetupSession)
    ensures
        r.wf(),
        r.steps() == dual_stack_plan(port, *cfg, *pf),
        r.results() == Seq::<Result<(), NetError>>::empty(),
{
    let any6 = SocketAddress::ipv6_unspecified(port);
    let (_domain, sa, _len) = to_sockaddr(&any6, pf);
    let mut steps: Vec<SetupStep> = Vec::new();
    push_step(&mut steps, SetupStep::NonBlocking(true));
    push_option_steps(&mut steps, Domain::Ipv6, Type::Dgram, cfg, pf);
    let only = match cfg.ipv6_only {
        Some(only) => only,
        None => false,
    };
    push_step(&mut steps, SetupStep::SetOption(SockOpt::Ipv6Only(only)));
    push_step(&mut steps, SetupStep::Bind(sockaddr_image(&sa, pf)));
    assert(steps_view(steps@) =~= dual_stack_plan(port, *cfg, *pf));
    SetupSession::new(steps)
}

/// The number of slots a batch receive covers.
pub open spec fn batch_window(n_bufs: int, n_addrs: int) -> int {
    if n_bufs < n_addrs {
        n_bufs
    } else {
        n_addrs
    }
}

/// The number of slots a batch receive covers: as many as there are both
/// buffers and address slots.
pub fn batch_len(bufs: &Vec<Vec<u8>>, addrs: &Vec<SocketAddress>) -> (r: usize)
    ensures
        r == batch_window(bufs@.len() as int, addrs@.len() as int),
{
    if bufs.len() < addrs.len() {
        bufs.len()
    } else {
        addrs.len()
    }
}

/// A buffer of the default datagram length, filled with zeros.
pub open spec fn default_datagram_buffer() -> Seq<u8> {
    Seq::new(DEFAULT_DATAGRAM_CAPACITY as nat, |i: int| 0u8)
}

/// Gets one receive buffer ready for a native batch receive, given its
/// capacity: a buffer with no storage at all is grown to the default datagram
/// length, filled with zeros; any other buffer is left as it is, and its
/// length is what it can receive.
pub fn grow_if_unallocated(buf: &mut Vec<u8>, capacity: usize)
    requires
        capacity >= old(buf)@.len(),
    ensures
        final(buf)@ == if capacity == 0 {
            default_datagram_buffer()
        } else {
            old(buf)@
        },
{
    if capacity == 0 {
        buf.resize(DEFAULT_DATAGRAM_CAPACITY, 0u8);
        assert(buf@ =~= default_datagram_buffer());
    }
}

/// Gets the first `n` receive buffers ready for a native batch receive, each
/// as `grow_if_unallocated` does given the capacity the allocator reports:
/// whatever that is, a buffer is either left as it is or, being empty, grown
/// to the default datagram length.
pub fn prepare_batch(bufs: &mut Vec<Vec<u8>>, n: usize)
    requires
        n <= old(bufs)@.len(),
    ensures
        final(bufs)@.len() == old(bufs)@.len(),
        forall|i: int|
            0 <= i < n ==> #[trigger] final(bufs)@[i]@ == old(bufs)@[i]@ || (old(bufs)@[i]@.len()
                == 0 && final(bufs)@[i]@ == default_datagram_buffer()),
        forall|i: int| n <= i < old(bufs)@.len() ==> #[trigger] final(bufs)@[i] == old(bufs)@[i],
{
    let mut i: usize = 0;
    while i < n
        invariant
            i <= n <= old(bufs)@.len(),
            bufs@.len() == old(bufs)@.len(),
            forall|j: int|
                0 <= j < i ==> #[trigger] bufs@[j]@ == old(bufs)@[j]@ || (old(bufs)@[j]@.len() == 0
                    && bufs@[j]@ == default_datagram_buffer()),
            forall|j: int| i <= j < old(bufs)@.len() ==> #[trigger] bufs@[j] == old(bufs)@[j],
        decreases n - i,
    {
        let capacity = capacity_of(&bufs[i]);
        grow_if_unallocated(&mut bufs[i], capacity);
        i = i + 1;
    }
}

/// One datagram reported by a native batch receive: its length and the bytes
/// of the sender's native address structure.
#[derive(Debug)]
pub struct RecvSlot {
    pub len: usize,
    pub name: Vec<u8>,
}

/// What a native batch receive may report, slot by slot, for the buffers it
/// was given.
pub open spec fn slots_fit(
    slots: Seq<RecvSlot>,
    bufs: Seq<Vec<u8>>,
    n: int,
    pf: Platform,
) -> bool {
    &&& slots.len() <= n
    &&& forall|i: int|
        0 <= i < slots.len() ==> #[trigger] slots[i].len <= bufs[i]@.len() && image_complete(
            slots[i].name@,
            pf,
        )
}

/// Completes a native batch receive over the first `n` slots from what the
/// native call reported. A failure with the "would block" code is a success
/// with no datagram; any other failure is reported with its code. On
/// success each filled buffer is cut to the length of its datagram and each
/// address slot receives the sender, decoded from its native structure by
/// the family tag; slots past the filled ones are left as they are.
pub fn complete_batch(
    bufs: &mut Vec<Vec<u8>>,
    addrs: &mut Vec<SocketAddress>,
    n: usize,
    outcome: Result<Vec<RecvSlot>, i32>,
    pf: &Platform,
) -> (r: Result<usize, NetError>)
    requires
        n == batch_window(old(bufs)@.len() as int, old(addrs)@.len() as int),
        outcome matches Ok(slots) ==> slots_fit(slots@, old(bufs)@, n as int, *pf),
    ensures
        final(bufs)@.len() == old(bufs)@.len(),
        final(addrs)@.len() == old(addrs)@.len(),
        match outcome {
            Err(code) => {
                &&& r == if code == pf.would_block {
                    Ok::<usize, NetError>(0)
                } else {
                    Err(NetError::Os(code))
                }
                &&& final(bufs)@ == old(bufs)@
                &&& final(addrs)@ == old(addrs)@
            },
            Ok(slots) => {
                &&& r == Ok::<usize, NetError>(slots@.len() as usize)
                &&& forall|i: int|
                    0 <= i < slots@.len() ==> #[trigger] final(bufs)@[i]@ == old(bufs)@[i]@.take(
                        slots@[i].len as int,
                    ) && final(addrs)@[i]@ == decode_of(slots@[i].name@, *pf)
                &&& forall|i: int|
                    slots@.len() <= i < old(bufs)@.len() ==> #[trigger] final(bufs)@[i]
                        == old(bufs)@[i]
                &&& forall|i: int|
                    slots@.len() <= i < old(addrs)@.len() ==> #[trigger] final(addrs)@[i]
                        == old(addrs)@[i]
            },
        },
{
    match outcome {
        Err(code) => {
            if code == pf.would_block {
                Ok(0)
            } else {
                Err(NetError::Os(code))
            }
        },
        Ok(slots) => {
            let k = slots.len();
            let mut i: usize = 0;
            while i < k
                invariant
                    k == slots@.len(),
                    slots_fit(slots@, old(bufs)@, n as int, *pf),
                    n == batch_window(old(bufs)@.len() as int, old(addrs)@.len() as int),
                    i <= k,
                    bufs@.len() == old(bufs)@.len(),
                    addrs@.len() == old(addrs)@.len(),
                    forall|j: int|
                        0 <= j < i ==> #[trigger] bufs@[j]@ == old(bufs)@[j]@.take(
                            slots@[j].len as int,
                        ) && addrs@[j]@ == decode_of(slots@[j].name@, *pf),
                    forall|j: int| i <= j < old(bufs)@.len() ==> #[trigger] bufs@[j] == old(bufs)@[j],
                    forall|j: int|
                        i <= j < old(addrs)@.len() ==> #[trigger] addrs@[j] == old(addrs)@[j],
                decreases k - i,
            {
                let len = slots[i].len;
                assert(len <= old(bufs)@[i as int]@.len());
                bufs[i].truncate(len);
                assert(bufs@[i as int]@ =~= old(bufs)@[i as int]@.take(len as int));
                let from = decode_sockaddr(slots[i].name.as_slice(), pf);
                addrs.set(i, from);
                i = i + 1;
            }
            Ok(k)
        },
    }
}

/// What the driver of a sequential batch does next.
#[derive(Copy, Clone, Debug, PartialEq, Eq)]
pub enum BatchStep {
    /// Make the native call for the slot at this index and record its result.
    Attempt(usize),
    /// The batch is over, with this outcome.
    Finished(Result<usize, NetError>),
}

/// A batch of native calls made one slot at a time, in order: for receiving
/// where no multi-datagram primitive exists, and for sending. It stops when
/// every slot is done, at the first "would block", which ends it with the
/// number of slots done so far, or at the first other failure, which ends it
/// with that failure.
pub struct SequentialBatch {
    limit: usize,
    done: usize,
    would_block: i32,
    stopped: Option<Result<usize, NetError>>,
}

/// The outcome of a call that failed with `code`, after `done` slots.
pub open spec fn stop_outcome(code: i32, would_block: i32, done: nat) -> Result<usize, NetError> {
    if code == would_block {
        Ok(done as usize)
    } else {
        Err(NetError::Os(code))
    }
}

impl SequentialBatch {
    /// The number of slots the batch covers.
    pub closed spec fn limit(&self) -> nat {
        self.limit as nat
    }

    /// The number of slots done.
    pub closed spec fn done(&self) -> nat {
        self.done as nat
    }

    /// The native code that means "would block".
    pub closed spec fn would_block(&self) -> i32 {
        self.would_block
    }

    /// The outcome the batch stopped with, if a call failed.
    pub closed spec fn stopped(&self) -> Option<Result<usize, NetError>> {
        self.stopped
    }

    pub closed spec fn wf(&self) -> bool {
        &&& self.done <= self.limit
        &&& self.stopped matches Some(Ok(k)) ==> k == self.done
        &&& self.stopped matches Some(Err(e)) ==> e matches NetError::Os(c) && c
            != self.would_block
    }

    /// Whether the batch is over.
    pub open spec fn is_finished(&self) -> bool {
        self.stopped() is Some || self.done() >= self.limit()
    }

    /// A batch over `limit` slots, none done yet.
    pub fn new(limit: usize, pf: &Platform) -> (r: SequentialBatch)
        ensures
            r.wf(),
            r.limit() == limit,
            r.done() == 0,
            r.would_block() == pf.would_block,
            r.stopped() is None,
    {
        SequentialBatch { limit, done: 0, would_block: pf.would_block, stopped: None }
    }

    /// What to do next. A finished batch reports either a count of slots
    /// that is at most the number of slots, or a native failure.
    pub fn next_step(&self) -> (r: BatchStep)
        requires
            self.wf(),
        ensures
            r == match self.stopped() {
                Some(o) => BatchStep::Finished(o),
                None => if self.done() < self.limit() {
                    BatchStep::Attempt(self.done() as usize)
                } else {
                    BatchStep::Finished(Ok(self.done() as usize))
                },
            },
            r matches BatchStep::Finished(Ok(k)) ==> k <= self.limit(),
            r matches BatchStep::Finished(Err(e)) ==> e matches NetError::Os(c) && c
                != self.would_block(),
    {
        match self.stopped {
            Some(o) => BatchStep::Finished(o),
            None => if self.done < self.limit {
                BatchStep::Attempt(self.done)
            } else {
                BatchStep::Finished(Ok(self.done))
            },
        }
    }

    /// Records the result of the native call for the current slot: success
    /// moves on to the next slot, a failure ends the batch.
    pub fn record(&mut self, r: Result<(), i32>)
        requires
            old(self).wf(),
            !old(self).is_finished(),
        ensures
            final(self).wf(),
            final(self).limit() == old(self).limit(),
            final(self).would_block() == old(self).would_block(),
            match r {
                Ok(_) => final(self).done() == old(self).done() + 1 && final(self).stopped() is None,
                Err(code) => final(self).done() == old(self).done() && final(self).stopped() == Some(
                    stop_outcome(code, old(self).would_block(), old(self).done()),
                ),
            },
    {
        match r {
            Ok(_) => {
                self.done = self.done + 1;
            },
            Err(code) => {
                self.stopped = Some(
                    if code == self.would_block {
                        Ok(self.done)
                    } else {
                        Err(NetError::Os(code))
                    },
                );
            },
        }
    }

    /// Records a datagram received for the current slot: its buffer is cut
    /// to the datagram's length, its address slot receives the sender, and
    /// the batch moves on to the next slot.
    pub fn record_datagram(
        &mut self,
        bufs: &mut Vec<Vec<u8>>,
        addrs: &mut Vec<SocketAddress>,
        len: usize,
        from: SocketAddress,
    )
        requires
            old(self).wf(),
            !old(self).is_finished(),
            old(self).limit() <= old(bufs)@.len(),
            old(self).limit() <= old(addrs)@.len(),
            len <= old(bufs)@[old(self).done() as int]@.len(),
        ensures
            final(self).wf(),
            final(self).limit() == old(self).limit(),
            final(self).would_block() == old(self).would_block(),
            final(self).done() == old(self).done() + 1,
            final(self).stopped() is None,
            final(bufs)@ == old(bufs)@.update(
                old(self).done() as int,
                final(bufs)@[old(self).done() as int],
            ),
            final(bufs)@[old(self).done() as int]@ == old(bufs)@[old(self).done() as int]@.take(
                len as int,
            ),
            final(addrs)@ == old(addrs)@.update(old(self).done() as int, from),
    {
        let i = self.done;
        bufs[i].truncate(len);
        assert(bufs@[i as int]@ =~= old(bufs)@[i as int]@.take(len as int));
        addrs.set(i, from);
        self.done = self.done + 1;
        assert(bufs@ =~= old(bufs)@.update(i as int, bufs@[i as int]));
    }
}

/// A buffer grown to the default datagram length holds any datagram up to
/// that length, and once cut to the datagram it is exactly as long as the
/// datagram, never the default length unless the datagram is.
pub proof fn lemma_grown_buffer_cut_to_datagram(len: nat)
    requires
        len <= DEFAULT_DATAGRAM_CAPACITY,
    ensures
        default_datagram_buffer().len() == DEFAULT_DATAGRAM_CAPACITY,
        default_datagram_buffer().take(len as int).len() == len,
{
}

proof fn lemma_decode_reads_prefix(b: Seq<u8>, a: AddrView, pf: Platform)
    requires
        a.wf(),
        pf.wf(),
        b.len() >= image_of(native_of(a, pf), pf).len(),
        b.take(image_of(native_of(a, pf), pf).len() as int) == image_of(native_of(a, pf), pf),
    ensures
        image_complete(b, pf),
        decode_of(b, pf) == a,
{
    let img = image_of(native_of(a, pf), pf);
    crate::raw::lemma_image_round_trip(a, pf);
    let l = img.len() as int;
    assert(forall|j: int| 0 <= j < l ==> b[j] == #[trigger] img[j]) by {
        assert forall|j: int| 0 <= j < l implies b[j] == #[trigger] img[j] by {
            assert(b.take(l)[j] == b[j]);
        }
    }
    assert(b[0] == img[0] && b[1] == img[1] && b[2] == img[2] && b[3] == img[3]);
    assert(b.subrange(4, 8) =~= img.subrange(4, 8));
    if a.domain() == Domain::Ipv6 {
        assert(b.subrange(8, 24) =~= img.subrange(8, 24));
        assert(b.subrange(24, 28) =~= img.subrange(24, 28));
    }
}

/// When the system reports, for each filled slot, the native structure of
/// the datagram's sender (at the start of the slot's address storage), a
/// completed batch receive hands back exactly those senders.
pub proof fn lemma_batch_senders_reconstructed(
    slots: Seq<RecvSlot>,
    senders: Seq<AddrView>,
    pf: Platform,
)
    requires
        pf.wf(),
        slots.len() == senders.len(),
        forall|i: int|
            0 <= i < slots.len() ==> (#[trigger] senders[i]).wf() && slots[i].name@.len()
                >= image_of(native_of(senders[i], pf), pf).len() && slots[i].name@.take(
                image_of(native_of(senders[i], pf), pf).len() as int,
            ) == image_of(native_of(senders[i], pf), pf),
    ensures
        forall|i: int|
            0 <= i < slots.len() ==> image_complete(slots[i].name@, pf) && decode_of(
                #[trigger] slots[i].name@,
                pf,
            ) == senders[i],
{
    assert forall|i: int| 0 <= i < slots.len() implies image_complete(slots[i].name@, pf)
        && decode_of(#[trigger] slots[i].name@, pf) == senders[i] by {
        lemma_decode_reads_prefix(slots[i].name@, senders[i], pf);
    }
}

/// Bound dual-stack with the default configuration, a socket never asks for
/// IPv6 only, and the last word on it turns IPv6 only off, so that senders
/// of both families reach it.
pub proof fn lemma_dual_stack_default_accepts_both_families(port: u16, pf: Platform)
    ensures
        forall|i: int|
            0 <= i < dual_stack_plan(port, default_config(), pf).len() ==> !(#[trigger] dual_stack_plan(
                port,
                default_config(),
                pf,
            )[i] matches SetupStepView::SetOption(SockOpt::Ipv6Only(true))),
        dual_stack_plan(port, default_config(), pf)[dual_stack_plan(port, default_config(), pf).len()
            - 2] == SetupStepView::SetOption(SockOpt::Ipv6Only(false)),
{
    let cfg = default_config();
    let opts = option_plan(Domain::Ipv6, Type::Dgram, cfg, pf);
    assert(forall|j: int| 0 <= j < opts.len() ==> !(#[trigger] opts[j] matches SockOpt::Ipv6Only(true)));
    let plan = dual_stack_plan(port, cfg, pf);
    assert forall|i: int| 0 <= i < plan.len() implies !(#[trigger] plan[i] matches SetupStepView::SetOption(
        SockOpt::Ipv6Only(true),
    )) by {
        if 1 <= i < 1 + opts.len() {
            assert(plan[i] == SetupStepView::SetOption(opts[i - 1]));
        }
    }
}

} // verus!
