//! The completion broker: the kernel ring, the opcode probe that decides
//! whether a runtime can start on this kernel, and the completion drain.
use io_uring::{opcode, IoUring, Probe};
use vstd::prelude::*;
use crate::error::UringError;
use crate::registry::{IoModel, IoRegistry};

verus! {

/// The kernel submission/completion ring. Verus cannot declare
/// `io_uring::IoUring` itself (its type parameters are bound by a sealed
/// trait), so the ring is held here, out of Verus's sight; the functions
/// below that touch it are trusted.
#[verifier::external_body]
pub struct Ring {
    pub inner: IoUring,
}

/// Declares `io_uring::Probe`, the kernel's table of supported opcodes.
#[verifier::external_type_specification]
#[verifier::external_body]
pub struct ExProbe(Probe);

/// Number of entries of the ring's submission queue.
pub const RING_ENTRIES: u32 = 128;

/// Number of opcodes a kernel must support for the runtime to start.
pub const REQUIRED_OPCODE_COUNT: usize = 12;

/// The name under which the `i`-th required opcode is reported.
pub open spec fn required_opcode_name(i: int) -> &'static str {
    if i == 0 {
        "AsyncCancel"
    } else if i == 1 {
        "Timeout"
    } else if i == 2 {
        "Socket"
    } else if i == 3 {
        "Connect"
    } else if i == 4 {
        "RecvMsg"
    } else if i == 5 {
        "SendMsg"
    } else if i == 6 {
        "Accept"
    } else if i == 7 {
        "Shutdown"
    } else if i == 8 {
        "OpenAt"
    } else if i == 9 {
        "Read"
    } else if i == 10 {
        "Write"
    } else {
        "Close"
    }
}

/// The name under which the `i`-th required opcode is reported.
pub fn opcode_name(i: usize) -> (r: &'static str)
    requires
        i < REQUIRED_OPCODE_COUNT,
    ensures
        r == required_opcode_name(i as int),
{
    match i {
        0 => "AsyncCancel",
        1 => "Timeout",
        2 => "Socket",
        3 => "Connect",
        4 => "RecvMsg",
        5 => "SendMsg",
        6 => "Accept",
        7 => "Shutdown",
        8 => "OpenAt",
        9 => "Read",
        10 => "Write",
        _ => "Close",
    }
}

/// Relies on `io_uring::opcode::AsyncCancel::CODE`, the kernel's opcode number 14.
#[verifier::external_body]
fn code_async_cancel() -> (r: u8)
    ensures
        r == 14,
{
    opcode::AsyncCancel::CODE
}

/// Relies on `io_uring::opcode::Timeout::CODE`, the kernel's opcode number 11.
#[verifier::external_body]
fn code_timeout() -> (r: u8)
    ensures
        r == 11,
{
    opcode::Timeout::CODE
}

/// Relies on `io_uring::opcode::Socket::CODE`, the kernel's opcode number 45.
#[verifier::external_body]
fn code_socket() -> (r: u8)
    ensures
        r == 45,
{
    opcode::Socket::CODE
}

/// Relies on `io_uring::opcode::Connect::CODE`, the kernel's opcode number 16.
#[verifier::external_body]
fn code_connect() -> (r: u8)
    ensures
        r == 16,
{
    opcode::Connect::CODE
}

/// Relies on `io_uring::opcode::RecvMsg::CODE`, the kernel's opcode number 10.
#[verifier::external_body]
fn code_recvmsg() -> (r: u8)
    ensures
        r == 10,
{
    opcode::RecvMsg::CODE
}

/// Relies on `io_uring::opcode::SendMsg::CODE`, the kernel's opcode number 9.
#[verifier::external_body]
fn code_sendmsg() -> (r: u8)
    ensures
        r == 9,
{
    opcode::SendMsg::CODE
}

/// Relies on `io_uring::opcode::Accept::CODE`, the kernel's opcode number 13.
#[verifier::external_body]
fn code_accept() -> (r: u8)
    ensures
        r == 13,
{
    opcode::Accept::CODE
}

/// Relies on `io_uring::opcode::Shutdown::CODE`, the kernel's opcode number 34.
#[verifier::external_body]
fn code_shutdown() -> (r: u8)
    ensures
        r == 34,
{
    opcode::Shutdown::CODE
}

/// Relies on `io_uring::opcode::OpenAt::CODE`, the kernel's opcode number 18.
#[verifier::external_body]
fn code_openat() -> (r: u8)
    ensures
        r == 18,
{
    opcode::OpenAt::CODE
}

/// Relies on `io_uring::opcode::Read::CODE`, the kernel's opcode number 22.
#[verifier::external_body]
fn code_read() -> (r: u8)
    ensures
        r == 22,
{
    opcode::Read::CODE
}

/// Relies on `io_uring::opcode::Write::CODE`, the kernel's opcode number 23.
#[verifier::external_body]
fn code_write() -> (r: u8)
    ensures
        r == 23,
{
    opcode::Write::CODE
}

/// Relies on `io_uring::opcode::Close::CODE`, the kernel's opcode number 19.
#[verifier::external_body]
fn code_close() -> (r: u8)
    ensures
        r == 19,
{
    opcode::Close::CODE
}

/// The opcode number of the `i`-th required opcode, in the order of the
/// names above.
pub open spec fn required_opcode_code(i: int) -> u8 {
    if i == 0 {
        14
    } else if i == 1 {
        11
    } else if i == 2 {
        45
    } else if i == 3 {
        16
    } else if i == 4 {
        10
    } else if i == 5 {
        9
    } else if i == 6 {
        13
    } else if i == 7 {
        34
    } else if i == 8 {
        18
    } else if i == 9 {
        22
    } else if i == 10 {
        23
    } else {
        19
    }
}

/// The opcode numbers of the required opcodes, in the order of their names.
pub fn required_opcode_codes() -> (r: Vec<u8>)
    ensures
        r@.len() == REQUIRED_OPCODE_COUNT,
        forall|i: int| 0 <= i < REQUIRED_OPCODE_COUNT ==> r@[i] == #[trigger] required_opcode_code(i),
{
    let r = vec![
        code_async_cancel(),
        code_timeout(),
        code_socket(),
        code_connect(),
        code_recvmsg(),
        code_sendmsg(),
        code_accept(),
        code_shutdown(),
        code_openat(),
        code_read(),
        code_write(),
        code_close(),
    ];
    r
}

/// The answers of a probe, one `(opcode, supported)` pair per required
/// opcode, reduced to whether each is supported.
pub open spec fn supported_of(answers: Seq<(u8, bool)>) -> Seq<bool> {
    answers.map_values(|a: (u8, bool)| a.1)
}

/// Whether `answers` holds one answer for each required opcode, in order.
pub open spec fn answers_required_opcodes(answers: Seq<(u8, bool)>) -> bool {
    &&& answers.len() == REQUIRED_OPCODE_COUNT
    &&& forall|i: int| 0 <= i < REQUIRED_OPCODE_COUNT ==> (#[trigger] answers[i]).0 == required_opcode_code(i)
}

/// The verdict on a probe: `supported[i]` tells whether the `i`-th required
/// opcode is available. The first missing opcode, in the order above, is
/// reported.
pub open spec fn probe_verdict(supported: Seq<bool>) -> Result<(), UringError> {
    if forall|i: int| 0 <= i < supported.len() ==> #[trigger] supported[i] {
        Ok(())
    } else {
        let i = choose|i: int|
            0 <= i < supported.len() && !#[trigger] supported[i] && forall|j: int|
                0 <= j < i ==> #[trigger] supported[j];
        Err(UringError::UnsupportedOpcode(required_opcode_name(i)))
    }
}

/// Checks a probe's answers for the required opcodes, in order.
pub fn check_probe(answers: &Vec<(u8, bool)>) -> (r: Result<(), UringError>)
    requires
        answers_required_opcodes(answers@),
    ensures
        r == probe_verdict(supported_of(answers@)),
        r is Ok <==> forall|i: int| 0 <= i < answers@.len() ==> (#[trigger] answers@[i]).1,
{
    let ghost supported = supported_of(answers@);
    let mut i: usize = 0;
    while i < answers.len()
        invariant
            i <= answers@.len(),
            supported == supported_of(answers@),
            answers@.len() == REQUIRED_OPCODE_COUNT,
            forall|j: int| 0 <= j < i ==> #[trigger] supported[j],
        decreases answers@.len() - i,
    {
        if !answers[i].1 {
            let r = Err(UringError::UnsupportedOpcode(opcode_name(i)));
            proof {
                assert(!supported[i as int]);
                let c = choose|c: int|
                    0 <= c < supported.len() && !#[trigger] supported[c] && forall|j: int|
                        0 <= j < c ==> #[trigger] supported[j];
                assert(c == i) by {
                    if c < i {
                        assert(supported[c]);
                    } else if c > i {
                        assert(supported[i as int]);
                    }
                }
            }
            return r;
        }
        assert(supported[i as int]);
        i = i + 1;
    }
    assert forall|i: int| 0 <= i < answers@.len() implies (#[trigger] answers@[i]).1 by {
        assert(supported[i]);
    }
    Ok(())
}

/// The verdict on the ring's features: completions must never be dropped.
pub fn feature_verdict(nodrop: bool) -> (r: Result<(), UringError>)
    ensures
        r is Ok <==> nodrop,
        r is Err ==> r->Err_0 == UringError::UnsupportedFeature("no_drop"),
{
    if nodrop {
        Ok(())
    } else {
        Err(UringError::UnsupportedFeature("no_drop"))
    }
}

/// Relies on `io_uring::IoUring::new`, which sets up a ring with `entries`
/// submission entries or returns the OS error.
#[verifier::external_body]
fn ring_new(entries: u32) -> (r: Result<Ring, std::io::Error>)
    requires
        entries == RING_ENTRIES,
{
    IoUring::new(entries).map(|inner| Ring { inner })
}

/// Relies on `io_uring::Parameters::is_feature_nodrop`: whether the kernel
/// keeps completions that do not fit in the completion queue.
#[verifier::external_body]
fn ring_is_feature_nodrop(ring: &Ring) -> (r: bool) {
    ring.inner.params().is_feature_nodrop()
}

/// Relies on `io_uring::Probe::new`, a probe with no opcode marked supported.
#[verifier::external_body]
fn probe_new() -> (r: Probe) {
    Probe::new()
}

/// Relies on `io_uring::Submitter::register_probe`, which fills `probe` from
/// the kernel.
#[verifier::external_body]
fn ring_register_probe(ring: &Ring, probe: &mut Probe) -> (r: Result<(), std::io::Error>) {
    ring.inner.submitter().register_probe(probe)
}

/// Relies on `io_uring::Probe::is_supported`: whether the probe marks
/// `opcode` as supported, given together with the opcode asked about.
#[verifier::external_body]
fn probe_is_supported(probe: &Probe, opcode: u8) -> (r: (u8, bool))
    ensures
        r.0 == opcode,
{
    (opcode, probe.is_supported(opcode))
}

/// Relies on `io_uring::IoUring::submit_and_wait`, which submits the queued
/// entries and blocks until at least `want` completions are available.
#[verifier::external_body]
fn ring_submit_and_wait(ring: &Ring, want: usize) -> (r: Result<usize, std::io::Error>)
    requires
        want >= 1,
{
    ring.inner.submit_and_wait(want)
}

/// Relies on `io_uring::IoUring::completion` and its iterator, which drains
/// the completion queue; each entry is given as `(user_data, result)`.
#[verifier::external_body]
fn ring_drain_completions(ring: &mut Ring) -> (r: Vec<(u64, i32)>) {
    ring.inner.completion().map(|c| (c.user_data(), c.result())).collect()
}

/// What the kernel answered at each step of setting up a ring: whether the
/// ring could be created, whether it keeps every completion, whether the
/// probe could be registered, and the probe's answer for each required
/// opcode.
pub ghost struct InitSteps {
    pub created: Result<(), std::io::Error>,
    pub nodrop: bool,
    pub probed: Result<(), std::io::Error>,
    pub answers: Seq<(u8, bool)>,
}

/// The outcome of setting up a ring, given the kernel's answers. The checks
/// run in order (creation, non-dropping completions, probing, then each
/// required opcode) and the first that fails is reported.
pub open spec fn init_verdict(s: InitSteps) -> Result<(), UringError> {
    match s.created {
        Err(e) => Err(UringError::FailedInit(e)),
        Ok(_) => if !s.nodrop {
            Err(UringError::UnsupportedFeature("no_drop"))
        } else {
            match s.probed {
                Err(e) => Err(UringError::ProbeFailed(e)),
                Ok(_) => probe_verdict(supported_of(s.answers)),
            }
        },
    }
}

/// `r` with the success value dropped.
pub open spec fn outcome_of<T>(r: Result<T, UringError>) -> Result<(), UringError> {
    match r {
        Ok(_) => Ok(()),
        Err(e) => Err(e),
    }
}

/// `r` is what [`init_verdict`] gives for some answers of the kernel about
/// the required opcodes.
pub open spec fn is_init_outcome(r: Result<(), UringError>) -> bool {
    exists|s: InitSteps| answers_required_opcodes(s.answers) && #[trigger] init_verdict(s) == r
}

/// Answers that mark every required opcode as supported.
pub open spec fn all_supported() -> Seq<(u8, bool)> {
    Seq::new(REQUIRED_OPCODE_COUNT as nat, |i: int| (required_opcode_code(i), true))
}

proof fn lemma_witness(s: InitSteps)
    requires
        answers_required_opcodes(s.answers),
    ensures
        is_init_outcome(init_verdict(s)),
{
}

/// Creates a ring and makes sure the kernel supports what the runtime
/// relies on: non-dropping completions and every required opcode. The
/// result is the verdict of the checks, run in order, on what the kernel
/// answered; the ring is created with [`RING_ENTRIES`] entries and each
/// required opcode is probed under its own number.
pub fn new_io_uring() -> (r: Result<Ring, UringError>)
    ensures
        is_init_outcome(outcome_of(r)),
{
    let ghost others = all_supported();
    let ring = match ring_new(RING_ENTRIES) {
        Ok(ring) => ring,
        Err(e) => {
            proof {
                lemma_witness(InitSteps { created: Err(e), nodrop: true, probed: Ok(()), answers: others });
            }
            return Err(UringError::FailedInit(e));
        },
    };
    let nodrop = ring_is_feature_nodrop(&ring);
    match feature_verdict(nodrop) {
        Ok(()) => {},
        Err(e) => {
            proof {
                lemma_witness(InitSteps { created: Ok(()), nodrop: false, probed: Ok(()), answers: others });
            }
            return Err(e);
        },
    }
    let mut probe = probe_new();
    match ring_register_probe(&ring, &mut probe) {
        Ok(()) => {},
        Err(e) => {
            proof {
                lemma_witness(InitSteps { created: Ok(()), nodrop: true, probed: Err(e), answers: others });
            }
            return Err(UringError::ProbeFailed(e));
        },
    }
    let codes = required_opcode_codes();
    let mut answers: Vec<(u8, bool)> = Vec::new();
    let mut i: usize = 0;
    while i < codes.len()
        invariant
            i <= codes@.len(),
            codes@.len() == REQUIRED_OPCODE_COUNT,
            forall|j: int| 0 <= j < REQUIRED_OPCODE_COUNT ==> codes@[j] == #[trigger] required_opcode_code(j),
            answers@.len() == i,
            forall|j: int| 0 <= j < i ==> (#[trigger] answers@[j]).0 == required_opcode_code(j),
        decreases codes@.len() - i,
    {
        answers.push(probe_is_supported(&probe, codes[i]));
        i = i + 1;
    }
    let verdict = check_probe(&answers);
    proof {
        lemma_witness(InitSteps { created: Ok(()), nodrop: true, probed: Ok(()), answers: answers@ });
    }
    match verdict {
        Ok(()) => Ok(ring),
        Err(e) => Err(e),
    }
}

/// The kernel ring together with the bookkeeping of its operations.
pub struct Platform {
    /// The ring; entries are pushed onto it by the I/O front end.
    pub ring: Ring,
    /// Pending submissions and published completions.
    pub registry: IoRegistry,
}

impl Platform {
    /// Sets up a ring that passed the checks of [`new_io_uring`], with no
    /// operation tracked.
    pub fn new() -> (r: Result<Platform, UringError>)
        ensures
            is_init_outcome(outcome_of(r)),
            r is Ok ==> r->Ok_0.registry@ == IoModel::fresh() && r->Ok_0.registry@.wf(),
    {
        let ring = new_io_uring()?;
        Ok(Platform { ring, registry: IoRegistry::new() })
    }

    /// Submits what is queued and blocks for at least one completion, then
    /// drains every completion: each one whose key is pending is published
    /// and its task pushed onto `wakeups`; the others are dropped.
    pub fn wait_for_io(&mut self, wakeups: &mut Vec<u32>) -> (r: Result<(), UringError>)
        requires
            old(self).registry@.wf(),
        ensures
            final(self).registry@.wf(),
            r is Ok ==> exists|cqes: Seq<(u64, i32)>|
                (final(self).registry@, final(wakeups)@) == #[trigger] old(self).registry@.deliver_all(old(wakeups)@, cqes),
            r is Err ==> r->Err_0 is SubmitFailed && final(self).registry@ == old(self).registry@
                && final(wakeups)@ == old(wakeups)@,
    {
        match ring_submit_and_wait(&self.ring, 1) {
            Ok(_) => {},
            Err(e) => return Err(UringError::SubmitFailed(e)),
        }
        let cqes = ring_drain_completions(&mut self.ring);
        self.registry.deliver_completions(&cqes, wakeups);
        Ok(())
    }

    /// Replaces the ring with a fresh one and forgets every tracked
    /// operation; what was in flight on the old ring is abandoned with it.
    pub fn reset(&mut self) -> (r: Result<(), UringError>)
        requires
            old(self).registry@.wf(),
        ensures
            final(self).registry@.wf(),
            r is Ok ==> final(self).registry@ == IoModel::fresh(),
            is_init_outcome(outcome_of(r)),
            r is Err ==> final(self).registry@ == old(self).registry@,
    {
        let ring = new_io_uring()?;
        self.ring = ring;
        self.registry = IoRegistry::new();
        Ok(())
    }
}

} // verus!
