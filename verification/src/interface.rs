//! The bus between the driver and the controller, and the record of what was asked of it.
//!
//! The bus itself is the caller's: any type that implements [`Transport`]. The driver
//! reaches it only through a [`Link`], which hands each transmission on unchanged and
//! notes, in ghost state, what was asked and what the bus answered. That record is what
//! the contracts of the sending functions speak of: [`ran`] says how a planned sequence of
//! transmissions shows in it, whatever the bus answers.

use display_interface::DisplayError;
use vstd::prelude::*;

verus! {

/// `display_interface::DisplayError`, the one error a transport reports. It is declared
/// without its variants, and nothing is assumed of it: the driver never looks inside an
/// error, it only hands it back to its caller.
#[verifier::external_type_specification]
#[verifier::external_body]
pub struct ExDisplayError(DisplayError);

/// A write-only bus with separate command and data modes. Switching the mode is the
/// implementation's business; so are timeouts. Nothing is promised of the outcome of a
/// transmission: the driver is verified for every answer a transport may give.
pub trait Transport {
    /// Send `bytes` in command mode.
    fn send_commands(&mut self, bytes: &[u8]) -> Result<(), DisplayError>;

    /// Send `bytes` in data mode, as one buffer.
    fn send_data(&mut self, bytes: &[u8]) -> Result<(), DisplayError>;

    /// Send `bytes` in data mode, as one stream that the transport draws byte by byte.
    fn stream_data(&mut self, bytes: &[u8]) -> Result<(), DisplayError>;
}

/// One transmission asked of a transport.
pub enum Transfer {
    /// Bytes sent in command mode.
    Commands(Seq<u8>),
    /// Bytes sent in data mode as one buffer.
    Data(Seq<u8>),
    /// Bytes sent in data mode as one stream.
    Stream(Seq<u8>),
}

/// A transmission together with the transport's answer to it.
pub struct Attempt {
    /// What was asked.
    pub transfer: Transfer,
    /// What the transport answered: `Ok` where it accepted the transmission, its error
    /// where it refused.
    pub outcome: Result<(), DisplayError>,
}

/// Whether the record `after` is the record `before` followed by one way for `plan` to
/// go that ends in `result`, when `plan` is carried out front to back and given up at the
/// first refusal: the attempts added are the transmissions of `plan` in order, only the
/// last of them may have been refused, and `result` is that refusal's error, or `Ok` when
/// all of `plan` was asked for and accepted.
pub open spec fn ran(
    plan: Seq<Transfer>,
    before: Seq<Attempt>,
    after: Seq<Attempt>,
    result: Result<(), DisplayError>,
) -> bool {
    &&& before.is_prefix_of(after)
    &&& after.len() <= before.len() + plan.len()
    &&& forall|i: int|
        before.len() <= i < after.len() ==> (#[trigger] after[i]).transfer == plan[i
            - before.len()]
    &&& forall|i: int| before.len() <= i < after.len() - 1 ==> (#[trigger] after[i]).outcome is Ok
    &&& match result {
        Ok(_) => {
            &&& after.len() == before.len() + plan.len()
            &&& plan.len() > 0 ==> after.last().outcome is Ok
        },
        Err(e) => {
            &&& after.len() > before.len()
            &&& after.last().outcome == Err::<(), DisplayError>(e)
        },
    }
}

/// One transmission and the transport's answer to it are a way for the plan of that one
/// transmission to go.
pub proof fn lemma_ran_one(
    transfer: Transfer,
    before: Seq<Attempt>,
    outcome: Result<(), DisplayError>,
)
    ensures
        ran(seq![transfer], before, before.push(Attempt { transfer, outcome }), outcome),
{
    let after = before.push(Attempt { transfer, outcome });
    assert(before =~= after.subrange(0, before.len() as int));
}

/// Nothing asked and nothing answered is the way for the empty plan to go.
pub proof fn lemma_ran_nothing(before: Seq<Attempt>)
    ensures
        ran(Seq::<Transfer>::empty(), before, before, Ok(())),
{
    assert(before =~= before.subrange(0, before.len() as int));
}

/// A plan that went through, followed by a second plan, is one way for the two plans in a
/// row to go.
pub proof fn lemma_ran_then(
    first: Seq<Transfer>,
    second: Seq<Transfer>,
    before: Seq<Attempt>,
    between: Seq<Attempt>,
    after: Seq<Attempt>,
    result: Result<(), DisplayError>,
)
    requires
        ran(first, before, between, Ok(())),
        ran(second, between, after, result),
    ensures
        ran(first + second, before, after, result),
{
    assert(before =~= after.subrange(0, before.len() as int)) by {
        assert forall|i: int| 0 <= i < before.len() implies before[i] == after[i] by {
            assert(before[i] == between.subrange(0, before.len() as int)[i]);
            assert(between[i] == after.subrange(0, between.len() as int)[i]);
        }
    }
    assert forall|i: int| before.len() <= i < after.len() implies {
        &&& (#[trigger] after[i]).transfer == (first + second)[i - before.len()]
        &&& i < after.len() - 1 ==> after[i].outcome is Ok
    } by {
        if i < between.len() {
            assert(between[i] == after.subrange(0, between.len() as int)[i]);
        }
    }
    if after.len() == between.len() && between.len() > 0 {
        assert(between.last() == after.subrange(0, between.len() as int)[between.len() - 1]);
    }
}

/// A plan that was given up stays given up, whatever was to follow it.
pub proof fn lemma_ran_given_up(
    first: Seq<Transfer>,
    second: Seq<Transfer>,
    before: Seq<Attempt>,
    after: Seq<Attempt>,
    error: DisplayError,
)
    requires
        ran(first, before, after, Err(error)),
    ensures
        ran(first + second, before, after, Err(error)),
{
}

/// Carrying on with a plan: when the part `done` of `plan` went through and the part
/// `next` was tried after it, then either `next` went through as well, or the whole of
/// `plan` was given up with the error that `next` ended in.
pub proof fn lemma_ran_next(
    plan: Seq<Transfer>,
    done: Seq<Transfer>,
    next: Seq<Transfer>,
    before: Seq<Attempt>,
    between: Seq<Attempt>,
    after: Seq<Attempt>,
    result: Result<(), DisplayError>,
)
    requires
        ran(done, before, between, Ok(())),
        ran(next, between, after, result),
        (done + next).is_prefix_of(plan),
    ensures
        result is Ok ==> ran(done + next, before, after, Ok(())),
        result is Err ==> ran(plan, before, after, result),
{
    lemma_ran_then(done, next, before, between, after, result);
    if let Err(error) = result {
        let rest = plan.skip((done + next).len() as int);
        assert(done + next + rest =~= plan);
        lemma_ran_given_up(done + next, rest, before, after, error);
    }
}

/// A run ends at its first refusal. If the transport refused the `n`-th attempt of a run,
/// counting from zero, then the `n` attempts before it were accepted, the refused attempt
/// is the last that was made, and its error is the run's result.
pub proof fn lemma_refusal_ends_run(
    plan: Seq<Transfer>,
    before: Seq<Attempt>,
    after: Seq<Attempt>,
    result: Result<(), DisplayError>,
    n: int,
)
    requires
        ran(plan, before, after, result),
        0 <= n < after.len() - before.len(),
        after[before.len() + n].outcome is Err,
    ensures
        after.len() == before.len() + n + 1,
        result == after[before.len() + n].outcome,
        forall|i: int| before.len() <= i < before.len() + n ==> (#[trigger] after[i]).outcome is Ok,
        forall|i: int|
            before.len() <= i <= before.len() + n ==> (#[trigger] after[i]).transfer == plan[i
                - before.len()],
{
}

/// A transport that accepts what it is asked until the `n`-th time, counting from one,
/// and refuses then: a plan of at least `n` transmissions ends in that refusal's error
/// after exactly `n` attempts, and so after `n - 1` that were accepted.
pub proof fn lemma_fails_on_nth(
    plan: Seq<Transfer>,
    before: Seq<Attempt>,
    after: Seq<Attempt>,
    result: Result<(), DisplayError>,
    n: int,
)
    requires
        ran(plan, before, after, result),
        1 <= n <= plan.len(),
        forall|i: int|
            before.len() <= i < after.len() ==> ((#[trigger] after[i]).outcome is Err <==> i
                == before.len() + n - 1),
    ensures
        after.len() == before.len() + n,
        result is Err,
        result == after.last().outcome,
{
    if result is Ok {
        assert(after[before.len() + n - 1].outcome is Ok);
    }
}

/// A transport that refuses nothing: the whole plan is asked of it, and the result is
/// `Ok`.
pub proof fn lemma_never_fails(
    plan: Seq<Transfer>,
    before: Seq<Attempt>,
    after: Seq<Attempt>,
    result: Result<(), DisplayError>,
)
    requires
        ran(plan, before, after, result),
        forall|i: int| before.len() <= i < after.len() ==> (#[trigger] after[i]).outcome is Ok,
    ensures
        result is Ok,
        after.len() == before.len() + plan.len(),
{
}

/// A transport together with the record of what was asked of it through this link.
///
/// The record is ghost state and costs nothing at run time. Nothing adds to it but the
/// three sending methods, and each adds exactly the transmission that it hands to the
/// transport, with the answer that it hands back.
pub struct Link<DI> {
    bus: DI,
    log: Ghost<Seq<Attempt>>,
}

impl<DI> Link<DI> {
    /// Every transmission asked of the transport through this link, oldest first, each
    /// with the transport's answer.
    pub closed spec fn log(&self) -> Seq<Attempt> {
        self.log@
    }
}

impl<DI: Transport> Link<DI> {
    /// Take over `bus`. Nothing has been asked of it through the new link.
    pub fn new(bus: DI) -> (link: Self)
        ensures
            link.log() == Seq::<Attempt>::empty(),
    {
        Link { bus, log: Ghost(Seq::empty()) }
    }

    /// Ask the transport to send `bytes` in command mode and hand its answer back.
    pub fn send_commands(&mut self, bytes: &[u8]) -> (outcome: Result<(), DisplayError>)
        ensures
            final(self).log() == old(self).log().push(
                Attempt { transfer: Transfer::Commands(bytes@), outcome },
            ),
    {
        let outcome = self.bus.send_commands(bytes);
        proof {
            self.log@ = self.log@.push(Attempt { transfer: Transfer::Commands(bytes@), outcome });
        }
        outcome
    }

    /// Ask the transport to send `bytes` in data mode as one buffer and hand its answer
    /// back.
    pub fn send_data(&mut self, bytes: &[u8]) -> (outcome: Result<(), DisplayError>)
        ensures
            final(self).log() == old(self).log().push(
                Attempt { transfer: Transfer::Data(bytes@), outcome },
            ),
    {
        let outcome = self.bus.send_data(bytes);
        proof {
            self.log@ = self.log@.push(Attempt { transfer: Transfer::Data(bytes@), outcome });
        }
        outcome
    }

    /// Ask the transport to send `bytes` in data mode as one stream and hand its answer
    /// back.
    pub fn stream_data(&mut self, bytes: &[u8]) -> (outcome: Result<(), DisplayError>)
        ensures
            final(self).log() == old(self).log().push(
                Attempt { transfer: Transfer::Stream(bytes@), outcome },
            ),
    {
        let outcome = self.bus.stream_data(bytes);
        proof {
            self.log@ = self.log@.push(Attempt { transfer: Transfer::Stream(bytes@), outcome });
        }
        outcome
    }
}

} // verus!
