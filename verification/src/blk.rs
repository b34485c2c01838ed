//! The block device service, as a domain offers it.

use vstd::prelude::*;
use crate::error::AlienResult;
use crate::heap::RRef;

verus! {

/// One thing that was done with a block device domain: a call to it, with
/// what the domain was given and what it answered, or a recovery step after
/// it crashed.
#[allow(inconsistent_fields)]
pub enum Step {
    Checkout,
    HandleIrq { result: AlienResult<()> },
    ReadBlock { block: u32, given: Seq<u8>, result: AlienResult<Seq<u8>> },
    WriteBlock { block: u32, data: Seq<u8>, result: AlienResult<usize> },
    GetCapacity { result: AlienResult<u64> },
    Flush { result: AlienResult<()> },
}

/// How many of `steps` are calls to the domain.
pub open spec fn calls_in(steps: Seq<Step>) -> nat
    decreases steps.len(),
{
    if steps.len() == 0 {
        0
    } else if steps.last() is Checkout {
        calls_in(steps.drop_last())
    } else {
        calls_in(steps.drop_last()) + 1
    }
}

/// A step more is a call more, unless it is a recovery step.
pub proof fn lemma_calls_in_push(steps: Seq<Step>, step: Step)
    ensures
        calls_in(steps.push(step)) == calls_in(steps) + if step is Checkout {
            0nat
        } else {
            1nat
        },
{
    assert(steps.push(step).drop_last() =~= steps);
}

/// The answer to a read, with the buffer as its bytes.
pub open spec fn read_view(result: AlienResult<RRef<[u8; 512]>>) -> AlienResult<Seq<u8>> {
    match result {
        Ok(data) => Ok(data.bytes()),
        Err(e) => Err(e),
    }
}

/// A domain that serves a block device of 512-byte sectors. Any call may
/// fail, and a call into a domain that faults fails with the crash signal.
///
/// Beside each operation stands a relation of the same parameters: what the
/// domain says of a call that found it as `self`, left it as `after` and
/// gave that answer. A domain that says nothing of its calls leaves a
/// relation as it is here, which holds of every call.
pub trait BlkDeviceDomain {
    /// Whether a served interrupt can leave the domain as `after` with the
    /// answer `result`.
    open spec fn irq_answer(&self, after: &Self, result: AlienResult<()>) -> bool {
        true
    }

    /// Whether a read of sector `block` into a buffer of `given` can leave
    /// the domain as `after` with the answer `result`.
    open spec fn read_answer(
        &self,
        after: &Self,
        block: u32,
        given: Seq<u8>,
        result: AlienResult<Seq<u8>>,
    ) -> bool {
        true
    }

    /// Whether a write of `data` to sector `block` can leave the domain as
    /// `after` with the answer `result`.
    open spec fn write_answer(
        &self,
        after: &Self,
        block: u32,
        data: Seq<u8>,
        result: AlienResult<usize>,
    ) -> bool {
        true
    }

    /// Whether a question for the capacity can leave the domain as `after`
    /// with the answer `result`.
    open spec fn capacity_answer(&self, after: &Self, result: AlienResult<u64>) -> bool {
        true
    }

    /// Whether a flush can leave the domain as `after` with the answer
    /// `result`.
    open spec fn flush_answer(&self, after: &Self, result: AlienResult<()>) -> bool {
        true
    }

    /// Serves an interrupt of the device.
    fn handle_irq(&mut self) -> (result: AlienResult<()>)
        ensures
            old(self).irq_answer(final(self), result),
    ;

    /// Reads sector `block`. The buffer is given up to the domain, which hands
    /// back the one that holds the sector: the same or another.
    fn read_block(&mut self, block: u32, data: RRef<[u8; 512]>) -> (result: AlienResult<
        RRef<[u8; 512]>,
    >)
        ensures
            old(self).read_answer(final(self), block, data.bytes(), read_view(result)),
    ;

    /// Writes `data` to sector `block` and says how many bytes were written.
    fn write_block(&mut self, block: u32, data: &RRef<[u8; 512]>) -> (result: AlienResult<usize>)
        ensures
            old(self).write_answer(final(self), block, data.bytes(), result),
    ;

    /// The number of sectors of the device.
    fn get_capacity(&mut self) -> (result: AlienResult<u64>)
        ensures
            old(self).capacity_answer(final(self), result),
    ;

    /// Makes the device write out what it holds back.
    fn flush(&mut self) -> (result: AlienResult<()>)
        ensures
            old(self).flush_answer(final(self), result),
    ;
}

/// A block device domain together with the record of what was done with it,
/// oldest first. The domain can be reached through the operations below and
/// in no other way. Each of them makes one call to the domain, or runs one
/// recovery step, and adds it to the record: the step that it adds holds
/// what the domain was given and what it answered, by the domain's own
/// relation for that call.
pub struct Recorded<B: BlkDeviceDomain> {
    domain: B,
    steps: Ghost<Seq<Step>>,
}

impl<B: BlkDeviceDomain> Recorded<B> {
    /// What was done with the domain so far.
    pub closed spec fn steps(&self) -> Seq<Step> {
        self.steps@
    }

    /// The domain as it now is.
    pub closed spec fn domain(&self) -> B {
        self.domain
    }

    /// Takes `domain` with an empty record.
    pub fn new(domain: B) -> (recorded: Self)
        ensures
            recorded.domain() == domain,
            recorded.steps() == Seq::<Step>::empty(),
    {
        Recorded { domain, steps: Ghost(Seq::empty()) }
    }

    /// Runs `recover`, the step that brings shared state in order again after
    /// the domain crashed. The domain itself is not called.
    pub fn checkout<F: FnOnce() -> ()>(&mut self, recover: F)
        requires
            recover.requires(()),
        ensures
            recover.ensures((), ()),
            final(self).domain() == old(self).domain(),
            final(self).steps() == old(self).steps().push(Step::Checkout),
    {
        recover();
        proof {
            self.steps@ = self.steps@.push(Step::Checkout);
        }
    }

    /// Hands an interrupt to the domain.
    pub fn handle_irq(&mut self) -> (result: AlienResult<()>)
        ensures
            old(self).domain().irq_answer(&final(self).domain(), result),
            final(self).steps() == old(self).steps().push(Step::HandleIrq { result }),
    {
        let result = self.domain.handle_irq();
        proof {
            self.steps@ = self.steps@.push(Step::HandleIrq { result });
        }
        result
    }

    /// Has the domain read sector `block` into `data`.
    pub fn read_block(&mut self, block: u32, data: RRef<[u8; 512]>) -> (result: AlienResult<
        RRef<[u8; 512]>,
    >)
        ensures
            old(self).domain().read_answer(
                &final(self).domain(),
                block,
                data.bytes(),
                read_view(result),
            ),
            final(self).steps() == old(self).steps().push(
                Step::ReadBlock { block, given: data.bytes(), result: read_view(result) },
            ),
    {
        let ghost given = data.bytes();
        let result = self.domain.read_block(block, data);
        proof {
            self.steps@ = self.steps@.push(
                Step::ReadBlock { block, given, result: read_view(result) },
            );
        }
        result
    }

    /// Has the domain write `data` to sector `block`.
    pub fn write_block(&mut self, block: u32, data: &RRef<[u8; 512]>) -> (result: AlienResult<
        usize,
    >)
        ensures
            old(self).domain().write_answer(&final(self).domain(), block, data.bytes(), result),
            final(self).steps() == old(self).steps().push(
                Step::WriteBlock { block, data: data.bytes(), result },
            ),
    {
        let result = self.domain.write_block(block, data);
        proof {
            self.steps@ = self.steps@.push(
                Step::WriteBlock { block, data: data.bytes(), result },
            );
        }
        result
    }

    /// Asks the domain for the number of sectors.
    pub fn get_capacity(&mut self) -> (result: AlienResult<u64>)
        ensures
            old(self).domain().capacity_answer(&final(self).domain(), result),
            final(self).steps() == old(self).steps().push(Step::GetCapacity { result }),
    {
        let result = self.domain.get_capacity();
        proof {
            self.steps@ = self.steps@.push(Step::GetCapacity { result });
        }
        result
    }

    /// Has the domain flush.
    pub fn flush(&mut self) -> (result: AlienResult<()>)
        ensures
            old(self).domain().flush_answer(&final(self).domain(), result),
            final(self).steps() == old(self).steps().push(Step::Flush { result }),
    {
        let result = self.domain.flush();
        proof {
            self.steps@ = self.steps@.push(Step::Flush { result });
        }
        result
    }
}

/// A handle to a live domain, as the registry gives it out for a name,
/// tagged with the kind of service that the domain offers. A block device
/// domain comes as the domain itself, a clock or a shadow block domain as
/// its identity.
pub enum DomainType<B> {
    BlkDeviceDomain(B),
    ShadowBlockDomain(u64),
    RtcDomain(u64),
    /// A domain of a kind that nothing here deals with.
    Other,
}

} // verus!
