//! A block device domain that stands in front of another one and recovers
//! from its crashes.

use vstd::prelude::*;
use crate::blk::{
    calls_in, lemma_calls_in_push, read_view, BlkDeviceDomain, DomainType, Recorded, Step,
};
use crate::error::{is_crash, AlienError, AlienResult};
use crate::heap::{is_zeroed, RRef};
use crate::once::Once;

verus! {

/// The proxy. It learns its target in `init` and from then on forwards every
/// operation to it. A read that finds the target crashed is tried once more,
/// after a recovery step and with a new buffer; every other answer of the
/// target is handed on as it came.
pub struct ShadowBlockDomainImpl<B: BlkDeviceDomain> {
    domain_id: u64,
    blk_domain_name: Once<String>,
    blk: Once<Recorded<B>>,
}

/// What a read of sector `block` with a buffer of `given` adds to the steps
/// `before`, and what it answers.
///
/// The first step added is a call to the target with `given`. If the target
/// did not crash, nothing else is added and the target's answer is `answer`.
/// If it crashed, a recovery step follows, then a second call with a buffer
/// of zeros, whose answer is `answer`; nothing follows that.
pub open spec fn read_steps(
    before: Seq<Step>,
    after: Seq<Step>,
    block: u32,
    given: Seq<u8>,
    answer: AlienResult<Seq<u8>>,
) -> bool {
    let n = before.len() as int;
    &&& after.len() > n
    &&& after.subrange(0, n) =~= before
    &&& after[n] matches Step::ReadBlock { block: first_block, given: first_given, result: first }
    &&& first_block == block
    &&& first_given == given
    &&& if is_crash(first) {
        &&& after.len() == n + 3
        &&& after[n + 1] == Step::Checkout
        &&& after[n + 2] matches Step::ReadBlock {
            block: retry_block,
            given: retry_given,
            result: retry,
        }
        &&& retry_block == block
        &&& is_zeroed(retry_given)
        &&& answer == retry
    } else {
        &&& after.len() == n + 1
        &&& answer == first
    }
}

/// Whether the steps `added` by a read of sector `block` are calls that the
/// target answered, by its own relation for a read: the first call found it
/// as `before`; the second, if there is one, found it as the first had left
/// it; and the last left it as `after`.
pub open spec fn read_answered<B: BlkDeviceDomain>(
    before: B,
    after: B,
    block: u32,
    added: Seq<Step>,
) -> bool {
    exists|mid: B|
        {
            &&& #[trigger] before.read_answer(
                &mid,
                block,
                added[0]->ReadBlock_given,
                added[0]->ReadBlock_result,
            )
            &&& if added.len() == 1 {
                mid == after
            } else {
                mid.read_answer(
                    &after,
                    block,
                    added.last()->ReadBlock_given,
                    added.last()->ReadBlock_result,
                )
            }
        }
}

impl<B: BlkDeviceDomain> ShadowBlockDomainImpl<B> {
    /// The target with the record of the calls made to it, once `init` has
    /// set it.
    pub closed spec fn target(&self) -> Option<Recorded<B>> {
        self.blk@
    }

    /// The name under which the target was found, once `init` has set it.
    pub closed spec fn target_name(&self) -> Option<Seq<char>> {
        match self.blk_domain_name@ {
            Some(name) => Some(name@),
            None => None,
        }
    }

    /// The identity of this domain.
    pub closed spec fn id(&self) -> u64 {
        self.domain_id
    }

    /// Whether `init` has set the target.
    pub open spec fn is_ready(&self) -> bool {
        self.target() is Some && self.target_name() is Some
    }

    /// The proxy has a target and its name, or neither. Every proxy that
    /// `new` made is so, and stays so.
    pub open spec fn wf(&self) -> bool {
        self.target() is Some <==> self.target_name() is Some
    }

    /// The target as it now is.
    pub open spec fn domain(&self) -> B
        recommends
            self.is_ready(),
    {
        self.target()->Some_0.domain()
    }

    /// What this proxy did with its target so far: its calls to the target
    /// and its recovery steps.
    pub open spec fn steps(&self) -> Seq<Step>
        recommends
            self.is_ready(),
    {
        self.target()->Some_0.steps()
    }

    /// A proxy without a target, for the domain of identity `domain_id`.
    pub fn new(domain_id: u64) -> (proxy: Self)
        ensures
            proxy.wf(),
            proxy.id() == domain_id,
            proxy.target() is None,
            proxy.target_name() is None,
    {
        Self { domain_id, blk_domain_name: Once::new(), blk: Once::new() }
    }

    /// The identity of this domain.
    pub fn domain_id(&self) -> (id: u64)
        ensures
            id == self.id(),
    {
        self.domain_id
    }

    /// The name under which the target was found, once `init` has set it.
    pub fn blk_domain_name(&self) -> (name: Option<&String>)
        ensures
            match name {
                Some(name) => self.target_name() == Some(name@),
                None => self.target_name() is None,
            },
    {
        self.blk_domain_name.get()
    }

    /// Whether `init` has set the target.
    pub fn ready(&self) -> (ready: bool)
        ensures
            ready == self.is_ready(),
    {
        self.blk.is_completed() && self.blk_domain_name.is_completed()
    }

    /// Takes `resolved`, what the registry gave for the name `blk_domain`, as
    /// the target. A name that the registry does not know, or a domain that
    /// is no block device, is refused and leaves the proxy as it was. A proxy
    /// that has a target keeps it.
    pub fn init(&mut self, blk_domain: &str, resolved: Option<DomainType<B>>) -> (result:
        AlienResult<()>)
        ensures
            old(self).wf() ==> final(self).wf(),
            final(self).id() == old(self).id(),
            match resolved {
                Some(DomainType::BlkDeviceDomain(blk)) => {
                    &&& result is Ok
                    &&& match old(self).target() {
                        Some(kept) => final(self).target() == Some(kept),
                        None => {
                            &&& final(self).target() is Some
                            &&& final(self).target()->Some_0.domain() == blk
                            &&& final(self).steps() == Seq::<Step>::empty()
                        },
                    }
                    &&& final(self).target_name() == Some(
                        match old(self).target_name() {
                            Some(kept) => kept,
                            None => blk_domain@,
                        },
                    )
                },
                _ => {
                    &&& result == Err::<(), AlienError>(AlienError::ContractViolation)
                    &&& final(self).target() == old(self).target()
                    &&& final(self).target_name() == old(self).target_name()
                },
            },
    {
        let blk = match resolved {
            Some(DomainType::BlkDeviceDomain(blk)) => blk,
            _ => {
                return Err(AlienError::ContractViolation);
            },
        };
        let name = || -> (s: String)
            ensures
                s@ == blk_domain@,
            { blk_domain.to_owned() };
        self.blk_domain_name.call_once(name);
        let target = || -> (recorded: Recorded<B>)
            ensures
                recorded.domain() == blk,
                recorded.steps() == Seq::<Step>::empty(),
            { Recorded::new(blk) };
        self.blk.call_once(target);
        Ok(())
    }

    /// Hands an interrupt on to the target.
    pub fn handle_irq(&mut self) -> (result: AlienResult<()>)
        requires
            old(self).is_ready(),
        ensures
            final(self).is_ready(),
            final(self).wf(),
            final(self).id() == old(self).id(),
            final(self).target_name() == old(self).target_name(),
            old(self).domain().irq_answer(&final(self).domain(), result),
            final(self).steps() == old(self).steps().push(Step::HandleIrq { result }),
    {
        self.blk.get_must_mut().handle_irq()
    }

    /// Reads sector `block` through the target.
    ///
    /// The target is called with `data`. Unless it crashed, its answer is the
    /// proxy's, no other call is made and `recover` is not run. If it crashed,
    /// `recover` is run, then the target is called a second time with a new
    /// buffer of zeros, never with what may be left of `data`, and that
    /// second answer is the proxy's whatever it is.
    pub fn read_block<F: FnOnce() -> ()>(
        &mut self,
        block: u32,
        data: RRef<[u8; 512]>,
        recover: F,
    ) -> (result: AlienResult<RRef<[u8; 512]>>)
        requires
            old(self).is_ready(),
            recover.requires(()),
        ensures
            final(self).is_ready(),
            final(self).wf(),
            final(self).id() == old(self).id(),
            final(self).target_name() == old(self).target_name(),
            read_steps(
                old(self).steps(),
                final(self).steps(),
                block,
                data.bytes(),
                read_view(result),
            ),
            read_answered(
                old(self).domain(),
                final(self).domain(),
                block,
                final(self).steps().subrange(
                    old(self).steps().len() as int,
                    final(self).steps().len() as int,
                ),
            ),
            final(self).steps().len() == old(self).steps().len() + 3 ==> recover.ensures((), ()),
    {
        let ghost before = self.domain();
        let ghost n = self.steps().len() as int;
        let blk = self.blk.get_must_mut();
        let res = blk.read_block(block, data);
        let ghost mid = blk.domain();
        let ghost first = read_view(res);
        let result = match res {
            Ok(res) => Ok(res),
            Err(AlienError::DomainCrash) => {
                blk.checkout(recover);
                let data = RRef::fresh();
                blk.read_block(block, data)
            },
            Err(e) => Err(e),
        };
        proof {
            let added = self.steps().subrange(n, self.steps().len() as int);
            assert(added[0] == self.steps()[n]);
            assert(added.last() == self.steps().last());
            assert(before.read_answer(&mid, block, added[0]->ReadBlock_given, first));
        }
        result
    }

    /// Writes `data` to sector `block` through the target: one call, whose
    /// answer is handed on as it came.
    pub fn write_block(&mut self, block: u32, data: &RRef<[u8; 512]>) -> (result: AlienResult<
        usize,
    >)
        requires
            old(self).is_ready(),
        ensures
            final(self).is_ready(),
            final(self).wf(),
            final(self).id() == old(self).id(),
            final(self).target_name() == old(self).target_name(),
            old(self).domain().write_answer(&final(self).domain(), block, data.bytes(), result),
            final(self).steps() == old(self).steps().push(
                Step::WriteBlock { block, data: data.bytes(), result },
            ),
    {
        self.blk.get_must_mut().write_block(block, data)
    }

    /// Asks the target for the number of sectors: one call, whose answer is
    /// handed on as it came.
    pub fn get_capacity(&mut self) -> (result: AlienResult<u64>)
        requires
            old(self).is_ready(),
        ensures
            final(self).is_ready(),
            final(self).wf(),
            final(self).id() == old(self).id(),
            final(self).target_name() == old(self).target_name(),
            old(self).domain().capacity_answer(&final(self).domain(), result),
            final(self).steps() == old(self).steps().push(Step::GetCapacity { result }),
    {
        self.blk.get_must_mut().get_capacity()
    }

    /// Makes the target flush: one call, whose answer is handed on as it
    /// came.
    pub fn flush(&mut self) -> (result: AlienResult<()>)
        requires
            old(self).is_ready(),
        ensures
            final(self).is_ready(),
            final(self).wf(),
            final(self).id() == old(self).id(),
            final(self).target_name() == old(self).target_name(),
            old(self).domain().flush_answer(&final(self).domain(), result),
            final(self).steps() == old(self).steps().push(Step::Flush { result }),
    {
        self.blk.get_must_mut().flush()
    }
}

/// A read reaches the target once if the target does not crash, and twice if
/// it does: there is one retry and never a third call, whatever the retry
/// answers. The proxy's answer is the target's last one.
pub proof fn lemma_read_retries_once(
    before: Seq<Step>,
    after: Seq<Step>,
    block: u32,
    given: Seq<u8>,
    answer: AlienResult<Seq<u8>>,
)
    requires
        read_steps(before, after, block, given, answer),
    ensures
        calls_in(after) == calls_in(before) + if is_crash(
            after[before.len() as int]->ReadBlock_result,
        ) {
            2nat
        } else {
            1nat
        },
        after.last() matches Step::ReadBlock { block: last_block, given: _, result: last }
            && last_block == block && last == answer,
{
    let n = before.len() as int;
    let first = after[n];
    lemma_calls_in_push(before, first);
    if after.len() == n + 1 {
        assert(after =~= before.push(first));
    } else {
        let retry = after[n + 2];
        lemma_calls_in_push(before.push(first), Step::Checkout);
        lemma_calls_in_push(before.push(first).push(Step::Checkout), retry);
        assert(after =~= before.push(first).push(Step::Checkout).push(retry));
    }
}

/// A write, a question for the capacity, a flush or an interrupt reaches the
/// target once, whatever the target answers: a step that is a call adds one
/// call and nothing else.
pub proof fn lemma_forward_calls_once(before: Seq<Step>, step: Step)
    requires
        !(step is Checkout),
    ensures
        calls_in(before.push(step)) == calls_in(before) + 1,
        before.push(step).last() == step,
{
    lemma_calls_in_push(before, step);
}

} // verus!
