//! The load producer: a rate-paced generator that synthesizes one
//! delivery job per tick of its pacing interval, cycling indefinitely
//! over a fixed, ordered list of targets.
//!
//! The caller owns the clock and the outbound queue: it waits for each
//! tick of the pacing timer, asks [`Producer::next_job`] for exactly one
//! job and enqueues it. Pacing is therefore per-emission, not per-cycle:
//! the aggregate rate is one job per tick however many targets exist.

use std::sync::Arc;
use vstd::prelude::*;
use vstd::arithmetic::div_mod::{lemma_add_mod_noop, lemma_mod_self_0, lemma_small_mod};
use vstd::string::StringExecFns;

use crate::encode;
use crate::request::{share_context, Context, Request};

verus! {

/// The correlation string every synthesized job carries.
pub open spec fn job_identity() -> Seq<char> {
    "benchmark#benchmark#benchmark"@
}

/// The ordered list of destination identifiers the producer cycles over.
/// Well-formedness of each identifier (a parseable URL) is the loader's
/// concern, not this model's.
#[derive(Debug, Clone)]
pub struct Targets {
    targets: Vec<String>,
}

impl View for Targets {
    type V = Seq<Seq<char>>;

    closed spec fn view(&self) -> Seq<Seq<char>> {
        self.targets.deep_view()
    }
}

impl Targets {
    pub fn new(targets: Vec<String>) -> (r: Targets)
        ensures
            r@ == targets.deep_view(),
    {
        Targets { targets }
    }

    pub fn len(&self) -> (n: usize)
        ensures
            n == self@.len(),
    {
        self.targets.len()
    }
}

/// Ghost model of the producer: the target list and the cursor that
/// marks the next emission.
pub ghost struct ProducerModel {
    pub targets: Seq<Seq<char>>,
    pub pos: int,
}

impl ProducerModel {
    pub open spec fn wf(self) -> bool {
        self.targets.len() > 0 && 0 <= self.pos < self.targets.len()
    }

    /// The target of the job emitted from this state.
    pub open spec fn emit(self) -> Seq<char> {
        self.targets[self.pos]
    }

    /// The state after one emission: the cursor advances by one,
    /// wrapping after the last target back to the first.
    pub open spec fn step(self) -> ProducerModel {
        ProducerModel { targets: self.targets, pos: (self.pos + 1) % (self.targets.len() as int) }
    }

    /// The state after `n` emissions.
    pub open spec fn after(self, n: nat) -> ProducerModel
        decreases n,
    {
        if n == 0 {
            self
        } else {
            self.after((n - 1) as nat).step()
        }
    }
}

/// After `n` emissions the cursor stands `n` past its start, modulo the
/// number of targets.
proof fn lemma_after_pos(p: ProducerModel, n: nat)
    requires
        p.wf(),
    ensures
        p.after(n).wf(),
        p.after(n).targets == p.targets,
        p.after(n).pos == (p.pos + n) % (p.targets.len() as int),
    decreases n,
{
    let m = p.targets.len() as int;
    if n == 0 {
        lemma_small_mod(p.pos as nat, m as nat);
    } else {
        lemma_after_pos(p, (n - 1) as nat);
        lemma_add_mod_noop(p.pos + n - 1, 1, m);
        if m == 1 {
            assert(p.after(n).pos == 0);
        } else {
            lemma_small_mod(1, m as nat);
        }
    }
}

/// The targets of consecutive emitted jobs follow the configured list in
/// order, wrapping after the last element back to the first,
/// indefinitely: counting from any well-formed state, the `n`-th
/// emission goes to the target `n` places past the cursor, modulo the
/// list length.
pub proof fn lemma_round_robin(p: ProducerModel, n: nat)
    requires
        p.wf(),
    ensures
        p.after(n).emit() == p.targets[(p.pos + n) % (p.targets.len() as int)],
{
    lemma_after_pos(p, n);
}

/// Builds the context every produced job shares: the JSON content body
/// derived from the configured message, with no retry budget.
pub fn make_context(message: &Vec<u8>) -> (c: Arc<Context>)
    ensures
        c.body@ == encode::content_body_spec(message@),
        c.retry_limit == 0,
{
    Arc::new(Context::new(encode::content_body(message), 0))
}

/// The producer's whole state: the target list, the cursor of the next
/// emission, and the context shared by every job it builds.
pub struct Producer {
    targets: Targets,
    pos: usize,
    context: Arc<Context>,
}

impl View for Producer {
    type V = ProducerModel;

    closed spec fn view(&self) -> ProducerModel {
        ProducerModel { targets: self.targets@, pos: self.pos as int }
    }
}

impl Producer {
    pub open spec fn wf(&self) -> bool {
        self@.wf()
    }

    /// The context shared by every job this producer emits.
    pub closed spec fn context_of(&self) -> Context {
        *self.context
    }

    pub fn new(targets: Targets, context: Arc<Context>) -> (p: Producer)
        requires
            targets@.len() > 0,
        ensures
            p.wf(),
            p@.targets == targets@,
            p@.pos == 0,
            p.context_of() == *context,
    {
        Producer { targets, pos: 0, context }
    }

    /// Emits exactly one job: built from the shared context, the target
    /// under the cursor, a retry counter of 0 and the synthetic
    /// identity. The cursor advances as [`ProducerModel::step`] says.
    /// The caller calls this once per tick of the pacing interval.
    pub fn next_job(&mut self) -> (r: Request)
        requires
            old(self).wf(),
        ensures
            final(self).wf(),
            final(self)@ == old(self)@.step(),
            final(self).context_of() == old(self).context_of(),
            r.target@ == old(self)@.emit(),
            *r.context == old(self).context_of(),
            r.retry_count == 0,
            r.identity@ == job_identity(),
    {
        let target = self.targets.targets[self.pos].clone();
        let identity = String::from_str("benchmark#benchmark#benchmark");
        let context = share_context(&self.context);
        let r = Request::new(context, target, identity);
        let len = self.targets.targets.len();
        if self.pos + 1 == len {
            self.pos = 0;
            proof {
                lemma_mod_self_0(len as int);
            }
        } else {
            self.pos = self.pos + 1;
            proof {
                lemma_small_mod((old(self).pos + 1) as nat, len as nat);
            }
        }
        r
    }
}

} // verus!
