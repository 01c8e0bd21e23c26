//! Claimed-interface bookkeeping: which interfaces the engine claimed, which
//! had a kernel driver detached, and the symmetric teardown plan that
//! releases every claim and reattaches exactly the drivers that were
//! detached.

use vstd::prelude::*;

verus! {

/// One claimed interface and whether a kernel driver had to be detached from
/// it before claiming.
#[derive(Clone, Copy, Debug, PartialEq, Eq, Structural)]
pub struct Claim {
    pub iface: u8,
    pub detached: bool,
}

/// One step of the teardown sequence.
#[derive(Clone, Copy, Debug, PartialEq, Eq, Structural)]
pub enum TeardownStep {
    /// Release the claimed interface.
    Release { iface: u8 },
    /// Reattach the kernel driver that was detached from the interface.
    Reattach { iface: u8 },
}

/// The interface that a claim request actually claims.  The device exposes
/// no claimable interface number 2: its interrupt traffic becomes observable
/// once interface 1 is claimed, so a request for 2 is remapped to 1; every
/// other number stands.
pub open spec fn resolve_interface_spec(requested: u8) -> u8 {
    if requested == 2 {
        1
    } else {
        requested
    }
}

pub fn resolve_interface(requested: u8) -> (r: u8)
    ensures
        r == resolve_interface_spec(requested),
{
    if requested == 2 {
        1
    } else {
        requested
    }
}

/// The teardown steps for a claim list: claims are unwound in reverse claim
/// order, each released and then, exactly when its driver was detached,
/// reattached.
pub open spec fn teardown_spec(claims: Seq<Claim>) -> Seq<TeardownStep>
    decreases claims.len(),
{
    if claims.len() == 0 {
        Seq::empty()
    } else {
        let c = claims.last();
        let own = if c.detached {
            seq![
                TeardownStep::Release { iface: c.iface },
                TeardownStep::Reattach { iface: c.iface },
            ]
        } else {
            seq![TeardownStep::Release { iface: c.iface }]
        };
        own + teardown_spec(claims.drop_last())
    }
}

/// How often a step occurs in a plan.
pub open spec fn step_count(plan: Seq<TeardownStep>, step: TeardownStep) -> int
    decreases plan.len(),
{
    if plan.len() == 0 {
        0
    } else {
        step_count(plan.drop_last(), step) + if plan.last() == step {
            1int
        } else {
            0int
        }
    }
}

/// The record of every interface this engine claimed, in claim order.
#[derive(Clone, Debug)]
pub struct ClaimSet {
    pub claims: Vec<Claim>,
}

impl ClaimSet {
    /// No interface is recorded twice: each is claimed at most once per
    /// engine lifetime.
    pub open spec fn wf(self) -> bool {
        forall|i: int, j: int|
            0 <= i < j < self.claims@.len() ==> self.claims@[i].iface != self.claims@[j].iface
    }

    pub open spec fn holds_iface(self, iface: u8) -> bool {
        exists|i: int| 0 <= i < self.claims@.len() && self.claims@[i].iface == iface
    }

    pub fn new() -> (r: ClaimSet)
        ensures
            r.claims@.len() == 0,
            r.wf(),
    {
        ClaimSet { claims: Vec::new() }
    }

    /// Whether the interface was already claimed.
    pub fn is_claimed(&self, iface: u8) -> (r: bool)
        ensures
            r == self.holds_iface(iface),
    {
        let mut i: usize = 0;
        while i < self.claims.len()
            invariant
                i <= self.claims@.len(),
                forall|j: int| 0 <= j < i ==> self.claims@[j].iface != iface,
            decreases self.claims@.len() - i,
        {
            if self.claims[i].iface == iface {
                return true;
            }
            i = i + 1;
        }
        false
    }

    /// Record a fresh claim with its detach state.
    pub fn record(&mut self, iface: u8, detached: bool)
        requires
            old(self).wf(),
            !old(self).holds_iface(iface),
        ensures
            final(self).wf(),
            final(self).claims@ == old(self).claims@ + seq![Claim { iface, detached }],
    {
        self.claims.push(Claim { iface, detached });
    }

    /// The symmetric teardown plan for everything recorded so far.
    pub fn teardown_plan(&self) -> (r: Vec<TeardownStep>)
        ensures
            r@ == teardown_spec(self.claims@),
    {
        let mut r: Vec<TeardownStep> = Vec::new();
        let mut i: usize = self.claims.len();
        assert(self.claims@.take(self.claims@.len() as int) =~= self.claims@);
        while i > 0
            invariant
                i <= self.claims@.len(),
                teardown_spec(self.claims@) == r@ + teardown_spec(self.claims@.take(i as int)),
            decreases i,
        {
            i = i - 1;
            let c = self.claims[i];
            proof {
                assert(self.claims@.take(i + 1).drop_last() =~= self.claims@.take(i as int));
                assert(self.claims@.take(i + 1).last() == self.claims@[i as int]);
            }
            r.push(TeardownStep::Release { iface: c.iface });
            if c.detached {
                r.push(TeardownStep::Reattach { iface: c.iface });
            }
            proof {
                assert(teardown_spec(self.claims@) =~= r@ + teardown_spec(
                    self.claims@.take(i as int),
                ));
            }
        }
        assert(r@ =~= teardown_spec(self.claims@));
        r
    }
}

/// Step counting over a one-step plan.
proof fn lemma_step_count_singleton(x: TeardownStep, step: TeardownStep)
    ensures
        step_count(seq![x], step) == if x == step {
            1int
        } else {
            0int
        },
{
    assert(step_count(Seq::<TeardownStep>::empty(), step) == 0);
    assert(seq![x].drop_last() =~= Seq::<TeardownStep>::empty());
    assert(seq![x].last() == x);
}

/// Step counting over a two-step plan.
proof fn lemma_step_count_pair(x: TeardownStep, y: TeardownStep, step: TeardownStep)
    ensures
        step_count(seq![x, y], step) == (if x == step {
            1int
        } else {
            0int
        }) + (if y == step {
            1int
        } else {
            0int
        }),
{
    assert(seq![x, y].drop_last() =~= seq![x]);
    lemma_step_count_singleton(x, step);
}

/// Step counting distributes over plan concatenation.
proof fn lemma_step_count_concat(a: Seq<TeardownStep>, b: Seq<TeardownStep>, step: TeardownStep)
    ensures
        step_count(a + b, step) == step_count(a, step) + step_count(b, step),
    decreases b.len(),
{
    if b.len() == 0 {
        assert(a + b =~= a);
    } else {
        assert((a + b).drop_last() =~= a + b.drop_last());
        lemma_step_count_concat(a, b.drop_last(), step);
    }
}

/// An interface never claimed is never touched by the teardown plan.
proof fn lemma_teardown_untouched(claims: Seq<Claim>, iface: u8)
    requires
        forall|i: int| 0 <= i < claims.len() ==> claims[i].iface != iface,
    ensures
        step_count(teardown_spec(claims), TeardownStep::Release { iface }) == 0,
        step_count(teardown_spec(claims), TeardownStep::Reattach { iface }) == 0,
    decreases claims.len(),
{
    if claims.len() > 0 {
        let c = claims.last();
        assert(claims[claims.len() - 1].iface != iface);
        let own = if c.detached {
            seq![
                TeardownStep::Release { iface: c.iface },
                TeardownStep::Reattach { iface: c.iface },
            ]
        } else {
            seq![TeardownStep::Release { iface: c.iface }]
        };
        if c.detached {
            lemma_step_count_pair(
                TeardownStep::Release { iface: c.iface },
                TeardownStep::Reattach { iface: c.iface },
                TeardownStep::Release { iface },
            );
            lemma_step_count_pair(
                TeardownStep::Release { iface: c.iface },
                TeardownStep::Reattach { iface: c.iface },
                TeardownStep::Reattach { iface },
            );
        } else {
            lemma_step_count_singleton(TeardownStep::Release { iface: c.iface }, TeardownStep::Release {
                iface,
            });
            lemma_step_count_singleton(TeardownStep::Release { iface: c.iface }, TeardownStep::Reattach {
                iface,
            });
        }
        lemma_step_count_concat(own, teardown_spec(claims.drop_last()), TeardownStep::Release {
            iface,
        });
        lemma_step_count_concat(own, teardown_spec(claims.drop_last()), TeardownStep::Reattach {
            iface,
        });
        lemma_teardown_untouched(claims.drop_last(), iface);
    }
}

/// Teardown symmetry: for any claim list without a repeated interface, the
/// teardown plan releases every claimed interface exactly once and reattaches
/// a kernel driver exactly once if and only if that claim's recorded detach
/// state is true; an interface never claimed is never touched.
pub proof fn lemma_teardown_symmetry(claims: Seq<Claim>, k: int)
    requires
        forall|i: int, j: int| 0 <= i < j < claims.len() ==> claims[i].iface != claims[j].iface,
        0 <= k < claims.len(),
    ensures
        step_count(teardown_spec(claims), TeardownStep::Release { iface: claims[k].iface }) == 1,
        step_count(teardown_spec(claims), TeardownStep::Reattach { iface: claims[k].iface }) == (
        if claims[k].detached {
            1int
        } else {
            0int
        }),
    decreases claims.len(),
{
    let c = claims.last();
    let own = if c.detached {
        seq![
            TeardownStep::Release { iface: c.iface },
            TeardownStep::Reattach { iface: c.iface },
        ]
    } else {
        seq![TeardownStep::Release { iface: c.iface }]
    };
    let rest = teardown_spec(claims.drop_last());
    let target = claims[k];
    if c.detached {
        lemma_step_count_pair(
            TeardownStep::Release { iface: c.iface },
            TeardownStep::Reattach { iface: c.iface },
            TeardownStep::Release { iface: target.iface },
        );
        lemma_step_count_pair(
            TeardownStep::Release { iface: c.iface },
            TeardownStep::Reattach { iface: c.iface },
            TeardownStep::Reattach { iface: target.iface },
        );
    } else {
        lemma_step_count_singleton(TeardownStep::Release { iface: c.iface }, TeardownStep::Release {
            iface: target.iface,
        });
        lemma_step_count_singleton(TeardownStep::Release { iface: c.iface }, TeardownStep::Reattach {
            iface: target.iface,
        });
    }
    lemma_step_count_concat(own, rest, TeardownStep::Release { iface: target.iface });
    lemma_step_count_concat(own, rest, TeardownStep::Reattach { iface: target.iface });
    if k == claims.len() - 1 {
        assert(forall|i: int| 0 <= i < claims.drop_last().len() ==> claims.drop_last()[i].iface
            != target.iface);
        lemma_teardown_untouched(claims.drop_last(), target.iface);
    } else {
        assert(claims.drop_last()[k] == target);
        lemma_teardown_symmetry(claims.drop_last(), k);
        assert(c.iface != target.iface);
    }
}

} // verus!
