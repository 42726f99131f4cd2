use vstd::prelude::*;
use crate::availability::Availability;
use crate::product::{CreateProductArgs, Product, ProductData};
use crate::reconcile::{
    judge_new_item, lemma_skipped_url_untouched, mentions, new_of, restock_of, spec_verdict,
    title_blocked, title_is_skipped, EntityPlan, NewItemVerdict,
};

verus! {

/// Where a run of one entity stands. The passes come in a fixed order:
/// restocks, their announcement, new items, their announcement, items gone away.
#[derive(Debug, Clone, Copy, PartialEq, Eq, Structural)]
pub enum Phase {
    /// Waiting for the restocked item at `pos`.
    Restocking,
    /// Waiting for the restock announcement to be sent.
    RestockNotice,
    /// Waiting for the details of the new url at `pos`.
    Examining,
    /// Waiting for the skip entry of the new url at `pos` to be stored.
    RecordingSkip,
    /// Waiting for the new item at `pos` to be stored.
    Creating,
    /// Waiting for the announcement of new items to be sent.
    NewNotice,
    /// Waiting for the item gone away at `pos` to be marked unavailable.
    Retiring,
    Finished,
}

/// The next piece of outside work that a run asks for.
#[derive(Debug)]
pub enum Step {
    UpdateAvailability { url: String, availability: Availability },
    NotifyRestocked { entity: String, products: Vec<Product> },
    FetchDetails { url: String },
    AddSkipEntry { url: String, artists: Vec<String> },
    CreateItem { args: CreateProductArgs },
    NotifyNew { entity: String, products: Vec<Product> },
    Finished,
}

/// What came back from the work that a step asked for.
#[derive(Debug)]
pub enum Reply {
    /// The stored item after its availability was changed.
    Updated(Product),
    /// The details of the item at the requested url.
    Fetched(ProductData),
    /// The item as it was stored.
    Created(Product),
    /// The work was done and returned nothing.
    Done,
}

/// A step, with its strings and lists seen as values.
pub enum StepView {
    UpdateAvailability { url: Seq<char>, availability: Availability },
    NotifyRestocked { entity: Seq<char>, products: Seq<Product> },
    FetchDetails { url: Seq<char> },
    AddSkipEntry { url: Seq<char>, artists: Seq<String> },
    CreateItem { args: CreateProductArgs },
    NotifyNew { entity: Seq<char>, products: Seq<Product> },
    Finished,
}

impl Step {
    pub open spec fn spec_view(&self) -> StepView {
        match self {
            Step::UpdateAvailability { url, availability } => StepView::UpdateAvailability {
                url: url@,
                availability: *availability,
            },
            Step::NotifyRestocked { entity, products } => StepView::NotifyRestocked {
                entity: entity@,
                products: products@,
            },
            Step::FetchDetails { url } => StepView::FetchDetails { url: url@ },
            Step::AddSkipEntry { url, artists } => StepView::AddSkipEntry {
                url: url@,
                artists: artists@,
            },
            Step::CreateItem { args } => StepView::CreateItem { args: *args },
            Step::NotifyNew { entity, products } => StepView::NotifyNew {
                entity: entity@,
                products: products@,
            },
            Step::Finished => StepView::Finished,
        }
    }
}

/// The changing part of a run: its phase, its position in the current pass,
/// and the two announcement batches collected so far.
pub struct RunState {
    pub phase: Phase,
    pub pos: nat,
    pub restocked: Seq<Product>,
    pub created: Seq<Product>,
}

/// The run of one followed entity, driven one step at a time by its caller:
/// the caller performs each step and hands back what came of it.
///
/// Two policies are fixed here: available items that are no longer listed are
/// marked not available (without an announcement), and a restocked item whose
/// title holds a skip sequence is restocked but not announced. Both
/// announcements are always asked for, empty or not.
#[derive(Debug)]
pub struct EntityRun {
    pub entity: String,
    pub title_skips: Vec<String>,
    pub plan: EntityPlan,
    pub phase: Phase,
    pub pos: usize,
    pub restocked: Vec<Product>,
    pub created: Vec<Product>,
}

impl EntityRun {
    pub open spec fn state(&self) -> RunState {
        RunState {
            phase: self.phase,
            pos: self.pos as nat,
            restocked: self.restocked@,
            created: self.created@,
        }
    }

    /// Moves from a position in a pass to the step it calls for, or on to
    /// the next pass when this one is done.
    pub open spec fn settle_of(&self, s: RunState) -> (RunState, StepView) {
        match s.phase {
            Phase::Restocking => if s.pos < self.plan.restock_urls@.len() {
                (
                    s,
                    StepView::UpdateAvailability {
                        url: self.plan.restock_urls@[s.pos as int]@,
                        availability: Availability::Available,
                    },
                )
            } else {
                (
                    RunState {
                        phase: Phase::RestockNotice,
                        pos: 0,
                        restocked: Seq::empty(),
                        created: s.created,
                    },
                    StepView::NotifyRestocked { entity: self.entity@, products: s.restocked },
                )
            },
            Phase::Examining => if s.pos < self.plan.new_urls@.len() {
                (s, StepView::FetchDetails { url: self.plan.new_urls@[s.pos as int]@ })
            } else {
                (
                    RunState {
                        phase: Phase::NewNotice,
                        pos: 0,
                        restocked: s.restocked,
                        created: Seq::empty(),
                    },
                    StepView::NotifyNew { entity: self.entity@, products: s.created },
                )
            },
            Phase::Retiring => if s.pos < self.plan.gone_urls@.len() {
                (
                    s,
                    StepView::UpdateAvailability {
                        url: self.plan.gone_urls@[s.pos as int]@,
                        availability: Availability::NotAvailable,
                    },
                )
            } else {
                (
                    RunState {
                        phase: Phase::Finished,
                        pos: 0,
                        restocked: s.restocked,
                        created: s.created,
                    },
                    StepView::Finished,
                )
            },
            _ => (s, StepView::Finished),
        }
    }

    /// The state after `reply` arrives in state `s`, and the step asked for next.
    pub open spec fn next_of(&self, s: RunState, reply: Reply) -> (RunState, StepView) {
        match s.phase {
            Phase::Restocking => match reply {
                Reply::Updated(p) => self.settle_of(
                    RunState {
                        phase: s.phase,
                        pos: s.pos + 1,
                        restocked: if title_blocked(p.title@, self.title_skips@) {
                            s.restocked
                        } else {
                            s.restocked.push(p)
                        },
                        created: s.created,
                    },
                ),
                _ => (s, StepView::Finished),
            },
            Phase::RestockNotice => self.settle_of(
                RunState {
                    phase: Phase::Examining,
                    pos: 0,
                    restocked: s.restocked,
                    created: s.created,
                },
            ),
            Phase::Examining => match reply {
                Reply::Fetched(d) => {
                    let url = self.plan.new_urls@[s.pos as int];
                    match spec_verdict(self.entity@, d.artists@, d.title@, self.title_skips@) {
                        NewItemVerdict::RecordSkip => (
                            RunState {
                                phase: Phase::RecordingSkip,
                                pos: s.pos,
                                restocked: s.restocked,
                                created: s.created,
                            },
                            StepView::AddSkipEntry { url: url@, artists: d.artists@ },
                        ),
                        NewItemVerdict::Suppress => self.settle_of(
                            RunState {
                                phase: Phase::Examining,
                                pos: s.pos + 1,
                                restocked: s.restocked,
                                created: s.created,
                            },
                        ),
                        NewItemVerdict::Create => (
                            RunState {
                                phase: Phase::Creating,
                                pos: s.pos,
                                restocked: s.restocked,
                                created: s.created,
                            },
                            StepView::CreateItem { args: CreateProductArgs::spec_from_data(url, d) },
                        ),
                    }
                },
                _ => (s, StepView::Finished),
            },
            Phase::RecordingSkip => self.settle_of(
                RunState {
                    phase: Phase::Examining,
                    pos: s.pos + 1,
                    restocked: s.restocked,
                    created: s.created,
                },
            ),
            Phase::Creating => match reply {
                Reply::Created(p) => self.settle_of(
                    RunState {
                        phase: Phase::Examining,
                        pos: s.pos + 1,
                        restocked: s.restocked,
                        created: s.created.push(p),
                    },
                ),
                Reply::Done => self.settle_of(
                    RunState {
                        phase: Phase::Examining,
                        pos: s.pos + 1,
                        restocked: s.restocked,
                        created: s.created,
                    },
                ),
                _ => (s, StepView::Finished),
            },
            Phase::NewNotice => self.settle_of(
                RunState {
                    phase: Phase::Retiring,
                    pos: 0,
                    restocked: s.restocked,
                    created: s.created,
                },
            ),
            Phase::Retiring => self.settle_of(
                RunState {
                    phase: Phase::Retiring,
                    pos: s.pos + 1,
                    restocked: s.restocked,
                    created: s.created,
                },
            ),
            Phase::Finished => (s, StepView::Finished),
        }
    }

    /// The kind of reply that the pending step calls for. An item that comes
    /// back from the store carries the url it was asked for. A creation that
    /// the store refused (the url was stored meanwhile) is answered with `Done`.
    pub open spec fn expects(&self, reply: Reply) -> bool {
        match self.phase {
            Phase::Restocking => reply matches Reply::Updated(p) && p.url@
                == self.plan.restock_urls@[self.pos as int]@,
            Phase::Examining => reply is Fetched,
            Phase::Creating => reply is Done || (reply matches Reply::Created(p) && p.url@
                == self.plan.new_urls@[self.pos as int]@),
            Phase::Retiring => reply is Updated,
            Phase::Finished => true,
            _ => reply is Done,
        }
    }

    /// The position is inside the pass that is waiting, and every collected
    /// item belongs to its pass: a restocked item to a restocked url and with
    /// no skip sequence in its title, a created item to a new url.
    pub open spec fn wf_state(&self, s: RunState) -> bool {
        &&& s.phase is Restocking ==> s.pos < self.plan.restock_urls@.len()
        &&& (s.phase is Examining || s.phase is RecordingSkip || s.phase is Creating) ==> s.pos
            < self.plan.new_urls@.len()
        &&& s.phase is Retiring ==> s.pos < self.plan.gone_urls@.len()
        &&& forall|k: int|
            0 <= k < s.restocked.len() ==> mentions(
                self.plan.restock_urls@,
                (#[trigger] s.restocked[k]).url@,
            ) && !title_blocked(s.restocked[k].title@, self.title_skips@)
        &&& forall|k: int|
            0 <= k < s.created.len() ==> mentions(
                self.plan.new_urls@,
                (#[trigger] s.created[k]).url@,
            )
    }

    pub open spec fn wf(&self) -> bool {
        self.wf_state(self.state())
    }

    fn settle(&mut self) -> (r: Step)
        requires
            old(self).phase is Restocking ==> old(self).pos <= old(self).plan.restock_urls@.len(),
            old(self).phase is Examining ==> old(self).pos <= old(self).plan.new_urls@.len(),
            old(self).phase is Retiring ==> old(self).pos <= old(self).plan.gone_urls@.len(),
        ensures
            final(self).entity == old(self).entity,
            final(self).title_skips == old(self).title_skips,
            final(self).plan == old(self).plan,
            (final(self).state(), r.spec_view()) == old(self).settle_of(old(self).state()),
    {
        match self.phase {
            Phase::Restocking => {
                if self.pos < self.plan.restock_urls.len() {
                    Step::UpdateAvailability {
                        url: self.plan.restock_urls[self.pos].clone(),
                        availability: Availability::Available,
                    }
                } else {
                    let mut products: Vec<Product> = Vec::new();
                    core::mem::swap(&mut products, &mut self.restocked);
                    self.phase = Phase::RestockNotice;
                    self.pos = 0;
                    Step::NotifyRestocked { entity: self.entity.clone(), products }
                }
            },
            Phase::Examining => {
                if self.pos < self.plan.new_urls.len() {
                    Step::FetchDetails { url: self.plan.new_urls[self.pos].clone() }
                } else {
                    let mut products: Vec<Product> = Vec::new();
                    core::mem::swap(&mut products, &mut self.created);
                    self.phase = Phase::NewNotice;
                    self.pos = 0;
                    Step::NotifyNew { entity: self.entity.clone(), products }
                }
            },
            Phase::Retiring => {
                if self.pos < self.plan.gone_urls.len() {
                    Step::UpdateAvailability {
                        url: self.plan.gone_urls[self.pos].clone(),
                        availability: Availability::NotAvailable,
                    }
                } else {
                    self.phase = Phase::Finished;
                    self.pos = 0;
                    Step::Finished
                }
            },
            _ => Step::Finished,
        }
    }

    /// Starts the run of `entity` on `plan`, and gives the first step.
    pub fn begin(entity: String, title_skips: Vec<String>, plan: EntityPlan) -> (r: (EntityRun, Step))
        ensures
            r.0.wf(),
            r.0.entity == entity,
            r.0.title_skips == title_skips,
            r.0.plan == plan,
            (r.0.state(), r.1.spec_view()) == r.0.settle_of(
                RunState {
                    phase: Phase::Restocking,
                    pos: 0,
                    restocked: Seq::empty(),
                    created: Seq::empty(),
                },
            ),
    {
        let mut run = EntityRun {
            entity,
            title_skips,
            plan,
            phase: Phase::Restocking,
            pos: 0,
            restocked: Vec::new(),
            created: Vec::new(),
        };
        proof {
            assert(run.state() == RunState {
                phase: Phase::Restocking,
                pos: 0,
                restocked: Seq::<Product>::empty(),
                created: Seq::<Product>::empty(),
            });
        }
        let step = run.settle();
        (run, step)
    }

    /// Takes what came of the pending step and gives the next one.
    pub fn advance(&mut self, reply: Reply) -> (r: Step)
        requires
            old(self).wf(),
            old(self).expects(reply),
        ensures
            final(self).wf(),
            final(self).entity == old(self).entity,
            final(self).title_skips == old(self).title_skips,
            final(self).plan == old(self).plan,
            (final(self).state(), r.spec_view()) == old(self).next_of(old(self).state(), reply),
    {
        match self.phase {
            Phase::Restocking => match reply {
                Reply::Updated(p) => {
                    proof {
                        assert(mentions(self.plan.restock_urls@, p.url@));
                    }
                    let pending = self.plan.restock_urls.len();
                    if !title_is_skipped(p.title.as_str(), &self.title_skips) {
                        self.restocked.push(p);
                    }
                    assert(self.pos < pending);
                    self.pos = self.pos + 1;
                    self.settle()
                },
                _ => Step::Finished,
            },
            Phase::RestockNotice => {
                self.phase = Phase::Examining;
                self.pos = 0;
                self.settle()
            },
            Phase::Examining => match reply {
                Reply::Fetched(d) => {
                    let verdict = judge_new_item(&self.entity, &d, &self.title_skips);
                    match verdict {
                        NewItemVerdict::RecordSkip => {
                            self.phase = Phase::RecordingSkip;
                            Step::AddSkipEntry {
                                url: self.plan.new_urls[self.pos].clone(),
                                artists: d.artists,
                            }
                        },
                        NewItemVerdict::Suppress => {
                            let pending = self.plan.new_urls.len();
                            assert(self.pos < pending);
                            self.pos = self.pos + 1;
                            self.settle()
                        },
                        NewItemVerdict::Create => {
                            self.phase = Phase::Creating;
                            let url = self.plan.new_urls[self.pos].clone();
                            Step::CreateItem { args: CreateProductArgs::new_from_data(url, d) }
                        },
                    }
                },
                _ => Step::Finished,
            },
            Phase::RecordingSkip => {
                let pending = self.plan.new_urls.len();
                assert(self.pos < pending);
                self.phase = Phase::Examining;
                self.pos = self.pos + 1;
                self.settle()
            },
            Phase::Creating => match reply {
                Reply::Created(p) => {
                    proof {
                        assert(mentions(self.plan.new_urls@, p.url@));
                    }
                    let pending = self.plan.new_urls.len();
                    assert(self.pos < pending);
                    self.created.push(p);
                    self.phase = Phase::Examining;
                    self.pos = self.pos + 1;
                    self.settle()
                },
                Reply::Done => {
                    let pending = self.plan.new_urls.len();
                    assert(self.pos < pending);
                    self.phase = Phase::Examining;
                    self.pos = self.pos + 1;
                    self.settle()
                },
                _ => Step::Finished,
            },
            Phase::NewNotice => {
                self.phase = Phase::Retiring;
                self.pos = 0;
                self.settle()
            },
            Phase::Retiring => {
                let pending = self.plan.gone_urls.len();
                assert(self.pos < pending);
                self.pos = self.pos + 1;
                self.settle()
            },
            Phase::Finished => Step::Finished,
        }
    }
}

/// The step asks for no url of the skip list, and announces no item under one.
pub open spec fn avoids_url(step: StepView, u: Seq<char>) -> bool {
    &&& step matches StepView::FetchDetails { url } ==> url != u
    &&& step matches StepView::NotifyRestocked { products, .. } ==> forall|k: int|
        0 <= k < products.len() ==> (#[trigger] products[k]).url@ != u
    &&& step matches StepView::NotifyNew { products, .. } ==> forall|k: int|
        0 <= k < products.len() ==> (#[trigger] products[k]).url@ != u
}

/// The run's two collections hold no item under `u`, and `u` is no new url.
pub open spec fn clear_of(run: EntityRun, s: RunState, u: Seq<char>) -> bool {
    &&& forall|k: int| 0 <= k < s.restocked.len() ==> (#[trigger] s.restocked[k]).url@ != u
    &&& forall|k: int| 0 <= k < s.created.len() ==> (#[trigger] s.created[k]).url@ != u
    &&& !mentions(run.plan.new_urls@, u)
}

proof fn lemma_settle_avoids(run: EntityRun, s: RunState, u: Seq<char>)
    requires
        clear_of(run, s, u),
    ensures
        avoids_url(run.settle_of(s).1, u),
{
    if s.phase is Examining && s.pos < run.plan.new_urls@.len() {
        let url = run.plan.new_urls@[s.pos as int];
        assert(mentions(run.plan.new_urls@, url@));
    }
}

proof fn lemma_wf_clear(run: EntityRun, s: RunState, u: Seq<char>)
    requires
        run.wf_state(s),
        !mentions(run.plan.restock_urls@, u),
        !mentions(run.plan.new_urls@, u),
    ensures
        clear_of(run, s, u),
{
    assert forall|k: int| 0 <= k < s.restocked.len() implies (#[trigger] s.restocked[k]).url@
        != u by {
        assert(mentions(run.plan.restock_urls@, s.restocked[k].url@));
    }
    assert forall|k: int| 0 <= k < s.created.len() implies (#[trigger] s.created[k]).url@ != u by {
        assert(mentions(run.plan.new_urls@, s.created[k].url@));
    }
}

/// A run planned against a skip list never asks for the details of a url on
/// that list and never announces an item under one: neither its first step
/// nor any step that follows a reply.
pub proof fn lemma_run_respects_skips(
    run: EntityRun,
    reply: Reply,
    known: Seq<Product>,
    skips: Seq<String>,
    candidates: Seq<String>,
    u: Seq<char>,
)
    requires
        run.wf(),
        run.expects(reply),
        run.plan.restock_urls@ == restock_of(known, skips, candidates),
        run.plan.new_urls@ == new_of(known, skips, candidates),
        mentions(skips, u),
    ensures
        avoids_url(
            run.settle_of(
                RunState {
                    phase: Phase::Restocking,
                    pos: 0,
                    restocked: Seq::empty(),
                    created: Seq::empty(),
                },
            ).1,
            u,
        ),
        avoids_url(run.next_of(run.state(), reply).1, u),
{
    lemma_skipped_url_untouched(known, skips, candidates, u);
    let s0 = RunState {
        phase: Phase::Restocking,
        pos: 0,
        restocked: Seq::<Product>::empty(),
        created: Seq::<Product>::empty(),
    };
    lemma_settle_avoids(run, s0, u);
    let s = run.state();
    lemma_wf_clear(run, s, u);
    match s.phase {
        Phase::Restocking => {
            if let Reply::Updated(p) = reply {
                let t = RunState {
                    phase: s.phase,
                    pos: s.pos + 1,
                    restocked: if title_blocked(p.title@, run.title_skips@) {
                        s.restocked
                    } else {
                        s.restocked.push(p)
                    },
                    created: s.created,
                };
                assert(mentions(run.plan.restock_urls@, p.url@));
                assert(clear_of(run, t, u));
                lemma_settle_avoids(run, t, u);
            }
        },
        Phase::RestockNotice => {
            lemma_settle_avoids(
                run,
                RunState {
                    phase: Phase::Examining,
                    pos: 0,
                    restocked: s.restocked,
                    created: s.created,
                },
                u,
            );
        },
        Phase::Examining => {
            lemma_settle_avoids(
                run,
                RunState {
                    phase: Phase::Examining,
                    pos: s.pos + 1,
                    restocked: s.restocked,
                    created: s.created,
                },
                u,
            );
        },
        Phase::RecordingSkip => {
            lemma_settle_avoids(
                run,
                RunState {
                    phase: Phase::Examining,
                    pos: s.pos + 1,
                    restocked: s.restocked,
                    created: s.created,
                },
                u,
            );
        },
        Phase::Creating => {
            lemma_settle_avoids(
                run,
                RunState {
                    phase: Phase::Examining,
                    pos: s.pos + 1,
                    restocked: s.restocked,
                    created: s.created,
                },
                u,
            );
            if let Reply::Created(p) = reply {
                let t = RunState {
                    phase: Phase::Examining,
                    pos: s.pos + 1,
                    restocked: s.restocked,
                    created: s.created.push(p),
                };
                assert(mentions(run.plan.new_urls@, p.url@));
                assert(clear_of(run, t, u));
                lemma_settle_avoids(run, t, u);
            }
        },
        Phase::NewNotice => {
            lemma_settle_avoids(
                run,
                RunState {
                    phase: Phase::Retiring,
                    pos: 0,
                    restocked: s.restocked,
                    created: s.created,
                },
                u,
            );
        },
        Phase::Retiring => {
            lemma_settle_avoids(
                run,
                RunState {
                    phase: Phase::Retiring,
                    pos: s.pos + 1,
                    restocked: s.restocked,
                    created: s.created,
                },
                u,
            );
        },
        Phase::Finished => {},
    }
}

/// When the details of a new url do not name the entity, the run asks once to
/// record that url as skipped, with the fetched attributions; once that is
/// done it goes on with the next new url, and the item is never stored.
pub proof fn lemma_attribution_mismatch(run: EntityRun, data: ProductData)
    requires
        run.wf(),
        run.phase is Examining,
        !mentions(data.artists@, run.entity@),
    ensures
        ({
            let (s1, step1) = run.next_of(run.state(), Reply::Fetched(data));
            let (s2, step2) = run.next_of(s1, Reply::Done);
            &&& step1 == StepView::AddSkipEntry {
                url: run.plan.new_urls@[run.pos as int]@,
                artists: data.artists@,
            }
            &&& s1.phase is RecordingSkip
            &&& s1.pos == run.pos
            &&& s1.created == run.created@
            &&& (s2, step2) == run.settle_of(
                RunState {
                    phase: Phase::Examining,
                    pos: (run.pos + 1) as nat,
                    restocked: run.restocked@,
                    created: run.created@,
                },
            )
            &&& !(step2 is AddSkipEntry)
            &&& !(step2 is CreateItem)
        }),
{
}

} // verus!
