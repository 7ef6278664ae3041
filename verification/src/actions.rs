//! Action resolver: interprets a classification result against a guild's
//! configuration, keeping only the enabled labels, and maps the outcome to
//! the configured enforcement actions and a context-reevaluation signal.

use vstd::prelude::*;

use crate::discord::{GuildConfig, ModerationAction};
use crate::moderate::{labels_contain, ModerationLabel, ModerationResponse};

verus! {

/// The engine's verdict for one classification result: whether the message
/// is flagged, which enabled labels fired, which actions to apply, and
/// whether a second, context-aware classification pass should be run before
/// finalizing.
#[derive(Clone, Debug)]
pub struct ModerationDecision {
    pub flagged: bool,
    pub active_labels: Vec<ModerationLabel>,
    pub actions: Vec<ModerationAction>,
    pub needs_context: bool,
}

/// The flagged labels that the configuration has enabled, in classifier
/// order; labels outside the enabled set are ignored.
pub open spec fn active_labels_spec(
    flagged: Seq<ModerationLabel>,
    enabled: Seq<ModerationLabel>,
) -> Seq<ModerationLabel> {
    flagged.filter(|l: ModerationLabel| enabled.contains(l))
}

/// The labels for which the classifier signaled ambiguity: the listed
/// context labels when it asked for context, all its flagged labels when it
/// asked without naming any, and none otherwise.
pub open spec fn signaled_labels(cls: ModerationResponse) -> Seq<ModerationLabel> {
    if cls.needs_context == Some(true) {
        match cls.context_labels {
            Some(v) => v@,
            None => cls.labels@,
        }
    } else {
        Seq::<ModerationLabel>::empty()
    }
}

/// Context is needed iff the configuration enables it and the classifier
/// signaled ambiguity for at least one active label.
pub open spec fn context_needed_spec(cls: ModerationResponse, cfg: GuildConfig) -> bool {
    cfg.enable_context && exists|i: int|
        0 <= i < signaled_labels(cls).len() && active_labels_spec(
            cls.labels@,
            cfg.enabled_labels@,
        ).contains(#[trigger] signaled_labels(cls)[i])
}

/// Whether any label of `candidates` appears in `chosen`.
fn any_label_in(candidates: &Vec<ModerationLabel>, chosen: &Vec<ModerationLabel>) -> (r: bool)
    ensures
        r == exists|i: int|
            0 <= i < candidates@.len() && chosen@.contains(#[trigger] candidates@[i]),
{
    let mut i: usize = 0;
    while i < candidates.len()
        invariant
            i <= candidates@.len(),
            forall|j: int| 0 <= j < i ==> !chosen@.contains(#[trigger] candidates@[j]),
        decreases candidates@.len() - i,
    {
        if labels_contain(chosen, candidates[i]) {
            assert(chosen@.contains(candidates@[i as int]));
            return true;
        }
        i = i + 1;
    }
    false
}

/// Maps one classification result and a guild configuration to a decision:
/// the active labels are the flagged labels the configuration enables; the
/// message is flagged iff any remain; the configured actions apply uniformly
/// when it is, and none otherwise; and a context pass is requested iff the
/// configuration allows it and the classifier signaled ambiguity for an
/// active label.
pub fn decide(classification: &ModerationResponse, config: &GuildConfig) -> (d:
    ModerationDecision)
    ensures
        d.active_labels@ == active_labels_spec(classification.labels@, config.enabled_labels@),
        d.flagged == (active_labels_spec(classification.labels@, config.enabled_labels@).len()
            > 0),
        d.flagged ==> d.actions@ == config.actions@,
        !d.flagged ==> d.actions@ == Seq::<ModerationAction>::empty(),
        d.needs_context == context_needed_spec(*classification, *config),
{
    let ghost pred = |l: ModerationLabel| config.enabled_labels@.contains(l);
    let mut active: Vec<ModerationLabel> = Vec::new();
    let mut i: usize = 0;
    while i < classification.labels.len()
        invariant
            i <= classification.labels@.len(),
            active@ == classification.labels@.take(i as int).filter(pred),
            pred == (|l: ModerationLabel| config.enabled_labels@.contains(l)),
        decreases classification.labels@.len() - i,
    {
        let l = classification.labels[i];
        proof {
            assert(classification.labels@.take(i + 1) =~= classification.labels@.take(
                i as int,
            ).push(l));
            classification.labels@.take(i as int).lemma_filter_push(l, pred);
        }
        if labels_contain(&config.enabled_labels, l) {
            active.push(l);
        }
        i = i + 1;
    }
    proof {
        assert(classification.labels@.take(classification.labels@.len() as int)
            =~= classification.labels@);
    }
    let flagged = active.len() > 0;
    let actions: Vec<ModerationAction> = if flagged {
        copy_actions(&config.actions)
    } else {
        Vec::new()
    };
    let needs_context = context_flag(classification, config, &active);
    ModerationDecision { flagged, active_labels: active, actions, needs_context }
}

/// Decides the context signal against the already-computed active labels.
fn context_flag(
    classification: &ModerationResponse,
    config: &GuildConfig,
    active: &Vec<ModerationLabel>,
) -> (r: bool)
    requires
        active@ == active_labels_spec(classification.labels@, config.enabled_labels@),
    ensures
        r == context_needed_spec(*classification, *config),
{
    let ghost cls = *classification;
    let ghost cfg = *config;
    if !config.enable_context {
        return false;
    }
    if !matches!(classification.needs_context, Some(true)) {
        proof {
            assert(signaled_labels(cls).len() == 0);
        }
        return false;
    }
    let r: bool = match &classification.context_labels {
        Some(v) => {
            proof {
                assert(signaled_labels(cls) == v@);
            }
            any_label_in(v, active)
        },
        None => {
            proof {
                assert(signaled_labels(cls) == cls.labels@);
            }
            any_label_in(&classification.labels, active)
        },
    };
    proof {
        let signaled = signaled_labels(cls);
        if r {
            let i0 = choose|i: int|
                0 <= i < signaled.len() && active@.contains(#[trigger] signaled[i]);
            assert(active_labels_spec(cls.labels@, cfg.enabled_labels@).contains(signaled[i0]));
        } else {
            assert(forall|i: int|
                0 <= i < signaled.len() ==> !active@.contains(#[trigger] signaled[i]));
        }
    }
    r
}

/// A fresh copy of an action list.
fn copy_actions(v: &Vec<ModerationAction>) -> (r: Vec<ModerationAction>)
    ensures
        r@ == v@,
{
    let mut r: Vec<ModerationAction> = Vec::new();
    let mut i: usize = 0;
    while i < v.len()
        invariant
            i <= v@.len(),
            r@ == v@.take(i as int),
        decreases v@.len() - i,
    {
        r.push(v[i]);
        proof {
            assert(r@ =~= v@.take(i + 1));
        }
        i = i + 1;
    }
    proof {
        assert(v@.take(v@.len() as int) =~= v@);
    }
    r
}

/// Law: when none of the classifier's labels is enabled, the intersection
/// is empty, nothing is flagged, and no action applies, whatever the
/// classifier's own flag said.
pub proof fn lemma_disabled_labels_ignored(
    flagged: Seq<ModerationLabel>,
    enabled: Seq<ModerationLabel>,
)
    requires
        forall|i: int| 0 <= i < flagged.len() ==> !enabled.contains(#[trigger] flagged[i]),
    ensures
        active_labels_spec(flagged, enabled).len() == 0,
{
    let pred = |l: ModerationLabel| enabled.contains(l);
    assert(flagged.all(|l: ModerationLabel| !pred(l)));
    flagged.lemma_all_neg_filter_empty(pred);
}

} // verus!
