//! What a sequence has asked for, seen over all the events it was given.
//!
//! The laws here speak of every list of events, in any order and of any length,
//! reported to a sequence that starts idle: the campaigns that it starts are the
//! iterations one, two, three and so on without a gap, the objects that it
//! stores are the report and the request log of those iterations in that order,
//! and it is done only when all of them were asked for.

use crate::campaign::{
    action_of, bucket_name_of, lemma_run_keeps_fit, next_phase, payload_of, phase_fits, place_of,
    run, upload_of, ActionView, CampaignView, EventView, Phase, UploadStep,
};
use crate::paths::ArtifactKind;
use crate::request::config_of;
use crate::scenario::scenario_of;
use crate::upload::{has_bucket, upload_plan_of};
use vstd::prelude::*;

verus! {

/// An object as the storage service is asked to keep it, without its bytes.
pub struct ObjectView {
    pub bucket: Seq<char>,
    pub object_name: Seq<char>,
    pub content_type: Seq<char>,
}

/// The actions with which a sequence answers the events, in order. An event that
/// the state of its moment does not wait for is answered with nothing.
pub open spec fn answers(campaign: CampaignView, events: Seq<EventView>) -> Seq<ActionView>
    decreases events.len(),
{
    if events.len() == 0 {
        Seq::empty()
    } else {
        let earlier = answers(campaign, events.drop_last());
        let before = run(campaign, events.drop_last());
        match next_phase(before, events.last()) {
            Some(phase) => earlier.push(
                action_of(CampaignView { phase, ..before }, payload_of(events.last())),
            ),
            None => earlier,
        }
    }
}

/// `campaigns` and behind it `action`, if that starts a campaign.
pub open spec fn with_campaign(campaigns: Seq<ActionView>, action: ActionView) -> Seq<ActionView> {
    if action is RunCampaign {
        campaigns.push(action)
    } else {
        campaigns
    }
}

/// `objects` and behind it what `action` stores, if it stores anything.
pub open spec fn with_object(objects: Seq<ObjectView>, action: ActionView) -> Seq<ObjectView> {
    match action {
        ActionView::PutObject { bucket, object_name, content_type, .. } => objects.push(
            ObjectView { bucket, object_name, content_type },
        ),
        _ => objects,
    }
}

/// The actions that start a campaign, in order.
pub open spec fn campaigns_in(actions: Seq<ActionView>) -> Seq<ActionView>
    decreases actions.len(),
{
    if actions.len() == 0 {
        Seq::empty()
    } else {
        with_campaign(campaigns_in(actions.drop_last()), actions.last())
    }
}

/// The objects that the actions store, in order.
pub open spec fn objects_in(actions: Seq<ActionView>) -> Seq<ObjectView>
    decreases actions.len(),
{
    if actions.len() == 0 {
        Seq::empty()
    } else {
        with_object(objects_in(actions.drop_last()), actions.last())
    }
}

/// The start of the campaign at the given place of a sequence: the places count
/// from zero, the iterations from one, and each campaign gets the configuration
/// of its own iteration and the scenario of the mode.
pub open spec fn campaign_at(campaign: CampaignView, place: int) -> ActionView {
    ActionView::RunCampaign {
        iteration: (place + 1) as nat,
        config: config_of(campaign.request, (place + 1) as nat, campaign.compressed),
        scenario: scenario_of(campaign.compressed),
    }
}

/// The starts of the iterations one to `count`.
pub open spec fn first_campaigns(campaign: CampaignView, count: nat) -> Seq<ActionView> {
    Seq::new(count, |place: int| campaign_at(campaign, place))
}

/// The artifact that is stored at the given place of a run's uploads: reports
/// at the even places, request logs at the odd ones.
pub open spec fn kind_at(place: int) -> ArtifactKind {
    if place % 2 == 0 {
        ArtifactKind::Report
    } else {
        ArtifactKind::RequestLog
    }
}

/// The object at the given place of a run's uploads: two per iteration, each
/// named and typed as the upload of its artifact says.
pub open spec fn object_at(campaign: CampaignView, place: int) -> ObjectView {
    let upload = upload_of(campaign, (place / 2 + 1) as usize, kind_at(place));
    ObjectView {
        bucket: bucket_name_of(campaign.request.bucket),
        object_name: upload.object_name,
        content_type: upload.content_type,
    }
}

/// The first `count` objects of a run's uploads.
pub open spec fn first_objects(campaign: CampaignView, count: nat) -> Seq<ObjectView> {
    Seq::new(count, |place: int| object_at(campaign, place))
}

/// How many campaigns a sequence in this state has started.
pub open spec fn started(campaign: CampaignView) -> nat
    recommends
        !(campaign.phase is Failed),
{
    match campaign.phase {
        Phase::Running(iteration) => iteration as nat,
        Phase::Uploading(iteration, _, _) => iteration as nat,
        Phase::Pausing(iteration) => iteration as nat,
        Phase::Done => campaign.request.iterations as nat,
        _ => 0,
    }
}

/// How many objects a sequence in this state has asked to store.
pub open spec fn stored(campaign: CampaignView) -> nat
    recommends
        !(campaign.phase is Failed),
{
    if !has_bucket(campaign.request.bucket) {
        0
    } else {
        match campaign.phase {
            Phase::Running(iteration) => (2 * (iteration - 1)) as nat,
            Phase::Uploading(iteration, ArtifactKind::Report, UploadStep::Reading) => (2 * (
            iteration - 1)) as nat,
            Phase::Uploading(iteration, ArtifactKind::Report, UploadStep::Storing) => (2 * (
            iteration - 1) + 1) as nat,
            Phase::Uploading(iteration, ArtifactKind::RequestLog, UploadStep::Reading) => (2 * (
            iteration - 1) + 1) as nat,
            Phase::Uploading(iteration, ArtifactKind::RequestLog, UploadStep::Storing) => (2
                * iteration) as nat,
            Phase::Pausing(iteration) => (2 * iteration) as nat,
            Phase::Done => (2 * campaign.request.iterations) as nat,
            _ => 0,
        }
    }
}

/// Whether campaigns and objects are what a sequence in the state `campaign` has
/// asked for: the campaigns are the first iterations and the objects the first
/// uploads, as many as the state tells; after a failure, no more than were asked
/// for.
pub open spec fn on_plan(
    campaign: CampaignView,
    campaigns: Seq<ActionView>,
    objects: Seq<ObjectView>,
) -> bool {
    &&& campaigns == first_campaigns(campaign, campaigns.len())
    &&& objects == first_objects(campaign, objects.len())
    &&& campaigns.len() <= campaign.request.iterations
    &&& objects.len() <= 2 * campaigns.len()
    &&& !has_bucket(campaign.request.bucket) ==> objects.len() == 0
    &&& !(campaign.phase is Failed) ==> campaigns.len() == started(campaign) && objects.len()
        == stored(campaign)
}

/// Whether the campaigns and the objects among `actions` are on the plan.
pub open spec fn follows_plan(campaign: CampaignView, actions: Seq<ActionView>) -> bool {
    on_plan(campaign, campaigns_in(actions), objects_in(actions))
}

/// What an action adds to the campaigns and objects among the actions before it.
pub proof fn lemma_projections_push(actions: Seq<ActionView>, action: ActionView)
    ensures
        campaigns_in(actions.push(action)) == with_campaign(campaigns_in(actions), action),
        objects_in(actions.push(action)) == with_object(objects_in(actions), action),
{
    assert(actions.push(action).drop_last() =~= actions);
}

proof fn lemma_first_campaigns_push(campaign: CampaignView, count: nat)
    ensures
        first_campaigns(campaign, count).push(campaign_at(campaign, count as int))
            == first_campaigns(campaign, count + 1),
{
    assert(first_campaigns(campaign, count).push(campaign_at(campaign, count as int))
        =~= first_campaigns(campaign, count + 1));
}

proof fn lemma_first_objects_push(campaign: CampaignView, count: nat)
    ensures
        first_objects(campaign, count).push(object_at(campaign, count as int)) == first_objects(
            campaign,
            count + 1,
        ),
{
    assert(first_objects(campaign, count).push(object_at(campaign, count as int))
        =~= first_objects(campaign, count + 1));
}

/// The plan depends on the request and the mode alone, not on the phase.
pub proof fn lemma_plan_ignores_phase(a: CampaignView, b: CampaignView)
    requires
        a.request == b.request,
        a.compressed == b.compressed,
    ensures
        forall|count: nat| first_campaigns(a, count) == first_campaigns(b, count),
        forall|count: nat| first_objects(a, count) == first_objects(b, count),
{
    assert forall|count: nat| first_campaigns(a, count) == first_campaigns(b, count) by {
        assert(first_campaigns(a, count) =~= first_campaigns(b, count));
    }
    assert forall|count: nat| first_objects(a, count) == first_objects(b, count) by {
        assert(first_objects(a, count) =~= first_objects(b, count));
    }
}

/// One step keeps campaigns and objects on the plan.
pub proof fn lemma_step_on_plan(
    before: CampaignView,
    campaigns: Seq<ActionView>,
    objects: Seq<ObjectView>,
    event: EventView,
)
    requires
        phase_fits(before),
        on_plan(before, campaigns, objects),
        next_phase(before, event) is Some,
    ensures
        ({
            let after = CampaignView { phase: next_phase(before, event).unwrap(), ..before };
            let action = action_of(after, payload_of(event));
            on_plan(after, with_campaign(campaigns, action), with_object(objects, action))
        }),
{
    let after = CampaignView { phase: next_phase(before, event).unwrap(), ..before };
    let action = action_of(after, payload_of(event));
    lemma_first_campaigns_push(before, campaigns.len());
    lemma_first_objects_push(before, objects.len());
    lemma_plan_ignores_phase(after, before);
    match after.phase {
        Phase::Running(iteration) => {
            assert(action is RunCampaign);
            assert(iteration == campaigns.len() + 1);
            assert(action == campaign_at(before, campaigns.len() as int));
        },
        Phase::Uploading(iteration, kind, UploadStep::Storing) => {
            assert(action is PutObject);
            assert(before.phase == Phase::Uploading(iteration, kind, UploadStep::Reading));
            let place = objects.len() as int;
            assert(place / 2 + 1 == iteration);
            assert(kind_at(place) == kind);
            assert((place / 2 + 1) as usize == iteration);
            assert(object_at(before, place) == (ObjectView {
                bucket: bucket_name_of(before.request.bucket),
                object_name: upload_of(before, iteration, kind).object_name,
                content_type: upload_of(before, iteration, kind).content_type,
            }));
        },
        _ => {
            assert(!(action is RunCampaign));
            assert(!(action is PutObject));
        },
    }
}

/// The objects of a run's uploads are, iteration by iteration, those of the
/// upload plan: the two objects of an iteration stand side by side, named and
/// typed as its plan says.
pub proof fn lemma_objects_are_planned(campaign: CampaignView, iteration: usize, kind: ArtifactKind)
    requires
        has_bucket(campaign.request.bucket),
        iteration >= 1,
    ensures
        ({
            let plan = upload_plan_of(
                campaign.request.bucket,
                campaign.request.log_dir,
                campaign.request.report_name,
                iteration as nat,
                campaign.compressed,
            );
            let object = object_at(campaign, 2 * (iteration - 1) + place_of(kind));
            &&& object.bucket == campaign.request.bucket.unwrap()
            &&& object.object_name == plan[place_of(kind)].object_name
            &&& object.content_type == plan[place_of(kind)].content_type
        }),
{
    let place = 2 * (iteration - 1) + place_of(kind);
    assert(place / 2 + 1 == iteration);
    assert(kind_at(place) == kind);
}

/// Whatever is reported to a sequence that starts idle, the campaigns that it
/// starts are the iterations one, two and so on, each once and none left out,
/// never more than were asked for, each with the configuration of its own
/// iteration; the objects that it stores are, in order, the report and then the
/// request log of those iterations, each under its file name, with its content
/// type, in the configured bucket; and nothing is stored where no bucket is
/// configured.
pub proof fn lemma_actions_follow_plan(campaign: CampaignView, events: Seq<EventView>)
    requires
        campaign.phase is Idle,
    ensures
        follows_plan(run(campaign, events), answers(campaign, events)),
    decreases events.len(),
{
    if events.len() == 0 {
        assert(campaigns_in(answers(campaign, events)) =~= first_campaigns(campaign, 0));
        assert(objects_in(answers(campaign, events)) =~= first_objects(campaign, 0));
    } else {
        let earlier = events.drop_last();
        lemma_actions_follow_plan(campaign, earlier);
        lemma_run_keeps_fit(campaign, earlier);
        let before = run(campaign, earlier);
        if next_phase(before, events.last()) is Some {
            let after = CampaignView {
                phase: next_phase(before, events.last()).unwrap(),
                ..before
            };
            let actions = answers(campaign, earlier);
            lemma_step_on_plan(
                before,
                campaigns_in(actions),
                objects_in(actions),
                events.last(),
            );
            lemma_projections_push(actions, action_of(after, payload_of(events.last())));
        }
    }
}

/// A sequence is done only when every campaign that was asked for has been
/// started, one after the other, and, where a bucket is configured, both
/// artifacts of each have been handed to the storage service.
pub proof fn lemma_done_means_all(campaign: CampaignView, events: Seq<EventView>)
    requires
        campaign.phase is Idle,
        run(campaign, events).phase is Done,
    ensures
        campaigns_in(answers(campaign, events)) == first_campaigns(
            campaign,
            campaign.request.iterations as nat,
        ),
        has_bucket(campaign.request.bucket) ==> objects_in(answers(campaign, events))
            == first_objects(campaign, (2 * campaign.request.iterations) as nat),
        !has_bucket(campaign.request.bucket) ==> objects_in(answers(campaign, events)).len() == 0,
{
    lemma_actions_follow_plan(campaign, events);
    lemma_run_keeps_fit(campaign, events);
    lemma_plan_ignores_phase(run(campaign, events), campaign);
}

} // verus!
