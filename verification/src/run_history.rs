//! What a whole run has asked for, seen over all the events it was given.
//!
//! A run is the sequence without compression followed by the sequence with it.
//! The laws here carry the laws of one sequence over to the two of a run: the
//! campaigns without compression come first, all of them, before the first
//! campaign with compression starts.

use crate::campaign::{
    lemma_step_keeps_fit, payload_of, phase_fits, ActionView, CampaignView, EventView,
};
use crate::driver::{next_state, run_action_of, run_is_done, DriverView};
use crate::history::{
    campaigns_in, first_campaigns, first_objects, lemma_plan_ignores_phase,
    lemma_projections_push, lemma_step_on_plan, objects_in, on_plan, with_campaign, with_object,
    ObjectView,
};
use crate::upload::has_bucket;
use vstd::prelude::*;

verus! {

/// The state of a run after it has taken the events in order. An event that the
/// state of its moment does not wait for changes nothing.
pub open spec fn drive(driver: DriverView, events: Seq<EventView>) -> DriverView
    decreases events.len(),
{
    if events.len() == 0 {
        driver
    } else {
        let before = drive(driver, events.drop_last());
        match next_state(before, events.last()) {
            Some(after) => after,
            None => before,
        }
    }
}

/// The actions with which a run answers the events, in order.
pub open spec fn run_answers(driver: DriverView, events: Seq<EventView>) -> Seq<ActionView>
    decreases events.len(),
{
    if events.len() == 0 {
        Seq::empty()
    } else {
        let earlier = run_answers(driver, events.drop_last());
        let before = drive(driver, events.drop_last());
        match next_state(before, events.last()) {
            Some(after) => earlier.push(run_action_of(after, payload_of(events.last()))),
            None => earlier,
        }
    }
}

/// A run that has not begun.
pub open spec fn is_fresh(driver: DriverView) -> bool {
    driver.campaign.phase is Idle && !driver.campaign.compressed && !driver.settling
}

/// The sequence of the given mode of this run.
pub open spec fn sequence_of(driver: DriverView, compressed: bool) -> CampaignView {
    CampaignView { compressed, ..driver.campaign }
}

/// How many objects one sequence of this run stores in all.
pub open spec fn objects_per_sequence(driver: DriverView) -> nat {
    if has_bucket(driver.campaign.request.bucket) {
        (2 * driver.campaign.request.iterations) as nat
    } else {
        0
    }
}

/// Whether campaigns and objects are what a run in the state `driver` has asked
/// for. While the sequence without compression is under way, and in the delay
/// behind it, they are on the plan of that sequence. From then on they begin
/// with all the campaigns and all the objects of that sequence, and what follows
/// is on the plan of the sequence with compression.
pub open spec fn run_on_plan(
    driver: DriverView,
    campaigns: Seq<ActionView>,
    objects: Seq<ObjectView>,
) -> bool {
    let iterations = driver.campaign.request.iterations as int;
    let per_sequence = objects_per_sequence(driver) as int;
    if !driver.campaign.compressed {
        &&& on_plan(driver.campaign, campaigns, objects)
        &&& driver.settling ==> driver.campaign.phase is Done
        &&& driver.campaign.phase is Done ==> driver.settling
    } else {
        &&& !driver.settling
        &&& campaigns.len() >= iterations
        &&& objects.len() >= per_sequence
        &&& campaigns.subrange(0, iterations) == first_campaigns(
            sequence_of(driver, false),
            iterations as nat,
        )
        &&& objects.subrange(0, per_sequence) == first_objects(
            sequence_of(driver, false),
            per_sequence as nat,
        )
        &&& on_plan(
            driver.campaign,
            campaigns.subrange(iterations, campaigns.len() as int),
            objects.subrange(per_sequence, objects.len() as int),
        )
    }
}

/// One step of a run keeps campaigns and objects on its plan.
proof fn lemma_run_step_on_plan(
    before: DriverView,
    campaigns: Seq<ActionView>,
    objects: Seq<ObjectView>,
    event: EventView,
)
    requires
        phase_fits(before.campaign),
        run_on_plan(before, campaigns, objects),
        next_state(before, event) is Some,
    ensures
        ({
            let after = next_state(before, event).unwrap();
            let action = run_action_of(after, payload_of(event));
            &&& phase_fits(after.campaign)
            &&& after.campaign.request == before.campaign.request
            &&& run_on_plan(after, with_campaign(campaigns, action), with_object(objects, action))
        }),
{
    let after = next_state(before, event).unwrap();
    let action = run_action_of(after, payload_of(event));
    let iterations = before.campaign.request.iterations as int;
    let per_sequence = objects_per_sequence(before) as int;
    if before.settling {
        lemma_plan_ignores_phase(sequence_of(after, false), before.campaign);
        assert(campaigns.subrange(0, iterations) =~= campaigns);
        assert(objects.subrange(0, per_sequence) =~= objects);
        assert(campaigns.subrange(iterations, campaigns.len() as int) =~= first_campaigns(
            after.campaign,
            0,
        ));
        assert(objects.subrange(per_sequence, objects.len() as int) =~= first_objects(
            after.campaign,
            0,
        ));
    } else if !before.campaign.compressed {
        lemma_step_keeps_fit(before.campaign, event);
        lemma_step_on_plan(before.campaign, campaigns, objects, event);
    } else {
        lemma_step_keeps_fit(before.campaign, event);
        let late_campaigns = campaigns.subrange(iterations, campaigns.len() as int);
        let late_objects = objects.subrange(per_sequence, objects.len() as int);
        lemma_step_on_plan(before.campaign, late_campaigns, late_objects, event);
        lemma_plan_ignores_phase(sequence_of(after, false), sequence_of(before, false));
        let more_campaigns = with_campaign(campaigns, action);
        let more_objects = with_object(objects, action);
        assert(more_campaigns.subrange(0, iterations) =~= campaigns.subrange(0, iterations));
        assert(more_objects.subrange(0, per_sequence) =~= objects.subrange(0, per_sequence));
        assert(more_campaigns.subrange(iterations, more_campaigns.len() as int) =~= with_campaign(
            late_campaigns,
            action,
        ));
        assert(more_objects.subrange(per_sequence, more_objects.len() as int) =~= with_object(
            late_objects,
            action,
        ));
    }
}

/// Whatever is reported to a run that has not begun, what it asks for is on its
/// plan, its request never changes, and the delay between the sequences stands
/// exactly behind the completed sequence without compression.
pub proof fn lemma_run_follows_plan(driver: DriverView, events: Seq<EventView>)
    requires
        is_fresh(driver),
    ensures
        run_on_plan(
            drive(driver, events),
            campaigns_in(run_answers(driver, events)),
            objects_in(run_answers(driver, events)),
        ),
        phase_fits(drive(driver, events).campaign),
        drive(driver, events).campaign.request == driver.campaign.request,
    decreases events.len(),
{
    if events.len() == 0 {
        assert(campaigns_in(run_answers(driver, events)) =~= first_campaigns(driver.campaign, 0));
        assert(objects_in(run_answers(driver, events)) =~= first_objects(driver.campaign, 0));
    } else {
        let earlier = events.drop_last();
        lemma_run_follows_plan(driver, earlier);
        let before = drive(driver, earlier);
        if next_state(before, events.last()) is Some {
            let after = next_state(before, events.last()).unwrap();
            let actions = run_answers(driver, earlier);
            lemma_run_step_on_plan(
                before,
                campaigns_in(actions),
                objects_in(actions),
                events.last(),
            );
            lemma_projections_push(actions, run_action_of(after, payload_of(events.last())));
        }
    }
}

/// A run is done only when it has started every campaign without compression,
/// one after the other, and behind them every campaign with compression; and,
/// where a bucket is configured, has handed both artifacts of each to the
/// storage service, in that same order.
pub proof fn lemma_done_run_means_all(driver: DriverView, events: Seq<EventView>)
    requires
        is_fresh(driver),
        run_is_done(drive(driver, events)),
    ensures
        campaigns_in(run_answers(driver, events)) == first_campaigns(
            sequence_of(driver, false),
            driver.campaign.request.iterations as nat,
        ) + first_campaigns(sequence_of(driver, true), driver.campaign.request.iterations as nat),
        objects_in(run_answers(driver, events)) == first_objects(
            sequence_of(driver, false),
            objects_per_sequence(driver),
        ) + first_objects(sequence_of(driver, true), objects_per_sequence(driver)),
{
    lemma_run_follows_plan(driver, events);
    let end = drive(driver, events);
    let campaigns = campaigns_in(run_answers(driver, events));
    let objects = objects_in(run_answers(driver, events));
    let iterations = driver.campaign.request.iterations as int;
    let per_sequence = objects_per_sequence(driver) as int;
    lemma_plan_ignores_phase(sequence_of(end, false), sequence_of(driver, false));
    lemma_plan_ignores_phase(end.campaign, sequence_of(driver, true));
    assert(campaigns =~= campaigns.subrange(0, iterations) + campaigns.subrange(
        iterations,
        campaigns.len() as int,
    ));
    assert(objects =~= objects.subrange(0, per_sequence) + objects.subrange(
        per_sequence,
        objects.len() as int,
    ));
}

/// A run that failed without compression has started no campaign with it: every
/// campaign and every object that it asked for belongs to the sequence without
/// compression.
pub proof fn lemma_failed_run_stops(driver: DriverView, events: Seq<EventView>)
    requires
        is_fresh(driver),
        drive(driver, events).campaign.phase is Failed,
        !drive(driver, events).campaign.compressed,
    ensures
        on_plan(
            drive(driver, events).campaign,
            campaigns_in(run_answers(driver, events)),
            objects_in(run_answers(driver, events)),
        ),
        forall|event: EventView| next_state(drive(driver, events), event) is None,
{
    lemma_run_follows_plan(driver, events);
}

} // verus!
