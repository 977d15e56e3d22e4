//! A whole run: the sequence without compression, a delay, the sequence with it.

use crate::campaign::{
    action_of, next_phase, payload_of, Action, ActionView, Campaign, CampaignView, Event,
    EventView, Phase, PrepareStep,
};
use crate::request::RunRequest;
use vstd::prelude::*;

verus! {

/// Seconds between the two sequences of a run.
pub const SETTLE_SECS: u64 = 10;

/// A run in progress.
#[derive(Clone, Debug, PartialEq, Eq)]
pub struct Driver {
    /// The sequence that is under way; its mode tells which of the two it is.
    pub campaign: Campaign,
    /// Whether the run stands in the delay between its two sequences.
    pub settling: bool,
}

/// The mathematical value of a [`Driver`].
pub struct DriverView {
    pub campaign: CampaignView,
    pub settling: bool,
}

impl View for Driver {
    type V = DriverView;

    open spec fn view(&self) -> DriverView {
        DriverView { campaign: self.campaign@, settling: self.settling }
    }
}

/// Whether both sequences are done.
pub open spec fn run_is_done(driver: DriverView) -> bool {
    driver.campaign.compressed && driver.campaign.phase is Done
}

/// Whether the run was given up.
pub open spec fn run_has_failed(driver: DriverView) -> bool {
    driver.campaign.phase is Failed
}

/// The state that follows when `event` is reported to the run; `None` where it
/// does not wait for that event. The sequence under way takes the event. When
/// the sequence without compression is done, the run settles; when the delay is
/// over, the sequence with compression begins by preparing the directory.
pub open spec fn next_state(driver: DriverView, event: EventView) -> Option<DriverView> {
    if driver.settling {
        match event {
            EventView::PauseElapsed => Some(
                DriverView {
                    campaign: CampaignView {
                        compressed: true,
                        phase: Phase::Preparing(PrepareStep::Probing),
                        ..driver.campaign
                    },
                    settling: false,
                },
            ),
            _ => None,
        }
    } else {
        match next_phase(driver.campaign, event) {
            Some(phase) => Some(
                DriverView {
                    campaign: CampaignView { phase, ..driver.campaign },
                    settling: phase is Done && !driver.campaign.compressed,
                },
            ),
            None => None,
        }
    }
}

/// The action with which the run enters the state `driver`: the delay where it
/// settles, else the action of the sequence under way.
pub open spec fn run_action_of(driver: DriverView, payload: Seq<u8>) -> ActionView {
    if driver.settling {
        ActionView::Sleep { seconds: SETTLE_SECS as nat }
    } else {
        action_of(driver.campaign, payload)
    }
}

/// Once a sequence was given up, the run takes no further event: the sequence
/// with compression is never begun after the other failed.
pub proof fn lemma_failure_ends_run(driver: DriverView, event: EventView)
    requires
        !driver.settling,
        run_has_failed(driver),
    ensures
        next_state(driver, event) is None,
{
}

/// A run that is done takes no further event.
pub proof fn lemma_done_run_is_final(driver: DriverView, event: EventView)
    requires
        !driver.settling,
        run_is_done(driver),
    ensures
        next_state(driver, event) is None,
{
}

/// The mode changes only at the end of the delay, from without compression to
/// with it, and the delay begins only when the sequence without compression is
/// done.
pub proof fn lemma_modes_in_order(driver: DriverView, event: EventView)
    requires
        next_state(driver, event) is Some,
    ensures
        ({
            let after = next_state(driver, event).unwrap();
            &&& after.campaign.request == driver.campaign.request
            &&& after.campaign.compressed != driver.campaign.compressed ==> driver.settling
                && after.campaign.compressed && event is PauseElapsed
            &&& after.settling ==> !driver.settling && !driver.campaign.compressed
                && after.campaign.phase is Done
            &&& driver.settling ==> after.campaign.compressed && !after.settling
        }),
{
}

impl Driver {
    /// A run that has not begun: the sequence without compression comes first.
    pub fn new(request: RunRequest) -> (driver: Driver)
        ensures
            driver.campaign.request == request,
            !driver.campaign.compressed,
            driver.campaign.phase == Phase::Idle,
            !driver.settling,
    {
        Driver { campaign: Campaign::new(request, false), settling: false }
    }

    /// Whether both sequences are done.
    pub fn is_done(&self) -> (done: bool)
        ensures
            done == run_is_done(self@),
    {
        self.campaign.compressed && self.campaign.is_done()
    }

    /// Takes the outcome of the last action and answers with the next one. An
    /// event that the run does not wait for changes nothing and is answered with
    /// `None`.
    pub fn step(&mut self, event: Event) -> (action: Option<Action>)
        ensures
            match next_state(old(self)@, event@) {
                Some(after) => {
                    &&& final(self)@ == after
                    &&& final(self).campaign.request == old(self).campaign.request
                    &&& action is Some
                    &&& action.unwrap()@ == run_action_of(after, payload_of(event@))
                },
                None => *final(self) == *old(self) && action is None,
            },
    {
        if self.settling {
            match event {
                Event::PauseElapsed => {
                    self.settling = false;
                    self.campaign.compressed = true;
                    self.campaign.phase = Phase::Idle;
                    self.campaign.step(Event::Start)
                },
                _ => None,
            }
        } else {
            let answer = self.campaign.step(event);
            match answer {
                Some(action) => {
                    if self.campaign.is_done() && !self.campaign.compressed {
                        self.settling = true;
                        Some(Action::Sleep { seconds: SETTLE_SECS })
                    } else {
                        Some(action)
                    }
                },
                None => None,
            }
        }
    }
}

} // verus!
