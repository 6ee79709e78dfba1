use vstd::prelude::*;

verus! {

/// Why the risk stage refuses an order intent.
#[derive(Clone, Copy, Debug, PartialEq, Eq, Structural)]
pub enum RiskRejection {
    KillSwitch,
    BadSize,
    BadPrice,
    TradeRisk,
    Notional,
    DailyDrawdown,
}

/// The metric label of a rejection.
pub fn rejection_label(rejection: RiskRejection) -> (label: &'static str)
    ensures
        label@ == (match rejection {
            RiskRejection::KillSwitch => "kill_switch"@,
            RiskRejection::BadSize => "bad_size"@,
            RiskRejection::BadPrice => "bad_price"@,
            RiskRejection::TradeRisk => "trade_risk"@,
            RiskRejection::Notional => "notional"@,
            RiskRejection::DailyDrawdown => "daily_drawdown"@,
        }),
{
    match rejection {
        RiskRejection::KillSwitch => "kill_switch",
        RiskRejection::BadSize => "bad_size",
        RiskRejection::BadPrice => "bad_price",
        RiskRejection::TradeRisk => "trade_risk",
        RiskRejection::Notional => "notional",
        RiskRejection::DailyDrawdown => "daily_drawdown",
    }
}

/// What the risk stage does with one order intent.
#[derive(Clone, Copy, Debug, PartialEq, Eq, Structural)]
pub enum RiskVerdict {
    /// The intent passes on to the meta stage.
    Forward,
    /// The intent is dropped for the given reason.
    Reject(RiskRejection),
    /// The intent is dropped and the kill switch trips: its score was abnormal.
    TripKillSwitch,
}

/// The verdict on an intent and whether the kill switch is set afterwards, given
/// whether it was set before, the outcome of the intent's size, price, risk and
/// drawdown limits, and whether its score is abnormal.
pub open spec fn screen_outcome(
    kill_switch: bool,
    limits: Result<(), RiskRejection>,
    abnormal_score: bool,
) -> (RiskVerdict, bool) {
    if kill_switch {
        (RiskVerdict::Reject(RiskRejection::KillSwitch), true)
    } else {
        match limits {
            Err(rejection) => (
                RiskVerdict::Reject(rejection),
                rejection == RiskRejection::DailyDrawdown,
            ),
            Ok(()) => if abnormal_score {
                (RiskVerdict::TripKillSwitch, true)
            } else {
                (RiskVerdict::Forward, false)
            },
        }
    }
}

/// The kill switch of the risk stage.
#[derive(Clone, Copy, Debug, Default, PartialEq, Eq, Structural)]
pub struct RiskGate {
    kill_switch: bool,
}

impl RiskGate {
    /// Whether the kill switch has tripped.
    pub closed spec fn tripped(self) -> bool {
        self.kill_switch
    }

    /// A gate whose kill switch has not tripped.
    pub fn new() -> (gate: Self)
        ensures
            !gate.tripped(),
    {
        RiskGate { kill_switch: false }
    }

    /// Whether the kill switch has tripped.
    pub fn is_tripped(&self) -> (tripped: bool)
        ensures
            tripped == self.tripped(),
    {
        self.kill_switch
    }

    /// Decides on one intent. A tripped switch rejects everything; otherwise a
    /// breached limit rejects the intent, and a breached daily drawdown also trips
    /// the switch; an intent within its limits whose score is abnormal trips the
    /// switch and is dropped; any other intent is forwarded.
    pub fn screen(&mut self, limits: Result<(), RiskRejection>, abnormal_score: bool) -> (verdict:
        RiskVerdict)
        ensures
            (verdict, final(self).tripped()) == screen_outcome(
                old(self).tripped(),
                limits,
                abnormal_score,
            ),
    {
        if self.kill_switch {
            return RiskVerdict::Reject(RiskRejection::KillSwitch);
        }
        match limits {
            Err(rejection) => {
                if rejection == RiskRejection::DailyDrawdown {
                    self.kill_switch = true;
                }
                RiskVerdict::Reject(rejection)
            },
            Ok(()) => {
                if abnormal_score {
                    self.kill_switch = true;
                    RiskVerdict::TripKillSwitch
                } else {
                    RiskVerdict::Forward
                }
            },
        }
    }
}

/// On a gate whose switch is off, an intent breaching a limit is rejected for
/// that limit, and only a daily-drawdown breach trips the switch; an intent within
/// its limits is forwarded, or trips the switch when its score is abnormal. So the
/// switch is on afterwards exactly when the drawdown limit was breached or a clean
/// intent scored abnormally.
pub proof fn lemma_only_drawdown_or_abnormal_trips(
    limits: Result<(), RiskRejection>,
    abnormal_score: bool,
)
    ensures
        screen_outcome(false, limits, abnormal_score).1 <==> (limits == Err::<(), RiskRejection>(
            RiskRejection::DailyDrawdown) || (limits is Ok && abnormal_score)),
        forall|rejection: RiskRejection|
            limits == Err::<(), RiskRejection>(rejection) ==> screen_outcome(
                false,
                limits,
                abnormal_score,
            ).0 == RiskVerdict::Reject(rejection),
        forall|rejection: RiskRejection|
            limits == Err::<(), RiskRejection>(rejection) && rejection != RiskRejection::DailyDrawdown
                ==> !screen_outcome(false, limits, abnormal_score).1,
        limits is Ok && !abnormal_score ==> screen_outcome(false, limits, abnormal_score) == (
        RiskVerdict::Forward, false),
        limits is Ok && abnormal_score ==> screen_outcome(false, limits, abnormal_score).0
            == RiskVerdict::TripKillSwitch,
{
}

/// Over any sequence of intents screened from an untripped gate, the switch stays
/// off as long as no intent breaches the daily drawdown limit and no clean intent
/// scores abnormally.
pub proof fn lemma_switch_stays_off_without_trip_cause(
    inputs: Seq<(Result<(), RiskRejection>, bool)>,
)
    requires
        forall|i: int|
            0 <= i < inputs.len() ==> #[trigger] inputs[i].0 != Err::<(), RiskRejection>(
                RiskRejection::DailyDrawdown) && !(inputs[i].0 is Ok && inputs[i].1),
    ensures
        !tripped_after(false, inputs),
    decreases inputs.len(),
{
    if inputs.len() > 0 {
        let first = inputs[0];
        lemma_only_drawdown_or_abnormal_trips(first.0, first.1);
        assert forall|i: int| 0 <= i < inputs.drop_first().len() implies #[trigger] inputs.drop_first()[i].0
            != Err::<(), RiskRejection>(RiskRejection::DailyDrawdown) && !(
        inputs.drop_first()[i].0 is Ok && inputs.drop_first()[i].1) by {
            assert(inputs.drop_first()[i] == inputs[i + 1]);
        }
        lemma_switch_stays_off_without_trip_cause(inputs.drop_first());
    }
}

/// Whether the switch is set after screening `inputs` in order from `kill_switch`.
pub open spec fn tripped_after(
    kill_switch: bool,
    inputs: Seq<(Result<(), RiskRejection>, bool)>,
) -> bool
    decreases inputs.len(),
{
    if inputs.len() == 0 {
        kill_switch
    } else {
        tripped_after(
            screen_outcome(kill_switch, inputs[0].0, inputs[0].1).1,
            inputs.drop_first(),
        )
    }
}

/// The kill switch latches: once tripped it stays tripped over any later
/// sequence of intents, and every intent screened while it is tripped is rejected.
pub proof fn lemma_kill_switch_latches(inputs: Seq<(Result<(), RiskRejection>, bool)>)
    ensures
        tripped_after(true, inputs),
        forall|limits: Result<(), RiskRejection>, abnormal: bool|
            #[trigger] screen_outcome(true, limits, abnormal).0 == RiskVerdict::Reject(
                RiskRejection::KillSwitch,
            ),
    decreases inputs.len(),
{
    if inputs.len() > 0 {
        lemma_kill_switch_latches(inputs.drop_first());
    }
}

} // verus!
