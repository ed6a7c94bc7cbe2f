//! The reveal panel: the buttons that reveal the frozen runs of a contest
//! one team at a time (or down to the top 10, 30, 50 or 100 teams), the
//! team the scoreboard is centered on, and what each message asks the
//! surrounding application to do.
use vstd::prelude::*;
use seed::browser::Url;
use crate::query::{first_value, get_secret, get_source};

verus! {

/// The messages that drive the panel.
#[derive(Clone, Copy, Debug, PartialEq, Eq, Structural)]
pub enum Msg {
    /// Center on the front of the queue, then reveal down to `n` teams.
    Prox(usize),
    /// Reveal runs until at most `n` teams still have pending runs.
    Scroll(usize),
    /// Center on the team at the front of the queue, then reveal its next run.
    Prox1,
    /// Reveal the next run of the team at the front of the queue.
    Scroll1,
    /// Fetch the runs and the contest again.
    Reset,
    /// The two fetches came back; each flag tells whether one succeeded.
    Fetched { runs_ok: bool, contest_ok: bool },
}

/// The state of the panel itself: whether its buttons are disabled, which
/// team the scoreboard is centered on, and where the contest data comes from.
pub struct Panel {
    pub button_disabled: bool,
    pub center: Option<String>,
    pub source: Option<String>,
    pub secret: String,
}

/// What the panel asks the application to do after a message.
pub enum Effect {
    /// Send this message right away.
    Send(Msg),
    /// Look up the placements of the two teams and hand them to
    /// `after_measure`, which schedules the scroll.
    Measure { from: String, to: String },
    /// Send this message after `millis` milliseconds.
    Schedule { millis: u32, msg: Msg },
    /// Reveal one run from the front of the queue, then recompute the placements.
    RevealOne,
    /// Reveal runs while more than this many teams have pending runs, then
    /// recompute the placements.
    RevealUntil(usize),
    /// Install the fetched runs and contest, apply the runs before the
    /// freeze (the later ones frozen), set up the queue and reload the score.
    Load,
    /// Fetch the runs (with the secret) and the contest from the source.
    Fetch { source: Option<String>, secret: String },
    /// Report that fetching the runs failed.
    ReportRunsError,
    /// Report that fetching the contest failed.
    ReportContestError,
}

pub open spec fn opt_view(s: Option<String>) -> Option<Seq<char>> {
    match s {
        Some(v) => Some(v@),
        None => None,
    }
}

/// The panel as the contracts see it.
pub struct PanelView {
    pub button_disabled: bool,
    pub center: Option<Seq<char>>,
    pub source: Option<Seq<char>>,
    pub secret: Seq<char>,
}

impl View for Panel {
    type V = PanelView;

    open spec fn view(&self) -> PanelView {
        PanelView {
            button_disabled: self.button_disabled,
            center: opt_view(self.center),
            source: opt_view(self.source),
            secret: self.secret@,
        }
    }
}

/// An effect as the contracts see it.
pub enum EffectView {
    Send(Msg),
    Measure { from: Seq<char>, to: Seq<char> },
    Schedule { millis: int, msg: Msg },
    RevealOne,
    RevealUntil(nat),
    Load,
    Fetch { source: Option<Seq<char>>, secret: Seq<char> },
    ReportRunsError,
    ReportContestError,
}

impl View for Effect {
    type V = EffectView;

    open spec fn view(&self) -> EffectView {
        match self {
            Effect::Send(m) => EffectView::Send(*m),
            Effect::Measure { from, to } => EffectView::Measure { from: from@, to: to@ },
            Effect::Schedule { millis, msg } => EffectView::Schedule { millis: *millis as int, msg: *msg },
            Effect::RevealOne => EffectView::RevealOne,
            Effect::RevealUntil(n) => EffectView::RevealUntil(*n as nat),
            Effect::Load => EffectView::Load,
            Effect::Fetch { source, secret } => EffectView::Fetch { source: opt_view(*source), secret: secret@ },
            Effect::ReportRunsError => EffectView::ReportRunsError,
            Effect::ReportContestError => EffectView::ReportContestError,
        }
    }
}

/// The delay, in milliseconds, before the panel scrolls from the team at
/// placement `from` to the team at placement `to`: short when the two
/// placements are fewer than five places apart, long otherwise.
pub open spec fn spec_move_delay(from: int, to: int) -> int {
    if from - to < 5 && to - from < 5 {
        1000
    } else {
        5000
    }
}

/// The delay before the panel scrolls after centering on a new team, when
/// there is no previous team to measure the move from.
pub open spec fn default_delay() -> int {
    5000
}

/// What a message does to the panel, and what it asks of the application.
/// `front` is the team at the front of the reveal queue when the message
/// is handled.
pub open spec fn step(p: PanelView, msg: Msg, front: Option<Seq<char>>) -> (PanelView, EffectView) {
    match msg {
        Msg::Prox1 => {
            let q = PanelView { button_disabled: true, center: front, ..p };
            if front == p.center {
                (q, EffectView::Send(Msg::Scroll1))
            } else if p.center is Some && front is Some {
                (q, EffectView::Measure { from: p.center->0, to: front->0 })
            } else {
                (q, EffectView::Schedule { millis: default_delay(), msg: Msg::Scroll1 })
            }
        },
        Msg::Scroll1 => (PanelView { button_disabled: false, ..p }, EffectView::RevealOne),
        Msg::Prox(n) => (
            PanelView { button_disabled: true, center: front, ..p },
            EffectView::Schedule { millis: default_delay(), msg: Msg::Scroll(n) },
        ),
        Msg::Scroll(n) => (
            PanelView { button_disabled: false, center: None, ..p },
            EffectView::RevealUntil(n as nat),
        ),
        Msg::Fetched { runs_ok, contest_ok } => {
            if runs_ok && contest_ok {
                (PanelView { button_disabled: false, center: None, ..p }, EffectView::Load)
            } else if !runs_ok {
                (p, EffectView::ReportRunsError)
            } else {
                (p, EffectView::ReportContestError)
            }
        },
        Msg::Reset => (
            PanelView { button_disabled: true, ..p },
            EffectView::Fetch { source: p.source, secret: p.secret },
        ),
    }
}

fn clone_opt(s: &Option<String>) -> (r: Option<String>)
    ensures
        opt_view(r) == opt_view(*s),
{
    match s {
        Some(v) => Some(v.clone()),
        None => None,
    }
}

fn same_team(a: &Option<String>, b: &Option<String>) -> (r: bool)
    ensures
        r == (opt_view(*a) == opt_view(*b)),
{
    match (a, b) {
        (Some(x), Some(y)) => *x == *y,
        (None, None) => true,
        _ => false,
    }
}

/// The panel as it starts: buttons enabled, centered on no team, fetching
/// from the address's `source` with its `secret`, both of which must be
/// there. The message to send first is `Reset`, which fetches the data.
pub fn init(url: &Url) -> (r: (Panel, Msg))
    requires
        first_value(*url, "source"@) is Some,
        first_value(*url, "secret"@) is Some,
    ensures
        r.0@ == (PanelView {
            button_disabled: false,
            center: None,
            source: first_value(*url, "source"@),
            secret: first_value(*url, "secret"@)->0,
        }),
        r.1 == Msg::Reset,
{
    let source = get_source(url);
    let secret = get_secret(url);
    (Panel { button_disabled: false, center: None, source: Some(source), secret }, Msg::Reset)
}

/// Handles one message; `front` is the team at the front of the reveal
/// queue at that moment.
pub fn update(panel: &mut Panel, msg: Msg, front: Option<String>) -> (effect: Effect)
    ensures
        (final(panel)@, effect@) == step(old(panel)@, msg, opt_view(front)),
{
    match msg {
        Msg::Prox1 => {
            panel.button_disabled = true;
            if same_team(&front, &panel.center) {
                panel.center = front;
                Effect::Send(Msg::Scroll1)
            } else {
                let effect = match (&panel.center, &front) {
                    (Some(c1), Some(c2)) => Effect::Measure { from: c1.clone(), to: c2.clone() },
                    _ => Effect::Schedule { millis: 5000, msg: Msg::Scroll1 },
                };
                panel.center = front;
                effect
            }
        },
        Msg::Scroll1 => {
            panel.button_disabled = false;
            Effect::RevealOne
        },
        Msg::Prox(n) => {
            panel.button_disabled = true;
            panel.center = front;
            Effect::Schedule { millis: 5000, msg: Msg::Scroll(n) }
        },
        Msg::Scroll(n) => {
            panel.center = None;
            panel.button_disabled = false;
            Effect::RevealUntil(n)
        },
        Msg::Fetched { runs_ok, contest_ok } => {
            if runs_ok && contest_ok {
                panel.center = None;
                panel.button_disabled = false;
                Effect::Load
            } else if !runs_ok {
                Effect::ReportRunsError
            } else {
                Effect::ReportContestError
            }
        },
        Msg::Reset => {
            panel.button_disabled = true;
            Effect::Fetch { source: clone_opt(&panel.source), secret: panel.secret.clone() }
        },
    }
}

/// The panel's buttons, in the order shown, each with its label and the
/// message it sends: one more run, the top 10, 30, 50 and 100, and a reset.
pub open spec fn spec_command_buttons() -> Seq<(Seq<char>, Msg)> {
    seq![
        ("+1"@, Msg::Prox1),
        ("Top 10"@, Msg::Prox(10)),
        ("Top 30"@, Msg::Prox(30)),
        ("Top 50"@, Msg::Prox(50)),
        ("Top 100"@, Msg::Prox(100)),
        ("Reset"@, Msg::Reset),
    ]
}

/// Lists the panel's buttons with their labels and messages.
pub fn command_buttons() -> (buttons: Vec<(String, Msg)>)
    ensures
        buttons@.map_values(|b: (String, Msg)| (b.0@, b.1)) == spec_command_buttons(),
{
    let mut buttons: Vec<(String, Msg)> = Vec::new();
    buttons.push((String::from_str("+1"), Msg::Prox1));
    buttons.push((String::from_str("Top 10"), Msg::Prox(10)));
    buttons.push((String::from_str("Top 30"), Msg::Prox(30)));
    buttons.push((String::from_str("Top 50"), Msg::Prox(50)));
    buttons.push((String::from_str("Top 100"), Msg::Prox(100)));
    buttons.push((String::from_str("Reset"), Msg::Reset));
    assert(buttons@.map_values(|b: (String, Msg)| (b.0@, b.1)) =~= spec_command_buttons());
    buttons
}

/// Computes the scroll delay between two placements.
pub fn move_delay(from: usize, to: usize) -> (millis: u32)
    requires
        from <= i64::MAX,
        to <= i64::MAX,
    ensures
        millis == spec_move_delay(from as int, to as int),
        millis == 1000 <==> (from - to < 5 && to - from < 5),
        millis == 1000 || millis == 5000,
{
    let gap: usize = if from >= to {
        from - to
    } else {
        to - from
    };
    if gap < 5 {
        1000
    } else {
        5000
    }
}

/// What follows a `Measure` effect once the two placements are known: the
/// scroll, after the delay that the move takes.
pub fn after_measure(from_place: usize, to_place: usize) -> (effect: Effect)
    requires
        from_place <= i64::MAX,
        to_place <= i64::MAX,
    ensures
        effect@ == (EffectView::Schedule {
            millis: spec_move_delay(from_place as int, to_place as int),
            msg: Msg::Scroll1,
        }),
{
    Effect::Schedule { millis: move_delay(from_place, to_place), msg: Msg::Scroll1 }
}

/// Whether revealing down to `keep` teams must go on while `teams_left`
/// teams still have pending runs.
pub fn reveal_continues(teams_left: usize, keep: usize) -> (more: bool)
    ensures
        more == (teams_left > keep),
{
    teams_left > keep
}

/// Whether a run submitted at `time` counts after the scoreboard freeze
/// at `freeze_time`: it is applied as frozen unless it came strictly before.
pub fn run_is_frozen(time: i64, freeze_time: i64) -> (frozen: bool)
    ensures
        frozen == !(time < freeze_time),
{
    !(time < freeze_time)
}

/// The scroll delay does not depend on the direction of the move.
pub proof fn lemma_move_delay_symmetric(a: int, b: int)
    ensures
        spec_move_delay(a, b) == spec_move_delay(b, a),
{
}

/// Asking for the top `n` centers the scoreboard on the team at the front
/// of the queue, disables the buttons and schedules the reveal down to `n`
/// teams; handling that reveal enables the buttons again and uncenters the
/// scoreboard, whatever the queue holds by then.
pub proof fn lemma_top_n_round_trip(p: PanelView, n: usize, front: Option<Seq<char>>, later: Option<Seq<char>>)
    ensures
        ({
            let (q, e) = step(p, Msg::Prox(n), front);
            &&& q.button_disabled
            &&& q.center == front
            &&& e == EffectView::Schedule { millis: default_delay(), msg: Msg::Scroll(n) }
            &&& step(q, Msg::Scroll(n), later).0 == PanelView { button_disabled: false, center: None, ..p }
            &&& step(q, Msg::Scroll(n), later).1 == EffectView::RevealUntil(n as nat)
        }),
{
}

/// Asking to reveal one more run always leads to `Scroll1`: sent at once
/// when the scoreboard is already centered on the team at the front,
/// scheduled after a measured move when both teams are known, scheduled
/// after the default delay otherwise. Handling that `Scroll1` reveals one
/// run and leaves the buttons enabled and the scoreboard on that team.
pub proof fn lemma_one_more_round_trip(p: PanelView, front: Option<Seq<char>>, later: Option<Seq<char>>)
    ensures
        ({
            let (q, e) = step(p, Msg::Prox1, front);
            &&& q.button_disabled
            &&& q.center == front
            &&& (e == EffectView::Send(Msg::Scroll1)
                || e is Measure
                || e == EffectView::Schedule { millis: default_delay(), msg: Msg::Scroll1 })
            &&& e is Send <==> front == p.center
            &&& e is Measure <==> (front != p.center && p.center is Some && front is Some)
            &&& step(q, Msg::Scroll1, later).0 == PanelView { button_disabled: false, center: front, ..p }
            &&& step(q, Msg::Scroll1, later).1 == EffectView::RevealOne
        }),
{
}

/// A fetch that fails, for the runs or for the contest, leaves the panel as
/// it was: its buttons stay as they were and so does its center.
pub proof fn lemma_failed_fetch_keeps_panel(p: PanelView, runs_ok: bool, contest_ok: bool, front: Option<Seq<char>>)
    requires
        !(runs_ok && contest_ok),
    ensures
        step(p, Msg::Fetched { runs_ok, contest_ok }, front).0 == p,
        !runs_ok ==> step(p, Msg::Fetched { runs_ok, contest_ok }, front).1 == EffectView::ReportRunsError,
{
}

/// Reset fetches from the panel's own source with its own secret, and a
/// successful fetch after it enables the buttons again with no center.
pub proof fn lemma_reset_round_trip(p: PanelView, front: Option<Seq<char>>, later: Option<Seq<char>>)
    ensures
        ({
            let (q, e) = step(p, Msg::Reset, front);
            &&& q.button_disabled
            &&& e == EffectView::Fetch { source: p.source, secret: p.secret }
            &&& step(q, Msg::Fetched { runs_ok: true, contest_ok: true }, later).0
                == PanelView { button_disabled: false, center: None, ..p }
        }),
{
}

/// No message changes where the panel fetches its data from.
pub proof fn lemma_source_is_kept(p: PanelView, msg: Msg, front: Option<Seq<char>>)
    ensures
        step(p, msg, front).0.source == p.source,
        step(p, msg, front).0.secret == p.secret,
{
}

/// The scroll delay is short exactly for moves of fewer than five places,
/// in either direction, and long for every move of five places or more.
pub proof fn lemma_move_delay_by_distance(a: int, b: int)
    ensures
        (-5 < a - b < 5) ==> spec_move_delay(a, b) == 1000,
        (a - b >= 5 || b - a >= 5) ==> spec_move_delay(a, b) == 5000,
{
}

/// A longer move never gets a shorter delay: the delay grows with the
/// distance between the two placements.
pub proof fn lemma_move_delay_monotonic(a: int, b: int, c: int, d: int)
    requires
        0 <= a - b <= c - d,
    ensures
        spec_move_delay(a, b) <= spec_move_delay(c, d),
{
}

/// When both fetches succeed, the fetched runs and contest are installed
/// (`Load`), the buttons are enabled and the scoreboard is uncentered,
/// whatever team is at the front of the queue and whatever state the panel
/// was in.
pub proof fn lemma_successful_fetch_loads(p: PanelView, front: Option<Seq<char>>)
    ensures
        step(p, Msg::Fetched { runs_ok: true, contest_ok: true }, front).1 == EffectView::Load,
        !step(p, Msg::Fetched { runs_ok: true, contest_ok: true }, front).0.button_disabled,
        step(p, Msg::Fetched { runs_ok: true, contest_ok: true }, front).0.center is None,
{
}

/// Only the two messages that center the scoreboard (`Prox1`, `Prox(n)`)
/// look at the team at the front of the queue: every other message does the
/// same whatever that team is.
pub proof fn lemma_front_only_read_when_centering(
    p: PanelView,
    msg: Msg,
    front1: Option<Seq<char>>,
    front2: Option<Seq<char>>,
)
    requires
        !(msg is Prox1),
        !(msg is Prox),
    ensures
        step(p, msg, front1) == step(p, msg, front2),
{
}

/// `Scroll1` reveals exactly one run and enables the buttons, leaving the
/// scoreboard where it is; `Scroll(n)` reveals down to `n` teams, enables
/// the buttons and uncenters the scoreboard; in any panel state.
pub proof fn lemma_scrolls_enable(p: PanelView, n: usize, front: Option<Seq<char>>)
    ensures
        step(p, Msg::Scroll1, front).1 == EffectView::RevealOne,
        !step(p, Msg::Scroll1, front).0.button_disabled,
        step(p, Msg::Scroll1, front).0.center == p.center,
        step(p, Msg::Scroll(n), front).1 == EffectView::RevealUntil(n as nat),
        !step(p, Msg::Scroll(n), front).0.button_disabled,
        step(p, Msg::Scroll(n), front).0.center is None,
{
}

/// The messages that start something (`Prox1`, `Prox(n)`, `Reset`) disable
/// the buttons; the ones that finish it (`Scroll1`, `Scroll(n)`, a
/// successful fetch) enable them.
pub proof fn lemma_buttons_follow_messages(p: PanelView, n: usize, front: Option<Seq<char>>)
    ensures
        step(p, Msg::Prox1, front).0.button_disabled,
        step(p, Msg::Prox(n), front).0.button_disabled,
        step(p, Msg::Reset, front).0.button_disabled,
        step(p, Msg::Reset, front).0.center == p.center,
        !step(p, Msg::Scroll1, front).0.button_disabled,
        !step(p, Msg::Scroll(n), front).0.button_disabled,
        !step(p, Msg::Fetched { runs_ok: true, contest_ok: true }, front).0.button_disabled,
{
}

} // verus!
