use vstd::prelude::*;
use crate::config::{Config, ProfileConfig};
use crate::errors::{Error, FanKind};
use crate::state::{str_eq, State};
use rog_fan_curve::{Board, Curve, CurveError, Fan};

verus! {

// The board library's identification of the hardware: curve application is
// only meaningful once a board has been recognized.
#[verifier::external_type_specification]
#[verifier::external_body]
pub struct ExBoard(Board);

// The board library's error for a refused curve application.
#[verifier::external_type_specification]
#[verifier::external_body]
pub struct ExCurveError(CurveError);

/// One side effect of a profile transition, in the order the transition
/// issues them.
#[derive(Clone, Copy, PartialEq, Eq, Structural, Debug)]
pub enum Action {
    /// Write the decimal ASCII form of the index to the fan-profile file.
    WriteFanProfile(u8),
    /// Write `"1"` or `"0"` to the turbo file.
    WriteTurbo(bool),
    /// Apply the target profile's CPU curve via the board library.
    ApplyCpuCurve,
    /// Apply the target profile's GPU curve via the board library.
    ApplyGpuCurve,
    /// Send `SIGRTMIN` plus the offset to the first process named `waybar`.
    NotifyWaybar(u8),
}

/// A resolved transition: the recognized board, the target index, and the
/// side effects to issue, in order.
pub struct Transition {
    pub index: u8,
    pub board: Board,
    pub actions: Vec<Action>,
}

/// The fixed mapping from profile name to fan-profile index; any other name
/// is unknown.
pub open spec fn spec_index_of(name: Seq<char>) -> Option<u8> {
    if name == "normal"@ {
        Some(0u8)
    } else if name == "boost"@ {
        Some(1u8)
    } else if name == "silent"@ {
        Some(2u8)
    } else {
        None
    }
}

/// The configuration entry for a fan-profile index.
pub open spec fn spec_profile_for(c: Config, i: int) -> Option<ProfileConfig> {
    if i == 0 {
        c.profiles.normal
    } else if i == 1 {
        c.profiles.boost
    } else if i == 2 {
        c.profiles.silent
    } else {
        None
    }
}

/// The side effects of a transition to index `i` under configuration `c`, in
/// their fixed order: the fan-profile write first, then — only where the
/// entry for the target profile asks for them — the turbo write and the two
/// curve applications, and the notification last.
pub open spec fn spec_plan(c: Config, i: int) -> Seq<Action> {
    seq![Action::WriteFanProfile(i as u8)] + (match spec_profile_for(c, i) {
        Some(p) => (match p.turbo {
            Some(b) => seq![Action::WriteTurbo(b)],
            None => Seq::<Action>::empty(),
        }) + (if p.cpu_curve is Some {
            seq![Action::ApplyCpuCurve]
        } else {
            Seq::<Action>::empty()
        }) + (if p.gpu_curve is Some {
            seq![Action::ApplyGpuCurve]
        } else {
            Seq::<Action>::empty()
        }),
        None => Seq::<Action>::empty(),
    }) + (match c.waybar_notify {
        Some(n) => seq![Action::NotifyWaybar(n)],
        None => Seq::<Action>::empty(),
    })
}

/// Relies on rog_fan_curve::Board::from_board_name, which reads the board
/// name the kernel reports and recognizes the supported boards; the outcome
/// depends on the hardware.
#[verifier::external_body]
fn board_probe() -> (r: Option<Board>) {
    Board::from_board_name()
}

/// Queries the board library for the current board identity; a board it does
/// not recognize is reported as `InvalidBoard`.
pub fn identify_board() -> (r: Result<Board, Error>)
    ensures
        r matches Err(e) ==> e == Error::InvalidBoard,
{
    match board_probe() {
        Some(b) => Ok(b),
        None => Err(Error::InvalidBoard),
    }
}

/// Relies on rog_fan_curve::Curve::apply, which hands the curve for one fan
/// to the board's embedded controller through `acpi_call`; success depends on
/// the hardware. It cannot panic: `Board` has exactly one variant, which
/// `apply` accepts.
#[verifier::external_body]
fn curve_apply(curve: &Curve, board: Board, cpu: bool) -> (r: Result<(), CurveError>) {
    curve.apply(
        board,
        if cpu {
            Fan::Cpu
        } else {
            Fan::Gpu
        },
    )
}

/// The profile controller: the loaded configuration and the state read at
/// command start.
pub struct Control {
    config: Config,
    state: State,
}

impl Control {
    pub closed spec fn spec_config(self) -> Config {
        self.config
    }

    pub closed spec fn spec_state(self) -> State {
        self.state
    }

    pub open spec fn wf(self) -> bool {
        self.spec_state().wf()
    }

    pub fn new(state: State, config: Config) -> (c: Control)
        requires
            state.wf(),
        ensures
            c.spec_config() == config,
            c.spec_state() == state,
            c.wf(),
    {
        Control { config, state }
    }

    fn profile_for(&self, index: u8) -> (r: Option<&ProfileConfig>)
        requires
            index < 3,
        ensures
            match r {
                Some(p) => spec_profile_for(self.spec_config(), index as int) == Some(*p),
                None => spec_profile_for(self.spec_config(), index as int) is None,
            },
    {
        if index == 0 {
            self.config.profiles.normal.as_ref()
        } else if index == 1 {
            self.config.profiles.boost.as_ref()
        } else {
            self.config.profiles.silent.as_ref()
        }
    }

    /// The ordered side effects of a transition to `index` under the loaded
    /// configuration.
    pub fn plan_for(&self, index: u8) -> (plan: Vec<Action>)
        requires
            index < 3,
        ensures
            plan@ == spec_plan(self.spec_config(), index as int),
    {
        let mut plan: Vec<Action> = Vec::new();
        plan.push(Action::WriteFanProfile(index));
        if let Some(pc) = self.profile_for(index) {
            if let Some(b) = pc.turbo {
                plan.push(Action::WriteTurbo(b));
            }
            if pc.cpu_curve.is_some() {
                plan.push(Action::ApplyCpuCurve);
            }
            if pc.gpu_curve.is_some() {
                plan.push(Action::ApplyGpuCurve);
            }
        }
        if let Some(n) = self.config.waybar_notify {
            plan.push(Action::NotifyWaybar(n));
        }
        proof {
            assert(plan@ =~= spec_plan(self.spec_config(), index as int));
        }
        plan
    }

    /// Resolves a profile name through the fixed mapping and composes the
    /// transition to it. Any name outside the three known profiles is
    /// rejected as `UnknownProfile` before anything else happens; a board the
    /// library does not recognize is rejected as `InvalidBoard` before any
    /// side effect is issued.
    pub fn set(&self, profile_name: &str) -> (r: Result<Transition, Error>)
        ensures
            match spec_index_of(profile_name@) {
                Some(i) => match r {
                    Ok(t) => t.index == i && t.actions@ == spec_plan(
                        self.spec_config(),
                        i as int,
                    ),
                    Err(e) => e == Error::InvalidBoard,
                },
                None => match r {
                    Ok(_) => false,
                    Err(e) => e matches Error::UnknownProfile(n) && n@ == profile_name@,
                },
            },
    {
        let index: u8 = if str_eq(profile_name, "normal") {
            0
        } else if str_eq(profile_name, "boost") {
            1
        } else if str_eq(profile_name, "silent") {
            2
        } else {
            return Err(Error::UnknownProfile(profile_name.to_owned()));
        };
        let board = match identify_board() {
            Ok(b) => b,
            Err(e) => {
                return Err(e);
            },
        };
        let actions = self.plan_for(index);
        Ok(Transition { index, board, actions })
    }

    /// Advances to the next profile modulo 3, based on the fan profile the
    /// kernel reported at command start, and composes the transition to it.
    pub fn toggle_profile(&self) -> (r: Result<Transition, Error>)
        requires
            self.wf(),
        ensures
            ({
                let next = (self.spec_state().spec_fan_profile() + 1) % 3;
                match r {
                    Ok(t) => t.index == next && t.actions@ == spec_plan(
                        self.spec_config(),
                        next as int,
                    ),
                    Err(e) => e == Error::InvalidBoard,
                }
            }),
    {
        let next = (self.state.fan_profile() + 1) % 3;
        let board = match identify_board() {
            Ok(b) => b,
            Err(e) => {
                return Err(e);
            },
        };
        let actions = self.plan_for(next);
        Ok(Transition { index: next, board, actions })
    }

    /// Applies the target profile's curve for one fan via the board library.
    /// Where the entry carries no such curve there is nothing to do; a curve
    /// the library refuses is reported as `CurveApplyFailed` for that fan.
    pub fn apply_curve(&self, index: u8, board: Board, fan: FanKind) -> (r: Result<(), Error>)
        requires
            index < 3,
        ensures
            r matches Err(e) ==> e == Error::CurveApplyFailed(fan),
            (match spec_profile_for(self.spec_config(), index as int) {
                Some(p) => match fan {
                    FanKind::Cpu => p.cpu_curve is None,
                    FanKind::Gpu => p.gpu_curve is None,
                },
                None => true,
            }) ==> r is Ok,
    {
        let curve = match self.profile_for(index) {
            Some(p) => match fan {
                FanKind::Cpu => p.cpu_curve.as_ref(),
                FanKind::Gpu => p.gpu_curve.as_ref(),
            },
            None => None,
        };
        match curve {
            Some(c) => {
                let is_cpu = match fan {
                    FanKind::Cpu => true,
                    FanKind::Gpu => false,
                };
                match curve_apply(c, board, is_cpu) {
                    Ok(()) => Ok(()),
                    Err(_) => Err(Error::CurveApplyFailed(fan)),
                }
            },
            None => Ok(()),
        }
    }
}

/// Relies on procfs::process::all_processes and procfs::process::Process::stat:
/// yields the pid and comm-name of every process whose stat could be read, in
/// the order the process table lists them; what comes back depends on what is
/// running.
#[verifier::external_body]
fn process_table() -> (r: Vec<(i32, String)>) {
    let mut out: Vec<(i32, String)> = Vec::new();
    if let Ok(procs) = procfs::process::all_processes() {
        for proc_entry in procs {
            if let Ok(p) = proc_entry {
                if let Ok(stat) = p.stat() {
                    out.push((stat.pid, stat.comm));
                }
            }
        }
    }
    out
}

/// The first process of the table whose comm-name is exactly `waybar`.
pub open spec fn spec_find_waybar(procs: Seq<(i32, String)>) -> Option<i32>
    decreases procs.len(),
{
    if procs.len() == 0 {
        None
    } else if procs[0].1@ == "waybar"@ {
        Some(procs[0].0)
    } else {
        spec_find_waybar(procs.drop_first())
    }
}

/// Finds the pid of the first process whose comm-name is exactly `waybar`.
pub fn find_waybar(procs: &Vec<(i32, String)>) -> (r: Option<i32>)
    ensures
        r == spec_find_waybar(procs@),
{
    let mut i: usize = 0;
    proof {
        assert(procs@.skip(0) =~= procs@);
    }
    while i < procs.len()
        invariant
            0 <= i <= procs@.len(),
            spec_find_waybar(procs@) == spec_find_waybar(procs@.skip(i as int)),
        decreases procs@.len() - i,
    {
        if str_eq(procs[i].1.as_str(), "waybar") {
            return Some(procs[i].0);
        }
        proof {
            assert(procs@.skip(i as int).drop_first() =~= procs@.skip(i as int + 1));
        }
        i = i + 1;
    }
    None
}

/// Enumerates the process table and finds the first process named `waybar`;
/// what comes back depends on what is running.
pub fn waybar_pid() -> (r: Option<i32>) {
    let table = process_table();
    find_waybar(&table)
}

/// The real-time signal to deliver: `SIGRTMIN`, resolved at runtime, plus the
/// configured offset.
pub fn waybar_signal(sigrtmin: i64, offset: u8) -> (r: i64)
    requires
        sigrtmin + offset <= i64::MAX,
    ensures
        r == sigrtmin + offset,
{
    sigrtmin + (offset as i64)
}

/// The kernel-visible state the transition's writes act on: the contents of
/// the two kernel control files.
pub struct KernelState {
    pub fan_profile: u8,
    pub turbo: bool,
}

/// What one side effect does to the kernel-visible state: the two writes
/// store their value; curve applications and the notification touch neither
/// control file.
pub open spec fn apply_action(k: KernelState, a: Action) -> KernelState {
    match a {
        Action::WriteFanProfile(i) => KernelState { fan_profile: i, ..k },
        Action::WriteTurbo(b) => KernelState { turbo: b, ..k },
        Action::ApplyCpuCurve => k,
        Action::ApplyGpuCurve => k,
        Action::NotifyWaybar(_) => k,
    }
}

/// The kernel-visible state after a sequence of side effects, issued in
/// order.
pub open spec fn kernel_after(k: KernelState, s: Seq<Action>) -> KernelState
    decreases s.len(),
{
    if s.len() == 0 {
        k
    } else {
        kernel_after(apply_action(k, s[0]), s.drop_first())
    }
}

proof fn lemma_kernel_after_append(k: KernelState, a: Seq<Action>, b: Seq<Action>)
    ensures
        kernel_after(k, a + b) == kernel_after(kernel_after(k, a), b),
    decreases a.len(),
{
    if a.len() == 0 {
        assert(a + b =~= b);
    } else {
        assert((a + b)[0] == a[0]);
        assert((a + b).drop_first() =~= a.drop_first() + b);
        lemma_kernel_after_append(apply_action(k, a[0]), a.drop_first(), b);
    }
}

proof fn lemma_kernel_after_one(k: KernelState, x: Action)
    ensures
        kernel_after(k, seq![x]) == apply_action(k, x),
{
    assert(seq![x].drop_first() =~= Seq::<Action>::empty());
    assert(seq![x][0] == x);
    assert(kernel_after(apply_action(k, x), Seq::<Action>::empty()) == apply_action(k, x));
}

/// The turbo flag after a transition to index `i`: what the target profile's
/// entry asks for, or the flag already in place where it asks for nothing.
pub open spec fn spec_turbo_after(c: Config, i: int, t: bool) -> bool {
    match spec_profile_for(c, i) {
        Some(p) => match p.turbo {
            Some(b) => b,
            None => t,
        },
        None => t,
    }
}

/// The net effect of a transition's plan on the kernel-visible state: the
/// fan-profile file ends up holding the target index, and the turbo file what
/// the target profile's entry asks for — or what it already held.
pub proof fn lemma_plan_effect(k: KernelState, c: Config, i: int)
    requires
        0 <= i < 3,
    ensures
        kernel_after(k, spec_plan(c, i)) == (KernelState {
            fan_profile: i as u8,
            turbo: spec_turbo_after(c, i, k.turbo),
        }),
{
    let head = seq![Action::WriteFanProfile(i as u8)];
    let mid = match spec_profile_for(c, i) {
        Some(p) => (match p.turbo {
            Some(b) => seq![Action::WriteTurbo(b)],
            None => Seq::<Action>::empty(),
        }) + (if p.cpu_curve is Some {
            seq![Action::ApplyCpuCurve]
        } else {
            Seq::<Action>::empty()
        }) + (if p.gpu_curve is Some {
            seq![Action::ApplyGpuCurve]
        } else {
            Seq::<Action>::empty()
        }),
        None => Seq::<Action>::empty(),
    };
    let tail = match c.waybar_notify {
        Some(n) => seq![Action::NotifyWaybar(n)],
        None => Seq::<Action>::empty(),
    };
    assert(spec_plan(c, i) == head + mid + tail);
    lemma_kernel_after_append(k, head + mid, tail);
    lemma_kernel_after_append(k, head, mid);
    lemma_kernel_after_one(k, Action::WriteFanProfile(i as u8));
    let k1 = apply_action(k, Action::WriteFanProfile(i as u8));
    match spec_profile_for(c, i) {
        Some(p) => {
            let turbo_part = match p.turbo {
                Some(b) => seq![Action::WriteTurbo(b)],
                None => Seq::<Action>::empty(),
            };
            let cpu_part = if p.cpu_curve is Some {
                seq![Action::ApplyCpuCurve]
            } else {
                Seq::<Action>::empty()
            };
            let gpu_part = if p.gpu_curve is Some {
                seq![Action::ApplyGpuCurve]
            } else {
                Seq::<Action>::empty()
            };
            lemma_kernel_after_append(k1, turbo_part + cpu_part, gpu_part);
            lemma_kernel_after_append(k1, turbo_part, cpu_part);
            if p.turbo is Some {
                lemma_kernel_after_one(k1, Action::WriteTurbo(p.turbo->Some_0));
            }
            let k2 = kernel_after(k1, turbo_part);
            if p.cpu_curve is Some {
                lemma_kernel_after_one(k2, Action::ApplyCpuCurve);
            }
            let k3 = kernel_after(k2, cpu_part);
            if p.gpu_curve is Some {
                lemma_kernel_after_one(k3, Action::ApplyGpuCurve);
            }
        },
        None => {
        },
    }
    let k4 = kernel_after(k, head + mid);
    if c.waybar_notify is Some {
        lemma_kernel_after_one(k4, Action::NotifyWaybar(c.waybar_notify->Some_0));
    }
}

/// For each of the three profile names, a transition composed by Set writes
/// exactly the matched index — 0 for `normal`, 1 for `boost`, 2 for `silent`
/// — to the fan-profile file as its first side effect, whatever the
/// configuration.
pub proof fn lemma_set_writes_index_first(c: Config, name: Seq<char>)
    requires
        spec_index_of(name) is Some,
    ensures
        spec_index_of("normal"@) == Some(0u8),
        spec_index_of("boost"@) == Some(1u8),
        spec_index_of("silent"@) == Some(2u8),
        spec_plan(c, spec_index_of(name)->Some_0 as int).len() >= 1,
        spec_plan(c, spec_index_of(name)->Some_0 as int)[0] == Action::WriteFanProfile(
            spec_index_of(name)->Some_0,
        ),
{
    reveal_strlit("normal");
    reveal_strlit("boost");
    reveal_strlit("silent");
    assert("normal"@.len() == 6);
    assert("boost"@.len() == 5);
    assert("silent"@[0] == 's');
}

/// Toggle from a kernel-reported fan profile `n` composes a transition whose
/// first side effect writes `(n + 1) mod 3` to the fan-profile file, whatever
/// the configuration.
pub proof fn lemma_toggle_writes_next(c: Config, n: u8)
    requires
        n < 3,
    ensures
        ({
            let next = (n + 1) % 3;
            &&& 0 <= next < 3
            &&& spec_plan(c, next as int).len() >= 1
            &&& spec_plan(c, next as int)[0] == Action::WriteFanProfile(next as u8)
        }),
{
}

/// Where the configuration has no entry for the target profile, the
/// transition writes the fan-profile file and touches nothing else — no
/// turbo write, no curve application — and the notification still fires
/// exactly where one is configured.
pub proof fn lemma_absent_profile_only_fan_write(c: Config, i: int)
    requires
        0 <= i < 3,
        spec_profile_for(c, i) is None,
    ensures
        spec_plan(c, i) == (match c.waybar_notify {
            Some(n) => seq![Action::WriteFanProfile(i as u8), Action::NotifyWaybar(n)],
            None => seq![Action::WriteFanProfile(i as u8)],
        }),
{
    match c.waybar_notify {
        Some(n) => {
            assert(spec_plan(c, i) =~= seq![
                Action::WriteFanProfile(i as u8),
                Action::NotifyWaybar(n),
            ]);
        },
        None => {
            assert(spec_plan(c, i) =~= seq![Action::WriteFanProfile(i as u8)]);
        },
    }
}

/// Where the target profile's entry is present but carries no turbo flag, the
/// transition never writes the turbo file, whether or not curves are present.
pub proof fn lemma_turbo_absent_not_touched(c: Config, i: int)
    requires
        0 <= i < 3,
        spec_profile_for(c, i) matches Some(p) && p.turbo is None,
    ensures
        forall|j: int|
            0 <= j < spec_plan(c, i).len() ==> !(spec_plan(c, i)[j] is WriteTurbo),
{
}

/// Transitions are idempotent with respect to the kernel: issuing a
/// transition's side effects twice leaves both control files exactly as
/// issuing them once does.
pub proof fn lemma_plan_idempotent(k: KernelState, c: Config, i: int)
    requires
        0 <= i < 3,
    ensures
        kernel_after(kernel_after(k, spec_plan(c, i)), spec_plan(c, i)) == kernel_after(
            k,
            spec_plan(c, i),
        ),
{
    lemma_plan_effect(k, c, i);
    lemma_plan_effect(kernel_after(k, spec_plan(c, i)), c, i);
}

} // verus!
