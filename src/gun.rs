//! Weapon fire-control state machine.
use vstd::prelude::*;

verus! {

/// Ammo at or below this count triggers the low-ammo feedback signal.
pub const LOW_AMMO_THRESHOLD: u32 = 5;

/// Number of fire modes.
pub const GUN_MODES_COUNT: i32 = 3;

/// The mutually exclusive fire modes of a gun.
#[derive(Clone, Copy, Debug, PartialEq, Eq, Structural)]
pub enum GunMode {
    Single,
    Burst,
    Blast,
}

/// Position of a mode in the selection order.
pub open spec fn mode_index(m: GunMode) -> int {
    match m {
        GunMode::Single => 0,
        GunMode::Burst => 1,
        GunMode::Blast => 2,
    }
}

/// Mode at a selection index; out-of-range indices fall back to `Single`.
pub open spec fn index_mode(i: int) -> GunMode {
    if i == 1 {
        GunMode::Burst
    } else if i == 2 {
        GunMode::Blast
    } else {
        GunMode::Single
    }
}

/// Maps a selection index to its mode.
pub fn gun_index_to_mode(index: i32) -> (r: GunMode)
    ensures
        r == index_mode(index as int),
{
    match index {
        1 => GunMode::Burst,
        2 => GunMode::Blast,
        _ => GunMode::Single,
    }
}

/// Maps a mode to its selection index.
pub fn gun_mode_to_index(mode: GunMode) -> (r: i32)
    ensures
        r as int == mode_index(mode),
{
    match mode {
        GunMode::Single => 0,
        GunMode::Burst => 1,
        GunMode::Blast => 2,
    }
}


/// Adds two durations, saturating at the largest representable time.
pub open spec fn sat_add(a: u64, b: u64) -> u64 {
    if a + b > u64::MAX {
        u64::MAX
    } else {
        (a + b) as u64
    }
}

/// One weapon: per-mode ammo, the active mode, timers and the shot pattern.
/// Times are in milliseconds, distances in millimetres, angles in millidegrees.
#[derive(Clone, Copy, Debug)]
pub struct Gun {
    pub mode: GunMode,
    pub single_ammo: u32,
    pub burst_ammo: u32,
    pub blast_ammo: u32,
    pub single_max_ammo: u32,
    pub burst_max_ammo: u32,
    pub blast_max_ammo: u32,
    pub max_distance: u64,
    pub damage: u64,
    pub refire_rate: u64,
    pub burst_multiplier: u64,
    pub single_reload_duration: u64,
    /// Present while the gun is on cooldown, holding the time since the last shot.
    pub refire_timer: Option<u64>,
    pub is_reloading: bool,
    pub reload_timer: u64,
    pub holding_trigger: bool,
    /// For the player: a shot left this frame. For an enemy: it wants to fire.
    pub is_shooting: bool,
    pub trigger_shooting_anim_enemy: bool,
    pub spread_angle: u32,
    pub bullet_amount: u32,
}

/// What one frame of fire control produced for a gun.
#[derive(Clone, Copy, Debug, PartialEq, Eq, Structural)]
pub enum ShotOutcome {
    /// No shot was attempted, or the gun was not ready.
    Idle,
    /// The gun is reloading; nothing else happened.
    Reloading,
    /// A shot was attempted with no ammo in the active mode.
    Empty,
    /// A shot left; `low_ammo` asks for the low-ammo feedback signal.
    Fired { low_ammo: bool },
}

/// Which weapon model the first-person view shows.
#[derive(Clone, Copy, Debug, PartialEq, Eq, Structural)]
pub enum GunModel {
    Single,
    Burst,
    Blast,
    /// Shown while the active mode has no ammo left.
    Reload,
}

/// The shot pattern of one firing event.
#[derive(Clone, Copy, Debug, PartialEq, Eq, Structural)]
pub struct FireEvent {
    pub mode: GunMode,
    pub pellets: u32,
    pub spread_angle: u64,
}

/// The per-frame inputs that drive the player's gun.
#[derive(Clone, Copy, Debug, PartialEq, Eq, Structural, Default)]
pub struct GunInput {
    pub weapon_slot0: bool,
    pub weapon_slot1: bool,
    pub weapon_slot2: bool,
    pub weapon_previous: bool,
    pub weapon_next: bool,
    pub weapon_shoot: bool,
    pub reload: bool,
}

/// Mode chosen by the direct selection inputs, the first pressed slot winning.
pub open spec fn slot_mode(current: GunMode, input: GunInput) -> GunMode {
    if input.weapon_slot0 {
        GunMode::Single
    } else if input.weapon_slot1 {
        GunMode::Burst
    } else if input.weapon_slot2 {
        GunMode::Blast
    } else {
        current
    }
}

/// Mode after the direct selection and then the relative step, clamped to the
/// valid range.
pub open spec fn selected_mode(current: GunMode, input: GunInput) -> GunMode {
    let i = mode_index(slot_mode(current, input));
    let j = if input.weapon_previous {
        i - 1
    } else if input.weapon_next {
        i + 1
    } else {
        i
    };
    index_mode(if j < 0 { 0 } else if j > 2 { 2 } else { j })
}

impl Gun {
    /// Every ammo counter lies within its configured maximum, and the burst
    /// divisor is usable.
    pub open spec fn wf(&self) -> bool {
        &&& self.single_ammo <= self.single_max_ammo
        &&& self.burst_ammo <= self.burst_max_ammo
        &&& self.blast_ammo <= self.blast_max_ammo
        &&& self.burst_multiplier > 0
        &&& self.is_reloading ==> self.mode == GunMode::Single
    }

    pub open spec fn ammo_of(&self, m: GunMode) -> u32 {
        match m {
            GunMode::Single => self.single_ammo,
            GunMode::Burst => self.burst_ammo,
            GunMode::Blast => self.blast_ammo,
        }
    }

    pub open spec fn max_ammo_of(&self, m: GunMode) -> u32 {
        match m {
            GunMode::Single => self.single_max_ammo,
            GunMode::Burst => self.burst_max_ammo,
            GunMode::Blast => self.blast_max_ammo,
        }
    }

    /// Refire interval of a mode: burst divides the base interval by its multiplier.
    pub open spec fn interval_of(&self, m: GunMode) -> u64
        recommends
            self.burst_multiplier > 0,
    {
        match m {
            GunMode::Burst => (self.refire_rate / self.burst_multiplier) as u64,
            _ => self.refire_rate,
        }
    }

    /// Cooldown timer after `dt` more milliseconds: it is cleared once it exceeds
    /// the active mode's refire interval.
    pub open spec fn advanced_timer(&self, dt: u64) -> Option<u64> {
        match self.refire_timer {
            Some(t) => if sat_add(t, dt) > self.interval_of(self.mode) {
                None
            } else {
                Some(sat_add(t, dt))
            },
            None => None,
        }
    }

    /// Whether a fire attempt is accepted once the timer has advanced: the
    /// cooldown has elapsed and, unless `override_single_mode`, single and blast
    /// modes need the trigger released since the last frame.
    pub open spec fn ready_spec(&self, override_single_mode: bool, dt: u64) -> bool {
        &&& self.advanced_timer(dt).is_none()
        &&& (override_single_mode || self.mode == GunMode::Burst || !self.holding_trigger)
    }

    /// The same gun with one round taken from the active mode.
    pub open spec fn after_shot(&self) -> Gun {
        match self.mode {
            GunMode::Single => Gun { single_ammo: (self.single_ammo - 1) as u32, ..*self },
            GunMode::Burst => Gun { burst_ammo: (self.burst_ammo - 1) as u32, ..*self },
            GunMode::Blast => Gun { blast_ammo: (self.blast_ammo - 1) as u32, ..*self },
        }
    }

    /// Ammo of the active mode.
    pub fn ammo(&self) -> (r: u32)
        ensures
            r == self.ammo_of(self.mode),
    {
        match self.mode {
            GunMode::Single => self.single_ammo,
            GunMode::Burst => self.burst_ammo,
            GunMode::Blast => self.blast_ammo,
        }
    }

    /// The active mode has at least one round.
    pub fn has_ammo(&self) -> (r: bool)
        ensures
            r == (self.ammo_of(self.mode) > 0),
    {
        self.ammo() > 0
    }

    /// The active mode is at or below the low-ammo threshold.
    pub fn has_low_ammo(&self) -> (r: bool)
        ensures
            r == (self.ammo_of(self.mode) <= LOW_AMMO_THRESHOLD),
    {
        self.ammo() <= LOW_AMMO_THRESHOLD
    }

    /// Weapon model for the view: the active mode's, or the reload model when
    /// that mode is out of ammo.
    pub fn displayed_model(&self) -> (r: GunModel)
        ensures
            self.ammo_of(self.mode) == 0 ==> r == GunModel::Reload,
            self.ammo_of(self.mode) > 0 ==> r == match self.mode {
                GunMode::Single => GunModel::Single,
                GunMode::Burst => GunModel::Burst,
                GunMode::Blast => GunModel::Blast,
            },
    {
        if !self.has_ammo() {
            return GunModel::Reload;
        }
        match self.mode {
            GunMode::Single => GunModel::Single,
            GunMode::Burst => GunModel::Burst,
            GunMode::Blast => GunModel::Blast,
        }
    }

    /// Refire interval of the active mode.
    pub fn refire_interval(&self) -> (r: u64)
        requires
            self.burst_multiplier > 0,
        ensures
            r == self.interval_of(self.mode),
    {
        match self.mode {
            GunMode::Burst => self.refire_rate / self.burst_multiplier,
            _ => self.refire_rate,
        }
    }

    /// Advances the cooldown by `dt` and says whether a fire attempt is accepted.
    pub fn handle_readiness(&mut self, override_single_mode: bool, dt: u64) -> (r: bool)
        requires
            old(self).burst_multiplier > 0,
        ensures
            *final(self) == (Gun { refire_timer: old(self).advanced_timer(dt), ..*old(self) }),
            r == old(self).ready_spec(override_single_mode, dt),
    {
        let interval = self.refire_interval();
        if let Some(t) = self.refire_timer {
            let t2 = t.saturating_add(dt);
            if t2 > interval {
                self.refire_timer = None;
            } else {
                self.refire_timer = Some(t2);
            }
        }
        self.refire_timer.is_none() && (override_single_mode || self.mode == GunMode::Burst
            || !self.holding_trigger)
    }

    /// Takes one round from the active mode.
    fn consume_round(&mut self)
        requires
            old(self).ammo_of(old(self).mode) > 0,
        ensures
            *final(self) == old(self).after_shot(),
    {
        match self.mode {
            GunMode::Single => self.single_ammo = self.single_ammo - 1,
            GunMode::Burst => self.burst_ammo = self.burst_ammo - 1,
            GunMode::Blast => self.blast_ammo = self.blast_ammo - 1,
        }
    }

    /// Shot pattern of the active mode: blast fires its pellet count with its
    /// spread, the other modes one pellet with no spread.
    pub fn fire_event(&self) -> (r: FireEvent)
        ensures
            r.mode == self.mode,
            self.mode == GunMode::Blast ==> r.pellets == self.bullet_amount && r.spread_angle
                == self.spread_angle as u64,
            self.mode != GunMode::Blast ==> r.pellets == 1 && r.spread_angle == 0,
    {
        match self.mode {
            GunMode::Blast => FireEvent {
                mode: self.mode,
                pellets: self.bullet_amount,
                spread_angle: self.spread_angle as u64,
            },
            _ => FireEvent { mode: self.mode, pellets: 1, spread_angle: 0 },
        }
    }
}


/// One frame of a reloading gun: the reload timer advances and, once past the
/// reload duration, single ammo is restored to its maximum.
pub open spec fn reload_frame(g: Gun, dt: u64) -> Gun {
    if sat_add(g.reload_timer, dt) > g.single_reload_duration {
        Gun { reload_timer: 0, is_reloading: false, single_ammo: g.single_max_ammo, ..g }
    } else {
        Gun { reload_timer: sat_add(g.reload_timer, dt), ..g }
    }
}

/// The gun after mode selection, the cooldown advance, the trigger record and
/// a possible reload start, before any shot.
pub open spec fn armed_frame(g: Gun, input: GunInput, dt: u64) -> Gun {
    let g1 = Gun { mode: selected_mode(g.mode, input), ..g };
    let g2 = Gun {
        refire_timer: g1.advanced_timer(dt),
        holding_trigger: input.weapon_shoot,
        is_shooting: false,
        ..g1
    };
    if input.reload && g2.mode == GunMode::Single && g2.single_ammo < g2.single_max_ammo {
        Gun { single_ammo: 0, is_reloading: true, ..g2 }
    } else {
        g2
    }
}

/// One frame of the player's gun: the gun afterwards and what happened.
pub open spec fn player_frame(g: Gun, input: GunInput, dt: u64) -> (Gun, ShotOutcome) {
    if g.is_reloading {
        (reload_frame(g, dt), ShotOutcome::Reloading)
    } else {
        let ready = Gun { mode: selected_mode(g.mode, input), ..g }.ready_spec(false, dt);
        let g3 = armed_frame(g, input, dt);
        if input.weapon_shoot && ready {
            let g4 = Gun { refire_timer: Some(0), ..g3 };
            if g4.ammo_of(g4.mode) == 0 {
                (g4, ShotOutcome::Empty)
            } else {
                (
                    Gun { is_shooting: true, ..g4.after_shot() },
                    ShotOutcome::Fired { low_ammo: g4.ammo_of(g4.mode) <= LOW_AMMO_THRESHOLD },
                )
            }
        } else {
            (g3, ShotOutcome::Idle)
        }
    }
}

/// One frame of an enemy's gun: the gun afterwards and whether a shot left.
/// `alive` says whether the holder has health left.
pub open spec fn enemy_frame(g: Gun, alive: bool, dt: u64) -> (Gun, bool) {
    if !g.is_shooting || !alive {
        (g, false)
    } else {
        let ready = g.ready_spec(true, dt);
        let g1 = Gun {
            refire_timer: g.advanced_timer(dt),
            trigger_shooting_anim_enemy: ready,
            ..g
        };
        if !ready || g1.ammo_of(g1.mode) == 0 {
            (g1, false)
        } else {
            (Gun { refire_timer: Some(0), ..g1 }.after_shot(), true)
        }
    }
}

impl Gun {
    /// Runs one frame of the player's gun for the given inputs.
    pub fn player_step(&mut self, input: &GunInput, dt: u64) -> (r: ShotOutcome)
        requires
            old(self).wf(),
        ensures
            final(self).wf(),
            (*final(self), r) == player_frame(*old(self), *input, dt),
    {
        if self.is_reloading {
            let t = self.reload_timer.saturating_add(dt);
            if t > self.single_reload_duration {
                self.reload_timer = 0;
                self.is_reloading = false;
                self.single_ammo = self.single_max_ammo;
            } else {
                self.reload_timer = t;
            }
            return ShotOutcome::Reloading;
        }
        let mut mode = self.mode;
        if input.weapon_slot0 {
            mode = GunMode::Single;
        } else if input.weapon_slot1 {
            mode = GunMode::Burst;
        } else if input.weapon_slot2 {
            mode = GunMode::Blast;
        }
        let mut index = gun_mode_to_index(mode);
        if input.weapon_previous {
            index = index - 1;
        } else if input.weapon_next {
            index = index + 1;
        }
        if index < 0 {
            index = 0;
        }
        if index > GUN_MODES_COUNT - 1 {
            index = GUN_MODES_COUNT - 1;
        }
        self.mode = gun_index_to_mode(index);
        let ready = self.handle_readiness(false, dt);
        self.holding_trigger = input.weapon_shoot;
        self.is_shooting = false;
        if input.reload && self.mode == GunMode::Single && self.single_ammo < self.single_max_ammo {
            self.single_ammo = 0;
            self.is_reloading = true;
        }
        if input.weapon_shoot && ready {
            self.refire_timer = Some(0);
            if !self.has_ammo() {
                return ShotOutcome::Empty;
            }
            let low_ammo = self.has_low_ammo();
            self.consume_round();
            self.is_shooting = true;
            ShotOutcome::Fired { low_ammo }
        } else {
            ShotOutcome::Idle
        }
    }

    /// Runs one frame of an enemy's gun; returns whether a shot left.
    pub fn enemy_step(&mut self, alive: bool, dt: u64) -> (r: bool)
        requires
            old(self).wf(),
        ensures
            final(self).wf(),
            (*final(self), r) == enemy_frame(*old(self), alive, dt),
    {
        if !self.is_shooting || !alive {
            return false;
        }
        let ready = self.handle_readiness(true, dt);
        self.trigger_shooting_anim_enemy = ready;
        if !ready || !self.has_ammo() {
            return false;
        }
        self.refire_timer = Some(0);
        self.consume_round();
        true
    }
}

/// One frame of a gun, driven either by the player's inputs or as an enemy's.
#[derive(Clone, Copy, Debug, PartialEq, Eq, Structural)]
pub enum GunFrame {
    Player { input: GunInput, dt: u64 },
    Enemy { alive: bool, dt: u64 },
}

/// A gun after one frame.
pub open spec fn after_frame(g: Gun, f: GunFrame) -> Gun {
    match f {
        GunFrame::Player { input, dt } => player_frame(g, input, dt).0,
        GunFrame::Enemy { alive, dt } => enemy_frame(g, alive, dt).0,
    }
}

/// A gun after a sequence of frames.
pub open spec fn gun_run(g: Gun, frames: Seq<GunFrame>) -> Gun
    decreases frames.len(),
{
    if frames.len() == 0 {
        g
    } else {
        gun_run(after_frame(g, frames[0]), frames.drop_first())
    }
}

/// Ammo never leaves its range: from a well-formed gun, after any sequence of
/// fire, reload and selection frames, every mode's ammo lies between zero and
/// that mode's configured maximum.
pub proof fn lemma_ammo_within_bounds(g: Gun, frames: Seq<GunFrame>)
    requires
        g.wf(),
    ensures
        gun_run(g, frames).wf(),
        forall|m: GunMode|
            0 <= #[trigger] gun_run(g, frames).ammo_of(m) <= gun_run(g, frames).max_ammo_of(m),
    decreases frames.len(),
{
    if frames.len() > 0 {
        let g1 = after_frame(g, frames[0]);
        assert(g1.wf());
        lemma_ammo_within_bounds(g1, frames.drop_first());
    }
    let r = gun_run(g, frames);
    assert forall|m: GunMode| 0 <= #[trigger] r.ammo_of(m) <= r.max_ammo_of(m) by {
        match m {
            GunMode::Single => {},
            GunMode::Burst => {},
            GunMode::Blast => {},
        }
    }
}

/// Modes are exclusive: one frame of the player's or an enemy's gun leaves the
/// ammo of every mode other than the active one unchanged, whatever was
/// selected, fired or reloaded.
pub proof fn lemma_other_modes_untouched(g: Gun, input: GunInput, alive: bool, dt: u64, m: GunMode)
    requires
        g.wf(),
    ensures
        m != player_frame(g, input, dt).0.mode ==> player_frame(g, input, dt).0.ammo_of(m)
            == g.ammo_of(m),
        m != enemy_frame(g, alive, dt).0.mode ==> enemy_frame(g, alive, dt).0.ammo_of(m)
            == g.ammo_of(m),
{
}

} // verus!
