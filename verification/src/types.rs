//! The scalar value types of the format.
//!
//! The parser stores every numeric field as plain integers.  A fractional
//! literal such as `0.01` is kept exactly, as the digits the source shows:
//! sign, integer part, fractional digits and their count; no rounding takes
//! place in the parser.

use vstd::prelude::*;

verus! {

/// A decimal literal, kept exactly as written: `-12.304` is
/// `negative: true, int_part: 12, frac_part: 304, frac_len: 3`.
#[derive(Debug, Clone, Copy, PartialEq, Eq, Structural)]
pub struct Decimal {
    /// Whether the literal began with a minus sign.
    pub negative: bool,
    /// The digits before the decimal point, as a number (0 when absent).
    pub int_part: u64,
    /// The digits after the decimal point, as a number (0 when absent).
    pub frac_part: u64,
    /// How many digits followed the decimal point.
    pub frac_len: u32,
}

impl Decimal {
    /// The literal `i.f` with `l` fractional digits, e.g. `Decimal::new(0, 5, 1)`
    /// for `0.5`.
    pub fn new(int_part: u64, frac_part: u64, frac_len: u32) -> (r: Decimal)
        ensures
            r == (Decimal { negative: false, int_part, frac_part, frac_len }),
    {
        Decimal { negative: false, int_part, frac_part, frac_len }
    }

    /// The integer literal `i` written without a point.
    pub fn whole(int_part: u64) -> (r: Decimal)
        ensures
            r == (Decimal { negative: false, int_part, frac_part: 0u64, frac_len: 0u32 }),
    {
        Decimal { negative: false, int_part, frac_part: 0, frac_len: 0 }
    }
}

impl View for Decimal {
    type V = Decimal;

    open spec fn view(&self) -> Decimal {
        *self
    }
}

/// A calendar date.  The source writes a date as three integers in
/// day month year order (`date 01 07 2020` is the 1st of July 2020); it is
/// stored normalized as year, month, day.
#[derive(Debug, Clone, Copy, PartialEq, Eq, Structural)]
pub struct Date {
    /// The year.
    pub year: u16,
    /// The month.
    pub month: u8,
    /// The day.
    pub day: u8,
}

impl View for Date {
    type V = Date;

    open spec fn view(&self) -> Date {
        *self
    }
}

/// The view of a sequence of owned strings: their character sequences.
pub open spec fn strs_view(s: Seq<String>) -> Seq<Seq<char>> {
    s.map_values(|x: String| x@)
}

/// The view of an optional owned string.
pub open spec fn opt_str_view(s: Option<String>) -> Option<Seq<char>> {
    match s {
        Option::None => Option::None,
        Option::Some(x) => Option::Some(x@),
    }
}

/// A mortgage of the player's account: all of its fields are mandatory in
/// the source.
#[derive(Debug, Clone, Copy, PartialEq, Eq, Structural)]
pub struct Mortgage {
    /// Amount of the mortgage.
    pub principal: u64,
    /// Interest rate.
    pub interest: Decimal,
    /// Term by which the mortgage is due.
    pub term: u16,
}

impl View for Mortgage {
    type V = Mortgage;

    open spec fn view(&self) -> Mortgage {
        *self
    }
}

/// The player's account: all of its fields are mandatory in the source.
#[derive(Debug, Clone, Copy, PartialEq, Eq, Structural)]
pub struct Account {
    /// Current credits.
    pub credits: u64,
    /// Credit score.
    pub score: u32,
    /// Current mortgage.
    pub mortgage: Mortgage,
}

impl View for Account {
    type V = Account;

    open spec fn view(&self) -> Account {
        *self
    }
}

/// A fleet reference: a kind and a ship count, both mandatory.
#[derive(Debug, Clone, PartialEq, Eq)]
pub struct Fleet {
    /// Kind of the fleet.
    pub kind: String,
    /// Count of ships in the fleet.
    pub count: u16,
}

/// Spec view of [`Fleet`].
pub struct FleetV {
    pub kind: Seq<char>,
    pub count: u16,
}

impl View for Fleet {
    type V = FleetV;

    open spec fn view(&self) -> FleetV {
        FleetV { kind: self.kind@, count: self.count }
    }
}

/// The tribute a planet pays: its value stands on the tag line; the
/// threshold and the defending fleet are mandatory sub-fields.
#[derive(Debug, Clone, PartialEq, Eq)]
pub struct Tribute {
    /// Amount given for tribute.
    pub value: u32,
    /// Menace threshold at which the planet yields tribute.
    pub threshold: u32,
    /// Fleet that protects the planet.
    pub fleet: Fleet,
}

/// Spec view of [`Tribute`].
pub struct TributeV {
    pub value: u32,
    pub threshold: u32,
    pub fleet: FleetV,
}

impl View for Tribute {
    type V = TributeV;

    open spec fn view(&self) -> TributeV {
        TributeV { value: self.value, threshold: self.threshold, fleet: self.fleet@ }
    }
}

/// The player's start record: all of its fields are mandatory.
#[derive(Debug, Clone, PartialEq, Eq)]
pub struct Start {
    /// Start date.
    pub date: Date,
    /// Start system.
    pub system: String,
    /// Start planet.
    pub planet: String,
    /// Start account.
    pub account: Account,
    /// Start set.
    pub set: String,
}

/// Spec view of [`Start`].
pub struct StartV {
    pub date: Date,
    pub system: Seq<char>,
    pub planet: Seq<char>,
    pub account: Account,
    pub set: Seq<char>,
}

impl View for Start {
    type V = StartV;

    open spec fn view(&self) -> StartV {
        StartV {
            date: self.date,
            system: self.system@,
            planet: self.planet@,
            account: self.account,
            set: self.set@,
        }
    }
}

/// A planet.  Its name comes from the tag line; every other field is
/// optional and defaults to an empty sequence or absence.  The landscape,
/// government, music and required-reputation fields belong to the data
/// model but have no field grammar; they always hold their defaults.
#[derive(Debug, Clone, PartialEq, Eq)]
pub struct Planet {
    /// Name of the planet.
    pub name: String,
    /// Attributes of the planet.
    pub attributes: Vec<String>,
    /// Landscape shown for the planet.
    pub landscape: Option<String>,
    /// Government, if different from the parent system.
    pub government: Option<String>,
    /// Music played on landing.
    pub music: Option<String>,
    /// Description, one entry per source line.
    pub description: Vec<String>,
    /// Spaceport description, one entry per source line.
    pub spaceport: Vec<String>,
    /// Ship sets sold at the shipyard.
    pub shipyard: Vec<String>,
    /// Outfit sets sold at the outfitter.
    pub outfitter: Vec<String>,
    /// Bribe factor.
    pub bribe: Option<Decimal>,
    /// Security factor.
    pub security: Option<Decimal>,
    /// Tribute paid by the planet.
    pub tribute: Option<Tribute>,
    /// Reputation required to land.
    pub required_reputation: Option<Decimal>,
}

/// Spec view of [`Planet`].
pub struct PlanetV {
    pub name: Seq<char>,
    pub attributes: Seq<Seq<char>>,
    pub landscape: Option<Seq<char>>,
    pub government: Option<Seq<char>>,
    pub music: Option<Seq<char>>,
    pub description: Seq<Seq<char>>,
    pub spaceport: Seq<Seq<char>>,
    pub shipyard: Seq<Seq<char>>,
    pub outfitter: Seq<Seq<char>>,
    pub bribe: Option<Decimal>,
    pub security: Option<Decimal>,
    pub tribute: Option<TributeV>,
    pub required_reputation: Option<Decimal>,
}

impl View for Planet {
    type V = PlanetV;

    open spec fn view(&self) -> PlanetV {
        PlanetV {
            name: self.name@,
            attributes: strs_view(self.attributes@),
            landscape: opt_str_view(self.landscape),
            government: opt_str_view(self.government),
            music: opt_str_view(self.music),
            description: strs_view(self.description@),
            spaceport: strs_view(self.spaceport@),
            shipyard: strs_view(self.shipyard@),
            outfitter: strs_view(self.outfitter@),
            bribe: self.bribe,
            security: self.security,
            tribute: match self.tribute {
                Option::None => Option::None,
                Option::Some(t) => Option::Some(t@),
            },
            required_reputation: self.required_reputation,
        }
    }
}

/// A position: two decimal coordinates.
#[derive(Debug, Clone, Copy, PartialEq, Eq, Structural)]
pub struct Position {
    /// Horizontal coordinate.
    pub x: Decimal,
    /// Vertical coordinate.
    pub y: Decimal,
}

impl View for Position {
    type V = Position;

    open spec fn view(&self) -> Position {
        *self
    }
}

/// A galaxy: a mandatory position and an optional sprite.
#[derive(Debug, Clone, PartialEq, Eq)]
pub struct Galaxy {
    /// Its position.
    pub pos: Position,
    /// Its name.
    pub name: String,
    /// Its sprite.
    pub sprite: Option<String>,
}

/// Spec view of [`Galaxy`].
pub struct GalaxyV {
    pub pos: Position,
    pub name: Seq<char>,
    pub sprite: Option<Seq<char>>,
}

impl View for Galaxy {
    type V = GalaxyV;

    open spec fn view(&self) -> GalaxyV {
        GalaxyV { pos: self.pos, name: self.name@, sprite: opt_str_view(self.sprite) }
    }
}

/// An asteroid population of a system.
#[derive(Debug, Clone, PartialEq, Eq)]
pub struct Asteroids {
    /// Its name.
    pub name: String,
    /// Its count.
    pub first_value: u32,
    /// Its energy.
    pub second_value: Decimal,
}

/// Spec view of [`Asteroids`].
pub struct AsteroidsV {
    pub name: Seq<char>,
    pub first_value: u32,
    pub second_value: Decimal,
}

impl View for Asteroids {
    type V = AsteroidsV;

    open spec fn view(&self) -> AsteroidsV {
        AsteroidsV {
            name: self.name@,
            first_value: self.first_value,
            second_value: self.second_value,
        }
    }
}

/// A minable population of a system.
#[derive(Debug, Clone, PartialEq, Eq)]
pub struct Minables {
    /// Its name.
    pub name: String,
    /// Its count.
    pub first_value: u32,
    /// Its energy.
    pub second_value: Decimal,
}

/// Spec view of [`Minables`].
pub struct MinablesV {
    pub name: Seq<char>,
    pub first_value: u32,
    pub second_value: Decimal,
}

impl View for Minables {
    type V = MinablesV;

    open spec fn view(&self) -> MinablesV {
        MinablesV {
            name: self.name@,
            first_value: self.first_value,
            second_value: self.second_value,
        }
    }
}

/// A trade good sold in a system.
#[derive(Debug, Clone, PartialEq, Eq)]
pub struct Trade {
    /// Its name.
    pub name: String,
    /// Its price.
    pub price: u32,
}

/// Spec view of [`Trade`].
pub struct TradeV {
    pub name: Seq<char>,
    pub price: u32,
}

impl View for Trade {
    type V = TradeV;

    open spec fn view(&self) -> TradeV {
        TradeV { name: self.name@, price: self.price }
    }
}

/// A sprite: either a bare resource name, or a block with animation
/// sub-fields.
#[derive(Debug, Clone, PartialEq, Eq)]
pub enum Sprite {
    /// A sprite block with animation parameters.
    Sprite {
        /// Name of the sprite resource.
        name: String,
        /// Frame time.
        frame_time: Option<u32>,
        /// Start delay.
        delay: Option<u32>,
        /// Whether the animation starts on a random frame.
        random_start_frame: bool,
        /// Whether the animation runs once.
        no_repeat: bool,
        /// Frame rate.
        frame_rate: Option<Decimal>,
    },
    /// A sprite with no animation sub-fields.
    Simple(String),
}

/// Spec view of [`Sprite`].
pub enum SpriteV {
    Sprite {
        name: Seq<char>,
        frame_time: Option<u32>,
        delay: Option<u32>,
        random_start_frame: bool,
        no_repeat: bool,
        frame_rate: Option<Decimal>,
    },
    Simple(Seq<char>),
}

impl View for Sprite {
    type V = SpriteV;

    open spec fn view(&self) -> SpriteV {
        match self {
            Sprite::Sprite { name, frame_time, delay, random_start_frame, no_repeat, frame_rate } => SpriteV::Sprite {
                name: name@,
                frame_time: *frame_time,
                delay: *delay,
                random_start_frame: *random_start_frame,
                no_repeat: *no_repeat,
                frame_rate: *frame_rate,
            },
            Sprite::Simple(name) => SpriteV::Simple(name@),
        }
    }
}

/// A visual effect.  Its name and sprite are mandatory; the rest is
/// optional.  The random-frame-rate field belongs to the data model but
/// has no field grammar; it always holds its default.
#[derive(Debug, Clone, PartialEq, Eq)]
pub struct Effect {
    /// Name of the effect.
    pub name: String,
    /// Sprite of the effect.
    pub sprite: Sprite,
    /// Sound of the effect.
    pub sound: Option<String>,
    /// Lifetime of the effect.
    pub lifetime: Option<Decimal>,
    /// Random angle of the effect.
    pub random_angle: Option<Decimal>,
    /// Random spin of the effect.
    pub random_spin: Option<Decimal>,
    /// Random frame rate of the effect.
    pub random_frame_rate: Option<Decimal>,
    /// Random velocity of the effect.
    pub random_velocity: Option<Decimal>,
    /// Velocity scale of the effect.
    pub velocity_scale: Option<Decimal>,
}

/// Spec view of [`Effect`].
pub struct EffectV {
    pub name: Seq<char>,
    pub sprite: SpriteV,
    pub sound: Option<Seq<char>>,
    pub lifetime: Option<Decimal>,
    pub random_angle: Option<Decimal>,
    pub random_spin: Option<Decimal>,
    pub random_frame_rate: Option<Decimal>,
    pub random_velocity: Option<Decimal>,
    pub velocity_scale: Option<Decimal>,
}

impl View for Effect {
    type V = EffectV;

    open spec fn view(&self) -> EffectV {
        EffectV {
            name: self.name@,
            sprite: self.sprite@,
            sound: opt_str_view(self.sound),
            lifetime: self.lifetime,
            random_angle: self.random_angle,
            random_spin: self.random_spin,
            random_frame_rate: self.random_frame_rate,
            random_velocity: self.random_velocity,
            velocity_scale: self.velocity_scale,
        }
    }
}

/// A positional object of a system: an optional name and sprite, orbital
/// parameters, and child objects one indentation level deeper, in source
/// order.  The period is mandatory.
#[derive(Debug, PartialEq, Eq)]
pub struct SystemObject {
    /// Its name.
    pub name: Option<String>,
    /// Its sprite.
    pub sprite: Option<String>,
    /// Orbital distance.
    pub distance: Option<Decimal>,
    /// Orbital period.
    pub period: Decimal,
    /// Orbital offset.
    pub offset: Option<Decimal>,
    /// Its child objects, in source order.
    pub objects: Vec<SystemObject>,
}

/// Spec view of [`SystemObject`].
pub struct SystemObjectV {
    pub name: Option<Seq<char>>,
    pub sprite: Option<Seq<char>>,
    pub distance: Option<Decimal>,
    pub period: Decimal,
    pub offset: Option<Decimal>,
    pub objects: Seq<SystemObjectV>,
}

/// The view of one system object, child objects included.
pub open spec fn sys_obj_view(o: SystemObject) -> SystemObjectV
    decreases o,
{
    SystemObjectV {
        name: opt_str_view(o.name),
        sprite: opt_str_view(o.sprite),
        distance: o.distance,
        period: o.period,
        offset: o.offset,
        objects: objs_view(o.objects@),
    }
}

/// The view of a sequence of system objects.
pub open spec fn objs_view(s: Seq<SystemObject>) -> Seq<SystemObjectV>
    decreases s,
{
    if s.len() == 0 {
        Seq::empty()
    } else {
        objs_view(s.drop_last()).push(sys_obj_view(s.last()))
    }
}

impl View for SystemObject {
    type V = SystemObjectV;

    open spec fn view(&self) -> SystemObjectV {
        sys_obj_view(*self)
    }
}

/// A system.  Its name comes from the tag line; position, government and
/// habitable value are mandatory; the rest is optional or accumulates in
/// source order.
#[derive(Debug, PartialEq, Eq)]
pub struct System {
    /// Its name.
    pub name: String,
    /// Its position.
    pub pos: Position,
    /// Its government.
    pub government: String,
    /// Its habitable value.
    pub habitable: Decimal,
    /// Its asteroid belt radius.
    pub belt: Option<u32>,
    /// Its haze type.
    pub haze: Option<String>,
    /// Links to other systems, in source order.
    pub links: Vec<String>,
    /// Asteroid populations, in source order.
    pub asteroids: Vec<Asteroids>,
    /// Minable populations, in source order.
    pub minables: Vec<Minables>,
    /// Trade goods sold here, in source order.
    pub trades: Vec<Trade>,
    /// Fleets present, in source order.
    pub fleets: Vec<Fleet>,
    /// Positional objects, in source order.
    pub objects: Vec<SystemObject>,
}

/// Spec view of [`System`].
pub struct SystemV {
    pub name: Seq<char>,
    pub pos: Position,
    pub government: Seq<char>,
    pub habitable: Decimal,
    pub belt: Option<u32>,
    pub haze: Option<Seq<char>>,
    pub links: Seq<Seq<char>>,
    pub asteroids: Seq<AsteroidsV>,
    pub minables: Seq<MinablesV>,
    pub trades: Seq<TradeV>,
    pub fleets: Seq<FleetV>,
    pub objects: Seq<SystemObjectV>,
}

impl View for System {
    type V = SystemV;

    open spec fn view(&self) -> SystemV {
        SystemV {
            name: self.name@,
            pos: self.pos,
            government: self.government@,
            habitable: self.habitable,
            belt: self.belt,
            haze: opt_str_view(self.haze),
            links: strs_view(self.links@),
            asteroids: self.asteroids@.map_values(|x: Asteroids| x@),
            minables: self.minables@.map_values(|x: Minables| x@),
            trades: self.trades@.map_values(|x: Trade| x@),
            fleets: self.fleets@.map_values(|x: Fleet| x@),
            objects: objs_view(self.objects@),
        }
    }
}


/// The view of an optional sprite.
pub open spec fn opt_sprite_view(s: &Option<Sprite>) -> Option<SpriteV> {
    match s {
        Option::None => Option::None,
        Option::Some(x) => Option::Some(x@),
    }
}

/// A reference to an effect by name, with an optional count.
#[derive(Debug, Clone, PartialEq, Eq)]
pub struct NamedCount {
    /// Name of the referenced effect.
    pub name: String,
    /// Count, where one is given.
    pub count: Option<i32>,
}

/// Spec view of [`NamedCount`].
pub struct NamedCountV {
    pub name: Seq<char>,
    pub count: Option<i32>,
}

impl View for NamedCount {
    type V = NamedCountV;

    open spec fn view(&self) -> NamedCountV {
        NamedCountV { name: self.name@, count: self.count }
    }
}

/// A weapon block of an outfit.  Every field is optional.
#[derive(Debug, Clone, PartialEq, Eq)]
pub struct Weapon {
    /// Sprite of the weapon.
    pub sprite: Option<Sprite>,
    /// Hardpoint sprite of the weapon.
    pub hardpoint_sprite: Option<Sprite>,
    /// Hardpoint offset coordinates.
    pub hardpoint_offset: Option<Vec<Decimal>>,
    /// Sound of the weapon.
    pub sound: Option<String>,
    /// Ammo used by the weapon.
    pub ammo: Option<String>,
    /// Icon of the weapon.
    pub icon: Option<String>,
    /// Hit effect and count.
    pub hit_effect: Option<NamedCount>,
    /// Fire effect and count.
    pub fire_effect: Option<NamedCount>,
    /// Die effect and count.
    pub die_effect: Option<NamedCount>,
    /// Submunition and count.
    pub submunition: Option<NamedCount>,
    /// Anti-missile strength.
    pub anti_missile: Option<Decimal>,
    /// Inaccuracy.
    pub inaccuracy: Option<Decimal>,
    /// Turret turn rate.
    pub turret_turn: Option<Decimal>,
    /// Projectile velocity.
    pub velocity: Option<Decimal>,
    /// Projectile lifetime.
    pub lifetime: Option<Decimal>,
    /// Random velocity.
    pub random_velocity: Option<Decimal>,
    /// Random lifetime.
    pub random_lifetime: Option<Decimal>,
    /// Reload time.
    pub reload: Option<Decimal>,
    /// Firing energy.
    pub firing_energy: Option<Decimal>,
    /// Firing force.
    pub firing_force: Option<Decimal>,
    /// Firing fuel.
    pub firing_fuel: Option<Decimal>,
    /// Firing heat.
    pub firing_heat: Option<Decimal>,
    /// Hit force.
    pub hit_force: Option<Decimal>,
    /// Shield damage.
    pub shield_damage: Option<Decimal>,
    /// Hull damage.
    pub hull_damage: Option<Decimal>,
    /// Heat damage.
    pub heat_damage: Option<Decimal>,
    /// Acceleration.
    pub acceleration: Option<Decimal>,
    /// Drag.
    pub drag: Option<Decimal>,
    /// Turn rate.
    pub turn: Option<Decimal>,
    /// Homing strength.
    pub homing: Option<Decimal>,
    /// Infrared tracking.
    pub infrared_tracking: Option<Decimal>,
    /// Radar tracking.
    pub radar_tracking: Option<Decimal>,
    /// Optical tracking.
    pub optical_tracking: Option<Decimal>,
    /// Trigger radius.
    pub trigger_radius: Option<Decimal>,
    /// Blast radius.
    pub blast_radius: Option<Decimal>,
    /// Missile strength.
    pub missile_strength: Option<Decimal>,
    /// Whether the weapon fires in a stream.
    pub stream: bool,
    /// Whether the weapon fires in a cluster.
    pub cluster: bool,
    /// Burst count.
    pub burst_count: Option<u32>,
    /// Burst reload.
    pub burst_reload: Option<u32>,
}

/// Spec view of [`Weapon`].
pub struct WeaponV {
    pub sprite: Option<SpriteV>,
    pub hardpoint_sprite: Option<SpriteV>,
    pub hardpoint_offset: Option<Seq<Decimal>>,
    pub sound: Option<Seq<char>>,
    pub ammo: Option<Seq<char>>,
    pub icon: Option<Seq<char>>,
    pub hit_effect: Option<NamedCountV>,
    pub fire_effect: Option<NamedCountV>,
    pub die_effect: Option<NamedCountV>,
    pub submunition: Option<NamedCountV>,
    pub anti_missile: Option<Decimal>,
    pub inaccuracy: Option<Decimal>,
    pub turret_turn: Option<Decimal>,
    pub velocity: Option<Decimal>,
    pub lifetime: Option<Decimal>,
    pub random_velocity: Option<Decimal>,
    pub random_lifetime: Option<Decimal>,
    pub reload: Option<Decimal>,
    pub firing_energy: Option<Decimal>,
    pub firing_force: Option<Decimal>,
    pub firing_fuel: Option<Decimal>,
    pub firing_heat: Option<Decimal>,
    pub hit_force: Option<Decimal>,
    pub shield_damage: Option<Decimal>,
    pub hull_damage: Option<Decimal>,
    pub heat_damage: Option<Decimal>,
    pub acceleration: Option<Decimal>,
    pub drag: Option<Decimal>,
    pub turn: Option<Decimal>,
    pub homing: Option<Decimal>,
    pub infrared_tracking: Option<Decimal>,
    pub radar_tracking: Option<Decimal>,
    pub optical_tracking: Option<Decimal>,
    pub trigger_radius: Option<Decimal>,
    pub blast_radius: Option<Decimal>,
    pub missile_strength: Option<Decimal>,
    pub stream: bool,
    pub cluster: bool,
    pub burst_count: Option<u32>,
    pub burst_reload: Option<u32>,
}

impl View for Weapon {
    type V = WeaponV;

    open spec fn view(&self) -> WeaponV {
        WeaponV {
            sprite: opt_sprite_view(&self.sprite),
            hardpoint_sprite: opt_sprite_view(&self.hardpoint_sprite),
            hardpoint_offset: match &self.hardpoint_offset { Option::None => Option::None, Option::Some(d) => Option::Some(d@) },
            sound: opt_str_view(self.sound),
            ammo: opt_str_view(self.ammo),
            icon: opt_str_view(self.icon),
            hit_effect: match &self.hit_effect { Option::None => Option::None, Option::Some(x) => Option::Some(x@) },
            fire_effect: match &self.fire_effect { Option::None => Option::None, Option::Some(x) => Option::Some(x@) },
            die_effect: match &self.die_effect { Option::None => Option::None, Option::Some(x) => Option::Some(x@) },
            submunition: match &self.submunition { Option::None => Option::None, Option::Some(x) => Option::Some(x@) },
            anti_missile: self.anti_missile,
            inaccuracy: self.inaccuracy,
            turret_turn: self.turret_turn,
            velocity: self.velocity,
            lifetime: self.lifetime,
            random_velocity: self.random_velocity,
            random_lifetime: self.random_lifetime,
            reload: self.reload,
            firing_energy: self.firing_energy,
            firing_force: self.firing_force,
            firing_fuel: self.firing_fuel,
            firing_heat: self.firing_heat,
            hit_force: self.hit_force,
            shield_damage: self.shield_damage,
            hull_damage: self.hull_damage,
            heat_damage: self.heat_damage,
            acceleration: self.acceleration,
            drag: self.drag,
            turn: self.turn,
            homing: self.homing,
            infrared_tracking: self.infrared_tracking,
            radar_tracking: self.radar_tracking,
            optical_tracking: self.optical_tracking,
            trigger_radius: self.trigger_radius,
            blast_radius: self.blast_radius,
            missile_strength: self.missile_strength,
            stream: self.stream,
            cluster: self.cluster,
            burst_count: self.burst_count,
            burst_reload: self.burst_reload,
        }
    }
}

/// An outfit.  Its name comes from the tag line; every other field is
/// optional and defaults to absence, zero, or an empty sequence.
#[derive(Debug, Clone, PartialEq, Eq)]
pub struct Outfit {
    /// Name of the outfit.
    pub name: String,
    /// Plural form of the name.
    pub plural: Option<String>,
    /// Category of the outfit.
    pub category: Option<String>,
    /// Cost of the outfit.
    pub cost: u32,
    /// Whether the outfit is unplunderable.
    pub unplunderable: u32,
    /// Thumbnail of the outfit.
    pub thumbnail: Option<String>,
    /// Mass of the outfit.
    pub mass: Decimal,
    /// Outfit space used.
    pub outfit_space: Decimal,
    /// Cargo space used.
    pub cargo_space: Option<Decimal>,
    /// Cooling provided.
    pub cooling: Option<Decimal>,
    /// Cooling inefficiency.
    pub cooling_inefficiency: Option<Decimal>,
    /// Heat dissipation.
    pub heat_dissipation: Option<Decimal>,
    /// Shield generation.
    pub shield_generation: Option<Decimal>,
    /// Shield energy.
    pub shield_energy: Option<Decimal>,
    /// Energy consumption.
    pub energy_consumption: Option<Decimal>,
    /// Heat generation.
    pub heat_generation: Option<Decimal>,
    /// Radar jamming.
    pub radar_jamming: Option<Decimal>,
    /// Ramscoop strength.
    pub ramscoop: Option<Decimal>,
    /// Jump speed.
    pub jump_speed: Option<Decimal>,
    /// Jump fuel.
    pub jump_fuel: Option<Decimal>,
    /// Hyperdrive capability.
    pub hyperdrive: Option<Decimal>,
    /// Scram drive capability.
    pub scram_drive: Option<Decimal>,
    /// Jump drive capability.
    pub jump_drive: Option<Decimal>,
    /// Cargo scan power.
    pub cargo_scan_power: Option<Decimal>,
    /// Cargo scan speed.
    pub cargo_scan_speed: Option<Decimal>,
    /// Outfit scan power.
    pub outfit_scan_power: Option<Decimal>,
    /// Outfit scan speed.
    pub outfit_scan_speed: Option<Decimal>,
    /// Asteroid scan power.
    pub asteroid_scan_power: Option<Decimal>,
    /// Tactical scan power.
    pub tactical_scan_power: Option<Decimal>,
    /// Atmosphere scan.
    pub atmosphere_scan: Option<Decimal>,
    /// Cloak strength.
    pub cloak: Option<Decimal>,
    /// Cloaking energy.
    pub cloaking_energy: Option<Decimal>,
    /// Cloaking fuel.
    pub cloaking_fuel: Option<Decimal>,
    /// Bunks added.
    pub bunks: Option<Decimal>,
    /// Crew required.
    pub required_crew: Option<Decimal>,
    /// Fuel capacity added.
    pub fuel_capacity: Option<Decimal>,
    /// Scan interference.
    pub scan_interference: Option<Decimal>,
    /// Capture attack.
    pub capture_attack: Option<Decimal>,
    /// Capture defense.
    pub capture_defense: Option<Decimal>,
    /// Fine for carrying the outfit.
    pub illegal: Option<Decimal>,
    /// Map knowledge granted.
    pub map_value: Option<Decimal>,
    /// Weapon capacity used.
    pub weapon_capacity: Option<Decimal>,
    /// Engine capacity used.
    pub engine_capacity: Option<Decimal>,
    /// Afterburner thrust.
    pub afterburner_thrust: Option<Decimal>,
    /// Afterburner fuel.
    pub afterburner_fuel: Option<Decimal>,
    /// Afterburner energy.
    pub afterburner_energy: Option<Decimal>,
    /// Afterburner heat.
    pub afterburner_heat: Option<Decimal>,
    /// Afterburner effect.
    pub afterburner_effect: Option<String>,
    /// Turn power.
    pub turn: Option<Decimal>,
    /// Turning energy consumption.
    pub turning_energy: Option<Decimal>,
    /// Turning heat production.
    pub turning_heat: Option<Decimal>,
    /// Thrust power.
    pub thrust: Option<Decimal>,
    /// Thrusting energy consumption.
    pub thrusting_energy: Option<Decimal>,
    /// Thrusting heat generation.
    pub thrusting_heat: Option<Decimal>,
    /// Reverse thrust power.
    pub reverse_thrust: Option<Decimal>,
    /// Reverse thrusting energy consumption.
    pub reverse_thrusting_energy: Option<Decimal>,
    /// Reverse thrusting heat generation.
    pub reverse_thrusting_heat: Option<Decimal>,
    /// Energy capacity.
    pub energy_capacity: Option<u32>,
    /// Solar collection.
    pub solar_collection: Option<Decimal>,
    /// Energy generation.
    pub energy_generation: Option<Decimal>,
    /// Flare sprite.
    pub flare_sprite: Option<Sprite>,
    /// Flare sound.
    pub flare_sound: Option<String>,
    /// Gun ports provided or occupied.
    pub gun_ports: Option<Decimal>,
    /// Turret mounts provided or occupied.
    pub turret_mounts: Option<i32>,
    /// Weapon details.
    pub weapon: Option<Weapon>,
    /// Ammo it can contain.
    pub ammo: Option<String>,
    /// Gatling round capacity.
    pub gatling_round_capacity: Option<i32>,
    /// Javelin capacity.
    pub javelin_capacity: Option<i32>,
    /// Meteor capacity.
    pub meteor_capacity: Option<i32>,
    /// Rocket capacity.
    pub rocket_capacity: Option<i32>,
    /// Sidewinder capacity.
    pub sidewinder_capacity: Option<i32>,
    /// Torpedo capacity.
    pub torpedo_capacity: Option<i32>,
    /// Typhoon capacity.
    pub typhoon_capacity: Option<i32>,
    /// Description, one entry per source line.
    pub description: Vec<String>,
}

/// Spec view of [`Outfit`].
pub struct OutfitV {
    pub name: Seq<char>,
    pub plural: Option<Seq<char>>,
    pub category: Option<Seq<char>>,
    pub cost: u32,
    pub unplunderable: u32,
    pub thumbnail: Option<Seq<char>>,
    pub mass: Decimal,
    pub outfit_space: Decimal,
    pub cargo_space: Option<Decimal>,
    pub cooling: Option<Decimal>,
    pub cooling_inefficiency: Option<Decimal>,
    pub heat_dissipation: Option<Decimal>,
    pub shield_generation: Option<Decimal>,
    pub shield_energy: Option<Decimal>,
    pub energy_consumption: Option<Decimal>,
    pub heat_generation: Option<Decimal>,
    pub radar_jamming: Option<Decimal>,
    pub ramscoop: Option<Decimal>,
    pub jump_speed: Option<Decimal>,
    pub jump_fuel: Option<Decimal>,
    pub hyperdrive: Option<Decimal>,
    pub scram_drive: Option<Decimal>,
    pub jump_drive: Option<Decimal>,
    pub cargo_scan_power: Option<Decimal>,
    pub cargo_scan_speed: Option<Decimal>,
    pub outfit_scan_power: Option<Decimal>,
    pub outfit_scan_speed: Option<Decimal>,
    pub asteroid_scan_power: Option<Decimal>,
    pub tactical_scan_power: Option<Decimal>,
    pub atmosphere_scan: Option<Decimal>,
    pub cloak: Option<Decimal>,
    pub cloaking_energy: Option<Decimal>,
    pub cloaking_fuel: Option<Decimal>,
    pub bunks: Option<Decimal>,
    pub required_crew: Option<Decimal>,
    pub fuel_capacity: Option<Decimal>,
    pub scan_interference: Option<Decimal>,
    pub capture_attack: Option<Decimal>,
    pub capture_defense: Option<Decimal>,
    pub illegal: Option<Decimal>,
    pub map_value: Option<Decimal>,
    pub weapon_capacity: Option<Decimal>,
    pub engine_capacity: Option<Decimal>,
    pub afterburner_thrust: Option<Decimal>,
    pub afterburner_fuel: Option<Decimal>,
    pub afterburner_energy: Option<Decimal>,
    pub afterburner_heat: Option<Decimal>,
    pub afterburner_effect: Option<Seq<char>>,
    pub turn: Option<Decimal>,
    pub turning_energy: Option<Decimal>,
    pub turning_heat: Option<Decimal>,
    pub thrust: Option<Decimal>,
    pub thrusting_energy: Option<Decimal>,
    pub thrusting_heat: Option<Decimal>,
    pub reverse_thrust: Option<Decimal>,
    pub reverse_thrusting_energy: Option<Decimal>,
    pub reverse_thrusting_heat: Option<Decimal>,
    pub energy_capacity: Option<u32>,
    pub solar_collection: Option<Decimal>,
    pub energy_generation: Option<Decimal>,
    pub flare_sprite: Option<SpriteV>,
    pub flare_sound: Option<Seq<char>>,
    pub gun_ports: Option<Decimal>,
    pub turret_mounts: Option<i32>,
    pub weapon: Option<WeaponV>,
    pub ammo: Option<Seq<char>>,
    pub gatling_round_capacity: Option<i32>,
    pub javelin_capacity: Option<i32>,
    pub meteor_capacity: Option<i32>,
    pub rocket_capacity: Option<i32>,
    pub sidewinder_capacity: Option<i32>,
    pub torpedo_capacity: Option<i32>,
    pub typhoon_capacity: Option<i32>,
    pub description: Seq<Seq<char>>,
}

impl View for Outfit {
    type V = OutfitV;

    open spec fn view(&self) -> OutfitV {
        OutfitV {
            name: self.name@,
            plural: opt_str_view(self.plural),
            category: opt_str_view(self.category),
            cost: self.cost,
            unplunderable: self.unplunderable,
            thumbnail: opt_str_view(self.thumbnail),
            mass: self.mass,
            outfit_space: self.outfit_space,
            cargo_space: self.cargo_space,
            cooling: self.cooling,
            cooling_inefficiency: self.cooling_inefficiency,
            heat_dissipation: self.heat_dissipation,
            shield_generation: self.shield_generation,
            shield_energy: self.shield_energy,
            energy_consumption: self.energy_consumption,
            heat_generation: self.heat_generation,
            radar_jamming: self.radar_jamming,
            ramscoop: self.ramscoop,
            jump_speed: self.jump_speed,
            jump_fuel: self.jump_fuel,
            hyperdrive: self.hyperdrive,
            scram_drive: self.scram_drive,
            jump_drive: self.jump_drive,
            cargo_scan_power: self.cargo_scan_power,
            cargo_scan_speed: self.cargo_scan_speed,
            outfit_scan_power: self.outfit_scan_power,
            outfit_scan_speed: self.outfit_scan_speed,
            asteroid_scan_power: self.asteroid_scan_power,
            tactical_scan_power: self.tactical_scan_power,
            atmosphere_scan: self.atmosphere_scan,
            cloak: self.cloak,
            cloaking_energy: self.cloaking_energy,
            cloaking_fuel: self.cloaking_fuel,
            bunks: self.bunks,
            required_crew: self.required_crew,
            fuel_capacity: self.fuel_capacity,
            scan_interference: self.scan_interference,
            capture_attack: self.capture_attack,
            capture_defense: self.capture_defense,
            illegal: self.illegal,
            map_value: self.map_value,
            weapon_capacity: self.weapon_capacity,
            engine_capacity: self.engine_capacity,
            afterburner_thrust: self.afterburner_thrust,
            afterburner_fuel: self.afterburner_fuel,
            afterburner_energy: self.afterburner_energy,
            afterburner_heat: self.afterburner_heat,
            afterburner_effect: opt_str_view(self.afterburner_effect),
            turn: self.turn,
            turning_energy: self.turning_energy,
            turning_heat: self.turning_heat,
            thrust: self.thrust,
            thrusting_energy: self.thrusting_energy,
            thrusting_heat: self.thrusting_heat,
            reverse_thrust: self.reverse_thrust,
            reverse_thrusting_energy: self.reverse_thrusting_energy,
            reverse_thrusting_heat: self.reverse_thrusting_heat,
            energy_capacity: self.energy_capacity,
            solar_collection: self.solar_collection,
            energy_generation: self.energy_generation,
            flare_sprite: opt_sprite_view(&self.flare_sprite),
            flare_sound: opt_str_view(self.flare_sound),
            gun_ports: self.gun_ports,
            turret_mounts: self.turret_mounts,
            weapon: match &self.weapon { Option::None => Option::None, Option::Some(w) => Option::Some(w@) },
            ammo: opt_str_view(self.ammo),
            gatling_round_capacity: self.gatling_round_capacity,
            javelin_capacity: self.javelin_capacity,
            meteor_capacity: self.meteor_capacity,
            rocket_capacity: self.rocket_capacity,
            sidewinder_capacity: self.sidewinder_capacity,
            torpedo_capacity: self.torpedo_capacity,
            typhoon_capacity: self.typhoon_capacity,
            description: strs_view(self.description@),
        }
    }
}

/// A top-level object of the format: the closed union over the record
/// kinds the dispatcher recognizes.
#[derive(Debug, PartialEq, Eq)]
pub enum Object {
    /// A player start record.
    Start(Start),
    /// A planet.
    Planet(Planet),
    /// A galaxy.
    Galaxy(Galaxy),
    /// A system.
    System(System),
    /// An outfit.
    Outfit(Outfit),
    /// An effect.
    Effect(Effect),
}

/// Spec view of [`Object`].
pub enum ObjectV {
    Start(StartV),
    Planet(PlanetV),
    Galaxy(GalaxyV),
    System(SystemV),
    Outfit(OutfitV),
    Effect(EffectV),
}

impl View for Object {
    type V = ObjectV;

    open spec fn view(&self) -> ObjectV {
        match self {
            Object::Start(x) => ObjectV::Start(x@),
            Object::Planet(x) => ObjectV::Planet(x@),
            Object::Galaxy(x) => ObjectV::Galaxy(x@),
            Object::System(x) => ObjectV::System(x@),
            Object::Outfit(x) => ObjectV::Outfit(x@),
            Object::Effect(x) => ObjectV::Effect(x@),
        }
    }
}

} // verus!
