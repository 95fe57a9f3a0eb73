//! User-interface messages carried inside `SvcUserMessage`.
//!
//! The 8-bit type tag indexes into the per-protocol catalog kept by the
//! protocol context; the catalog grows strictly with newer protocol versions.
//! Every 32-bit IEEE-754 field is kept as its raw bit pattern (`*_bits`);
//! scaled fixed-point fields keep their exact integer numerators.

use vstd::prelude::*;
use crate::DecodeError;
use crate::bitreader::{
    BitReader, after_cstr, bits_ok, bool_at, cstr_at, has_cstr, int_at, uint_at,
};
use crate::utils::{EHandle, FixedPoint, Vec3};

verus! {

/// Every user-message type any supported protocol version can name.
#[derive(Debug, Copy, Clone, PartialEq, Eq, Structural)]
pub enum UserMessageType {
    Unknown,
    Geiger,
    Train,
    HudText,
    SayText,
    SayText2,
    TextMsg,
    HudMsg,
    ResetHUD,
    GameTitle,
    ItemPickup,
    ShowMenu,
    Shake,
    Fade,
    VguiMenu,
    Rumble,
    Battery,
    Damage,
    VoiceMask,
    RequestState,
    CloseCaption,
    HintText,
    KeyHintText,
    SquadMemberDied,
    AmmoDenied,
    CreditsMsg,
    CreditsPortalMsg,
    LogoTimeMsg,
    AchievementEvent,
    EntityPortalled,
    KillCam,
    SPHapWeaponEvent,
    HapDmg,
    HapPunch,
    HapSetDrag,
    HapSetConstForce,
    HapMeleeContact,
    Tilt,
    CloseCaptionDirect,
    UpdateJalopyRadar,
    CurrentTimescale,
    DesiredTimescale,
    InventoryFlash,
    IndicatorFlash,
    ControlHelperAnimate,
    TakePhoto,
    Flash,
    HudPingIndicator,
    OpenRadialMenu,
    AddLocator,
    MpMapCompleted,
    MpMapIncomplete,
    MpMapCompletedData,
    MpTauntEarned,
    MpTauntUnlocked,
    MpTauntLocked,
    MpAllTauntsLocked,
    PortalFXSurface,
    PaintWorld,
    PaintEntity,
    ChangePaintColor,
    PaintBombExplode,
    RemoveAllPaint,
    PaintAllSurfaces,
    RemovePaint,
    StartSurvey,
    ApplyHitBoxDamageEffect,
    SetMixLayerTriggerFactor,
    TransitionFade,
    ScoreboardTempUpdate,
    ChallengeModCheatSession,
    ChallengeModCloseAllUI,
    CallVoteFailed,
    VoteStart,
    VotePass,
    VoteFailed,
    VoteSetup,
}

/// An achievement unlock notification.
#[derive(Clone, Debug)]
pub struct AchievementEvent {
    pub achievement_id: i32,
}

impl AchievementEvent {
    pub fn parse(reader: &mut BitReader) -> (r: Result<Self, DecodeError>)
        requires
            old(reader).wf(),
        ensures
            final(reader).wf(),
            final(reader).buf() == old(reader).buf(),
            final(reader).pos >= old(reader).pos,
            r is Ok <==> bits_ok(old(reader).buf(), old(reader).pos as int, 32),
            r matches Ok(m) ==> m.achievement_id == int_at(
                old(reader).buf(),
                old(reader).pos as int,
                32,
            ) && final(reader).pos == old(reader).pos + 32,
            r is Err ==> r == Err::<Self, DecodeError>(DecodeError::BufferExhausted),
    {
        Ok(Self { achievement_id: reader.read_int(32)? })
    }
}

/// The suit battery level.
#[derive(Clone, Debug)]
pub struct Battery {
    pub battery_val: i32,
}

impl Battery {
    pub fn parse(reader: &mut BitReader) -> (r: Result<Self, DecodeError>)
        requires
            old(reader).wf(),
        ensures
            final(reader).wf(),
            final(reader).buf() == old(reader).buf(),
            final(reader).pos >= old(reader).pos,
            r is Ok <==> bits_ok(old(reader).buf(), old(reader).pos as int, 16),
            r matches Ok(m) ==> m.battery_val == int_at(
                old(reader).buf(),
                old(reader).pos as int,
                16,
            ) && final(reader).pos == old(reader).pos + 16,
            r is Err ==> r == Err::<Self, DecodeError>(DecodeError::BufferExhausted),
    {
        Ok(Self { battery_val: reader.read_int(16)? })
    }
}

/// The Geiger-counter intensity.
#[derive(Clone, Debug)]
pub struct Geiger {
    pub geiger_range: i32,
}

impl Geiger {
    pub fn parse(reader: &mut BitReader) -> (r: Result<Self, DecodeError>)
        requires
            old(reader).wf(),
        ensures
            final(reader).wf(),
            final(reader).buf() == old(reader).buf(),
            final(reader).pos >= old(reader).pos,
            r is Ok <==> bits_ok(old(reader).buf(), old(reader).pos as int, 8),
            r matches Ok(m) ==> m.geiger_range == int_at(old(reader).buf(), old(reader).pos as int, 8)
                && final(reader).pos == old(reader).pos + 8,
            r is Err ==> r == Err::<Self, DecodeError>(DecodeError::BufferExhausted),
    {
        Ok(Self { geiger_range: reader.read_int(8)? })
    }
}

/// The funicular-train position indicator.
#[derive(Clone, Debug)]
pub struct Train {
    pub pos: i32,
}

impl Train {
    pub fn parse(reader: &mut BitReader) -> (r: Result<Self, DecodeError>)
        requires
            old(reader).wf(),
        ensures
            final(reader).wf(),
            final(reader).buf() == old(reader).buf(),
            final(reader).pos >= old(reader).pos,
            r is Ok <==> bits_ok(old(reader).buf(), old(reader).pos as int, 8),
            r matches Ok(m) ==> m.pos == int_at(old(reader).buf(), old(reader).pos as int, 8)
                && final(reader).pos == old(reader).pos + 8,
            r is Err ==> r == Err::<Self, DecodeError>(DecodeError::BufferExhausted),
    {
        Ok(Self { pos: reader.read_int(8)? })
    }
}

/// A full HUD reset; the byte it carries is unused.
#[derive(Clone, Debug)]
pub struct ResetHUD {
    pub unknown: i32,
}

impl ResetHUD {
    pub fn parse(reader: &mut BitReader) -> (r: Result<Self, DecodeError>)
        requires
            old(reader).wf(),
        ensures
            final(reader).wf(),
            final(reader).buf() == old(reader).buf(),
            final(reader).pos >= old(reader).pos,
            r is Ok <==> bits_ok(old(reader).buf(), old(reader).pos as int, 8),
            r matches Ok(m) ==> m.unknown == int_at(old(reader).buf(), old(reader).pos as int, 8)
                && final(reader).pos == old(reader).pos + 8,
            r is Err ==> r == Err::<Self, DecodeError>(DecodeError::BufferExhausted),
    {
        Ok(Self { unknown: reader.read_int(8)? })
    }
}

/// The co-op map-completion notice: chamber branch and level.
#[derive(Clone, Debug)]
pub struct MpMapCompleted {
    pub branch: i32,
    pub level: i32,
}

impl MpMapCompleted {
    pub fn parse(reader: &mut BitReader) -> (r: Result<Self, DecodeError>)
        requires
            old(reader).wf(),
        ensures
            final(reader).wf(),
            final(reader).buf() == old(reader).buf(),
            final(reader).pos >= old(reader).pos,
            r is Ok <==> bits_ok(old(reader).buf(), old(reader).pos as int, 16),
            r matches Ok(m) ==> m.branch == int_at(old(reader).buf(), old(reader).pos as int, 8)
                && m.level == int_at(old(reader).buf(), old(reader).pos as int + 8, 8)
                && final(reader).pos == old(reader).pos + 16,
            r is Err ==> r == Err::<Self, DecodeError>(DecodeError::BufferExhausted),
    {
        let branch = reader.read_int(8)?;
        let level = reader.read_int(8)?;
        Ok(Self { branch, level })
    }
}

/// The portals-and-time scoreboard update.
#[derive(Clone, Debug)]
pub struct ScoreboardTempUpdate {
    pub num_portals: i32,
    /// Completion time in hundredths of a second.
    pub time_taken: i32,
}

impl ScoreboardTempUpdate {
    pub fn parse(reader: &mut BitReader) -> (r: Result<Self, DecodeError>)
        requires
            old(reader).wf(),
        ensures
            final(reader).wf(),
            final(reader).buf() == old(reader).buf(),
            final(reader).pos >= old(reader).pos,
            r is Ok <==> bits_ok(old(reader).buf(), old(reader).pos as int, 64),
            r matches Ok(m) ==> m.num_portals == int_at(old(reader).buf(), old(reader).pos as int, 32)
                && m.time_taken == int_at(old(reader).buf(), old(reader).pos as int + 32, 32)
                && final(reader).pos == old(reader).pos + 64,
            r is Err ==> r == Err::<Self, DecodeError>(DecodeError::BufferExhausted),
    {
        let num_portals = reader.read_int(32)?;
        let time_taken = reader.read_int(32)?;
        Ok(Self { num_portals, time_taken })
    }
}

/// The splash-logo display time, raw IEEE-754 bits.
#[derive(Clone, Debug)]
pub struct LogoTimeMsg {
    pub time_bits: u32,
}

impl LogoTimeMsg {
    pub fn parse(reader: &mut BitReader) -> (r: Result<Self, DecodeError>)
        requires
            old(reader).wf(),
        ensures
            final(reader).wf(),
            final(reader).buf() == old(reader).buf(),
            final(reader).pos >= old(reader).pos,
            r is Ok <==> bits_ok(old(reader).buf(), old(reader).pos as int, 32),
            r matches Ok(m) ==> m.time_bits as nat == uint_at(
                old(reader).buf(),
                old(reader).pos as int,
                32,
            ) && final(reader).pos == old(reader).pos + 32,
            r is Err ==> r == Err::<Self, DecodeError>(DecodeError::BufferExhausted),
    {
        Ok(Self { time_bits: reader.read_f32_bits()? })
    }
}

/// A screen-transition fade time, raw IEEE-754 bits.
#[derive(Clone, Debug)]
pub struct TransitionFade {
    pub seconds_bits: u32,
}

impl TransitionFade {
    pub fn parse(reader: &mut BitReader) -> (r: Result<Self, DecodeError>)
        requires
            old(reader).wf(),
        ensures
            final(reader).wf(),
            final(reader).buf() == old(reader).buf(),
            final(reader).pos >= old(reader).pos,
            r is Ok <==> bits_ok(old(reader).buf(), old(reader).pos as int, 32),
            r matches Ok(m) ==> m.seconds_bits as nat == uint_at(
                old(reader).buf(),
                old(reader).pos as int,
                32,
            ) && final(reader).pos == old(reader).pos + 32,
            r is Err ==> r == Err::<Self, DecodeError>(DecodeError::BufferExhausted),
    {
        Ok(Self { seconds_bits: reader.read_f32_bits()? })
    }
}

/// An entity passing through a portal: the two handles and the new placement.
#[derive(Clone, Debug)]
pub struct EntityPortalled {
    pub portal: EHandle,
    pub portalled: EHandle,
    pub new_position: Vec3,
    pub new_angles: Vec3,
}

impl EntityPortalled {
    pub fn parse(reader: &mut BitReader) -> (r: Result<Self, DecodeError>)
        requires
            old(reader).wf(),
        ensures
            final(reader).wf(),
            final(reader).buf() == old(reader).buf(),
            final(reader).pos >= old(reader).pos,
            r is Ok <==> bits_ok(old(reader).buf(), old(reader).pos as int, 256),
            r matches Ok(m) ==> ({
                let buf = old(reader).buf();
                let p = old(reader).pos as int;
                &&& m.portal.val == int_at(buf, p, 32)
                &&& m.portalled.val == int_at(buf, p + 32, 32)
                &&& m.new_position.x_bits as nat == uint_at(buf, p + 64, 32)
                &&& m.new_position.y_bits as nat == uint_at(buf, p + 96, 32)
                &&& m.new_position.z_bits as nat == uint_at(buf, p + 128, 32)
                &&& m.new_angles.x_bits as nat == uint_at(buf, p + 160, 32)
                &&& m.new_angles.y_bits as nat == uint_at(buf, p + 192, 32)
                &&& m.new_angles.z_bits as nat == uint_at(buf, p + 224, 32)
                &&& final(reader).pos == old(reader).pos + 256
            }),
            r is Err ==> r == Err::<Self, DecodeError>(DecodeError::BufferExhausted),
    {
        let portal = EHandle { val: reader.read_int(32)? };
        let portalled = EHandle { val: reader.read_int(32)? };
        let new_position = reader.read_vec3()?;
        let new_angles = reader.read_vec3()?;
        Ok(Self { portal, portalled, new_position, new_angles })
    }
}

/// Three haptic punch components, raw IEEE-754 bits.
#[derive(Clone, Debug)]
pub struct HapPunch {
    pub f1_bits: u32,
    pub f2_bits: u32,
    pub f3_bits: u32,
}

impl HapPunch {
    pub fn parse(reader: &mut BitReader) -> (r: Result<Self, DecodeError>)
        requires
            old(reader).wf(),
        ensures
            final(reader).wf(),
            final(reader).buf() == old(reader).buf(),
            final(reader).pos >= old(reader).pos,
            r is Ok <==> bits_ok(old(reader).buf(), old(reader).pos as int, 96),
            r matches Ok(m) ==> ({
                let buf = old(reader).buf();
                let p = old(reader).pos as int;
                &&& m.f1_bits as nat == uint_at(buf, p, 32)
                &&& m.f2_bits as nat == uint_at(buf, p + 32, 32)
                &&& m.f3_bits as nat == uint_at(buf, p + 64, 32)
                &&& final(reader).pos == old(reader).pos + 96
            }),
            r is Err ==> r == Err::<Self, DecodeError>(DecodeError::BufferExhausted),
    {
        let f1_bits = reader.read_f32_bits()?;
        let f2_bits = reader.read_f32_bits()?;
        let f3_bits = reader.read_f32_bits()?;
        Ok(Self { f1_bits, f2_bits, f3_bits })
    }
}

/// A constant haptic force, three signed 16-bit components.
#[derive(Clone, Debug)]
pub struct HapSetConstForce {
    pub s1: i32,
    pub s2: i32,
    pub s3: i32,
}

impl HapSetConstForce {
    pub fn parse(reader: &mut BitReader) -> (r: Result<Self, DecodeError>)
        requires
            old(reader).wf(),
        ensures
            final(reader).wf(),
            final(reader).buf() == old(reader).buf(),
            final(reader).pos >= old(reader).pos,
            r is Ok <==> bits_ok(old(reader).buf(), old(reader).pos as int, 48),
            r matches Ok(m) ==> ({
                let buf = old(reader).buf();
                let p = old(reader).pos as int;
                &&& m.s1 == int_at(buf, p, 16)
                &&& m.s2 == int_at(buf, p + 16, 16)
                &&& m.s3 == int_at(buf, p + 32, 16)
                &&& final(reader).pos == old(reader).pos + 48
            }),
            r is Err ==> r == Err::<Self, DecodeError>(DecodeError::BufferExhausted),
    {
        let s1 = reader.read_int(16)?;
        let s2 = reader.read_int(16)?;
        let s3 = reader.read_int(16)?;
        Ok(Self { s1, s2, s3 })
    }
}

/// The haptic drag factor, raw IEEE-754 bits.
#[derive(Clone, Debug)]
pub struct HapSetDrag {
    pub unknown_bits: u32,
}

impl HapSetDrag {
    pub fn parse(reader: &mut BitReader) -> (r: Result<Self, DecodeError>)
        requires
            old(reader).wf(),
        ensures
            final(reader).wf(),
            final(reader).buf() == old(reader).buf(),
            final(reader).pos >= old(reader).pos,
            r is Ok <==> bits_ok(old(reader).buf(), old(reader).pos as int, 32),
            r matches Ok(m) ==> m.unknown_bits as nat == uint_at(
                old(reader).buf(),
                old(reader).pos as int,
                32,
            ) && final(reader).pos == old(reader).pos + 32,
            r is Err ==> r == Err::<Self, DecodeError>(DecodeError::BufferExhausted),
    {
        Ok(Self { unknown_bits: reader.read_f32_bits()? })
    }
}

/// A single-player haptic weapon event code.
#[derive(Clone, Debug)]
pub struct SpHapWeaponEvent {
    pub unk: i32,
}

impl SpHapWeaponEvent {
    pub fn parse(reader: &mut BitReader) -> (r: Result<Self, DecodeError>)
        requires
            old(reader).wf(),
        ensures
            final(reader).wf(),
            final(reader).buf() == old(reader).buf(),
            final(reader).pos >= old(reader).pos,
            r is Ok <==> bits_ok(old(reader).buf(), old(reader).pos as int, 32),
            r matches Ok(m) ==> m.unk == int_at(old(reader).buf(), old(reader).pos as int, 32)
                && final(reader).pos == old(reader).pos + 32,
            r is Err ==> r == Err::<Self, DecodeError>(DecodeError::BufferExhausted),
    {
        Ok(Self { unk: reader.read_int(32)? })
    }
}

/// Voice-audibility masks for the two player slots, plus the modification
/// toggle.
#[derive(Clone, Debug)]
pub struct PlayerMask {
    pub game_rules_mask: i32,
    pub ban_mask: i32,
}

/// The voice-mask message: one mask pair per player slot (two slots here).
#[derive(Clone, Debug)]
pub struct VoiceMask {
    pub voice_max_players: i32,
    pub player_masks: Vec<PlayerMask>,
    pub player_mod_enable: bool,
}

impl VoiceMask {
    pub fn parse(reader: &mut BitReader) -> (r: Result<Self, DecodeError>)
        requires
            old(reader).wf(),
        ensures
            final(reader).wf(),
            final(reader).buf() == old(reader).buf(),
            final(reader).pos >= old(reader).pos,
            r is Ok <==> bits_ok(old(reader).buf(), old(reader).pos as int, 136),
            r matches Ok(m) ==> ({
                let buf = old(reader).buf();
                let p = old(reader).pos as int;
                &&& m.voice_max_players == 2
                &&& m.player_masks@.len() == 2
                &&& m.player_masks@[0].game_rules_mask == int_at(buf, p, 32)
                &&& m.player_masks@[0].ban_mask == int_at(buf, p + 32, 32)
                &&& m.player_masks@[1].game_rules_mask == int_at(buf, p + 64, 32)
                &&& m.player_masks@[1].ban_mask == int_at(buf, p + 96, 32)
                &&& m.player_mod_enable == (int_at(buf, p + 128, 8) != 0)
                &&& final(reader).pos == old(reader).pos + 136
            }),
            r is Err ==> r == Err::<Self, DecodeError>(DecodeError::BufferExhausted),
    {
        let mut player_masks: Vec<PlayerMask> = Vec::new();
        let m0 = PlayerMask { game_rules_mask: reader.read_int(32)?, ban_mask: reader.read_int(32)? };
        let m1 = PlayerMask { game_rules_mask: reader.read_int(32)?, ban_mask: reader.read_int(32)? };
        player_masks.push(m0);
        player_masks.push(m1);
        let player_mod_enable = reader.read_int(8)? != 0;
        Ok(Self { voice_max_players: 2, player_masks, player_mod_enable })
    }
}

/// The kill-cam configuration: spectator mode and the two target slots.
#[derive(Clone, Debug)]
pub struct KillCam {
    pub spec_mode: i32,
    pub target1: i32,
    pub target2: i32,
    pub unknown: i32,
}

impl KillCam {
    pub fn parse(reader: &mut BitReader) -> (r: Result<Self, DecodeError>)
        requires
            old(reader).wf(),
        ensures
            final(reader).wf(),
            final(reader).buf() == old(reader).buf(),
            final(reader).pos >= old(reader).pos,
            r is Ok <==> bits_ok(old(reader).buf(), old(reader).pos as int, 32),
            r matches Ok(m) ==> ({
                let buf = old(reader).buf();
                let p = old(reader).pos as int;
                &&& m.spec_mode == int_at(buf, p, 8)
                &&& m.target1 == int_at(buf, p + 8, 8)
                &&& m.target2 == int_at(buf, p + 16, 8)
                &&& m.unknown == int_at(buf, p + 24, 8)
                &&& final(reader).pos == old(reader).pos + 32
            }),
            r is Err ==> r == Err::<Self, DecodeError>(DecodeError::BufferExhausted),
    {
        let spec_mode = reader.read_int(8)?;
        let target1 = reader.read_int(8)?;
        let target2 = reader.read_int(8)?;
        let unknown = reader.read_int(8)?;
        Ok(Self { spec_mode, target1, target2, unknown })
    }
}

/// A closed-caption cue: token, duration in tenths of a second, and flags.
#[derive(Clone, Debug)]
pub struct CloseCaption {
    pub token_name: String,
    /// Display time in tenths of a second.
    pub duration_decis: i32,
    pub flags: i32,
}

impl CloseCaption {
    pub fn parse(reader: &mut BitReader) -> (r: Result<Self, DecodeError>)
        requires
            old(reader).wf(),
        ensures
            final(reader).wf(),
            final(reader).buf() == old(reader).buf(),
            final(reader).pos >= old(reader).pos,
            ({
                let buf = old(reader).buf();
                let p = old(reader).pos as int;
                let q = after_cstr(buf, p);
                &&& (r is Ok <==> has_cstr(buf, p) && bits_ok(buf, q, 24))
                &&& (r matches Ok(m) ==> {
                    &&& m.token_name@ == cstr_at(buf, p)
                    &&& m.duration_decis == int_at(buf, q, 16)
                    &&& m.flags == int_at(buf, q + 16, 8)
                    &&& final(reader).pos == q + 24
                })
                &&& (r is Err ==> r == Err::<Self, DecodeError>(DecodeError::BufferExhausted))
            }),
    {
        let token_name = reader.read_ascii_string_nulled()?;
        let duration_decis = reader.read_int(16)?;
        let flags = reader.read_int(8)?;
        Ok(Self { token_name, duration_decis, flags })
    }
}

/// A damage indicator: armor and health loss, damage-type bits, and where
/// the damage came from.
#[derive(Clone, Debug)]
pub struct Damage {
    pub armor: i32,
    pub damage_taken: i32,
    pub visible_bits_damage: i32,
    pub vec_from: Vec3,
}

impl Damage {
    pub fn parse(reader: &mut BitReader) -> (r: Result<Self, DecodeError>)
        requires
            old(reader).wf(),
        ensures
            final(reader).wf(),
            final(reader).buf() == old(reader).buf(),
            final(reader).pos >= old(reader).pos,
            r is Ok <==> bits_ok(old(reader).buf(), old(reader).pos as int, 144),
            r matches Ok(m) ==> ({
                let buf = old(reader).buf();
                let p = old(reader).pos as int;
                &&& m.armor == int_at(buf, p, 8)
                &&& m.damage_taken == int_at(buf, p + 8, 8)
                &&& m.visible_bits_damage == int_at(buf, p + 16, 32)
                &&& m.vec_from.x_bits as nat == uint_at(buf, p + 48, 32)
                &&& m.vec_from.y_bits as nat == uint_at(buf, p + 80, 32)
                &&& m.vec_from.z_bits as nat == uint_at(buf, p + 112, 32)
                &&& final(reader).pos == old(reader).pos + 144
            }),
            r is Err ==> r == Err::<Self, DecodeError>(DecodeError::BufferExhausted),
    {
        let armor = reader.read_int(8)?;
        let damage_taken = reader.read_int(8)?;
        let visible_bits_damage = reader.read_int(32)?;
        let vec_from = reader.read_vec3()?;
        Ok(Self { armor, damage_taken, visible_bits_damage, vec_from })
    }
}

/// A screen fade: duration in 512ths of a second, hold time, flags, and the
/// fade color.
#[derive(Clone, Debug)]
pub struct Fade {
    pub duration: FixedPoint,
    pub hold_time: i32,
    pub flags: i32,
    pub r: i32,
    pub g: i32,
    pub b: i32,
    pub a: i32,
}

impl Fade {
    pub fn parse(reader: &mut BitReader) -> (r: Result<Self, DecodeError>)
        requires
            old(reader).wf(),
        ensures
            final(reader).wf(),
            final(reader).buf() == old(reader).buf(),
            final(reader).pos >= old(reader).pos,
            r is Ok <==> bits_ok(old(reader).buf(), old(reader).pos as int, 80),
            r matches Ok(m) ==> ({
                let buf = old(reader).buf();
                let p = old(reader).pos as int;
                &&& m.duration.numer == int_at(buf, p, 16)
                &&& m.duration.denom == 512
                &&& m.hold_time == int_at(buf, p + 16, 16)
                &&& m.flags == int_at(buf, p + 32, 16)
                &&& m.r == int_at(buf, p + 48, 8)
                &&& m.g == int_at(buf, p + 56, 8)
                &&& m.b == int_at(buf, p + 64, 8)
                &&& m.a == int_at(buf, p + 72, 8)
                &&& final(reader).pos == old(reader).pos + 80
            }),
            r is Err ==> r == Err::<Self, DecodeError>(DecodeError::BufferExhausted),
    {
        let duration = FixedPoint { numer: reader.read_int(16)?, denom: 512 };
        let hold_time = reader.read_int(16)?;
        let flags = reader.read_int(16)?;
        let cr = reader.read_int(8)?;
        let cg = reader.read_int(8)?;
        let cb = reader.read_int(8)?;
        let ca = reader.read_int(8)?;
        Ok(Self { duration, hold_time, flags, r: cr, g: cg, b: cb, a: ca })
    }
}

/// The body of a channel HUD message: placement, two colors, effect, timing,
/// and the text.
#[derive(Clone, Debug)]
pub struct HudMsgInfo {
    pub x_bits: u32,
    pub y_bits: u32,
    pub r1: i32,
    pub g1: i32,
    pub b1: i32,
    pub a1: i32,
    pub r2: i32,
    pub g2: i32,
    pub b2: i32,
    pub a2: i32,
    pub effect: i32,
    pub fade_in_bits: u32,
    pub fade_out_bits: u32,
    pub hold_time_bits: u32,
    pub fx_time_bits: u32,
    pub message: String,
}

impl HudMsgInfo {
    pub fn parse(reader: &mut BitReader) -> (r: Result<Self, DecodeError>)
        requires
            old(reader).wf(),
        ensures
            final(reader).wf(),
            final(reader).buf() == old(reader).buf(),
            final(reader).pos >= old(reader).pos,
            ({
                let buf = old(reader).buf();
                let p = old(reader).pos as int;
                &&& (r is Ok <==> bits_ok(buf, p, 264) && has_cstr(buf, p + 264))
                &&& (r matches Ok(m) ==> {
                    &&& m.x_bits as nat == uint_at(buf, p, 32)
                    &&& m.y_bits as nat == uint_at(buf, p + 32, 32)
                    &&& m.r1 == int_at(buf, p + 64, 8)
                    &&& m.g1 == int_at(buf, p + 72, 8)
                    &&& m.b1 == int_at(buf, p + 80, 8)
                    &&& m.a1 == int_at(buf, p + 88, 8)
                    &&& m.r2 == int_at(buf, p + 96, 8)
                    &&& m.g2 == int_at(buf, p + 104, 8)
                    &&& m.b2 == int_at(buf, p + 112, 8)
                    &&& m.a2 == int_at(buf, p + 120, 8)
                    &&& m.effect == int_at(buf, p + 128, 8)
                    &&& m.fade_in_bits as nat == uint_at(buf, p + 136, 32)
                    &&& m.fade_out_bits as nat == uint_at(buf, p + 168, 32)
                    &&& m.hold_time_bits as nat == uint_at(buf, p + 200, 32)
                    &&& m.fx_time_bits as nat == uint_at(buf, p + 232, 32)
                    &&& m.message@ == cstr_at(buf, p + 264)
                    &&& final(reader).pos == after_cstr(buf, p + 264)
                })
                &&& (r is Err ==> r == Err::<Self, DecodeError>(DecodeError::BufferExhausted))
            }),
    {
        let x_bits = reader.read_f32_bits()?;
        let y_bits = reader.read_f32_bits()?;
        let r1 = reader.read_int(8)?;
        let g1 = reader.read_int(8)?;
        let b1 = reader.read_int(8)?;
        let a1 = reader.read_int(8)?;
        let r2 = reader.read_int(8)?;
        let g2 = reader.read_int(8)?;
        let b2 = reader.read_int(8)?;
        let a2 = reader.read_int(8)?;
        let effect = reader.read_int(8)?;
        let fade_in_bits = reader.read_f32_bits()?;
        let fade_out_bits = reader.read_f32_bits()?;
        let hold_time_bits = reader.read_f32_bits()?;
        let fx_time_bits = reader.read_f32_bits()?;
        let message = reader.read_ascii_string_nulled()?;
        Ok(
            Self {
                x_bits,
                y_bits,
                r1,
                g1,
                b1,
                a1,
                r2,
                g2,
                b2,
                a2,
                effect,
                fade_in_bits,
                fade_out_bits,
                hold_time_bits,
                fx_time_bits,
                message,
            },
        )
    }
}

/// A channel HUD message; the body is present only when enough bits remain.
#[derive(Clone, Debug)]
pub struct HudMsg {
    pub channel: i32,
    pub msg_info: Option<HudMsgInfo>,
}

impl HudMsg {
    pub fn parse(reader: &mut BitReader) -> (r: Result<Self, DecodeError>)
        requires
            old(reader).wf(),
        ensures
            final(reader).wf(),
            final(reader).buf() == old(reader).buf(),
            final(reader).pos >= old(reader).pos,
            r is Ok <==> ({
                let buf = old(reader).buf();
                let p = old(reader).pos as int;
                &&& bits_ok(buf, p, 8)
                &&& (old(reader).bit_len() - (p + 8) >= 148 ==> bits_ok(buf, p + 8, 264)
                    && has_cstr(buf, p + 272))
            }),
            r matches Ok(m) ==> ({
                let buf = old(reader).buf();
                let p = old(reader).pos as int;
                &&& m.channel == int_at(buf, p, 8) % 6
                &&& (m.msg_info is Some <==> old(reader).bit_len() - (p + 8) >= 148)
            }),
            r is Err ==> r == Err::<Self, DecodeError>(DecodeError::BufferExhausted),
    {
        let ghost buf = reader.bits@;
        let ghost p = reader.pos as int;
        let raw = reader.read_int(8)?;
        proof {
            crate::bitreader::lemma_int_at_small(buf, p, 8);
        }
        let channel = raw % 6;
        let mut msg_info: Option<HudMsgInfo> = None;
        if reader.bits.len() * 8 - reader.pos >= 148 {
            msg_info = Some(HudMsgInfo::parse(reader)?);
        }
        Ok(Self { channel, msg_info })
    }
}

/// A raw HUD text token.
#[derive(Clone, Debug)]
pub struct HudText {
    pub string: String,
}

impl HudText {
    pub fn parse(reader: &mut BitReader) -> (r: Result<Self, DecodeError>)
        requires
            old(reader).wf(),
        ensures
            final(reader).wf(),
            final(reader).buf() == old(reader).buf(),
            final(reader).pos >= old(reader).pos,
            r is Ok <==> has_cstr(old(reader).buf(), old(reader).pos as int),
            r matches Ok(m) ==> m.string@ == cstr_at(old(reader).buf(), old(reader).pos as int)
                && final(reader).pos == after_cstr(old(reader).buf(), old(reader).pos as int),
            r is Err ==> r == Err::<Self, DecodeError>(DecodeError::BufferExhausted),
    {
        Ok(Self { string: reader.read_ascii_string_nulled()? })
    }
}

/// A key-hint panel entry: a count (always one) and the hint token.
#[derive(Clone, Debug)]
pub struct KeyHintText {
    pub count: i32,
    pub key_string: String,
}

impl KeyHintText {
    pub fn parse(reader: &mut BitReader) -> (r: Result<Self, DecodeError>)
        requires
            old(reader).wf(),
        ensures
            final(reader).wf(),
            final(reader).buf() == old(reader).buf(),
            final(reader).pos >= old(reader).pos,
            ({
                let buf = old(reader).buf();
                let p = old(reader).pos as int;
                &&& (r is Ok <==> bits_ok(buf, p, 8) && has_cstr(buf, p + 8))
                &&& (r matches Ok(m) ==> {
                    &&& m.count == int_at(buf, p, 8)
                    &&& m.key_string@ == cstr_at(buf, p + 8)
                    &&& final(reader).pos == after_cstr(buf, p + 8)
                })
                &&& (r is Err ==> r == Err::<Self, DecodeError>(DecodeError::BufferExhausted))
            }),
    {
        let count = reader.read_int(8)?;
        let key_string = reader.read_ascii_string_nulled()?;
        Ok(Self { count, key_string })
    }
}

/// Placeholder for the co-op completion-data payload, which this decoder
/// does not interpret.
#[derive(Clone, Debug)]
pub struct MpMapCompletedData;

/// A taunt earned in co-op, optionally awarded silently.
#[derive(Clone, Debug)]
pub struct MpTauntEarned {
    pub taunt_name: String,
    pub award_silently: bool,
}

impl MpTauntEarned {
    pub fn parse(reader: &mut BitReader) -> (r: Result<Self, DecodeError>)
        requires
            old(reader).wf(),
        ensures
            final(reader).wf(),
            final(reader).buf() == old(reader).buf(),
            final(reader).pos >= old(reader).pos,
            ({
                let buf = old(reader).buf();
                let p = old(reader).pos as int;
                let q = after_cstr(buf, p);
                &&& (r is Ok <==> has_cstr(buf, p) && bits_ok(buf, q, 1))
                &&& (r matches Ok(m) ==> {
                    &&& m.taunt_name@ == cstr_at(buf, p)
                    &&& m.award_silently == bool_at(buf, q)
                    &&& final(reader).pos == q + 1
                })
                &&& (r is Err ==> r == Err::<Self, DecodeError>(DecodeError::BufferExhausted))
            }),
    {
        let taunt_name = reader.read_ascii_string_nulled()?;
        let award_silently = reader.read_bool()?;
        Ok(Self { taunt_name, award_silently })
    }
}

/// A taunt locked in co-op.
#[derive(Clone, Debug)]
pub struct MpTauntLocked {
    pub taunt_name: String,
}

impl MpTauntLocked {
    pub fn parse(reader: &mut BitReader) -> (r: Result<Self, DecodeError>)
        requires
            old(reader).wf(),
        ensures
            final(reader).wf(),
            final(reader).buf() == old(reader).buf(),
            final(reader).pos >= old(reader).pos,
            r is Ok <==> has_cstr(old(reader).buf(), old(reader).pos as int),
            r matches Ok(m) ==> m.taunt_name@ == cstr_at(old(reader).buf(), old(reader).pos as int)
                && final(reader).pos == after_cstr(old(reader).buf(), old(reader).pos as int),
            r is Err ==> r == Err::<Self, DecodeError>(DecodeError::BufferExhausted),
    {
        Ok(Self { taunt_name: reader.read_ascii_string_nulled()? })
    }
}

/// Paint applied to a single entity.
#[derive(Clone, Debug)]
pub struct PaintEntity {
    pub ent: EHandle,
    pub paint_type: i32,
    pub pos: Vec3,
}

impl PaintEntity {
    pub fn parse(reader: &mut BitReader) -> (r: Result<Self, DecodeError>)
        requires
            old(reader).wf(),
        ensures
            final(reader).wf(),
            final(reader).buf() == old(reader).buf(),
            final(reader).pos >= old(reader).pos,
            r is Ok <==> bits_ok(old(reader).buf(), old(reader).pos as int, 136),
            r matches Ok(m) ==> ({
                let buf = old(reader).buf();
                let p = old(reader).pos as int;
                &&& m.ent.val == int_at(buf, p, 32)
                &&& m.paint_type == int_at(buf, p + 32, 8)
                &&& m.pos.x_bits as nat == uint_at(buf, p + 40, 32)
                &&& m.pos.y_bits as nat == uint_at(buf, p + 72, 32)
                &&& m.pos.z_bits as nat == uint_at(buf, p + 104, 32)
                &&& final(reader).pos == old(reader).pos + 136
            }),
            r is Err ==> r == Err::<Self, DecodeError>(DecodeError::BufferExhausted),
    {
        let ent = reader.read_ehandle()?;
        let paint_type = reader.read_int(8)?;
        let pos = reader.read_vec3()?;
        Ok(Self { ent, paint_type, pos })
    }
}

/// Paint splashed onto the world: a center point and 16-bit offsets for each
/// splat around it.
#[derive(Clone, Debug)]
pub struct PaintWorld {
    pub paint_type: i32,
    pub ehandle: EHandle,
    pub unkhf1_bits: u32,
    pub unkhf2_bits: u32,
    pub length: i32,
    pub center: Vec3,
    /// Raw 16-bit offsets from `center`, one triple per splat.
    pub position_offsets: Vec<(i32, i32, i32)>,
}

impl PaintWorld {
    #[verifier::loop_isolation(false)]
    #[verifier::rlimit(60)]
    pub fn parse(reader: &mut BitReader) -> (r: Result<Self, DecodeError>)
        requires
            old(reader).wf(),
        ensures
            final(reader).wf(),
            final(reader).buf() == old(reader).buf(),
            final(reader).pos >= old(reader).pos,
            r is Ok <==> bits_ok(
                old(reader).buf(),
                old(reader).pos as int,
                (208 + 48 * uint_at(old(reader).buf(), old(reader).pos as int + 104, 8)) as nat,
            ),
            r matches Ok(m) ==> ({
                let buf = old(reader).buf();
                let p = old(reader).pos as int;
                let base = p + 208;
                &&& m.paint_type == int_at(buf, p, 8)
                &&& m.ehandle.val == int_at(buf, p + 8, 32)
                &&& m.unkhf1_bits as nat == uint_at(buf, p + 40, 32)
                &&& m.unkhf2_bits as nat == uint_at(buf, p + 72, 32)
                &&& m.length == int_at(buf, p + 104, 8)
                &&& m.center.x_bits as nat == uint_at(buf, p + 112, 32)
                &&& m.center.y_bits as nat == uint_at(buf, p + 144, 32)
                &&& m.center.z_bits as nat == uint_at(buf, p + 176, 32)
                &&& m.position_offsets@.len() == m.length
                &&& forall|j: int|
                    0 <= j < m.position_offsets@.len() ==> #[trigger] m.position_offsets@[j] == (
                        int_at(buf, base + 48 * j, 16),
                        int_at(buf, base + 48 * j + 16, 16),
                        int_at(buf, base + 48 * j + 32, 16),
                    )
                &&& final(reader).pos == base + 48 * m.length
            }),
            r is Err ==> r == Err::<Self, DecodeError>(DecodeError::BufferExhausted),
    {
        let paint_type = reader.read_int(8)?;
        let ehandle = reader.read_ehandle()?;
        let unkhf1_bits = reader.read_f32_bits()?;
        let unkhf2_bits = reader.read_f32_bits()?;
        let length = reader.read_int(8)?;
        let center = reader.read_vec3()?;
        let ghost buf = reader.bits@;
        let ghost base = reader.pos as int;
        proof {
            crate::bitreader::lemma_int_at_small(buf, base - 104, 8);
        }
        let mut position_offsets: Vec<(i32, i32, i32)> = Vec::new();
        let mut i: i32 = 0;
        while i < length
            invariant
                reader.wf(),
                reader.bits@ == buf,
                0 <= i <= length,
                reader.pos == base + 48 * i,
                position_offsets@.len() == i,
                forall|j: int|
                    0 <= j < i ==> #[trigger] position_offsets@[j] == (
                        int_at(buf, base + 48 * j, 16),
                        int_at(buf, base + 48 * j + 16, 16),
                        int_at(buf, base + 48 * j + 32, 16),
                    ),
            decreases length - i,
        {
            let x = reader.read_int(16)?;
            let y = reader.read_int(16)?;
            let z = reader.read_int(16)?;
            position_offsets.push((x, y, z));
            i = i + 1;
        }
        Ok(Self { paint_type, ehandle, unkhf1_bits, unkhf2_bits, length, center, position_offsets })
    }
}

/// A portal-surface effect: which portal, its owner, and the quantized
/// placement.
#[derive(Clone, Debug)]
pub struct PortalFXSurface {
    pub portal_ent: i32,
    pub owner_ent: i32,
    pub team: i32,
    pub portal_num: i32,
    pub effect: i32,
    pub origin: Vec<Option<FixedPoint>>,
    pub angles: Vec<Option<FixedPoint>>,
}

impl PortalFXSurface {
    pub fn parse(reader: &mut BitReader) -> (r: Result<Self, DecodeError>)
        requires
            old(reader).wf(),
        ensures
            final(reader).wf(),
            final(reader).buf() == old(reader).buf(),
            final(reader).pos >= old(reader).pos,
            r is Ok <==> ({
                let buf = old(reader).buf();
                let p = old(reader).pos as int;
                let e1 = crate::bitreader::vcoords_end(buf, p + 56);
                &&& bits_ok(buf, p, 56)
                &&& bits_ok(buf, p + 56, (e1 - (p + 56)) as nat)
                &&& bits_ok(buf, e1, (crate::bitreader::vcoords_end(buf, e1) - e1) as nat)
            }),
            r matches Ok(m) ==> ({
                let buf = old(reader).buf();
                let p = old(reader).pos as int;
                &&& m.portal_ent == int_at(buf, p, 16)
                &&& m.owner_ent == int_at(buf, p + 16, 16)
                &&& m.team == int_at(buf, p + 32, 8)
                &&& m.portal_num == int_at(buf, p + 40, 8)
                &&& m.effect == int_at(buf, p + 48, 8)
                &&& m.origin@.len() == 3
                &&& m.angles@.len() == 3
            }),
            r is Err ==> r == Err::<Self, DecodeError>(DecodeError::BufferExhausted),
    {
        let portal_ent = reader.read_int(16)?;
        let owner_ent = reader.read_int(16)?;
        let team = reader.read_int(8)?;
        let portal_num = reader.read_int(8)?;
        let effect = reader.read_int(8)?;
        let origin = reader.read_vector_coords()?;
        let angles = reader.read_vector_coords()?;
        Ok(Self { portal_ent, owner_ent, team, portal_num, effect, origin, angles })
    }
}

/// A controller rumble request: effect id, scale in hundredths, and flags.
#[derive(Clone, Debug)]
pub struct Rumble {
    pub rumble_type: i32,
    pub scale: FixedPoint,
    pub rumble_flags: i32,
}

impl Rumble {
    pub fn parse(reader: &mut BitReader) -> (r: Result<Self, DecodeError>)
        requires
            old(reader).wf(),
        ensures
            final(reader).wf(),
            final(reader).buf() == old(reader).buf(),
            final(reader).pos >= old(reader).pos,
            r is Ok <==> bits_ok(old(reader).buf(), old(reader).pos as int, 24),
            r matches Ok(m) ==> ({
                let buf = old(reader).buf();
                let p = old(reader).pos as int;
                &&& m.rumble_type == int_at(buf, p, 8)
                &&& m.scale.numer == int_at(buf, p + 8, 8)
                &&& m.scale.denom == 100
                &&& m.rumble_flags == int_at(buf, p + 16, 8)
                &&& final(reader).pos == old(reader).pos + 24
            }),
            r is Err ==> r == Err::<Self, DecodeError>(DecodeError::BufferExhausted),
    {
        let rumble_type = reader.read_int(8)?;
        let scale = FixedPoint { numer: reader.read_int(8)?, denom: 100 };
        let rumble_flags = reader.read_int(8)?;
        Ok(Self { rumble_type, scale, rumble_flags })
    }
}

/// A chat line: sender slot, text, and whether it goes to the chat area.
#[derive(Clone, Debug)]
pub struct SayText {
    pub client_id: i32,
    pub text: String,
    pub wants_to_chat: bool,
}

impl SayText {
    pub fn parse(reader: &mut BitReader) -> (r: Result<Self, DecodeError>)
        requires
            old(reader).wf(),
        ensures
            final(reader).wf(),
            final(reader).buf() == old(reader).buf(),
            final(reader).pos >= old(reader).pos,
            ({
                let buf = old(reader).buf();
                let p = old(reader).pos as int;
                let q = after_cstr(buf, p + 8);
                &&& (r is Ok <==> bits_ok(buf, p, 8) && has_cstr(buf, p + 8) && bits_ok(buf, q, 8))
                &&& (r matches Ok(m) ==> {
                    &&& m.client_id == int_at(buf, p, 8)
                    &&& m.text@ == cstr_at(buf, p + 8)
                    &&& m.wants_to_chat == (int_at(buf, q, 8) != 0)
                    &&& final(reader).pos == q + 8
                })
                &&& (r is Err ==> r == Err::<Self, DecodeError>(DecodeError::BufferExhausted))
            }),
    {
        let client_id = reader.read_int(8)?;
        let text = reader.read_ascii_string_nulled()?;
        let wants_to_chat = reader.read_int(8)? != 0;
        Ok(Self { client_id, text, wants_to_chat })
    }
}

/// A localized chat line: sender, the message token, and its four argument
/// strings.
#[derive(Clone, Debug)]
pub struct SayText2 {
    pub client: i32,
    pub wants_to_chat: bool,
    pub msg_name: String,
    pub msgs: Vec<String>,
}

impl SayText2 {
    pub fn parse(reader: &mut BitReader) -> (r: Result<Self, DecodeError>)
        requires
            old(reader).wf(),
        ensures
            final(reader).wf(),
            final(reader).buf() == old(reader).buf(),
            final(reader).pos >= old(reader).pos,
            ({
                let buf = old(reader).buf();
                let p = old(reader).pos as int;
                let q0 = p + 16;
                let q1 = after_cstr(buf, q0);
                let q2 = after_cstr(buf, q1);
                let q3 = after_cstr(buf, q2);
                let q4 = after_cstr(buf, q3);
                &&& (r is Ok <==> bits_ok(buf, p, 16) && has_cstr(buf, q0) && has_cstr(buf, q1)
                    && has_cstr(buf, q2) && has_cstr(buf, q3) && has_cstr(buf, q4))
                &&& (r matches Ok(m) ==> {
                    &&& m.client == int_at(buf, p, 8)
                    &&& m.wants_to_chat == (int_at(buf, p + 8, 8) != 0)
                    &&& m.msg_name@ == cstr_at(buf, q0)
                    &&& m.msgs@.len() == 4
                    &&& m.msgs@[0]@ == cstr_at(buf, q1)
                    &&& m.msgs@[1]@ == cstr_at(buf, q2)
                    &&& m.msgs@[2]@ == cstr_at(buf, q3)
                    &&& m.msgs@[3]@ == cstr_at(buf, q4)
                    &&& final(reader).pos == after_cstr(buf, q4)
                })
                &&& (r is Err ==> r == Err::<Self, DecodeError>(DecodeError::BufferExhausted))
            }),
    {
        let client = reader.read_int(8)?;
        let wants_to_chat = reader.read_int(8)? != 0;
        let msg_name = reader.read_ascii_string_nulled()?;
        let mut msgs: Vec<String> = Vec::new();
        let s0 = reader.read_ascii_string_nulled()?;
        let s1 = reader.read_ascii_string_nulled()?;
        let s2 = reader.read_ascii_string_nulled()?;
        let s3 = reader.read_ascii_string_nulled()?;
        msgs.push(s0);
        msgs.push(s1);
        msgs.push(s2);
        msgs.push(s3);
        Ok(Self { client, wants_to_chat, msg_name, msgs })
    }
}

/// A screen-shake command: what to do, how hard, how fast, and for how long
/// (the three parameters as raw IEEE-754 bits).
#[derive(Clone, Debug)]
pub struct Shake {
    pub command: i32,
    pub amplitude_bits: u32,
    pub frequency_bits: u32,
    pub duration_bits: u32,
}

impl Shake {
    pub fn parse(reader: &mut BitReader) -> (r: Result<Self, DecodeError>)
        requires
            old(reader).wf(),
        ensures
            final(reader).wf(),
            final(reader).buf() == old(reader).buf(),
            final(reader).pos >= old(reader).pos,
            r is Ok <==> bits_ok(old(reader).buf(), old(reader).pos as int, 104),
            r matches Ok(m) ==> ({
                let buf = old(reader).buf();
                let p = old(reader).pos as int;
                &&& m.command == int_at(buf, p, 8)
                &&& m.amplitude_bits as nat == uint_at(buf, p + 8, 32)
                &&& m.frequency_bits as nat == uint_at(buf, p + 40, 32)
                &&& m.duration_bits as nat == uint_at(buf, p + 72, 32)
                &&& final(reader).pos == old(reader).pos + 104
            }),
            r is Err ==> r == Err::<Self, DecodeError>(DecodeError::BufferExhausted),
    {
        let command = reader.read_int(8)?;
        let amplitude_bits = reader.read_f32_bits()?;
        let frequency_bits = reader.read_f32_bits()?;
        let duration_bits = reader.read_f32_bits()?;
        Ok(Self { command, amplitude_bits, frequency_bits, duration_bits })
    }
}

/// A localized text message: destination area and five argument strings.
#[derive(Clone, Debug)]
pub struct TextMsg {
    pub destination: i32,
    pub messages: Vec<String>,
}

impl TextMsg {
    pub fn parse(reader: &mut BitReader) -> (r: Result<Self, DecodeError>)
        requires
            old(reader).wf(),
        ensures
            final(reader).wf(),
            final(reader).buf() == old(reader).buf(),
            final(reader).pos >= old(reader).pos,
            ({
                let buf = old(reader).buf();
                let p = old(reader).pos as int;
                let q0 = p + 8;
                let q1 = after_cstr(buf, q0);
                let q2 = after_cstr(buf, q1);
                let q3 = after_cstr(buf, q2);
                let q4 = after_cstr(buf, q3);
                &&& (r is Ok <==> bits_ok(buf, p, 8) && has_cstr(buf, q0) && has_cstr(buf, q1)
                    && has_cstr(buf, q2) && has_cstr(buf, q3) && has_cstr(buf, q4))
                &&& (r matches Ok(m) ==> {
                    &&& m.destination == int_at(buf, p, 8)
                    &&& m.messages@.len() == 5
                    &&& m.messages@[0]@ == cstr_at(buf, q0)
                    &&& m.messages@[1]@ == cstr_at(buf, q1)
                    &&& m.messages@[2]@ == cstr_at(buf, q2)
                    &&& m.messages@[3]@ == cstr_at(buf, q3)
                    &&& m.messages@[4]@ == cstr_at(buf, q4)
                    &&& final(reader).pos == after_cstr(buf, q4)
                })
                &&& (r is Err ==> r == Err::<Self, DecodeError>(DecodeError::BufferExhausted))
            }),
    {
        let destination = reader.read_int(8)?;
        let mut messages: Vec<String> = Vec::new();
        let s0 = reader.read_ascii_string_nulled()?;
        let s1 = reader.read_ascii_string_nulled()?;
        let s2 = reader.read_ascii_string_nulled()?;
        let s3 = reader.read_ascii_string_nulled()?;
        let s4 = reader.read_ascii_string_nulled()?;
        messages.push(s0);
        messages.push(s1);
        messages.push(s2);
        messages.push(s3);
        messages.push(s4);
        Ok(Self { destination, messages })
    }
}

/// A VGUI panel request: panel name, visibility, and its key/value pairs.
#[derive(Clone, Debug)]
pub struct VguiMenu {
    pub message: String,
    pub show: bool,
    pub count: i32,
    pub key_values: Vec<(String, String)>,
}

impl VguiMenu {
    #[verifier::loop_isolation(false)]
    #[verifier::rlimit(60)]
    pub fn parse(reader: &mut BitReader) -> (r: Result<Self, DecodeError>)
        requires
            old(reader).wf(),
        ensures
            final(reader).wf(),
            final(reader).buf() == old(reader).buf(),
            final(reader).pos >= old(reader).pos,
            r is Ok <==> ({
                let buf = old(reader).buf();
                let p = old(reader).pos as int;
                let q = after_cstr(buf, p);
                &&& has_cstr(buf, p)
                &&& bits_ok(buf, q, 16)
                &&& crate::utils::cstr_pairs_exist(buf, q + 16, uint_at(buf, q + 8, 8))
            }),
            r matches Ok(m) ==> ({
                let buf = old(reader).buf();
                let p = old(reader).pos as int;
                let q = after_cstr(buf, p);
                &&& has_cstr(buf, p)
                &&& m.message@ == cstr_at(buf, p)
                &&& m.show == (int_at(buf, q, 8) != 0)
                &&& m.count == int_at(buf, q + 8, 8)
                &&& m.key_values@.len() == m.count
                &&& crate::utils::cstr_pairs_at(
                    buf,
                    q + 16,
                    m.count as nat,
                    m.key_values@.map_values(|kv: (String, String)| (kv.0@, kv.1@)),
                    final(reader).pos as int,
                )
            }),
            r is Err ==> r == Err::<Self, DecodeError>(DecodeError::BufferExhausted),
    {
        let ghost buf = reader.bits@;
        let message = reader.read_ascii_string_nulled()?;
        let show = reader.read_int(8)? != 0;
        let count = reader.read_int(8)?;
        proof {
            crate::bitreader::lemma_int_at_small(buf, reader.pos - 8, 8);
        }
        let ghost kpos0 = reader.pos as int;
        let mut key_values: Vec<(String, String)> = Vec::new();
        let mut i: i32 = 0;
        while i < count
            invariant
                reader.wf(),
                reader.bits@ == buf,
                reader.pos >= old(reader).pos,
                0 <= i <= count,
                key_values@.len() == i,
                crate::utils::cstr_pairs_exist(buf, kpos0, count as nat)
                    <==> crate::utils::cstr_pairs_exist(
                    buf,
                    reader.pos as int,
                    (count - i) as nat,
                ),
                forall|rest: Seq<(Seq<char>, Seq<char>)>, end: int|
                    #[trigger] crate::utils::cstr_pairs_at(
                        buf,
                        reader.pos as int,
                        (count - i) as nat,
                        rest,
                        end,
                    ) ==> crate::utils::cstr_pairs_at(
                        buf,
                        kpos0,
                        count as nat,
                        key_values@.map_values(|kv: (String, String)| (kv.0@, kv.1@)) + rest,
                        end,
                    ),
            decreases count - i,
        {
            let ghost cur = reader.pos as int;
            let ghost acc = key_values@.map_values(|kv: (String, String)| (kv.0@, kv.1@));
            let k = reader.read_ascii_string_nulled()?;
            let v = reader.read_ascii_string_nulled()?;
            key_values.push((k, v));
            i = i + 1;
            proof {
                let acc2 = key_values@.map_values(|kv: (String, String)| (kv.0@, kv.1@));
                assert(acc2 =~= acc + seq![(k@, v@)]);
                assert forall|rest: Seq<(Seq<char>, Seq<char>)>, end: int|
                    #[trigger] crate::utils::cstr_pairs_at(
                        buf,
                        reader.pos as int,
                        (count - i) as nat,
                        rest,
                        end,
                    ) implies crate::utils::cstr_pairs_at(
                    buf,
                    kpos0,
                    count as nat,
                    acc2 + rest,
                    end,
                ) by {
                    let one = seq![(k@, v@)] + rest;
                    assert(one.skip(1) =~= rest);
                    assert(crate::utils::cstr_pairs_at(
                        buf,
                        cur,
                        (count - i + 1) as nat,
                        one,
                        end,
                    ));
                    assert(acc + one =~= acc2 + rest);
                }
                if crate::utils::cstr_pairs_exist(buf, cur, (count - i + 1) as nat) {
                    let (kvs0, end0) = choose|kvs0: Seq<(Seq<char>, Seq<char>)>, end0: int|
                        #[trigger] crate::utils::cstr_pairs_at(buf, cur, (count - i + 1) as nat, kvs0, end0);
                    assert(crate::utils::cstr_pairs_at(
                        buf,
                        reader.pos as int,
                        (count - i) as nat,
                        kvs0.skip(1),
                        end0,
                    ));
                }
                if crate::utils::cstr_pairs_exist(buf, reader.pos as int, (count - i) as nat) {
                    let (kvs0, end0) = choose|kvs0: Seq<(Seq<char>, Seq<char>)>, end0: int|
                        #[trigger] crate::utils::cstr_pairs_at(
                            buf,
                            reader.pos as int,
                            (count - i) as nat,
                            kvs0,
                            end0,
                        );
                    let one = seq![(k@, v@)] + kvs0;
                    assert(one.skip(1) =~= kvs0);
                    assert(crate::utils::cstr_pairs_at(buf, cur, (count - i + 1) as nat, one, end0));
                }
            }
        }
        proof {
            let done = Seq::<(Seq<char>, Seq<char>)>::empty();
            assert(crate::utils::cstr_pairs_at(buf, reader.pos as int, 0, done, reader.pos as int));
            assert(key_values@.map_values(|kv: (String, String)| (kv.0@, kv.1@)) + done
                =~= key_values@.map_values(|kv: (String, String)| (kv.0@, kv.1@)));
            assert(crate::utils::cstr_pairs_at(
                buf,
                kpos0,
                count as nat,
                key_values@.map_values(|kv: (String, String)| (kv.0@, kv.1@)),
                reader.pos as int,
            ));
        }
        Ok(Self { message, show, count, key_values })
    }
}

/// The decoded payload of a user message, one variant per decodable type.
#[derive(Clone, Debug)]
pub enum UserMessageDataType {
    Unknown,
    AchievementEvent(AchievementEvent),
    Battery(Battery),
    CloseCaption(CloseCaption),
    Damage(Damage),
    EntityPortalled(EntityPortalled),
    Fade(Fade),
    Geiger(Geiger),
    HudMsg(HudMsg),
    HudText(HudText),
    KeyHintText(KeyHintText),
    KillCam(KillCam),
    LogoTimeMsg(LogoTimeMsg),
    MpMapCompleted(MpMapCompleted),
    MpTauntEarned(MpTauntEarned),
    MpTauntLocked(MpTauntLocked),
    PaintEntity(PaintEntity),
    PaintWorld(PaintWorld),
    PortalFXSurface(PortalFXSurface),
    ResetHUD(ResetHUD),
    Rumble(Rumble),
    SayText(SayText),
    SayText2(SayText2),
    ScoreboardTempUpdate(ScoreboardTempUpdate),
    Shake(Shake),
    TextMsg(TextMsg),
    Train(Train),
    TransitionFade(TransitionFade),
    VguiMenu(VguiMenu),
    VoiceMask(VoiceMask),
    HapPunch(HapPunch),
    HapSetConstForce(HapSetConstForce),
    HapSetDrag(HapSetDrag),
    SpHapWeaponEvent(SpHapWeaponEvent),
}

/// The message types this crate decodes into a typed payload; any other type
/// is recorded as unknown and skipped over by its declared length.
pub open spec fn um_decoded(t: UserMessageType) -> bool {
    ||| t is AchievementEvent
    ||| t is Battery
    ||| t is CloseCaption
    ||| t is Damage
    ||| t is EntityPortalled
    ||| t is Fade
    ||| t is Geiger
    ||| t is HudMsg
    ||| t is HudText
    ||| t is KeyHintText
    ||| t is KillCam
    ||| t is LogoTimeMsg
    ||| t is MpMapCompleted
    ||| t is MpTauntEarned
    ||| t is MpTauntLocked
    ||| t is PaintEntity
    ||| t is PaintWorld
    ||| t is PortalFXSurface
    ||| t is ResetHUD
    ||| t is Rumble
    ||| t is SayText
    ||| t is SayText2
    ||| t is ScoreboardTempUpdate
    ||| t is Shake
    ||| t is TextMsg
    ||| t is Train
    ||| t is TransitionFade
    ||| t is VguiMenu
    ||| t is VoiceMask
    ||| t is HapPunch
    ||| t is HapSetConstForce
    ||| t is HapSetDrag
    ||| t is SPHapWeaponEvent
}

/// The payload variant belongs to the message type.
pub open spec fn um_data_matches(t: UserMessageType, d: UserMessageDataType) -> bool {
    match t {
        UserMessageType::AchievementEvent => d is AchievementEvent,
        UserMessageType::Battery => d is Battery,
        UserMessageType::CloseCaption => d is CloseCaption,
        UserMessageType::Damage => d is Damage,
        UserMessageType::EntityPortalled => d is EntityPortalled,
        UserMessageType::Fade => d is Fade,
        UserMessageType::Geiger => d is Geiger,
        UserMessageType::HudMsg => d is HudMsg,
        UserMessageType::HudText => d is HudText,
        UserMessageType::KeyHintText => d is KeyHintText,
        UserMessageType::KillCam => d is KillCam,
        UserMessageType::LogoTimeMsg => d is LogoTimeMsg,
        UserMessageType::MpMapCompleted => d is MpMapCompleted,
        UserMessageType::MpTauntEarned => d is MpTauntEarned,
        UserMessageType::MpTauntLocked => d is MpTauntLocked,
        UserMessageType::PaintEntity => d is PaintEntity,
        UserMessageType::PaintWorld => d is PaintWorld,
        UserMessageType::PortalFXSurface => d is PortalFXSurface,
        UserMessageType::ResetHUD => d is ResetHUD,
        UserMessageType::Rumble => d is Rumble,
        UserMessageType::SayText => d is SayText,
        UserMessageType::SayText2 => d is SayText2,
        UserMessageType::ScoreboardTempUpdate => d is ScoreboardTempUpdate,
        UserMessageType::Shake => d is Shake,
        UserMessageType::TextMsg => d is TextMsg,
        UserMessageType::Train => d is Train,
        UserMessageType::TransitionFade => d is TransitionFade,
        UserMessageType::VguiMenu => d is VguiMenu,
        UserMessageType::VoiceMask => d is VoiceMask,
        UserMessageType::HapPunch => d is HapPunch,
        UserMessageType::HapSetConstForce => d is HapSetConstForce,
        UserMessageType::HapSetDrag => d is HapSetDrag,
        UserMessageType::SPHapWeaponEvent => d is SpHapWeaponEvent,
        _ => d is Unknown,
    }
}

/// The declared content of a decodable message type fits the buffer at `p`
/// (`blen` is the buffer's bit length, which the channel-message body check
/// reads).  Types without a decoder are not covered here: they skip their
/// declared length instead.
pub open spec fn um_fits(t: UserMessageType, buf: Seq<u8>, p: int, blen: int) -> bool {
    match t {
        UserMessageType::AchievementEvent => bits_ok(buf, p, 32),
        UserMessageType::Battery => bits_ok(buf, p, 16),
        UserMessageType::CloseCaption => has_cstr(buf, p) && bits_ok(buf, after_cstr(buf, p), 24),
        UserMessageType::Damage => bits_ok(buf, p, 144),
        UserMessageType::EntityPortalled => bits_ok(buf, p, 256),
        UserMessageType::Fade => bits_ok(buf, p, 80),
        UserMessageType::Geiger => bits_ok(buf, p, 8),
        UserMessageType::HudMsg => bits_ok(buf, p, 8) && (blen - (p + 8) >= 148 ==> bits_ok(
            buf,
            p + 8,
            264,
        ) && has_cstr(buf, p + 272)),
        UserMessageType::HudText => has_cstr(buf, p),
        UserMessageType::KeyHintText => bits_ok(buf, p, 8) && has_cstr(buf, p + 8),
        UserMessageType::KillCam => bits_ok(buf, p, 32),
        UserMessageType::LogoTimeMsg => bits_ok(buf, p, 32),
        UserMessageType::MpMapCompleted => bits_ok(buf, p, 16),
        UserMessageType::MpTauntEarned => has_cstr(buf, p) && bits_ok(buf, after_cstr(buf, p), 1),
        UserMessageType::MpTauntLocked => has_cstr(buf, p),
        UserMessageType::PaintEntity => bits_ok(buf, p, 136),
        UserMessageType::PaintWorld => bits_ok(
            buf,
            p,
            (208 + 48 * uint_at(buf, p + 104, 8)) as nat,
        ),
        UserMessageType::PortalFXSurface => ({
            let e1 = crate::bitreader::vcoords_end(buf, p + 56);
            &&& bits_ok(buf, p, 56)
            &&& bits_ok(buf, p + 56, (e1 - (p + 56)) as nat)
            &&& bits_ok(buf, e1, (crate::bitreader::vcoords_end(buf, e1) - e1) as nat)
        }),
        UserMessageType::ResetHUD => bits_ok(buf, p, 8),
        UserMessageType::Rumble => bits_ok(buf, p, 24),
        UserMessageType::SayText => bits_ok(buf, p, 8) && has_cstr(buf, p + 8) && bits_ok(
            buf,
            after_cstr(buf, p + 8),
            8,
        ),
        UserMessageType::SayText2 => ({
            let q0 = p + 16;
            let q1 = after_cstr(buf, q0);
            let q2 = after_cstr(buf, q1);
            let q3 = after_cstr(buf, q2);
            let q4 = after_cstr(buf, q3);
            bits_ok(buf, p, 16) && has_cstr(buf, q0) && has_cstr(buf, q1) && has_cstr(buf, q2)
                && has_cstr(buf, q3) && has_cstr(buf, q4)
        }),
        UserMessageType::ScoreboardTempUpdate => bits_ok(buf, p, 64),
        UserMessageType::Shake => bits_ok(buf, p, 104),
        UserMessageType::TextMsg => ({
            let q0 = p + 8;
            let q1 = after_cstr(buf, q0);
            let q2 = after_cstr(buf, q1);
            let q3 = after_cstr(buf, q2);
            let q4 = after_cstr(buf, q3);
            bits_ok(buf, p, 8) && has_cstr(buf, q0) && has_cstr(buf, q1) && has_cstr(buf, q2)
                && has_cstr(buf, q3) && has_cstr(buf, q4)
        }),
        UserMessageType::Train => bits_ok(buf, p, 8),
        UserMessageType::TransitionFade => bits_ok(buf, p, 32),
        UserMessageType::VguiMenu => ({
            let q = after_cstr(buf, p);
            has_cstr(buf, p) && bits_ok(buf, q, 16) && crate::utils::cstr_pairs_exist(
                buf,
                q + 16,
                uint_at(buf, q + 8, 8),
            )
        }),
        UserMessageType::VoiceMask => bits_ok(buf, p, 136),
        UserMessageType::HapPunch => bits_ok(buf, p, 96),
        UserMessageType::HapSetConstForce => bits_ok(buf, p, 48),
        UserMessageType::HapSetDrag => bits_ok(buf, p, 32),
        UserMessageType::SPHapWeaponEvent => bits_ok(buf, p, 32),
        _ => true,
    }
}

/// One user message: its resolved type and its decoded payload.
#[derive(Clone, Debug)]
pub struct UserMessage {
    pub msg_type: UserMessageType,
    pub data: UserMessageDataType,
}

impl UserMessage {
    pub fn new() -> (r: Self)
        ensures
            r.msg_type is Unknown,
            r.data is Unknown,
    {
        Self { msg_type: UserMessageType::Unknown, data: UserMessageDataType::Unknown }
    }

    /// Decodes the payload for `msg_type`.  A type without a decoder skips
    /// exactly `length` bits and is recorded as unknown; the stream stays
    /// aligned because the length was declared up front.
    #[verifier::rlimit(100)]
    #[verifier::spinoff_prover]
    pub fn parse(reader: &mut BitReader, msg_type: UserMessageType, length: i32) -> (r: Result<
        Self,
        DecodeError,
    >)
        requires
            old(reader).wf(),
            0 <= length,
        ensures
            final(reader).wf(),
            final(reader).buf() == old(reader).buf(),
            final(reader).pos >= old(reader).pos,
            um_decoded(msg_type) ==> (r is Ok <==> um_fits(
                msg_type,
                old(reader).buf(),
                old(reader).pos as int,
                old(reader).bit_len(),
            )),
            !um_decoded(msg_type) ==> (r is Ok <==> bits_ok(
                old(reader).buf(),
                old(reader).pos as int,
                length as nat,
            )),
            r matches Ok(m) ==> {
                &&& um_decoded(msg_type) ==> m.msg_type == msg_type && um_data_matches(
                    msg_type,
                    m.data,
                )
                &&& !um_decoded(msg_type) ==> m.msg_type is Unknown && m.data is Unknown
                    && final(reader).pos == old(reader).pos + length
            },
            r is Err ==> r == Err::<Self, DecodeError>(DecodeError::BufferExhausted),
    {
        let data = match msg_type {
            UserMessageType::AchievementEvent => UserMessageDataType::AchievementEvent(
                AchievementEvent::parse(reader)?,
            ),
            UserMessageType::Battery => UserMessageDataType::Battery(Battery::parse(reader)?),
            UserMessageType::CloseCaption => UserMessageDataType::CloseCaption(
                CloseCaption::parse(reader)?,
            ),
            UserMessageType::Damage => UserMessageDataType::Damage(Damage::parse(reader)?),
            UserMessageType::EntityPortalled => UserMessageDataType::EntityPortalled(
                EntityPortalled::parse(reader)?,
            ),
            UserMessageType::Fade => UserMessageDataType::Fade(Fade::parse(reader)?),
            UserMessageType::Geiger => UserMessageDataType::Geiger(Geiger::parse(reader)?),
            UserMessageType::HudMsg => UserMessageDataType::HudMsg(HudMsg::parse(reader)?),
            UserMessageType::HudText => UserMessageDataType::HudText(HudText::parse(reader)?),
            UserMessageType::KeyHintText => UserMessageDataType::KeyHintText(
                KeyHintText::parse(reader)?,
            ),
            UserMessageType::KillCam => UserMessageDataType::KillCam(KillCam::parse(reader)?),
            UserMessageType::LogoTimeMsg => UserMessageDataType::LogoTimeMsg(
                LogoTimeMsg::parse(reader)?,
            ),
            UserMessageType::MpMapCompleted => UserMessageDataType::MpMapCompleted(
                MpMapCompleted::parse(reader)?,
            ),
            UserMessageType::MpTauntEarned => UserMessageDataType::MpTauntEarned(
                MpTauntEarned::parse(reader)?,
            ),
            UserMessageType::MpTauntLocked => UserMessageDataType::MpTauntLocked(
                MpTauntLocked::parse(reader)?,
            ),
            UserMessageType::PaintEntity => UserMessageDataType::PaintEntity(
                PaintEntity::parse(reader)?,
            ),
            UserMessageType::PaintWorld => UserMessageDataType::PaintWorld(
                PaintWorld::parse(reader)?,
            ),
            UserMessageType::PortalFXSurface => UserMessageDataType::PortalFXSurface(
                PortalFXSurface::parse(reader)?,
            ),
            UserMessageType::ResetHUD => UserMessageDataType::ResetHUD(ResetHUD::parse(reader)?),
            UserMessageType::Rumble => UserMessageDataType::Rumble(Rumble::parse(reader)?),
            UserMessageType::SayText => UserMessageDataType::SayText(SayText::parse(reader)?),
            UserMessageType::SayText2 => UserMessageDataType::SayText2(SayText2::parse(reader)?),
            UserMessageType::ScoreboardTempUpdate => UserMessageDataType::ScoreboardTempUpdate(
                ScoreboardTempUpdate::parse(reader)?,
            ),
            UserMessageType::Shake => UserMessageDataType::Shake(Shake::parse(reader)?),
            UserMessageType::TextMsg => UserMessageDataType::TextMsg(TextMsg::parse(reader)?),
            UserMessageType::Train => UserMessageDataType::Train(Train::parse(reader)?),
            UserMessageType::TransitionFade => UserMessageDataType::TransitionFade(
                TransitionFade::parse(reader)?,
            ),
            UserMessageType::VguiMenu => UserMessageDataType::VguiMenu(VguiMenu::parse(reader)?),
            UserMessageType::VoiceMask => UserMessageDataType::VoiceMask(VoiceMask::parse(reader)?),
            UserMessageType::HapPunch => UserMessageDataType::HapPunch(HapPunch::parse(reader)?),
            UserMessageType::HapSetConstForce => UserMessageDataType::HapSetConstForce(
                HapSetConstForce::parse(reader)?,
            ),
            UserMessageType::HapSetDrag => UserMessageDataType::HapSetDrag(
                HapSetDrag::parse(reader)?,
            ),
            UserMessageType::SPHapWeaponEvent => UserMessageDataType::SpHapWeaponEvent(
                SpHapWeaponEvent::parse(reader)?,
            ),
            _ => UserMessageDataType::Unknown,
        };
        if let UserMessageDataType::Unknown = data {
            match reader.skip(length as usize) {
                Ok(()) => {},
                Err(e) => {
                    return Err(e);
                },
            }
            Ok(Self { msg_type: UserMessageType::Unknown, data })
        } else {
            Ok(Self { msg_type, data })
        }
    }
}

} // verus!
