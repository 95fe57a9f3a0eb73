//! The protocol context: state derived from the header and accumulated while
//! the stream is walked, consulted by later decoders in the same pass.

use vstd::prelude::*;
use crate::demo_header::DemoHeader;
use crate::user_message::UserMessageType;
use crate::send_table::SendPropType;
use crate::utils::{GameEventList, ServerClass};

verus! {

/// The game variant, resolved from the network protocol version.
#[allow(non_camel_case_types)]
#[derive(PartialEq, Eq, Structural, Clone, Copy, Debug)]
pub enum Game {
    PORTAL_1_3420,
    PORTAL_1_5135,
    PORTAL_1_1910503,
    UNKNOWN,
}

/// The user-message catalog of the oldest supported variant.
pub open spec fn user_message_list_3420() -> Seq<UserMessageType> {
    seq![
        UserMessageType::Geiger,
        UserMessageType::Train,
        UserMessageType::HudText,
        UserMessageType::SayText,
        UserMessageType::SayText2,
        UserMessageType::TextMsg,
        UserMessageType::HudMsg,
        UserMessageType::ResetHUD,
        UserMessageType::GameTitle,
        UserMessageType::ItemPickup,
        UserMessageType::ShowMenu,
        UserMessageType::Shake,
        UserMessageType::Fade,
        UserMessageType::VguiMenu,
        UserMessageType::Rumble,
        UserMessageType::Battery,
        UserMessageType::Damage,
        UserMessageType::VoiceMask,
        UserMessageType::RequestState,
        UserMessageType::CloseCaption,
        UserMessageType::HintText,
        UserMessageType::KeyHintText,
        UserMessageType::SquadMemberDied,
        UserMessageType::AmmoDenied,
        UserMessageType::CreditsMsg,
        UserMessageType::CreditsPortalMsg,
        UserMessageType::LogoTimeMsg,
        UserMessageType::AchievementEvent,
        UserMessageType::EntityPortalled,
        UserMessageType::KillCam,
    ]
}

/// The catalog of the middle variant: the old list plus the haptics types.
pub open spec fn user_message_list_5135() -> Seq<UserMessageType> {
    user_message_list_3420() + seq![
        UserMessageType::SPHapWeaponEvent,
        UserMessageType::HapDmg,
        UserMessageType::HapPunch,
        UserMessageType::HapSetDrag,
        UserMessageType::HapSetConstForce,
        UserMessageType::HapMeleeContact,
    ]
}

/// The catalog of the newest variant: the old list plus voting, then the
/// haptics types.
pub open spec fn user_message_list_1910503() -> Seq<UserMessageType> {
    user_message_list_3420() + seq![
        UserMessageType::CallVoteFailed,
        UserMessageType::VoteStart,
        UserMessageType::VotePass,
        UserMessageType::VoteFailed,
        UserMessageType::VoteSetup,
        UserMessageType::SPHapWeaponEvent,
        UserMessageType::HapDmg,
        UserMessageType::HapPunch,
        UserMessageType::HapSetDrag,
        UserMessageType::HapSetConstForce,
        UserMessageType::HapMeleeContact,
    ]
}

/// Property-type tags of the oldest variant, which lacks the 2-D vector.
pub open spec fn send_prop_types_old() -> Seq<SendPropType> {
    seq![
        SendPropType::Int,
        SendPropType::Float,
        SendPropType::Vector3,
        SendPropType::String,
        SendPropType::Array,
        SendPropType::DataTable,
    ]
}

/// Property-type tags of the newer variants.
pub open spec fn send_prop_types_new() -> Seq<SendPropType> {
    seq![
        SendPropType::Int,
        SendPropType::Float,
        SendPropType::Vector3,
        SendPropType::Vector2,
        SendPropType::String,
        SendPropType::Array,
        SendPropType::DataTable,
    ]
}

/// Mutable state threaded through the whole decode of one file.
pub struct DataManager {
    pub demo_protocol: i32,
    pub network_protocol: i32,
    pub last_packet_tick: i32,
    pub game_event_list: GameEventList,
    pub user_message_list: Vec<UserMessageType>,
    pub game: Game,
    /// Width of the message-type tag inside full-update bodies: 5 bits for
    /// the oldest variant, 6 otherwise.
    pub net_svc_type_bits: usize,
    pub adj_start_tick: i32,
    pub adj_end_tick: i32,
    pub server_class_info: Vec<ServerClass>,
    /// Width of a property's quantization-bits field: 6 or 7 by variant.
    pub send_prop_amount_of_bits_to_get_num_bits: usize,
    pub send_prop_type_list: Vec<SendPropType>,
    pub paused: bool,
    pub dumping: bool,
    /// String tables seen so far, for mid-stream name lookups.
    pub stringtables: Vec<crate::stringtable::StringTable>,
}

impl DataManager {
    /// The field widths stay inside what the readers accept.
    pub open spec fn wf(self) -> bool {
        &&& 1 <= self.net_svc_type_bits <= 6
        &&& 1 <= self.send_prop_amount_of_bits_to_get_num_bits <= 7
    }

    pub fn new() -> (r: Self)
        ensures
            r.wf(),
            r.demo_protocol == 0,
            r.network_protocol == 0,
            r.last_packet_tick == 0,
            r.game is UNKNOWN,
            r.net_svc_type_bits == 6,
            r.adj_start_tick == 0,
            r.adj_end_tick == 0,
            !r.paused,
            !r.dumping,
            r.user_message_list@ == Seq::<UserMessageType>::empty(),
            r.server_class_info@ == Seq::<ServerClass>::empty(),
            r.stringtables@.len() == 0,
    {
        Self {
            game_event_list: GameEventList::new(),
            demo_protocol: 0,
            network_protocol: 0,
            last_packet_tick: 0,
            user_message_list: Vec::new(),
            game: Game::UNKNOWN,
            net_svc_type_bits: 6,
            adj_start_tick: 0,
            adj_end_tick: 0,
            server_class_info: Vec::new(),
            send_prop_amount_of_bits_to_get_num_bits: 6,
            send_prop_type_list: Vec::new(),
            paused: false,
            dumping: false,
            stringtables: Vec::new(),
        }
    }

    /// Resolves everything the network protocol version decides: the game
    /// variant, the message-tag width, the user-message catalog, the
    /// property-type tags, and the quantization-bits field width.
    pub fn get_info_from_header(&mut self, header: &DemoHeader)
        requires
            old(self).wf(),
        ensures
            final(self).wf(),
            final(self).demo_protocol == header.demo_protocol,
            final(self).network_protocol == header.network_protocol,
            header.network_protocol == 14 ==> {
                &&& final(self).game is PORTAL_1_3420
                &&& final(self).net_svc_type_bits == 5
                &&& final(self).user_message_list@ == user_message_list_3420()
                &&& final(self).send_prop_amount_of_bits_to_get_num_bits == 6
                &&& final(self).send_prop_type_list@ == send_prop_types_old()
            },
            header.network_protocol == 15 ==> {
                &&& final(self).game is PORTAL_1_5135
                &&& final(self).net_svc_type_bits == 6
                &&& final(self).user_message_list@ == user_message_list_5135()
                &&& final(self).send_prop_amount_of_bits_to_get_num_bits == 7
                &&& final(self).send_prop_type_list@ == send_prop_types_new()
            },
            header.network_protocol == 24 ==> {
                &&& final(self).game is PORTAL_1_1910503
                &&& final(self).net_svc_type_bits == 6
                &&& final(self).user_message_list@ == user_message_list_1910503()
                &&& final(self).send_prop_amount_of_bits_to_get_num_bits == 7
                &&& final(self).send_prop_type_list@ == send_prop_types_new()
            },
            !(header.network_protocol == 14 || header.network_protocol == 15
                || header.network_protocol == 24) ==> {
                &&& final(self).game is UNKNOWN
                &&& final(self).net_svc_type_bits == 6
                &&& final(self).send_prop_amount_of_bits_to_get_num_bits == 7
            },
    {
        self.demo_protocol = header.demo_protocol;
        self.network_protocol = header.network_protocol;
        if header.network_protocol == 14 {
            self.game = Game::PORTAL_1_3420;
            self.net_svc_type_bits = 5;
            self.user_message_list = base_user_messages();
            self.send_prop_amount_of_bits_to_get_num_bits = 6;
            let mut tl: Vec<SendPropType> = Vec::new();
            tl.push(SendPropType::Int);
            tl.push(SendPropType::Float);
            tl.push(SendPropType::Vector3);
            tl.push(SendPropType::String);
            tl.push(SendPropType::Array);
            tl.push(SendPropType::DataTable);
            proof {
                assert(tl@ =~= send_prop_types_old());
            }
            self.send_prop_type_list = tl;
        } else if header.network_protocol == 15 {
            self.game = Game::PORTAL_1_5135;
            self.net_svc_type_bits = 6;
            let mut ml = base_user_messages();
            push_haptics(&mut ml);
            proof {
                assert(ml@ =~= user_message_list_5135());
            }
            self.user_message_list = ml;
            self.send_prop_amount_of_bits_to_get_num_bits = 7;
            self.send_prop_type_list = new_send_prop_types();
        } else if header.network_protocol == 24 {
            self.game = Game::PORTAL_1_1910503;
            self.net_svc_type_bits = 6;
            let mut ml = base_user_messages();
            ml.push(UserMessageType::CallVoteFailed);
            ml.push(UserMessageType::VoteStart);
            ml.push(UserMessageType::VotePass);
            ml.push(UserMessageType::VoteFailed);
            ml.push(UserMessageType::VoteSetup);
            push_haptics(&mut ml);
            proof {
                assert(ml@ =~= user_message_list_1910503());
            }
            self.user_message_list = ml;
            self.send_prop_amount_of_bits_to_get_num_bits = 7;
            self.send_prop_type_list = new_send_prop_types();
        } else {
            self.game = Game::UNKNOWN;
            self.net_svc_type_bits = 6;
            self.send_prop_amount_of_bits_to_get_num_bits = 7;
        }
    }

    /// Tick count as measured from the last packet tick (one more than the
    /// last tick, counting tick zero).
    pub fn get_measured_ticks(&self) -> (r: i32)
        requires
            self.last_packet_tick < i32::MAX,
        ensures
            r == self.last_packet_tick + 1,
    {
        self.last_packet_tick + 1
    }

    /// Tick count after the recorded adjustment markers are applied: an end
    /// marker alone caps the count, a start marker alone rebases it, and with
    /// neither (or both) the measured count stands.
    pub fn get_adjusted_ticks(&self) -> (r: i32)
        requires
            0 <= self.last_packet_tick < i32::MAX,
            0 <= self.adj_end_tick < i32::MAX,
            self.adj_start_tick == 0 || 0 < self.adj_start_tick <= self.last_packet_tick
                || self.adj_end_tick != 0,
        ensures
            self.adj_end_tick == 0 && self.adj_start_tick != 0 ==> r == self.last_packet_tick
                - self.adj_start_tick + 1,
            self.adj_end_tick != 0 && self.adj_start_tick == 0 ==> r == self.adj_end_tick + 1,
            (self.adj_end_tick == 0) == (self.adj_start_tick == 0) ==> r == self.last_packet_tick
                + 1,
    {
        if self.adj_end_tick == 0 && self.adj_start_tick != 0 {
            self.last_packet_tick - self.adj_start_tick + 1
        } else if self.adj_end_tick != 0 && self.adj_start_tick == 0 {
            self.adj_end_tick + 1
        } else {
            self.get_measured_ticks()
        }
    }
}

/// The user-message catalog shared by every supported variant.
fn base_user_messages() -> (r: Vec<UserMessageType>)
    ensures
        r@ == user_message_list_3420(),
{
    let mut ml: Vec<UserMessageType> = Vec::new();
    ml.push(UserMessageType::Geiger);
    ml.push(UserMessageType::Train);
    ml.push(UserMessageType::HudText);
    ml.push(UserMessageType::SayText);
    ml.push(UserMessageType::SayText2);
    ml.push(UserMessageType::TextMsg);
    ml.push(UserMessageType::HudMsg);
    ml.push(UserMessageType::ResetHUD);
    ml.push(UserMessageType::GameTitle);
    ml.push(UserMessageType::ItemPickup);
    ml.push(UserMessageType::ShowMenu);
    ml.push(UserMessageType::Shake);
    ml.push(UserMessageType::Fade);
    ml.push(UserMessageType::VguiMenu);
    ml.push(UserMessageType::Rumble);
    ml.push(UserMessageType::Battery);
    ml.push(UserMessageType::Damage);
    ml.push(UserMessageType::VoiceMask);
    ml.push(UserMessageType::RequestState);
    ml.push(UserMessageType::CloseCaption);
    ml.push(UserMessageType::HintText);
    ml.push(UserMessageType::KeyHintText);
    ml.push(UserMessageType::SquadMemberDied);
    ml.push(UserMessageType::AmmoDenied);
    ml.push(UserMessageType::CreditsMsg);
    ml.push(UserMessageType::CreditsPortalMsg);
    ml.push(UserMessageType::LogoTimeMsg);
    ml.push(UserMessageType::AchievementEvent);
    ml.push(UserMessageType::EntityPortalled);
    ml.push(UserMessageType::KillCam);
    proof {
        assert(ml@ =~= user_message_list_3420());
    }
    ml
}

/// Appends the six haptics types every newer variant recognizes.
fn push_haptics(ml: &mut Vec<UserMessageType>)
    ensures
        final(ml)@ == old(ml)@ + seq![
            UserMessageType::SPHapWeaponEvent,
            UserMessageType::HapDmg,
            UserMessageType::HapPunch,
            UserMessageType::HapSetDrag,
            UserMessageType::HapSetConstForce,
            UserMessageType::HapMeleeContact,
        ],
{
    let ghost before = ml@;
    ml.push(UserMessageType::SPHapWeaponEvent);
    ml.push(UserMessageType::HapDmg);
    ml.push(UserMessageType::HapPunch);
    ml.push(UserMessageType::HapSetDrag);
    ml.push(UserMessageType::HapSetConstForce);
    ml.push(UserMessageType::HapMeleeContact);
    proof {
        assert(ml@ =~= before + seq![
            UserMessageType::SPHapWeaponEvent,
            UserMessageType::HapDmg,
            UserMessageType::HapPunch,
            UserMessageType::HapSetDrag,
            UserMessageType::HapSetConstForce,
            UserMessageType::HapMeleeContact,
        ]);
    }
}

/// The property-type tag table of the newer variants.
fn new_send_prop_types() -> (r: Vec<SendPropType>)
    ensures
        r@ == send_prop_types_new(),
{
    let mut tl: Vec<SendPropType> = Vec::new();
    tl.push(SendPropType::Int);
    tl.push(SendPropType::Float);
    tl.push(SendPropType::Vector3);
    tl.push(SendPropType::Vector2);
    tl.push(SendPropType::String);
    tl.push(SendPropType::Array);
    tl.push(SendPropType::DataTable);
    proof {
        assert(tl@ =~= send_prop_types_new());
    }
    tl
}

} // verus!
