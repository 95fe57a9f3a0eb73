//! The sub-message layer: tag dispatch inside a full-update packet body.
//!
//! The loop reads a type tag whose width the protocol context supplies,
//! decodes the matching message, and repeats while more than a tag's worth
//! of the declared region remains.  An unknown tag is recoverable: its
//! declared bit length is read and skipped so the byte accounting that ends
//! the loop stays exact.

use vstd::prelude::*;
use crate::DecodeError;
use crate::bitreader::BitReader;
use crate::data_manager::DataManager;
use crate::netsvc_types::{
    NetDisconnect, NetFile, NetNop, NetSetConVar, NetSignonState, NetSplitScreenUser,
    NetStringCmd, NetTick, SvcBspDecal, SvcClassInfo, SvcCmdKeyValues, SvcCreateStringTable,
    SvcCrosshairAngle, SvcEntityMessage, SvcFixAngle, SvcGameEvent, SvcGameEventList,
    SvcGetCvarValue, SvcMenu, SvcPacketEntities, SvcPaintmapData, SvcPrefetch, SvcPrint,
    SvcSendTable, SvcServerInfo, SvcSetPause, SvcSetView, SvcSounds, SvcSplitScreen,
    SvcTempEntities, SvcUpdateStringTable, SvcUserMessage, SvcVoiceData, SvcVoiceInit,
};

verus! {

/// Every message tag the protocol names.
#[derive(Debug, Clone, Copy, PartialEq, Eq, Structural)]
pub enum NetSvcMessageTypes {
    Unknown,
    NetNop,
    NetDisconnect,
    NetFile,
    NetSplitScreenUser,
    NetTick,
    NetStringCmd,
    NetSetConVar,
    NetSignonState,
    SvcPrint,
    SvcServerInfo,
    SvcSendTable,
    SvcClassInfo,
    SvcSetPause,
    SvcCreateStringTable,
    SvcUpdateStringTable,
    SvcVoiceInit,
    SvcVoiceData,
    SvcSounds,
    SvcSetView,
    SvcFixAngle,
    SvcCrosshairAngle,
    SvcBspDecal,
    SvcSplitScreen,
    SvcUserMessage,
    SvcEntityMessage,
    SvcGameEvent,
    SvcPacketEntities,
    SvcTempEntities,
    SvcPrefetch,
    SvcMenu,
    SvcGameEventList,
    SvcGetCvarValue,
    SvcCmdKeyValues,
    SvcPaintmapData,
}

impl NetSvcMessageTypes {
    /// The message type a tag value names (tag 16 is a second print tag).
    pub open spec fn spec_from_int(value: int) -> NetSvcMessageTypes {
        if value == 0 {
            NetSvcMessageTypes::NetNop
        } else if value == 1 {
            NetSvcMessageTypes::NetDisconnect
        } else if value == 2 {
            NetSvcMessageTypes::NetFile
        } else if value == 3 {
            NetSvcMessageTypes::NetTick
        } else if value == 4 {
            NetSvcMessageTypes::NetStringCmd
        } else if value == 5 {
            NetSvcMessageTypes::NetSetConVar
        } else if value == 6 {
            NetSvcMessageTypes::NetSignonState
        } else if value == 7 || value == 16 {
            NetSvcMessageTypes::SvcPrint
        } else if value == 8 {
            NetSvcMessageTypes::SvcServerInfo
        } else if value == 9 {
            NetSvcMessageTypes::SvcSendTable
        } else if value == 10 {
            NetSvcMessageTypes::SvcClassInfo
        } else if value == 11 {
            NetSvcMessageTypes::SvcSetPause
        } else if value == 12 {
            NetSvcMessageTypes::SvcCreateStringTable
        } else if value == 13 {
            NetSvcMessageTypes::SvcUpdateStringTable
        } else if value == 14 {
            NetSvcMessageTypes::SvcVoiceInit
        } else if value == 15 {
            NetSvcMessageTypes::SvcVoiceData
        } else if value == 17 {
            NetSvcMessageTypes::SvcSounds
        } else if value == 18 {
            NetSvcMessageTypes::SvcSetView
        } else if value == 19 {
            NetSvcMessageTypes::SvcFixAngle
        } else if value == 20 {
            NetSvcMessageTypes::SvcCrosshairAngle
        } else if value == 21 {
            NetSvcMessageTypes::SvcBspDecal
        } else if value == 22 {
            NetSvcMessageTypes::SvcSplitScreen
        } else if value == 23 {
            NetSvcMessageTypes::SvcUserMessage
        } else if value == 24 {
            NetSvcMessageTypes::SvcEntityMessage
        } else if value == 25 {
            NetSvcMessageTypes::SvcGameEvent
        } else if value == 26 {
            NetSvcMessageTypes::SvcPacketEntities
        } else if value == 27 {
            NetSvcMessageTypes::SvcTempEntities
        } else if value == 28 {
            NetSvcMessageTypes::SvcPrefetch
        } else if value == 29 {
            NetSvcMessageTypes::SvcMenu
        } else if value == 30 {
            NetSvcMessageTypes::SvcGameEventList
        } else if value == 31 {
            NetSvcMessageTypes::SvcGetCvarValue
        } else if value == 32 {
            NetSvcMessageTypes::SvcCmdKeyValues
        } else if value == 33 {
            NetSvcMessageTypes::SvcPaintmapData
        } else {
            NetSvcMessageTypes::Unknown
        }
    }

    /// Maps a tag value to its message type; values outside the known range
    /// map to `Unknown`.
    pub fn from_int(value: i32) -> (r: NetSvcMessageTypes)
        ensures
            r == NetSvcMessageTypes::spec_from_int(value as int),
    {
        match value {
            0 => NetSvcMessageTypes::NetNop,
            1 => NetSvcMessageTypes::NetDisconnect,
            2 => NetSvcMessageTypes::NetFile,
            3 => NetSvcMessageTypes::NetTick,
            4 => NetSvcMessageTypes::NetStringCmd,
            5 => NetSvcMessageTypes::NetSetConVar,
            6 => NetSvcMessageTypes::NetSignonState,
            7 => NetSvcMessageTypes::SvcPrint,
            8 => NetSvcMessageTypes::SvcServerInfo,
            9 => NetSvcMessageTypes::SvcSendTable,
            10 => NetSvcMessageTypes::SvcClassInfo,
            11 => NetSvcMessageTypes::SvcSetPause,
            12 => NetSvcMessageTypes::SvcCreateStringTable,
            13 => NetSvcMessageTypes::SvcUpdateStringTable,
            14 => NetSvcMessageTypes::SvcVoiceInit,
            15 => NetSvcMessageTypes::SvcVoiceData,
            16 => NetSvcMessageTypes::SvcPrint,
            17 => NetSvcMessageTypes::SvcSounds,
            18 => NetSvcMessageTypes::SvcSetView,
            19 => NetSvcMessageTypes::SvcFixAngle,
            20 => NetSvcMessageTypes::SvcCrosshairAngle,
            21 => NetSvcMessageTypes::SvcBspDecal,
            22 => NetSvcMessageTypes::SvcSplitScreen,
            23 => NetSvcMessageTypes::SvcUserMessage,
            24 => NetSvcMessageTypes::SvcEntityMessage,
            25 => NetSvcMessageTypes::SvcGameEvent,
            26 => NetSvcMessageTypes::SvcPacketEntities,
            27 => NetSvcMessageTypes::SvcTempEntities,
            28 => NetSvcMessageTypes::SvcPrefetch,
            29 => NetSvcMessageTypes::SvcMenu,
            30 => NetSvcMessageTypes::SvcGameEventList,
            31 => NetSvcMessageTypes::SvcGetCvarValue,
            32 => NetSvcMessageTypes::SvcCmdKeyValues,
            33 => NetSvcMessageTypes::SvcPaintmapData,
            _ => NetSvcMessageTypes::Unknown,
        }
    }
}

/// The decoded payload of one message, one variant per tag.
#[derive(Clone, Debug)]
pub enum NetSvcMessageDataTypes {
    Unknown,
    NetNop(NetNop),
    NetDisconnect(NetDisconnect),
    NetFile(NetFile),
    NetSplitScreenUser(NetSplitScreenUser),
    NetTick(NetTick),
    NetStringCmd(NetStringCmd),
    NetSetConVar(NetSetConVar),
    NetSignonState(NetSignonState),
    SvcPrint(SvcPrint),
    SvcServerInfo(SvcServerInfo),
    SvcSendTable(SvcSendTable),
    SvcClassInfo(SvcClassInfo),
    SvcSetPause(SvcSetPause),
    SvcCreateStringTable(SvcCreateStringTable),
    SvcUpdateStringTable(SvcUpdateStringTable),
    SvcVoiceInit(SvcVoiceInit),
    SvcVoiceData(SvcVoiceData),
    SvcSounds(SvcSounds),
    SvcSetView(SvcSetView),
    SvcFixAngle(SvcFixAngle),
    SvcCrosshairAngle(SvcCrosshairAngle),
    SvcBspDecal(SvcBspDecal),
    SvcSplitScreen(SvcSplitScreen),
    SvcUserMessage(SvcUserMessage),
    SvcEntityMessage(SvcEntityMessage),
    SvcGameEvent(SvcGameEvent),
    SvcPacketEntities(SvcPacketEntities),
    SvcTempEntities(SvcTempEntities),
    SvcPrefetch(SvcPrefetch),
    SvcMenu(SvcMenu),
    SvcGameEventList(SvcGameEventList),
    SvcGetCvarValue(SvcGetCvarValue),
    SvcCmdKeyValues(SvcCmdKeyValues),
    SvcPaintmapData(SvcPaintmapData),
}

impl NetSvcMessageDataTypes {
    /// The tick payload, when this is a tick message.
    pub fn as_net_tick(&self) -> (r: Option<&NetTick>)
        ensures
            r is Some <==> self is NetTick,
            r matches Some(v) ==> self == NetSvcMessageDataTypes::NetTick(*v),
    {
        match self {
            NetSvcMessageDataTypes::NetTick(v) => Some(v),
            _ => None,
        }
    }

    /// The fix-angle payload, when this is a fix-angle message.
    pub fn as_fix_angle(&self) -> (r: Option<&SvcFixAngle>)
        ensures
            r is Some <==> self is SvcFixAngle,
            r matches Some(v) ==> self == NetSvcMessageDataTypes::SvcFixAngle(*v),
    {
        match self {
            NetSvcMessageDataTypes::SvcFixAngle(v) => Some(v),
            _ => None,
        }
    }

    /// The pause payload, when this is a pause message.
    pub fn as_set_pause(&self) -> (r: Option<&SvcSetPause>)
        ensures
            r is Some <==> self is SvcSetPause,
            r matches Some(v) ==> self == NetSvcMessageDataTypes::SvcSetPause(*v),
    {
        match self {
            NetSvcMessageDataTypes::SvcSetPause(v) => Some(v),
            _ => None,
        }
    }

    /// The server-info payload, when this is a server-info message.
    pub fn as_server_info(&self) -> (r: Option<&SvcServerInfo>)
        ensures
            r is Some <==> self is SvcServerInfo,
            r matches Some(v) ==> self == NetSvcMessageDataTypes::SvcServerInfo(*v),
    {
        match self {
            NetSvcMessageDataTypes::SvcServerInfo(v) => Some(v),
            _ => None,
        }
    }

    /// The game-event payload, when this is a game-event message.
    pub fn as_game_event(&self) -> (r: Option<&SvcGameEvent>)
        ensures
            r is Some <==> self is SvcGameEvent,
            r matches Some(v) ==> self == NetSvcMessageDataTypes::SvcGameEvent(*v),
    {
        match self {
            NetSvcMessageDataTypes::SvcGameEvent(v) => Some(v),
            _ => None,
        }
    }

    /// The user-message payload, when this is a user message.
    pub fn as_user_message(&self) -> (r: Option<&SvcUserMessage>)
        ensures
            r is Some <==> self is SvcUserMessage,
            r matches Some(v) ==> self == NetSvcMessageDataTypes::SvcUserMessage(*v),
    {
        match self {
            NetSvcMessageDataTypes::SvcUserMessage(v) => Some(v),
            _ => None,
        }
    }

    /// The disconnect payload, when this is a disconnect message.
    pub fn as_disconnect(&self) -> (r: Option<&NetDisconnect>)
        ensures
            r is Some <==> self is NetDisconnect,
            r matches Some(v) ==> self == NetSvcMessageDataTypes::NetDisconnect(*v),
    {
        match self {
            NetSvcMessageDataTypes::NetDisconnect(v) => Some(v),
            _ => None,
        }
    }
}

/// The payload variant belongs to the message type.
pub open spec fn nsm_data_matches(t: NetSvcMessageTypes, d: NetSvcMessageDataTypes) -> bool {
    match t {
        NetSvcMessageTypes::Unknown => d is Unknown,
        NetSvcMessageTypes::NetNop => d is NetNop,
        NetSvcMessageTypes::NetDisconnect => d is NetDisconnect,
        NetSvcMessageTypes::NetFile => d is NetFile,
        NetSvcMessageTypes::NetSplitScreenUser => d is NetSplitScreenUser,
        NetSvcMessageTypes::NetTick => d is NetTick,
        NetSvcMessageTypes::NetStringCmd => d is NetStringCmd,
        NetSvcMessageTypes::NetSetConVar => d is NetSetConVar,
        NetSvcMessageTypes::NetSignonState => d is NetSignonState,
        NetSvcMessageTypes::SvcPrint => d is SvcPrint,
        NetSvcMessageTypes::SvcServerInfo => d is SvcServerInfo,
        NetSvcMessageTypes::SvcSendTable => d is SvcSendTable,
        NetSvcMessageTypes::SvcClassInfo => d is SvcClassInfo,
        NetSvcMessageTypes::SvcSetPause => d is SvcSetPause,
        NetSvcMessageTypes::SvcCreateStringTable => d is SvcCreateStringTable,
        NetSvcMessageTypes::SvcUpdateStringTable => d is SvcUpdateStringTable,
        NetSvcMessageTypes::SvcVoiceInit => d is SvcVoiceInit,
        NetSvcMessageTypes::SvcVoiceData => d is SvcVoiceData,
        NetSvcMessageTypes::SvcSounds => d is SvcSounds,
        NetSvcMessageTypes::SvcSetView => d is SvcSetView,
        NetSvcMessageTypes::SvcFixAngle => d is SvcFixAngle,
        NetSvcMessageTypes::SvcCrosshairAngle => d is SvcCrosshairAngle,
        NetSvcMessageTypes::SvcBspDecal => d is SvcBspDecal,
        NetSvcMessageTypes::SvcSplitScreen => d is SvcSplitScreen,
        NetSvcMessageTypes::SvcUserMessage => d is SvcUserMessage,
        NetSvcMessageTypes::SvcEntityMessage => d is SvcEntityMessage,
        NetSvcMessageTypes::SvcGameEvent => d is SvcGameEvent,
        NetSvcMessageTypes::SvcPacketEntities => d is SvcPacketEntities,
        NetSvcMessageTypes::SvcTempEntities => d is SvcTempEntities,
        NetSvcMessageTypes::SvcPrefetch => d is SvcPrefetch,
        NetSvcMessageTypes::SvcMenu => d is SvcMenu,
        NetSvcMessageTypes::SvcGameEventList => d is SvcGameEventList,
        NetSvcMessageTypes::SvcGetCvarValue => d is SvcGetCvarValue,
        NetSvcMessageTypes::SvcCmdKeyValues => d is SvcCmdKeyValues,
        NetSvcMessageTypes::SvcPaintmapData => d is SvcPaintmapData,
    }
}

/// The decoded message list matches the region: the `i`-th message's tag is
/// read at bit `ps[i]` with the context's tag width and resolves to the
/// recorded type, its payload variant matches that type, messages follow one
/// another (`ps` strictly increases by at least the tag width), a message
/// with an unknown tag spans exactly its tag, its 20-bit declared length
/// field and that many bits, and the run stops only once at most a tag's
/// worth of the declared region remains.
pub open spec fn msg_stream_at(
    buf: Seq<u8>,
    width: nat,
    start: int,
    end_region: int,
    msgs: Seq<NetSvcMessage>,
    ps: Seq<int>,
) -> bool {
    &&& ps.len() == msgs.len() + 1
    &&& ps[0] == start
    &&& forall|i: int|
        0 <= i < msgs.len() ==> {
            &&& (#[trigger] ps[i]) + 6 < end_region
            &&& crate::bitreader::bits_ok(buf, ps[i], width)
            &&& msgs[i].msg_type == NetSvcMessageTypes::spec_from_int(
                crate::bitreader::int_at(buf, ps[i], width) as int,
            )
            &&& nsm_data_matches(msgs[i].msg_type, msgs[i].data)
            &&& ps[i + 1] >= ps[i] + width
            &&& (msgs[i].msg_type is Unknown ==> ps[i + 1] == ps[i] + width + 20
                + crate::bitreader::int_at(buf, ps[i] + width, 20))
        }
    &&& ps[ps.len() - 1] + 6 >= end_region
}

/// Some run of positions witnesses that `msgs` is the message list of the
/// region and that the cursor ended at `endp`.
pub open spec fn msgs_match_region(
    buf: Seq<u8>,
    width: nat,
    start: int,
    end_region: int,
    msgs: Seq<NetSvcMessage>,
    endp: int,
) -> bool {
    exists|ps: Seq<int>|
        {
            &&& #[trigger] msg_stream_at(buf, width, start, end_region, msgs, ps)
            &&& ps[ps.len() - 1] == endp
        }
}

/// Where the message with tag `t` read at bit `q` (just past its tag) ends,
/// when its declared content fits the buffer; `None` when it does not fit,
/// or for the three kinds this specification does not carry: the
/// user-message dispatch and the two game-event kinds, whose success or
/// extent rides on the catalogs declared mid-stream.  Each arm restates the
/// matching decoder's own success condition and final position.
pub open spec fn msg_fits_end(
    buf: Seq<u8>,
    q: int,
    t: NetSvcMessageTypes,
    game: crate::data_manager::Game,
    np: int,
    dp: int,
) -> Option<int> {
    match t {
        NetSvcMessageTypes::Unknown => if crate::bitreader::bits_ok(
            buf,
            q,
            (20 + crate::bitreader::uint_at(buf, q, 20)) as nat,
        ) {
            Some(q + 20 + crate::bitreader::uint_at(buf, q, 20))
        } else {
            None
        },
        NetSvcMessageTypes::NetNop => Some(q),
        NetSvcMessageTypes::NetDisconnect => if crate::bitreader::has_cstr(buf, q) {
            Some(crate::bitreader::after_cstr(buf, q))
        } else {
            None
        },
        NetSvcMessageTypes::NetFile => {
            let qq = crate::bitreader::after_cstr(buf, q + 32);
            if crate::bitreader::bits_ok(buf, q, 32) && crate::bitreader::has_cstr(buf, q + 32)
                && crate::bitreader::bits_ok(buf, qq, 1) {
                Some(qq + 1)
            } else {
                None
            }
        },
        NetSvcMessageTypes::NetSplitScreenUser => if crate::bitreader::bits_ok(buf, q, 1) {
            Some(q + 1)
        } else {
            None
        },
        NetSvcMessageTypes::NetTick => if crate::bitreader::bits_ok(buf, q, 64) {
            Some(q + 64)
        } else {
            None
        },
        NetSvcMessageTypes::NetStringCmd => if crate::bitreader::has_cstr(buf, q) {
            Some(crate::bitreader::after_cstr(buf, q))
        } else {
            None
        },
        NetSvcMessageTypes::NetSetConVar => {
            let n = crate::bitreader::uint_at(buf, q, 8);
            if crate::bitreader::bits_ok(buf, q, 8) && crate::utils::cstr_pairs_exist(
                buf,
                q + 8,
                n,
            ) {
                Some(crate::utils::cstr_pairs_end(buf, q + 8, n))
            } else {
                None
            }
        },
        NetSvcMessageTypes::NetSignonState => if crate::bitreader::bits_ok(buf, q, 40) {
            Some(q + 40)
        } else {
            None
        },
        NetSvcMessageTypes::SvcPrint => if crate::bitreader::has_cstr(buf, q) {
            Some(crate::bitreader::after_cstr(buf, q))
        } else {
            None
        },
        NetSvcMessageTypes::SvcServerInfo => {
            let sp = game is PORTAL_1_1910503;
            let c2 = q + 98 + (if sp {
                128int
            } else {
                32int
            }) + 56;
            let q1 = crate::bitreader::after_cstr(buf, c2);
            let q2 = crate::bitreader::after_cstr(buf, q1);
            let q3 = crate::bitreader::after_cstr(buf, q2);
            let q4 = crate::bitreader::after_cstr(buf, q3);
            if crate::bitreader::bits_ok(buf, q, (c2 - q) as nat) && crate::bitreader::has_cstr(
                buf,
                c2,
            ) && crate::bitreader::has_cstr(buf, q1) && crate::bitreader::has_cstr(buf, q2)
                && crate::bitreader::has_cstr(buf, q3) && (sp ==> crate::bitreader::bits_ok(
                buf,
                q4,
                1,
            )) {
                Some(
                    q4 + (if sp {
                        1int
                    } else {
                        0int
                    }),
                )
            } else {
                None
            }
        },
        NetSvcMessageTypes::SvcSendTable => {
            let len = crate::bitreader::uint_at(buf, q + 1, 8);
            if crate::bitreader::bits_ok(buf, q, (9 + len) as nat) {
                Some(q + 9 + len)
            } else {
                None
            }
        },
        NetSvcMessageTypes::SvcClassInfo => {
            let n = crate::bitreader::uint_at(buf, q, 16);
            let idb = crate::utils::spec_bit_width(n as int);
            if crate::bitreader::bits_ok(buf, q, 17) && (!crate::bitreader::bool_at(buf, q + 16)
                ==> crate::netsvc_types::class_run_exists(buf, q + 17, idb, n)) {
                Some(
                    if crate::bitreader::bool_at(buf, q + 16) {
                        q + 17
                    } else {
                        crate::netsvc_types::class_run_end(buf, q + 17, idb, n)
                    },
                )
            } else {
                None
            }
        },
        NetSvcMessageTypes::SvcSetPause => if crate::bitreader::bits_ok(buf, q, 1) {
            Some(q + 1)
        } else {
            None
        },
        NetSvcMessageTypes::SvcCreateStringTable => {
            let sp = game is PORTAL_1_1910503;
            let q0 = crate::bitreader::after_cstr(buf, q);
            let w = crate::utils::spec_bit_width(crate::bitreader::uint_at(buf, q0, 16) as int);
            let qn = q0 + 16 + w;
            let la: int = if sp {
                qn + 8 * crate::bitreader::varint_len_at(buf, qn, 0).unwrap_or(0)
            } else {
                qn + 20
            };
            let len: int = if sp {
                crate::bitreader::varint_at(buf, qn) as int
            } else {
                crate::bitreader::uint_at(buf, qn, 20) as int
            };
            let qa = la + 1 + (if crate::bitreader::bool_at(buf, la) {
                16int
            } else {
                0int
            });
            let fw: int = if np >= 15 {
                if dp == 4 {
                    2int
                } else {
                    1int
                }
            } else {
                0int
            };
            if crate::bitreader::has_cstr(buf, q) && crate::bitreader::bits_ok(buf, q0, 16)
                && crate::bitreader::bits_ok(buf, q0 + 16, w as nat) && (sp
                ==> crate::bitreader::varint_len_at(buf, qn, 0) is Some
                && crate::bitreader::varint_at(buf, qn) >= 0) && (!sp
                ==> crate::bitreader::bits_ok(buf, qn, 20)) && crate::bitreader::bits_ok(
                buf,
                la,
                1,
            ) && (crate::bitreader::bool_at(buf, la) ==> crate::bitreader::bits_ok(
                buf,
                la + 1,
                16,
            )) && crate::bitreader::bits_ok(buf, qa, fw as nat) && crate::bitreader::bits_ok(
                buf,
                qa + fw,
                len as nat,
            ) {
                Some(qa + fw + len)
            } else {
                None
            }
        },
        NetSvcMessageTypes::SvcUpdateStringTable => {
            let qq = q + 6 + (if crate::bitreader::bool_at(buf, q + 5) {
                16int
            } else {
                0int
            });
            let len = crate::bitreader::uint_at(buf, qq, 20);
            if crate::bitreader::bits_ok(buf, q, ((qq + 20 + len) - q) as nat) {
                Some(qq + 20 + len)
            } else {
                None
            }
        },
        NetSvcMessageTypes::SvcVoiceInit => {
            let qq = crate::bitreader::after_cstr(buf, q);
            let extra: int = if crate::bitreader::uint_at(buf, qq, 8) == 255 {
                32int
            } else {
                0int
            };
            if crate::bitreader::has_cstr(buf, q) && crate::bitreader::bits_ok(
                buf,
                qq,
                (8 + extra) as nat,
            ) {
                Some(qq + 8 + extra)
            } else {
                None
            }
        },
        NetSvcMessageTypes::SvcVoiceData => {
            let len = crate::bitreader::uint_at(buf, q + 16, 16);
            if crate::bitreader::bits_ok(buf, q, (33 + len) as nat) {
                Some(q + 33 + len)
            } else {
                None
            }
        },
        NetSvcMessageTypes::SvcSounds => if crate::bitreader::bool_at(buf, q) {
            let len = crate::bitreader::uint_at(buf, q + 1, 8);
            if crate::bitreader::bits_ok(buf, q, (9 + len) as nat) {
                Some(q + 9 + len)
            } else {
                None
            }
        } else {
            let len = crate::bitreader::uint_at(buf, q + 9, 16);
            if crate::bitreader::bits_ok(buf, q, (25 + len) as nat) {
                Some(q + 25 + len)
            } else {
                None
            }
        },
        NetSvcMessageTypes::SvcSetView => if crate::bitreader::bits_ok(buf, q, 11) {
            Some(q + 11)
        } else {
            None
        },
        NetSvcMessageTypes::SvcFixAngle => if crate::bitreader::bits_ok(buf, q, 49) {
            Some(q + 49)
        } else {
            None
        },
        NetSvcMessageTypes::SvcCrosshairAngle => if crate::bitreader::bits_ok(buf, q, 48) {
            Some(q + 48)
        } else {
            None
        },
        NetSvcMessageTypes::SvcBspDecal => {
            let e = crate::bitreader::vcoords_end(buf, q);
            let b = crate::bitreader::bool_at(buf, e + 9);
            let tail = e + 10 + (if b {
                22int
            } else {
                0int
            });
            if crate::bitreader::bits_ok(buf, q, (e - q) as nat) && crate::bitreader::bits_ok(
                buf,
                e,
                10,
            ) && (b ==> crate::bitreader::bits_ok(buf, e + 10, 22)) && crate::bitreader::bits_ok(
                buf,
                tail,
                1,
            ) {
                Some(tail + 1)
            } else {
                None
            }
        },
        NetSvcMessageTypes::SvcSplitScreen => {
            let len = crate::bitreader::uint_at(buf, q + 1, 11);
            if crate::bitreader::bits_ok(buf, q, (12 + len) as nat) {
                Some(q + 12 + len)
            } else {
                None
            }
        },
        NetSvcMessageTypes::SvcUserMessage => None,
        NetSvcMessageTypes::SvcEntityMessage => {
            let len = crate::bitreader::uint_at(buf, q + 20, 11);
            if crate::bitreader::bits_ok(buf, q, (31 + len) as nat) {
                Some(q + 31 + len)
            } else {
                None
            }
        },
        NetSvcMessageTypes::SvcGameEvent => None,
        NetSvcMessageTypes::SvcPacketEntities => {
            let qq = q + 12 + (if crate::bitreader::bool_at(buf, q + 11) {
                32int
            } else {
                0int
            });
            let len = crate::bitreader::uint_at(buf, qq + 12, 20);
            if crate::bitreader::bits_ok(buf, q, ((qq + 33 + len) - q) as nat) {
                Some(qq + 33 + len)
            } else {
                None
            }
        },
        NetSvcMessageTypes::SvcTempEntities => if game is PORTAL_1_1910503 {
            let vlen = crate::bitreader::varint_len_at(buf, q + 8, 0);
            let len = crate::bitreader::varint_at(buf, q + 8);
            if crate::bitreader::bits_ok(buf, q, 8) && vlen is Some && len >= 0
                && crate::bitreader::bits_ok(buf, q + 8 + 8 * vlen.unwrap(), len as nat) {
                Some(q + 8 + 8 * vlen.unwrap() + len)
            } else {
                None
            }
        } else {
            let len = crate::bitreader::uint_at(buf, q + 8, 17);
            if crate::bitreader::bits_ok(buf, q, (25 + len) as nat) {
                Some(q + 25 + len)
            } else {
                None
            }
        },
        NetSvcMessageTypes::SvcPrefetch => {
            let w: nat = if np == 24 {
                14nat
            } else {
                13nat
            };
            if crate::bitreader::bits_ok(buf, q, w) {
                Some(q + w)
            } else {
                None
            }
        },
        NetSvcMessageTypes::SvcMenu => if crate::bitreader::bits_ok(buf, q, 48) {
            Some(q + 48)
        } else {
            None
        },
        NetSvcMessageTypes::SvcGameEventList => None,
        NetSvcMessageTypes::SvcGetCvarValue => if crate::bitreader::bits_ok(buf, q, 32)
            && crate::bitreader::has_cstr(buf, q + 32) {
            Some(crate::bitreader::after_cstr(buf, q + 32))
        } else {
            None
        },
        NetSvcMessageTypes::SvcCmdKeyValues => {
            let len = crate::bitreader::int_at(buf, q, 32);
            if crate::bitreader::bits_ok(buf, q, 32) && len >= 0 && crate::bitreader::bits_ok(
                buf,
                q + 32,
                (8 * len) as nat,
            ) {
                Some(q + 32 + 8 * len)
            } else {
                None
            }
        },
        NetSvcMessageTypes::SvcPaintmapData => {
            let len = crate::bitreader::int_at(buf, q, 32);
            if crate::bitreader::bits_ok(buf, q, 32) && len >= 0 && crate::bitreader::bits_ok(
                buf,
                q + 32,
                len as nat,
            ) {
                Some(q + 32 + len)
            } else {
                None
            }
        },
    }
}

/// The declared region holds a decodable message run: from `pos`, while
/// more than a tag's worth of the region remains, a readable tag whose
/// message fits (`msg_fits_end`), each message starting where the previous
/// one ended.  When this holds, the decode loop is guaranteed to succeed;
/// the three catalog-dependent kinds make `msg_fits_end` `None`, so a run
/// containing them is simply not covered by the guarantee.
pub open spec fn msg_run_fits(
    buf: Seq<u8>,
    width: nat,
    pos: int,
    end_region: int,
    game: crate::data_manager::Game,
    np: int,
    dp: int,
) -> bool
    decreases (if end_region - pos > 0 {
        end_region - pos
    } else {
        0int
    }),
{
    if pos + 6 >= end_region {
        true
    } else if !crate::bitreader::bits_ok(buf, pos, width) {
        false
    } else {
        let t = NetSvcMessageTypes::spec_from_int(
            crate::bitreader::uint_at(buf, pos, width) as int,
        );
        match msg_fits_end(buf, pos + width, t, game, np, dp) {
            None => false,
            Some(next) => next > pos && msg_run_fits(buf, width, next, end_region, game, np, dp),
        }
    }
}

/// One decoded message: its resolved type and payload.
#[derive(Clone, Debug)]
pub struct NetSvcMessage {
    pub msg_type: NetSvcMessageTypes,
    pub data: NetSvcMessageDataTypes,
}

impl NetSvcMessage {
    pub fn new() -> (r: Self)
        ensures
            r.msg_type is Unknown,
            r.data is Unknown,
    {
        Self { msg_type: NetSvcMessageTypes::Unknown, data: NetSvcMessageDataTypes::Unknown }
    }
}

/// Decodes the message stream of a full-update body `size` bytes long,
/// starting at the cursor.  The loop runs while more than six bits of the
/// declared region remain, so on success the cursor ends within six bits of
/// the region's end, or past it.
///
/// An unknown type tag is recoverable: a 20-bit declared bit length follows
/// the tag and is skipped exactly, and decoding continues with the next
/// message.  A known message that cannot be read to completion is fatal for
/// the whole packet.
#[verifier::loop_isolation(false)]
#[verifier::rlimit(100)]
#[verifier::spinoff_prover]
pub fn parse(reader: &mut BitReader, demo_data_mgr: &mut DataManager, size: i32) -> (r: Result<
    Vec<NetSvcMessage>,
    DecodeError,
>)
    requires
        old(reader).wf(),
        old(demo_data_mgr).wf(),
        size >= 0,
    ensures
        final(reader).wf(),
        final(reader).buf() == old(reader).buf(),
        final(demo_data_mgr).wf(),
        final(demo_data_mgr).net_svc_type_bits == old(demo_data_mgr).net_svc_type_bits,
        final(demo_data_mgr).send_prop_amount_of_bits_to_get_num_bits == old(
            demo_data_mgr,
        ).send_prop_amount_of_bits_to_get_num_bits,
        final(demo_data_mgr).send_prop_type_list == old(demo_data_mgr).send_prop_type_list,
        final(demo_data_mgr).game == old(demo_data_mgr).game,
        final(demo_data_mgr).network_protocol == old(demo_data_mgr).network_protocol,
        final(demo_data_mgr).demo_protocol == old(demo_data_mgr).demo_protocol,
        final(demo_data_mgr).dumping == old(demo_data_mgr).dumping,
        r is Ok ==> final(reader).pos + 6 >= old(reader).pos + 8 * size,
        r matches Ok(msgs) ==> msgs_match_region(
            old(reader).buf(),
            old(demo_data_mgr).net_svc_type_bits as nat,
            old(reader).pos as int,
            old(reader).pos + 8 * size,
            msgs@,
            final(reader).pos as int,
        ),
        r is Err ==> r == Err::<Vec<NetSvcMessage>, DecodeError>(DecodeError::BufferExhausted),
        msg_run_fits(
            old(reader).buf(),
            old(demo_data_mgr).net_svc_type_bits as nat,
            old(reader).pos as int,
            old(reader).pos + 8 * size,
            old(demo_data_mgr).game,
            old(demo_data_mgr).network_protocol as int,
            old(demo_data_mgr).demo_protocol as int,
        ) ==> r is Ok,
{
    let ghost buf = reader.bits@;
    let ghost g0 = demo_data_mgr.game;
    let ghost np0 = demo_data_mgr.network_protocol as int;
    let ghost dp0 = demo_data_mgr.demo_protocol as int;
    let ghost width = demo_data_mgr.net_svc_type_bits as nat;
    let mut messages: Vec<NetSvcMessage> = Vec::new();
    let start_index = reader.pos;
    let ghost p0 = start_index as int;
    let ghost end_region = p0 + 8 * size;
    let ghost mut ps: Seq<int> = seq![p0];
    let end_bits: u128 = start_index as u128 + 8 * (size as u128);
    while (reader.pos as u128) + 6 < end_bits
        invariant
            reader.wf(),
            reader.bits@ == buf,
            demo_data_mgr.wf(),
            demo_data_mgr.net_svc_type_bits as nat == width,
            demo_data_mgr.net_svc_type_bits == old(demo_data_mgr).net_svc_type_bits,
            demo_data_mgr.send_prop_amount_of_bits_to_get_num_bits == old(
                demo_data_mgr,
            ).send_prop_amount_of_bits_to_get_num_bits,
            demo_data_mgr.send_prop_type_list == old(demo_data_mgr).send_prop_type_list,
            demo_data_mgr.game == old(demo_data_mgr).game,
            demo_data_mgr.network_protocol == old(demo_data_mgr).network_protocol,
            demo_data_mgr.demo_protocol == old(demo_data_mgr).demo_protocol,
            demo_data_mgr.dumping == old(demo_data_mgr).dumping,
            end_bits == start_index as u128 + 8 * (size as u128),
            end_region == p0 + 8 * size,
            ps.len() == messages@.len() + 1,
            msg_run_fits(buf, width, p0, end_region, g0, np0, dp0) ==> msg_run_fits(
                buf,
                width,
                reader.pos as int,
                end_region,
                g0,
                np0,
                dp0,
            ),
            ps[0] == p0,
            ps[ps.len() - 1] == reader.pos as int,
            forall|i: int|
                0 <= i < messages@.len() ==> {
                    &&& (#[trigger] ps[i]) + 6 < end_region
                    &&& crate::bitreader::bits_ok(buf, ps[i], width)
                    &&& messages@[i].msg_type == NetSvcMessageTypes::spec_from_int(
                        crate::bitreader::int_at(buf, ps[i], width) as int,
                    )
                    &&& nsm_data_matches(messages@[i].msg_type, messages@[i].data)
                    &&& ps[i + 1] >= ps[i] + width
                    &&& (messages@[i].msg_type is Unknown ==> ps[i + 1] == ps[i] + width + 20
                        + crate::bitreader::int_at(buf, ps[i] + width, 20))
                },
        decreases reader.bit_len() - reader.pos,
    {
        let ghost cur = reader.pos as int;
        let msg_type_raw = reader.read_int(demo_data_mgr.net_svc_type_bits)?;
        let msg_type = NetSvcMessageTypes::from_int(msg_type_raw);
        proof {
            crate::bitreader::lemma_int_at_small(buf, cur, width);
        }
        let data = match msg_type {
            NetSvcMessageTypes::Unknown => {
                let ghost lpos = reader.pos as int;
                let unknown_len = reader.read_int(20)?;
                proof {
                    crate::bitreader::lemma_int_at_small(buf, lpos, 20);
                }
                reader.skip(unknown_len as usize)?;
                NetSvcMessageDataTypes::Unknown
            },
            NetSvcMessageTypes::NetNop => NetSvcMessageDataTypes::NetNop(NetNop),
            NetSvcMessageTypes::NetDisconnect => NetSvcMessageDataTypes::NetDisconnect(
                NetDisconnect::parse(reader)?,
            ),
            NetSvcMessageTypes::NetFile => NetSvcMessageDataTypes::NetFile(NetFile::parse(reader)?),
            NetSvcMessageTypes::NetSetConVar => NetSvcMessageDataTypes::NetSetConVar(
                NetSetConVar::parse(reader)?,
            ),
            NetSvcMessageTypes::NetSignonState => NetSvcMessageDataTypes::NetSignonState(
                NetSignonState::parse(reader)?,
            ),
            NetSvcMessageTypes::NetSplitScreenUser => NetSvcMessageDataTypes::NetSplitScreenUser(
                NetSplitScreenUser::parse(reader)?,
            ),
            NetSvcMessageTypes::NetStringCmd => NetSvcMessageDataTypes::NetStringCmd(
                NetStringCmd::parse(reader)?,
            ),
            NetSvcMessageTypes::NetTick => NetSvcMessageDataTypes::NetTick(NetTick::parse(reader)?),
            NetSvcMessageTypes::SvcBspDecal => NetSvcMessageDataTypes::SvcBspDecal(
                SvcBspDecal::parse(reader)?,
            ),
            NetSvcMessageTypes::SvcClassInfo => NetSvcMessageDataTypes::SvcClassInfo(
                SvcClassInfo::parse(reader, demo_data_mgr)?,
            ),
            NetSvcMessageTypes::SvcCmdKeyValues => NetSvcMessageDataTypes::SvcCmdKeyValues(
                SvcCmdKeyValues::parse(reader)?,
            ),
            NetSvcMessageTypes::SvcCreateStringTable => NetSvcMessageDataTypes::SvcCreateStringTable(
                SvcCreateStringTable::parse(reader, demo_data_mgr)?,
            ),
            NetSvcMessageTypes::SvcCrosshairAngle => NetSvcMessageDataTypes::SvcCrosshairAngle(
                SvcCrosshairAngle::parse(reader)?,
            ),
            NetSvcMessageTypes::SvcEntityMessage => NetSvcMessageDataTypes::SvcEntityMessage(
                SvcEntityMessage::parse(reader)?,
            ),
            NetSvcMessageTypes::SvcFixAngle => NetSvcMessageDataTypes::SvcFixAngle(
                SvcFixAngle::parse(reader)?,
            ),
            NetSvcMessageTypes::SvcGameEvent => NetSvcMessageDataTypes::SvcGameEvent(
                SvcGameEvent::parse(reader, &demo_data_mgr.game_event_list)?,
            ),
            NetSvcMessageTypes::SvcGameEventList => NetSvcMessageDataTypes::SvcGameEventList(
                SvcGameEventList::parse(reader, &mut demo_data_mgr.game_event_list)?,
            ),
            NetSvcMessageTypes::SvcGetCvarValue => NetSvcMessageDataTypes::SvcGetCvarValue(
                SvcGetCvarValue::parse(reader)?,
            ),
            NetSvcMessageTypes::SvcMenu => NetSvcMessageDataTypes::SvcMenu(SvcMenu::parse(reader)?),
            NetSvcMessageTypes::SvcPacketEntities => NetSvcMessageDataTypes::SvcPacketEntities(
                SvcPacketEntities::parse(reader)?,
            ),
            NetSvcMessageTypes::SvcPaintmapData => NetSvcMessageDataTypes::SvcPaintmapData(
                SvcPaintmapData::parse(reader)?,
            ),
            NetSvcMessageTypes::SvcPrefetch => NetSvcMessageDataTypes::SvcPrefetch(
                SvcPrefetch::parse(reader, demo_data_mgr)?,
            ),
            NetSvcMessageTypes::SvcPrint => NetSvcMessageDataTypes::SvcPrint(
                SvcPrint::parse(reader)?,
            ),
            NetSvcMessageTypes::SvcSendTable => NetSvcMessageDataTypes::SvcSendTable(
                SvcSendTable::parse(reader)?,
            ),
            NetSvcMessageTypes::SvcServerInfo => NetSvcMessageDataTypes::SvcServerInfo(
                SvcServerInfo::parse(reader, demo_data_mgr)?,
            ),
            NetSvcMessageTypes::SvcSetPause => NetSvcMessageDataTypes::SvcSetPause(
                SvcSetPause::parse(reader)?,
            ),
            NetSvcMessageTypes::SvcSetView => NetSvcMessageDataTypes::SvcSetView(
                SvcSetView::parse(reader)?,
            ),
            NetSvcMessageTypes::SvcSounds => NetSvcMessageDataTypes::SvcSounds(
                SvcSounds::parse(reader)?,
            ),
            NetSvcMessageTypes::SvcSplitScreen => NetSvcMessageDataTypes::SvcSplitScreen(
                SvcSplitScreen::parse(reader)?,
            ),
            NetSvcMessageTypes::SvcTempEntities => NetSvcMessageDataTypes::SvcTempEntities(
                SvcTempEntities::parse(reader, demo_data_mgr)?,
            ),
            NetSvcMessageTypes::SvcUpdateStringTable => NetSvcMessageDataTypes::SvcUpdateStringTable(
                SvcUpdateStringTable::parse(reader)?,
            ),
            NetSvcMessageTypes::SvcUserMessage => NetSvcMessageDataTypes::SvcUserMessage(
                SvcUserMessage::parse(reader, &demo_data_mgr.user_message_list)?,
            ),
            NetSvcMessageTypes::SvcVoiceData => NetSvcMessageDataTypes::SvcVoiceData(
                SvcVoiceData::parse(reader)?,
            ),
            NetSvcMessageTypes::SvcVoiceInit => NetSvcMessageDataTypes::SvcVoiceInit(
                SvcVoiceInit::parse(reader)?,
            ),
        };
        let msg = NetSvcMessage { msg_type, data };
        proof {
            assert(nsm_data_matches(msg.msg_type, msg.data));
        }
        messages.push(msg);
        proof {
            ps = ps.push(reader.pos as int);
            if msg_run_fits(buf, width, p0, end_region, g0, np0, dp0) {
                assert(msg_run_fits(buf, width, cur, end_region, g0, np0, dp0));
                crate::bitreader::lemma_int_at_small_all(buf);
                assert(msg_fits_end(buf, cur + width, msg.msg_type, g0, np0, dp0) == Some(
                    reader.pos as int,
                ));
                assert(msg_run_fits(buf, width, reader.pos as int, end_region, g0, np0, dp0));
            }
        }
    }
    proof {
        let w = ps;
        assert(msg_stream_at(buf, width, p0, end_region, messages@, w));
        assert(msgs_match_region(buf, width, p0, end_region, messages@, reader.pos as int));
    }
    Ok(messages)
}

/// Finds the first pause message in a decoded message list and returns its
/// flag; `None` when the list holds no pause message.  Pause state threads
/// through the stream in order, so the first pause message is the one that
/// counts.
pub fn check_for_pause(messages: &Vec<NetSvcMessage>) -> (r: Option<bool>)
    ensures
        r is Some <==> exists|i: int|
            0 <= i < messages@.len() && (#[trigger] messages@[i]).data is SvcSetPause,
        r matches Some(b) ==> exists|i: int|
            {
                &&& 0 <= i < messages@.len()
                &&& (#[trigger] messages@[i]).data matches NetSvcMessageDataTypes::SvcSetPause(p)
                &&& p.paused == b
                &&& forall|j: int| 0 <= j < i ==> !((#[trigger] messages@[j]).data is SvcSetPause)
            },
{
    let mut i: usize = 0;
    while i < messages.len()
        invariant
            i <= messages@.len(),
            forall|j: int| 0 <= j < i ==> !((#[trigger] messages@[j]).data is SvcSetPause),
        decreases messages@.len() - i,
    {
        if let NetSvcMessageDataTypes::SvcSetPause(p) = &messages[i].data {
            return Some(p.paused);
        }
        i = i + 1;
    }
    None
}

} // verus!
