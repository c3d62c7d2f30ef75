//! Opcode names of the supported builds.  An opcode that a build's table
//! does not list is named "UNKNOWN", as is every opcode of another build.

use vstd::prelude::*;

use crate::version::{BUILD_CATA, BUILD_TBC, BUILD_VANILLA, BUILD_WOTLK};

verus! {

/// Opcode names of Wrath of the Lich King 3.3.5a (build 12340).
pub open spec fn spec_wotlk_opcode_name(opcode: u32) -> Seq<char> {
    match opcode {
        0x0001 => "CMSG_BOOTME"@,
        0x001C => "SMSG_PONG"@,
        0x0036 => "CMSG_CHAR_CREATE"@,
        0x0037 => "CMSG_CHAR_ENUM"@,
        0x003B => "SMSG_CHAR_ENUM"@,
        0x003D => "CMSG_PLAYER_LOGIN"@,
        0x003E => "SMSG_NEW_WORLD"@,
        0x0046 => "SMSG_TRANSFER_PENDING"@,
        0x004B => "CMSG_PLAYER_LOGOUT"@,
        0x004C => "SMSG_LOGOUT_RESPONSE"@,
        0x004E => "SMSG_LOGOUT_COMPLETE"@,
        0x0050 => "CMSG_NAME_QUERY"@,
        0x0051 => "SMSG_NAME_QUERY_RESPONSE"@,
        0x0060 => "CMSG_CREATURE_QUERY"@,
        0x0061 => "SMSG_CREATURE_QUERY_RESPONSE"@,
        0x0062 => "CMSG_WHO"@,
        0x0063 => "SMSG_WHO"@,
        0x006C => "SMSG_DESTROY_OBJECT"@,
        0x008B => "CMSG_GUILD_QUERY"@,
        0x008C => "SMSG_GUILD_QUERY_RESPONSE"@,
        0x0095 => "CMSG_MESSAGECHAT"@,
        0x0096 => "SMSG_MESSAGECHAT"@,
        0x00A8 => "SMSG_COMPRESSED_UPDATE_OBJECT"@,
        0x00A9 => "SMSG_UPDATE_OBJECT"@,
        0x00B5 => "MSG_MOVE_START_FORWARD"@,
        0x00B6 => "MSG_MOVE_START_BACKWARD"@,
        0x00B7 => "MSG_MOVE_STOP"@,
        0x00B8 => "MSG_MOVE_START_STRAFE_LEFT"@,
        0x00B9 => "MSG_MOVE_START_STRAFE_RIGHT"@,
        0x00BA => "MSG_MOVE_STOP_STRAFE"@,
        0x00BB => "MSG_MOVE_JUMP"@,
        0x00BC => "MSG_MOVE_START_TURN_LEFT"@,
        0x00BD => "MSG_MOVE_START_TURN_RIGHT"@,
        0x00BE => "MSG_MOVE_STOP_TURN"@,
        0x00BF => "MSG_MOVE_START_PITCH_UP"@,
        0x00C0 => "MSG_MOVE_START_PITCH_DOWN"@,
        0x00C1 => "MSG_MOVE_STOP_PITCH"@,
        0x00C7 => "MSG_MOVE_FALL_LAND"@,
        0x00C9 => "MSG_MOVE_START_SWIM"@,
        0x00CA => "MSG_MOVE_STOP_SWIM"@,
        0x00DA => "MSG_MOVE_SET_FACING"@,
        0x00E1 => "MSG_MOVE_SET_RUN_MODE"@,
        0x00E2 => "MSG_MOVE_SET_WALK_MODE"@,
        0x00EE => "MSG_MOVE_HEARTBEAT"@,
        0x012E => "CMSG_CAST_SPELL"@,
        0x0130 => "SMSG_SPELL_START"@,
        0x0131 => "SMSG_SPELL_GO"@,
        0x0141 => "CMSG_ATTACKSWING"@,
        0x0142 => "CMSG_ATTACKSTOP"@,
        0x015D => "CMSG_LOOT"@,
        0x015E => "CMSG_LOOT_MONEY"@,
        0x015F => "CMSG_AUTOSTORE_LOOT_ITEM"@,
        0x0160 => "SMSG_LOOT_RESPONSE"@,
        0x01B2 => "SMSG_ATTACKSTART"@,
        0x01B3 => "SMSG_ATTACKSTOP"@,
        0x01DC => "CMSG_PING"@,
        0x01EC => "SMSG_AUTH_CHALLENGE"@,
        0x01EE => "CMSG_AUTH_SESSION"@,
        0x01EF => "SMSG_AUTH_RESPONSE"@,
        0x03FD => "CMSG_WORLD_TELEPORT"@,
        _ => "UNKNOWN"@,
    }
}

/// Name of `opcode` in Wrath of the Lich King 3.3.5a (build 12340).
fn wotlk_opcode_name(opcode: u32) -> (name: &'static str)
    ensures
        name@ == spec_wotlk_opcode_name(opcode),
{
    match opcode {
        0x0001 => "CMSG_BOOTME",
        0x001C => "SMSG_PONG",
        0x0036 => "CMSG_CHAR_CREATE",
        0x0037 => "CMSG_CHAR_ENUM",
        0x003B => "SMSG_CHAR_ENUM",
        0x003D => "CMSG_PLAYER_LOGIN",
        0x003E => "SMSG_NEW_WORLD",
        0x0046 => "SMSG_TRANSFER_PENDING",
        0x004B => "CMSG_PLAYER_LOGOUT",
        0x004C => "SMSG_LOGOUT_RESPONSE",
        0x004E => "SMSG_LOGOUT_COMPLETE",
        0x0050 => "CMSG_NAME_QUERY",
        0x0051 => "SMSG_NAME_QUERY_RESPONSE",
        0x0060 => "CMSG_CREATURE_QUERY",
        0x0061 => "SMSG_CREATURE_QUERY_RESPONSE",
        0x0062 => "CMSG_WHO",
        0x0063 => "SMSG_WHO",
        0x006C => "SMSG_DESTROY_OBJECT",
        0x008B => "CMSG_GUILD_QUERY",
        0x008C => "SMSG_GUILD_QUERY_RESPONSE",
        0x0095 => "CMSG_MESSAGECHAT",
        0x0096 => "SMSG_MESSAGECHAT",
        0x00A8 => "SMSG_COMPRESSED_UPDATE_OBJECT",
        0x00A9 => "SMSG_UPDATE_OBJECT",
        0x00B5 => "MSG_MOVE_START_FORWARD",
        0x00B6 => "MSG_MOVE_START_BACKWARD",
        0x00B7 => "MSG_MOVE_STOP",
        0x00B8 => "MSG_MOVE_START_STRAFE_LEFT",
        0x00B9 => "MSG_MOVE_START_STRAFE_RIGHT",
        0x00BA => "MSG_MOVE_STOP_STRAFE",
        0x00BB => "MSG_MOVE_JUMP",
        0x00BC => "MSG_MOVE_START_TURN_LEFT",
        0x00BD => "MSG_MOVE_START_TURN_RIGHT",
        0x00BE => "MSG_MOVE_STOP_TURN",
        0x00BF => "MSG_MOVE_START_PITCH_UP",
        0x00C0 => "MSG_MOVE_START_PITCH_DOWN",
        0x00C1 => "MSG_MOVE_STOP_PITCH",
        0x00C7 => "MSG_MOVE_FALL_LAND",
        0x00C9 => "MSG_MOVE_START_SWIM",
        0x00CA => "MSG_MOVE_STOP_SWIM",
        0x00DA => "MSG_MOVE_SET_FACING",
        0x00E1 => "MSG_MOVE_SET_RUN_MODE",
        0x00E2 => "MSG_MOVE_SET_WALK_MODE",
        0x00EE => "MSG_MOVE_HEARTBEAT",
        0x012E => "CMSG_CAST_SPELL",
        0x0130 => "SMSG_SPELL_START",
        0x0131 => "SMSG_SPELL_GO",
        0x0141 => "CMSG_ATTACKSWING",
        0x0142 => "CMSG_ATTACKSTOP",
        0x015D => "CMSG_LOOT",
        0x015E => "CMSG_LOOT_MONEY",
        0x015F => "CMSG_AUTOSTORE_LOOT_ITEM",
        0x0160 => "SMSG_LOOT_RESPONSE",
        0x01B2 => "SMSG_ATTACKSTART",
        0x01B3 => "SMSG_ATTACKSTOP",
        0x01DC => "CMSG_PING",
        0x01EC => "SMSG_AUTH_CHALLENGE",
        0x01EE => "CMSG_AUTH_SESSION",
        0x01EF => "SMSG_AUTH_RESPONSE",
        0x03FD => "CMSG_WORLD_TELEPORT",
        _ => "UNKNOWN",
    }
}

/// Opcode names of Vanilla 1.12.1 (build 5875).
pub open spec fn spec_vanilla_opcode_name(opcode: u32) -> Seq<char> {
    match opcode {
        0x0000 => "CMSG_NULL_ACTION"@,
        0x001D => "SMSG_PONG"@,
        0x0036 => "CMSG_CHAR_CREATE"@,
        0x0037 => "CMSG_CHAR_ENUM"@,
        0x0038 => "CMSG_CHAR_DELETE"@,
        0x003A => "SMSG_CHAR_CREATE"@,
        0x003B => "SMSG_CHAR_ENUM"@,
        0x003C => "SMSG_CHAR_DELETE"@,
        0x003D => "CMSG_PLAYER_LOGIN"@,
        0x003E => "SMSG_NEW_WORLD"@,
        0x003F => "SMSG_TRANSFER_PENDING"@,
        0x0041 => "SMSG_CHARACTER_LOGIN_FAILED"@,
        0x0042 => "SMSG_LOGIN_SETTIMESPEED"@,
        0x004B => "CMSG_LOGOUT_REQUEST"@,
        0x004C => "SMSG_LOGOUT_RESPONSE"@,
        0x004D => "SMSG_LOGOUT_COMPLETE"@,
        0x004E => "CMSG_LOGOUT_CANCEL"@,
        0x004F => "SMSG_LOGOUT_CANCEL_ACK"@,
        0x0050 => "CMSG_NAME_QUERY"@,
        0x0051 => "SMSG_NAME_QUERY_RESPONSE"@,
        0x0052 => "CMSG_PET_NAME_QUERY"@,
        0x0053 => "SMSG_PET_NAME_QUERY_RESPONSE"@,
        0x0054 => "CMSG_GUILD_QUERY"@,
        0x0055 => "SMSG_GUILD_QUERY_RESPONSE"@,
        0x0056 => "CMSG_ITEM_QUERY_SINGLE"@,
        0x0057 => "CMSG_ITEM_QUERY_MULTIPLE"@,
        0x0058 => "SMSG_ITEM_QUERY_SINGLE_RESPONSE"@,
        0x005A => "CMSG_PAGE_TEXT_QUERY"@,
        0x005B => "SMSG_PAGE_TEXT_QUERY_RESPONSE"@,
        0x005C => "CMSG_QUEST_QUERY"@,
        0x005D => "SMSG_QUEST_QUERY_RESPONSE"@,
        0x005E => "CMSG_GAMEOBJECT_QUERY"@,
        0x005F => "SMSG_GAMEOBJECT_QUERY_RESPONSE"@,
        0x0060 => "CMSG_CREATURE_QUERY"@,
        0x0061 => "SMSG_CREATURE_QUERY_RESPONSE"@,
        0x0062 => "CMSG_WHO"@,
        0x0063 => "SMSG_WHO"@,
        0x0066 => "CMSG_FRIEND_LIST"@,
        0x0067 => "SMSG_FRIEND_LIST"@,
        0x0068 => "SMSG_FRIEND_STATUS"@,
        0x0069 => "CMSG_ADD_FRIEND"@,
        0x006A => "CMSG_DEL_FRIEND"@,
        0x006B => "SMSG_IGNORE_LIST"@,
        0x006C => "CMSG_ADD_IGNORE"@,
        0x006D => "CMSG_DEL_IGNORE"@,
        0x006E => "CMSG_GROUP_INVITE"@,
        0x006F => "SMSG_GROUP_INVITE"@,
        0x0071 => "MSG_PARTY_LEAVE"@,
        0x0072 => "CMSG_GROUP_ACCEPT"@,
        0x0073 => "CMSG_GROUP_DECLINE"@,
        0x0074 => "SMSG_GROUP_DECLINE"@,
        0x0075 => "CMSG_GROUP_UNINVITE"@,
        0x0077 => "SMSG_GROUP_UNINVITE"@,
        0x0078 => "CMSG_GROUP_SET_LEADER"@,
        0x0079 => "SMSG_GROUP_SET_LEADER"@,
        0x007A => "CMSG_LOOT_METHOD"@,
        0x007B => "CMSG_GROUP_DISBAND"@,
        0x007C => "SMSG_GROUP_DESTROYED"@,
        0x007D => "SMSG_GROUP_LIST"@,
        0x007E => "SMSG_PARTY_MEMBER_STATS"@,
        0x007F => "SMSG_PARTY_COMMAND_RESULT"@,
        0x0081 => "CMSG_GUILD_CREATE"@,
        0x0082 => "CMSG_GUILD_INVITE"@,
        0x0083 => "SMSG_GUILD_INVITE"@,
        0x0084 => "CMSG_GUILD_ACCEPT"@,
        0x0085 => "CMSG_GUILD_DECLINE"@,
        0x0086 => "SMSG_GUILD_DECLINE"@,
        0x0087 => "CMSG_GUILD_INFO"@,
        0x0088 => "SMSG_GUILD_INFO"@,
        0x0089 => "CMSG_GUILD_ROSTER"@,
        0x008A => "SMSG_GUILD_ROSTER"@,
        0x008B => "CMSG_GUILD_PROMOTE"@,
        0x008C => "CMSG_GUILD_DEMOTE"@,
        0x008D => "CMSG_GUILD_LEAVE"@,
        0x008E => "CMSG_GUILD_REMOVE"@,
        0x008F => "CMSG_GUILD_DISBAND"@,
        0x0090 => "CMSG_GUILD_LEADER"@,
        0x0091 => "CMSG_GUILD_MOTD"@,
        0x0092 => "SMSG_GUILD_EVENT"@,
        0x0093 => "SMSG_GUILD_COMMAND_RESULT"@,
        0x0095 => "CMSG_MESSAGECHAT"@,
        0x0096 => "SMSG_MESSAGECHAT"@,
        0x0097 => "CMSG_JOIN_CHANNEL"@,
        0x0098 => "CMSG_LEAVE_CHANNEL"@,
        0x0099 => "SMSG_CHANNEL_NOTIFY"@,
        0x009A => "CMSG_CHANNEL_LIST"@,
        0x009B => "SMSG_CHANNEL_LIST"@,
        0x009C => "CMSG_CHANNEL_PASSWORD"@,
        0x009D => "CMSG_CHANNEL_SET_OWNER"@,
        0x009E => "CMSG_CHANNEL_OWNER"@,
        0x009F => "CMSG_CHANNEL_MODERATOR"@,
        0x00A0 => "CMSG_CHANNEL_UNMODERATOR"@,
        0x00A1 => "CMSG_CHANNEL_MUTE"@,
        0x00A2 => "CMSG_CHANNEL_UNMUTE"@,
        0x00A3 => "CMSG_CHANNEL_INVITE"@,
        0x00A4 => "CMSG_CHANNEL_KICK"@,
        0x00A5 => "CMSG_CHANNEL_BAN"@,
        0x00A6 => "CMSG_CHANNEL_UNBAN"@,
        0x00A7 => "CMSG_CHANNEL_ANNOUNCEMENTS"@,
        0x00A8 => "CMSG_CHANNEL_MODERATE"@,
        0x00A9 => "SMSG_UPDATE_OBJECT"@,
        0x00AA => "SMSG_DESTROY_OBJECT"@,
        0x00AB => "CMSG_USE_ITEM"@,
        0x00AC => "CMSG_OPEN_ITEM"@,
        0x00AD => "CMSG_READ_ITEM"@,
        0x00AE => "SMSG_READ_ITEM_OK"@,
        0x00AF => "SMSG_READ_ITEM_FAILED"@,
        0x00B0 => "SMSG_ITEM_COOLDOWN"@,
        0x00B1 => "CMSG_GAMEOBJ_USE"@,
        0x00B4 => "CMSG_AREATRIGGER"@,
        0x00B5 => "MSG_MOVE_START_FORWARD"@,
        0x00B6 => "MSG_MOVE_START_BACKWARD"@,
        0x00B7 => "MSG_MOVE_STOP"@,
        0x00B8 => "MSG_MOVE_START_STRAFE_LEFT"@,
        0x00B9 => "MSG_MOVE_START_STRAFE_RIGHT"@,
        0x00BA => "MSG_MOVE_STOP_STRAFE"@,
        0x00BB => "MSG_MOVE_JUMP"@,
        0x00BC => "MSG_MOVE_START_TURN_LEFT"@,
        0x00BD => "MSG_MOVE_START_TURN_RIGHT"@,
        0x00BE => "MSG_MOVE_STOP_TURN"@,
        0x00C5 => "MSG_MOVE_TELEPORT"@,
        0x00C7 => "MSG_MOVE_TELEPORT_ACK"@,
        0x00C9 => "MSG_MOVE_FALL_LAND"@,
        0x00CD => "MSG_MOVE_SET_RUN_SPEED"@,
        0x00CF => "MSG_MOVE_SET_RUN_BACK_SPEED"@,
        0x00D1 => "MSG_MOVE_SET_WALK_SPEED"@,
        0x00D3 => "MSG_MOVE_SET_SWIM_SPEED"@,
        0x00D5 => "MSG_MOVE_SET_SWIM_BACK_SPEED"@,
        0x00D8 => "MSG_MOVE_SET_TURN_RATE"@,
        0x00DA => "MSG_MOVE_SET_FACING"@,
        0x00DB => "MSG_MOVE_SET_PITCH"@,
        0x00DC => "MSG_MOVE_WORLDPORT_ACK"@,
        0x00DD => "SMSG_MONSTER_MOVE"@,
        0x00DE => "SMSG_MOVE_WATER_WALK"@,
        0x00DF => "SMSG_MOVE_LAND_WALK"@,
        0x00E2 => "SMSG_FORCE_RUN_SPEED_CHANGE"@,
        0x00E4 => "SMSG_FORCE_RUN_BACK_SPEED_CHANGE"@,
        0x00E6 => "SMSG_FORCE_SWIM_SPEED_CHANGE"@,
        0x00E8 => "SMSG_FORCE_MOVE_ROOT"@,
        0x00E9 => "CMSG_FORCE_MOVE_ROOT_ACK"@,
        0x00EA => "SMSG_FORCE_MOVE_UNROOT"@,
        0x00EC => "MSG_MOVE_ROOT"@,
        0x00ED => "MSG_MOVE_UNROOT"@,
        0x00EE => "MSG_MOVE_HEARTBEAT"@,
        0x00EF => "SMSG_MOVE_KNOCK_BACK"@,
        0x00F1 => "MSG_MOVE_KNOCK_BACK"@,
        0x00F2 => "SMSG_MOVE_FEATHER_FALL"@,
        0x00F3 => "SMSG_MOVE_NORMAL_FALL"@,
        0x00F4 => "SMSG_MOVE_SET_HOVER"@,
        0x00F5 => "SMSG_MOVE_UNSET_HOVER"@,
        0x00F7 => "MSG_MOVE_HOVER"@,
        0x00FA => "SMSG_TRIGGER_CINEMATIC"@,
        0x00FB => "CMSG_NEXT_CINEMATIC_CAMERA"@,
        0x00FC => "CMSG_COMPLETE_CINEMATIC"@,
        0x00FD => "SMSG_TUTORIAL_FLAGS"@,
        0x00FE => "CMSG_TUTORIAL_FLAG"@,
        0x0100 => "CMSG_TUTORIAL_CLEAR"@,
        0x0102 => "CMSG_EMOTE"@,
        0x0103 => "SMSG_EMOTE"@,
        0x0104 => "CMSG_TEXT_EMOTE"@,
        0x0105 => "SMSG_TEXT_EMOTE"@,
        0x0106 => "CMSG_AUTOEQUIP_GROUND_ITEM"@,
        0x0107 => "CMSG_AUTOSTORE_GROUND_ITEM"@,
        0x0108 => "CMSG_AUTOSTORE_LOOT_ITEM"@,
        0x0109 => "CMSG_STORE_LOOT_IN_SLOT"@,
        0x010A => "CMSG_AUTOEQUIP_ITEM"@,
        0x010B => "CMSG_AUTOSTORE_BAG_ITEM"@,
        0x010C => "CMSG_SWAP_ITEM"@,
        0x010D => "CMSG_SWAP_INV_ITEM"@,
        0x010E => "CMSG_SPLIT_ITEM"@,
        0x010F => "CMSG_AUTOEQUIP_ITEM_SLOT"@,
        0x0110 => "CMSG_DROP_ITEM"@,
        0x0111 => "CMSG_DESTROYITEM"@,
        0x0112 => "SMSG_INVENTORY_CHANGE_FAILURE"@,
        0x0114 => "CMSG_INSPECT"@,
        0x0115 => "SMSG_INSPECT"@,
        0x0116 => "CMSG_INITIATE_TRADE"@,
        0x0117 => "CMSG_BEGIN_TRADE"@,
        0x0118 => "CMSG_BUSY_TRADE"@,
        0x0119 => "CMSG_IGNORE_TRADE"@,
        0x011A => "CMSG_ACCEPT_TRADE"@,
        0x011B => "CMSG_UNACCEPT_TRADE"@,
        0x011C => "CMSG_CANCEL_TRADE"@,
        0x011D => "CMSG_SET_TRADE_ITEM"@,
        0x011E => "CMSG_CLEAR_TRADE_ITEM"@,
        0x011F => "CMSG_SET_TRADE_GOLD"@,
        0x0120 => "SMSG_TRADE_STATUS"@,
        0x0121 => "SMSG_TRADE_STATUS_EXTENDED"@,
        0x0122 => "SMSG_INITIALIZE_FACTIONS"@,
        0x0123 => "SMSG_SET_FACTION_VISIBLE"@,
        0x0124 => "SMSG_SET_FACTION_STANDING"@,
        0x0125 => "CMSG_SET_FACTION_ATWAR"@,
        0x0127 => "SMSG_SET_PROFICIENCY"@,
        0x0128 => "CMSG_SET_ACTION_BUTTON"@,
        0x0129 => "SMSG_ACTION_BUTTONS"@,
        0x012A => "SMSG_INITIAL_SPELLS"@,
        0x012B => "SMSG_LEARNED_SPELL"@,
        0x012D => "CMSG_NEW_SPELL_SLOT"@,
        0x012E => "CMSG_CAST_SPELL"@,
        0x012F => "CMSG_CANCEL_CAST"@,
        0x0130 => "SMSG_CAST_RESULT"@,
        0x0131 => "SMSG_SPELL_START"@,
        0x0132 => "SMSG_SPELL_GO"@,
        0x0133 => "SMSG_SPELL_FAILURE"@,
        0x0134 => "SMSG_SPELL_COOLDOWN"@,
        0x0136 => "CMSG_CANCEL_AURA"@,
        0x0137 => "SMSG_UPDATE_AURA_DURATION"@,
        0x0138 => "SMSG_PET_CAST_FAILED"@,
        0x0139 => "MSG_CHANNEL_START"@,
        0x013A => "MSG_CHANNEL_UPDATE"@,
        0x013B => "CMSG_CANCEL_CHANNELLING"@,
        0x013D => "CMSG_SET_SELECTION"@,
        0x0141 => "CMSG_ATTACKSWING"@,
        0x0142 => "CMSG_ATTACKSTOP"@,
        0x0143 => "SMSG_ATTACKSTART"@,
        0x0144 => "SMSG_ATTACKSTOP"@,
        0x0145 => "SMSG_ATTACKSWING_NOTINRANGE"@,
        0x0146 => "SMSG_ATTACKSWING_BADFACING"@,
        0x0147 => "SMSG_ATTACKSWING_NOTSTANDING"@,
        0x0148 => "SMSG_ATTACKSWING_DEADTARGET"@,
        0x0149 => "SMSG_ATTACKSWING_CANT_ATTACK"@,
        0x014A => "SMSG_ATTACKERSTATEUPDATE"@,
        0x014C => "SMSG_SPELLLOGMISS"@,
        0x0150 => "SMSG_SPELLHEALLOG"@,
        0x0151 => "SMSG_SPELLENERGIZELOG"@,
        0x0152 => "SMSG_SPELL_INTERRUPTED"@,
        0x0153 => "CMSG_SAVE_PLAYER"@,
        0x0154 => "CMSG_SETDEATHBINDPOINT"@,
        0x0155 => "SMSG_BINDPOINTUPDATE"@,
        0x0156 => "CMSG_GETDEATHBINDZONE"@,
        0x0157 => "SMSG_BINDZONEREPLY"@,
        0x0158 => "SMSG_PLAYERBOUND"@,
        0x015A => "CMSG_REPOP_REQUEST"@,
        0x015B => "SMSG_RESURRECT_REQUEST"@,
        0x015C => "CMSG_RESURRECT_RESPONSE"@,
        0x015D => "CMSG_LOOT"@,
        0x015E => "CMSG_LOOT_MONEY"@,
        0x015F => "CMSG_LOOT_RELEASE"@,
        0x0160 => "SMSG_LOOT_RESPONSE"@,
        0x0161 => "SMSG_LOOT_RELEASE_RESPONSE"@,
        0x0162 => "SMSG_LOOT_REMOVED"@,
        0x0163 => "SMSG_LOOT_MONEY_NOTIFY"@,
        0x0165 => "SMSG_LOOT_CLEAR_MONEY"@,
        0x0166 => "SMSG_ITEM_PUSH_RESULT"@,
        0x0167 => "SMSG_DUEL_REQUESTED"@,
        0x0168 => "SMSG_DUEL_OUTOFBOUNDS"@,
        0x0169 => "SMSG_DUEL_INBOUNDS"@,
        0x016A => "SMSG_DUEL_COMPLETE"@,
        0x016B => "SMSG_DUEL_WINNER"@,
        0x016C => "CMSG_DUEL_ACCEPTED"@,
        0x016D => "CMSG_DUEL_CANCELLED"@,
        0x0173 => "SMSG_PET_TAME_FAILURE"@,
        0x0174 => "CMSG_PET_SET_ACTION"@,
        0x0175 => "CMSG_PET_ACTION"@,
        0x0176 => "CMSG_PET_ABANDON"@,
        0x0177 => "CMSG_PET_RENAME"@,
        0x0178 => "SMSG_PET_NAME_INVALID"@,
        0x0179 => "SMSG_PET_SPELLS"@,
        0x017A => "SMSG_PET_MODE"@,
        0x017B => "CMSG_GOSSIP_HELLO"@,
        0x017C => "CMSG_GOSSIP_SELECT_OPTION"@,
        0x017D => "SMSG_GOSSIP_MESSAGE"@,
        0x017E => "SMSG_GOSSIP_COMPLETE"@,
        0x017F => "CMSG_NPC_TEXT_QUERY"@,
        0x0180 => "SMSG_NPC_TEXT_UPDATE"@,
        0x0182 => "CMSG_QUESTGIVER_STATUS_QUERY"@,
        0x0183 => "SMSG_QUESTGIVER_STATUS"@,
        0x0184 => "CMSG_QUESTGIVER_HELLO"@,
        0x0185 => "SMSG_QUESTGIVER_QUEST_LIST"@,
        0x0186 => "CMSG_QUESTGIVER_QUERY_QUEST"@,
        0x0187 => "CMSG_QUESTGIVER_QUEST_AUTOLAUNCH"@,
        0x0188 => "SMSG_QUESTGIVER_QUEST_DETAILS"@,
        0x0189 => "CMSG_QUESTGIVER_ACCEPT_QUEST"@,
        0x018A => "CMSG_QUESTGIVER_COMPLETE_QUEST"@,
        0x018B => "SMSG_QUESTGIVER_REQUEST_ITEMS"@,
        0x018C => "CMSG_QUESTGIVER_REQUEST_REWARD"@,
        0x018D => "SMSG_QUESTGIVER_OFFER_REWARD"@,
        0x018E => "CMSG_QUESTGIVER_CHOOSE_REWARD"@,
        0x018F => "SMSG_QUESTGIVER_QUEST_INVALID"@,
        0x0190 => "CMSG_QUESTGIVER_CANCEL"@,
        0x0191 => "SMSG_QUESTGIVER_QUEST_COMPLETE"@,
        0x0192 => "SMSG_QUESTGIVER_QUEST_FAILED"@,
        0x0193 => "CMSG_QUESTLOG_SWAP_QUEST"@,
        0x0194 => "CMSG_QUESTLOG_REMOVE_QUEST"@,
        0x0195 => "SMSG_QUESTLOG_FULL"@,
        0x0196 => "SMSG_QUESTUPDATE_FAILED"@,
        0x0197 => "SMSG_QUESTUPDATE_FAILEDTIMER"@,
        0x0198 => "SMSG_QUESTUPDATE_COMPLETE"@,
        0x0199 => "SMSG_QUESTUPDATE_ADD_KILL"@,
        0x019A => "SMSG_QUESTUPDATE_ADD_ITEM"@,
        0x019B => "CMSG_QUEST_CONFIRM_ACCEPT"@,
        0x019C => "SMSG_QUEST_CONFIRM_ACCEPT"@,
        0x019D => "CMSG_PUSHQUESTTOPARTY"@,
        0x019E => "CMSG_LIST_INVENTORY"@,
        0x019F => "SMSG_LIST_INVENTORY"@,
        0x01A0 => "CMSG_SELL_ITEM"@,
        0x01A1 => "SMSG_SELL_ITEM"@,
        0x01A2 => "CMSG_BUY_ITEM"@,
        0x01A3 => "CMSG_BUY_ITEM_IN_SLOT"@,
        0x01A4 => "SMSG_BUY_ITEM"@,
        0x01A5 => "SMSG_BUY_FAILED"@,
        0x01A9 => "SMSG_SHOWTAXINODES"@,
        0x01AA => "CMSG_TAXINODE_STATUS_QUERY"@,
        0x01AB => "SMSG_TAXINODE_STATUS"@,
        0x01AC => "CMSG_TAXIQUERYAVAILABLENODES"@,
        0x01AD => "CMSG_ACTIVATETAXI"@,
        0x01AE => "SMSG_ACTIVATETAXIREPLY"@,
        0x01AF => "SMSG_NEW_TAXI_PATH"@,
        0x01B0 => "CMSG_TRAINER_LIST"@,
        0x01B1 => "SMSG_TRAINER_LIST"@,
        0x01B2 => "CMSG_TRAINER_BUY_SPELL"@,
        0x01B3 => "SMSG_TRAINER_BUY_SUCCEEDED"@,
        0x01B4 => "SMSG_TRAINER_BUY_FAILED"@,
        0x01B5 => "CMSG_BANKER_ACTIVATE"@,
        0x01B8 => "SMSG_SHOW_BANK"@,
        0x01B9 => "CMSG_BUY_BANK_SLOT"@,
        0x01BB => "CMSG_PETITION_SHOWLIST"@,
        0x01BC => "SMSG_PETITION_SHOWLIST"@,
        0x01BD => "CMSG_PETITION_BUY"@,
        0x01BE => "CMSG_PETITION_SHOW_SIGNATURES"@,
        0x01BF => "SMSG_PETITION_SHOW_SIGNATURES"@,
        0x01C0 => "CMSG_PETITION_SIGN"@,
        0x01C1 => "SMSG_PETITION_SIGN_RESULTS"@,
        0x01C2 => "MSG_PETITION_DECLINE"@,
        0x01C3 => "SMSG_PETITION_QUERY_RESPONSE"@,
        0x01C4 => "CMSG_TURN_IN_PETITION"@,
        0x01C5 => "SMSG_TURN_IN_PETITION_RESULTS"@,
        0x01C7 => "CMSG_OFFER_PETITION"@,
        0x01CA => "CMSG_BUG"@,
        0x01CC => "CMSG_PLAYED_TIME"@,
        0x01CD => "SMSG_PLAYED_TIME"@,
        0x01CE => "CMSG_QUERY_TIME"@,
        0x01CF => "SMSG_QUERY_TIME_RESPONSE"@,
        0x01D0 => "SMSG_LOG_XPGAIN"@,
        0x01D2 => "CMSG_RECLAIM_CORPSE"@,
        0x01D3 => "CMSG_WRAP_ITEM"@,
        0x01D4 => "SMSG_LEVELUP_INFO"@,
        0x01D5 => "MSG_MINIMAP_PING"@,
        0x01DC => "CMSG_PING"@,
        0x01DE => "SMSG_CLEAR_COOLDOWN"@,
        0x01E0 => "CMSG_SETSHEATHED"@,
        0x01E2 => "SMSG_SPELL_DELAYED"@,
        0x01EB => "SMSG_ITEM_TIME_UPDATE"@,
        0x01EC => "SMSG_AUTH_CHALLENGE"@,
        0x01ED => "CMSG_AUTH_SESSION"@,
        0x01EE => "SMSG_AUTH_RESPONSE"@,
        0x01F0 => "CMSG_PET_CAST_SPELL"@,
        0x01F1 => "MSG_SAVE_GUILD_EMBLEM"@,
        0x01F2 => "MSG_TABARDVENDOR_ACTIVATE"@,
        0x01F4 => "CMSG_ZONEUPDATE"@,
        0x01F6 => "SMSG_COMPRESSED_UPDATE_OBJECT"@,
        0x01F8 => "SMSG_EXPLORATION_EXPERIENCE"@,
        0x01FB => "MSG_RANDOM_ROLL"@,
        0x0201 => "CMSG_UNLEARN_SPELL"@,
        0x0202 => "CMSG_UNLEARN_SKILL"@,
        0x0203 => "SMSG_REMOVED_SPELL"@,
        0x0205 => "CMSG_GMTICKET_CREATE"@,
        0x0206 => "SMSG_GMTICKET_CREATE"@,
        0x0207 => "CMSG_GMTICKET_UPDATETEXT"@,
        0x0208 => "SMSG_GMTICKET_UPDATETEXT"@,
        0x0209 => "SMSG_ACCOUNT_DATA_TIMES"@,
        0x020A => "CMSG_REQUEST_ACCOUNT_DATA"@,
        0x020B => "CMSG_UPDATE_ACCOUNT_DATA"@,
        0x020C => "SMSG_UPDATE_ACCOUNT_DATA"@,
        0x020D => "SMSG_UPDATE_ACCOUNT_DATA_COMPLETE"@,
        0x0211 => "CMSG_GMTICKET_GETTICKET"@,
        0x0212 => "SMSG_GMTICKET_GETTICKET"@,
        0x0213 => "CMSG_UNLEARN_TALENTS"@,
        0x0216 => "MSG_CORPSE_QUERY"@,
        0x0217 => "CMSG_GMTICKET_DELETETICKET"@,
        0x0218 => "SMSG_GMTICKET_DELETETICKET"@,
        0x0219 => "SMSG_CHAT_WRONG_FACTION"@,
        0x021A => "CMSG_GMTICKET_SYSTEMSTATUS"@,
        0x021B => "SMSG_GMTICKET_SYSTEMSTATUS"@,
        0x021C => "CMSG_SPIRIT_HEALER_ACTIVATE"@,
        0x021E => "SMSG_SET_REST_START"@,
        0x0222 => "SMSG_SPIRIT_HEALER_CONFIRM"@,
        0x0223 => "SMSG_GOSSIP_POI"@,
        0x0225 => "CMSG_CHAT_IGNORED"@,
        0x0231 => "CMSG_GUILD_RANK"@,
        0x0232 => "CMSG_GUILD_ADD_RANK"@,
        0x0233 => "CMSG_GUILD_DEL_RANK"@,
        0x0234 => "CMSG_GUILD_SET_PUBLIC_NOTE"@,
        0x0235 => "CMSG_GUILD_SET_OFFICER_NOTE"@,
        0x0236 => "SMSG_LOGIN_VERIFY_WORLD"@,
        0x0238 => "CMSG_SEND_MAIL"@,
        0x0239 => "SMSG_SEND_MAIL_RESULT"@,
        0x023A => "CMSG_GET_MAIL_LIST"@,
        0x023B => "SMSG_MAIL_LIST_RESULT"@,
        0x023C => "SMSG_BATTLEFIELD_LIST"@,
        0x023E => "CMSG_BATTLEFIELD_JOIN"@,
        0x0243 => "CMSG_ITEM_TEXT_QUERY"@,
        0x0244 => "SMSG_ITEM_TEXT_QUERY_RESPONSE"@,
        0x0245 => "CMSG_MAIL_TAKE_MONEY"@,
        0x0246 => "CMSG_MAIL_TAKE_ITEM"@,
        0x0247 => "CMSG_MAIL_MARK_AS_READ"@,
        0x0248 => "CMSG_MAIL_RETURN_TO_SENDER"@,
        0x0249 => "CMSG_MAIL_DELETE"@,
        0x024A => "CMSG_MAIL_CREATE_TEXT_ITEM"@,
        0x024C => "SMSG_SPELLLOGEXECUTE"@,
        0x024E => "SMSG_PERIODICAURALOG"@,
        0x0251 => "CMSG_LEARN_TALENT"@,
        0x0253 => "CMSG_TOGGLE_PVP"@,
        0x0255 => "MSG_AUCTION_HELLO"@,
        0x0256 => "CMSG_AUCTION_SELL_ITEM"@,
        0x0257 => "CMSG_AUCTION_REMOVE_ITEM"@,
        0x0258 => "CMSG_AUCTION_LIST_ITEMS"@,
        0x0259 => "CMSG_AUCTION_LIST_OWNER_ITEMS"@,
        0x025A => "CMSG_AUCTION_PLACE_BID"@,
        0x025B => "SMSG_AUCTION_COMMAND_RESULT"@,
        0x025C => "SMSG_AUCTION_LIST_RESULT"@,
        0x025D => "SMSG_AUCTION_OWNER_LIST_RESULT"@,
        0x025E => "SMSG_AUCTION_BIDDER_NOTIFICATION"@,
        0x025F => "SMSG_AUCTION_OWNER_NOTIFICATION"@,
        0x0264 => "CMSG_AUCTION_LIST_BIDDER_ITEMS"@,
        0x0265 => "SMSG_AUCTION_BIDDER_LIST_RESULT"@,
        0x0268 => "CMSG_SET_AMMO"@,
        0x026A => "CMSG_SET_ACTIVE_MOVER"@,
        0x026B => "CMSG_PET_CANCEL_AURA"@,
        0x026D => "CMSG_CANCEL_AUTO_REPEAT_SPELL"@,
        0x026E => "MSG_LIST_STABLED_PETS"@,
        0x026F => "CMSG_STABLE_PET"@,
        0x0270 => "CMSG_UNSTABLE_PET"@,
        0x0272 => "CMSG_BUY_STABLE_SLOT"@,
        0x0273 => "SMSG_STABLE_RESULT"@,
        0x0274 => "CMSG_STABLE_REVIVE_PET"@,
        0x0275 => "CMSG_STABLE_SWAP_PET"@,
        0x0279 => "CMSG_REQUEST_PET_INFO"@,
        0x027A => "CMSG_FAR_SIGHT"@,
        0x027E => "CMSG_GROUP_CHANGE_SUB_GROUP"@,
        0x027F => "CMSG_REQUEST_PARTY_MEMBER_STATS"@,
        0x0280 => "CMSG_GROUP_SWAP_SUB_GROUP"@,
        0x0282 => "CMSG_AUTOSTORE_BANK_ITEM"@,
        0x0283 => "CMSG_AUTOBANK_ITEM"@,
        0x0284 => "MSG_QUERY_NEXT_MAIL_TIME"@,
        0x0285 => "SMSG_RECEIVED_MAIL"@,
        0x028D => "SMSG_AUCTION_REMOVED_NOTIFICATION"@,
        0x028E => "CMSG_GROUP_RAID_CONVERT"@,
        0x028F => "CMSG_GROUP_ASSISTANT_LEADER"@,
        0x0290 => "CMSG_BUYBACK_ITEM"@,
        0x0292 => "CMSG_MEETINGSTONE_JOIN"@,
        0x0293 => "CMSG_MEETINGSTONE_LEAVE"@,
        0x0294 => "CMSG_MEETINGSTONE_CHEAT"@,
        0x0295 => "SMSG_MEETINGSTONE_SETQUEUE"@,
        0x0296 => "CMSG_MEETINGSTONE_INFO"@,
        0x029E => "SMSG_LOOT_ALL_PASSED"@,
        0x029F => "SMSG_LOOT_ROLL_WON"@,
        0x02A0 => "CMSG_LOOT_ROLL"@,
        0x02A1 => "SMSG_LOOT_START_ROLL"@,
        0x02A2 => "SMSG_LOOT_ROLL"@,
        0x02A3 => "CMSG_LOOT_MASTER_GIVE"@,
        0x02A4 => "SMSG_LOOT_MASTER_LIST"@,
        0x02A5 => "SMSG_SET_FORCED_REACTIONS"@,
        0x02A6 => "SMSG_SPELL_FAILED_OTHER"@,
        0x02A8 => "CMSG_REPAIR_ITEM"@,
        0x02A9 => "SMSG_CHAT_PLAYER_NOT_FOUND"@,
        0x02AB => "SMSG_SUMMON_REQUEST"@,
        0x02AC => "CMSG_SUMMON_RESPONSE"@,
        0x02AE => "SMSG_MONSTER_MOVE_TRANSPORT"@,
        0x02B0 => "MSG_MOVE_FEATHER_FALL"@,
        0x02B1 => "MSG_MOVE_WATER_WALK"@,
        0x02B3 => "SMSG_COMPRESSED_MOVES"@,
        0x02B7 => "SMSG_DUEL_COUNTDOWN"@,
        0x02B9 => "CMSG_TOGGLE_HELM"@,
        0x02BA => "CMSG_TOGGLE_CLOAK"@,
        0x02BD => "SMSG_DURABILITY_DAMAGE_DEATH"@,
        0x02C1 => "MSG_PETITION_RENAME"@,
        0x02C2 => "SMSG_INIT_WORLD_STATES"@,
        0x02C4 => "CMSG_ITEM_NAME_QUERY"@,
        0x02C5 => "SMSG_ITEM_NAME_QUERY_RESPONSE"@,
        0x02C6 => "SMSG_PET_ACTION_FEEDBACK"@,
        0x02C7 => "CMSG_CHAR_RENAME"@,
        0x02C8 => "SMSG_CHAR_RENAME"@,
        0x02C9 => "CMSG_MOVE_SPLINE_DONE"@,
        0x02CA => "CMSG_MOVE_FALL_RESET"@,
        0x02CC => "SMSG_RAID_INSTANCE_INFO"@,
        0x02CD => "CMSG_REQUEST_RAID_INFO"@,
        0x02CE => "CMSG_MOVE_TIME_SKIPPED"@,
        0x02CF => "CMSG_MOVE_FEATHER_FALL_ACK"@,
        0x02D0 => "CMSG_MOVE_WATER_WALK_ACK"@,
        0x02D1 => "CMSG_MOVE_NOT_ACTIVE_MOVER"@,
        0x02D3 => "CMSG_BATTLEFIELD_STATUS"@,
        0x02D4 => "SMSG_BATTLEFIELD_STATUS"@,
        0x02D5 => "CMSG_BATTLEFIELD_PORT"@,
        0x02D6 => "MSG_INSPECT_HONOR_STATS"@,
        0x02D7 => "CMSG_BATTLEMASTER_HELLO"@,
        0x02DA => "SMSG_FORCE_WALK_SPEED_CHANGE"@,
        0x02DC => "SMSG_FORCE_SWIM_BACK_SPEED_CHANGE"@,
        0x02DE => "SMSG_FORCE_TURN_RATE_CHANGE"@,
        0x02E1 => "SMSG_BATTLEFIELD_JOINED"@,
        0x02E2 => "CMSG_AREA_SPIRIT_HEALER_QUERY"@,
        0x02E3 => "CMSG_AREA_SPIRIT_HEALER_QUEUE"@,
        0x02E5 => "CMSG_LEAVE_BATTLEFIELD"@,
        0x02E6 => "SMSG_WARDEN_DATA"@,
        0x02E7 => "CMSG_WARDEN_DATA"@,
        0x02E8 => "SMSG_CORPSE_RECLAIM_DELAY"@,
        0x02EA => "CMSG_PET_STOP_ATTACK"@,
        0x02F0 => "CMSG_PET_UNLEARN"@,
        0x02F1 => "SMSG_PET_UNLEARN_CONFIRM"@,
        0x02F2 => "SMSG_PARTY_MEMBER_STATS_FULL"@,
        0x02F3 => "CMSG_PET_SPELL_AUTOCAST"@,
        0x02F4 => "SMSG_WEATHER"@,
        0x02FC => "CMSG_GUILD_INFO_TEXT"@,
        0x02FD => "SMSG_CHAT_RESTRICTED"@,
        0x02FE => "SMSG_SPLINE_SET_RUN_SPEED"@,
        0x02FF => "SMSG_SPLINE_SET_RUN_BACK_SPEED"@,
        0x0300 => "SMSG_SPLINE_SET_SWIM_SPEED"@,
        0x0301 => "SMSG_SPLINE_SET_WALK_SPEED"@,
        0x0302 => "SMSG_SPLINE_SET_SWIM_BACK_SPEED"@,
        0x0303 => "SMSG_SPLINE_SET_TURN_RATE"@,
        0x0304 => "SMSG_SPLINE_MOVE_UNROOT"@,
        0x0305 => "SMSG_SPLINE_MOVE_FEATHER_FALL"@,
        0x0306 => "SMSG_SPLINE_MOVE_NORMAL_FALL"@,
        0x0307 => "SMSG_SPLINE_MOVE_SET_HOVER"@,
        0x0308 => "SMSG_SPLINE_MOVE_UNSET_HOVER"@,
        0x0309 => "SMSG_SPLINE_MOVE_WATER_WALK"@,
        0x030A => "SMSG_SPLINE_MOVE_LAND_WALK"@,
        0x030D => "SMSG_SPLINE_MOVE_SET_RUN_MODE"@,
        0x030E => "SMSG_SPLINE_MOVE_SET_WALK_MODE"@,
        0x0310 => "SMSG_PRE_RESURRECT"@,
        0x0317 => "CMSG_SET_FACTION_INACTIVE"@,
        0x031A => "SMSG_SPLINE_MOVE_ROOT"@,
        0x031D => "CMSG_RESET_INSTANCES"@,
        0x031E => "SMSG_INSTANCE_RESET"@,
        0x031F => "SMSG_INSTANCE_RESET_FAILED"@,
        0x0321 => "MSG_RAID_TARGET_UPDATE"@,
        0x0322 => "MSG_RAID_READY_CHECK"@,
        0x032A => "CMSG_GMSURVEY_SUBMIT"@,
        0x032D => "SMSG_CHAT_PLAYER_AMBIGUOUS"@,
        0x0330 => "SMSG_SPELL_UPDATE_CHAIN_TARGETS"@,
        0x0331 => "CMSG_CHAT_FILTERED"@,
        0x033F => "SMSG_SPELLINSTAKILLLOG"@,
        _ => "UNKNOWN"@,
    }
}

/// Name of `opcode` in Vanilla 1.12.1 (build 5875).
fn vanilla_opcode_name(opcode: u32) -> (name: &'static str)
    ensures
        name@ == spec_vanilla_opcode_name(opcode),
{
    match opcode {
        0x0000 => "CMSG_NULL_ACTION",
        0x001D => "SMSG_PONG",
        0x0036 => "CMSG_CHAR_CREATE",
        0x0037 => "CMSG_CHAR_ENUM",
        0x0038 => "CMSG_CHAR_DELETE",
        0x003A => "SMSG_CHAR_CREATE",
        0x003B => "SMSG_CHAR_ENUM",
        0x003C => "SMSG_CHAR_DELETE",
        0x003D => "CMSG_PLAYER_LOGIN",
        0x003E => "SMSG_NEW_WORLD",
        0x003F => "SMSG_TRANSFER_PENDING",
        0x0041 => "SMSG_CHARACTER_LOGIN_FAILED",
        0x0042 => "SMSG_LOGIN_SETTIMESPEED",
        0x004B => "CMSG_LOGOUT_REQUEST",
        0x004C => "SMSG_LOGOUT_RESPONSE",
        0x004D => "SMSG_LOGOUT_COMPLETE",
        0x004E => "CMSG_LOGOUT_CANCEL",
        0x004F => "SMSG_LOGOUT_CANCEL_ACK",
        0x0050 => "CMSG_NAME_QUERY",
        0x0051 => "SMSG_NAME_QUERY_RESPONSE",
        0x0052 => "CMSG_PET_NAME_QUERY",
        0x0053 => "SMSG_PET_NAME_QUERY_RESPONSE",
        0x0054 => "CMSG_GUILD_QUERY",
        0x0055 => "SMSG_GUILD_QUERY_RESPONSE",
        0x0056 => "CMSG_ITEM_QUERY_SINGLE",
        0x0057 => "CMSG_ITEM_QUERY_MULTIPLE",
        0x0058 => "SMSG_ITEM_QUERY_SINGLE_RESPONSE",
        0x005A => "CMSG_PAGE_TEXT_QUERY",
        0x005B => "SMSG_PAGE_TEXT_QUERY_RESPONSE",
        0x005C => "CMSG_QUEST_QUERY",
        0x005D => "SMSG_QUEST_QUERY_RESPONSE",
        0x005E => "CMSG_GAMEOBJECT_QUERY",
        0x005F => "SMSG_GAMEOBJECT_QUERY_RESPONSE",
        0x0060 => "CMSG_CREATURE_QUERY",
        0x0061 => "SMSG_CREATURE_QUERY_RESPONSE",
        0x0062 => "CMSG_WHO",
        0x0063 => "SMSG_WHO",
        0x0066 => "CMSG_FRIEND_LIST",
        0x0067 => "SMSG_FRIEND_LIST",
        0x0068 => "SMSG_FRIEND_STATUS",
        0x0069 => "CMSG_ADD_FRIEND",
        0x006A => "CMSG_DEL_FRIEND",
        0x006B => "SMSG_IGNORE_LIST",
        0x006C => "CMSG_ADD_IGNORE",
        0x006D => "CMSG_DEL_IGNORE",
        0x006E => "CMSG_GROUP_INVITE",
        0x006F => "SMSG_GROUP_INVITE",
        0x0071 => "MSG_PARTY_LEAVE",
        0x0072 => "CMSG_GROUP_ACCEPT",
        0x0073 => "CMSG_GROUP_DECLINE",
        0x0074 => "SMSG_GROUP_DECLINE",
        0x0075 => "CMSG_GROUP_UNINVITE",
        0x0077 => "SMSG_GROUP_UNINVITE",
        0x0078 => "CMSG_GROUP_SET_LEADER",
        0x0079 => "SMSG_GROUP_SET_LEADER",
        0x007A => "CMSG_LOOT_METHOD",
        0x007B => "CMSG_GROUP_DISBAND",
        0x007C => "SMSG_GROUP_DESTROYED",
        0x007D => "SMSG_GROUP_LIST",
        0x007E => "SMSG_PARTY_MEMBER_STATS",
        0x007F => "SMSG_PARTY_COMMAND_RESULT",
        0x0081 => "CMSG_GUILD_CREATE",
        0x0082 => "CMSG_GUILD_INVITE",
        0x0083 => "SMSG_GUILD_INVITE",
        0x0084 => "CMSG_GUILD_ACCEPT",
        0x0085 => "CMSG_GUILD_DECLINE",
        0x0086 => "SMSG_GUILD_DECLINE",
        0x0087 => "CMSG_GUILD_INFO",
        0x0088 => "SMSG_GUILD_INFO",
        0x0089 => "CMSG_GUILD_ROSTER",
        0x008A => "SMSG_GUILD_ROSTER",
        0x008B => "CMSG_GUILD_PROMOTE",
        0x008C => "CMSG_GUILD_DEMOTE",
        0x008D => "CMSG_GUILD_LEAVE",
        0x008E => "CMSG_GUILD_REMOVE",
        0x008F => "CMSG_GUILD_DISBAND",
        0x0090 => "CMSG_GUILD_LEADER",
        0x0091 => "CMSG_GUILD_MOTD",
        0x0092 => "SMSG_GUILD_EVENT",
        0x0093 => "SMSG_GUILD_COMMAND_RESULT",
        0x0095 => "CMSG_MESSAGECHAT",
        0x0096 => "SMSG_MESSAGECHAT",
        0x0097 => "CMSG_JOIN_CHANNEL",
        0x0098 => "CMSG_LEAVE_CHANNEL",
        0x0099 => "SMSG_CHANNEL_NOTIFY",
        0x009A => "CMSG_CHANNEL_LIST",
        0x009B => "SMSG_CHANNEL_LIST",
        0x009C => "CMSG_CHANNEL_PASSWORD",
        0x009D => "CMSG_CHANNEL_SET_OWNER",
        0x009E => "CMSG_CHANNEL_OWNER",
        0x009F => "CMSG_CHANNEL_MODERATOR",
        0x00A0 => "CMSG_CHANNEL_UNMODERATOR",
        0x00A1 => "CMSG_CHANNEL_MUTE",
        0x00A2 => "CMSG_CHANNEL_UNMUTE",
        0x00A3 => "CMSG_CHANNEL_INVITE",
        0x00A4 => "CMSG_CHANNEL_KICK",
        0x00A5 => "CMSG_CHANNEL_BAN",
        0x00A6 => "CMSG_CHANNEL_UNBAN",
        0x00A7 => "CMSG_CHANNEL_ANNOUNCEMENTS",
        0x00A8 => "CMSG_CHANNEL_MODERATE",
        0x00A9 => "SMSG_UPDATE_OBJECT",
        0x00AA => "SMSG_DESTROY_OBJECT",
        0x00AB => "CMSG_USE_ITEM",
        0x00AC => "CMSG_OPEN_ITEM",
        0x00AD => "CMSG_READ_ITEM",
        0x00AE => "SMSG_READ_ITEM_OK",
        0x00AF => "SMSG_READ_ITEM_FAILED",
        0x00B0 => "SMSG_ITEM_COOLDOWN",
        0x00B1 => "CMSG_GAMEOBJ_USE",
        0x00B4 => "CMSG_AREATRIGGER",
        0x00B5 => "MSG_MOVE_START_FORWARD",
        0x00B6 => "MSG_MOVE_START_BACKWARD",
        0x00B7 => "MSG_MOVE_STOP",
        0x00B8 => "MSG_MOVE_START_STRAFE_LEFT",
        0x00B9 => "MSG_MOVE_START_STRAFE_RIGHT",
        0x00BA => "MSG_MOVE_STOP_STRAFE",
        0x00BB => "MSG_MOVE_JUMP",
        0x00BC => "MSG_MOVE_START_TURN_LEFT",
        0x00BD => "MSG_MOVE_START_TURN_RIGHT",
        0x00BE => "MSG_MOVE_STOP_TURN",
        0x00C5 => "MSG_MOVE_TELEPORT",
        0x00C7 => "MSG_MOVE_TELEPORT_ACK",
        0x00C9 => "MSG_MOVE_FALL_LAND",
        0x00CD => "MSG_MOVE_SET_RUN_SPEED",
        0x00CF => "MSG_MOVE_SET_RUN_BACK_SPEED",
        0x00D1 => "MSG_MOVE_SET_WALK_SPEED",
        0x00D3 => "MSG_MOVE_SET_SWIM_SPEED",
        0x00D5 => "MSG_MOVE_SET_SWIM_BACK_SPEED",
        0x00D8 => "MSG_MOVE_SET_TURN_RATE",
        0x00DA => "MSG_MOVE_SET_FACING",
        0x00DB => "MSG_MOVE_SET_PITCH",
        0x00DC => "MSG_MOVE_WORLDPORT_ACK",
        0x00DD => "SMSG_MONSTER_MOVE",
        0x00DE => "SMSG_MOVE_WATER_WALK",
        0x00DF => "SMSG_MOVE_LAND_WALK",
        0x00E2 => "SMSG_FORCE_RUN_SPEED_CHANGE",
        0x00E4 => "SMSG_FORCE_RUN_BACK_SPEED_CHANGE",
        0x00E6 => "SMSG_FORCE_SWIM_SPEED_CHANGE",
        0x00E8 => "SMSG_FORCE_MOVE_ROOT",
        0x00E9 => "CMSG_FORCE_MOVE_ROOT_ACK",
        0x00EA => "SMSG_FORCE_MOVE_UNROOT",
        0x00EC => "MSG_MOVE_ROOT",
        0x00ED => "MSG_MOVE_UNROOT",
        0x00EE => "MSG_MOVE_HEARTBEAT",
        0x00EF => "SMSG_MOVE_KNOCK_BACK",
        0x00F1 => "MSG_MOVE_KNOCK_BACK",
        0x00F2 => "SMSG_MOVE_FEATHER_FALL",
        0x00F3 => "SMSG_MOVE_NORMAL_FALL",
        0x00F4 => "SMSG_MOVE_SET_HOVER",
        0x00F5 => "SMSG_MOVE_UNSET_HOVER",
        0x00F7 => "MSG_MOVE_HOVER",
        0x00FA => "SMSG_TRIGGER_CINEMATIC",
        0x00FB => "CMSG_NEXT_CINEMATIC_CAMERA",
        0x00FC => "CMSG_COMPLETE_CINEMATIC",
        0x00FD => "SMSG_TUTORIAL_FLAGS",
        0x00FE => "CMSG_TUTORIAL_FLAG",
        0x0100 => "CMSG_TUTORIAL_CLEAR",
        0x0102 => "CMSG_EMOTE",
        0x0103 => "SMSG_EMOTE",
        0x0104 => "CMSG_TEXT_EMOTE",
        0x0105 => "SMSG_TEXT_EMOTE",
        0x0106 => "CMSG_AUTOEQUIP_GROUND_ITEM",
        0x0107 => "CMSG_AUTOSTORE_GROUND_ITEM",
        0x0108 => "CMSG_AUTOSTORE_LOOT_ITEM",
        0x0109 => "CMSG_STORE_LOOT_IN_SLOT",
        0x010A => "CMSG_AUTOEQUIP_ITEM",
        0x010B => "CMSG_AUTOSTORE_BAG_ITEM",
        0x010C => "CMSG_SWAP_ITEM",
        0x010D => "CMSG_SWAP_INV_ITEM",
        0x010E => "CMSG_SPLIT_ITEM",
        0x010F => "CMSG_AUTOEQUIP_ITEM_SLOT",
        0x0110 => "CMSG_DROP_ITEM",
        0x0111 => "CMSG_DESTROYITEM",
        0x0112 => "SMSG_INVENTORY_CHANGE_FAILURE",
        0x0114 => "CMSG_INSPECT",
        0x0115 => "SMSG_INSPECT",
        0x0116 => "CMSG_INITIATE_TRADE",
        0x0117 => "CMSG_BEGIN_TRADE",
        0x0118 => "CMSG_BUSY_TRADE",
        0x0119 => "CMSG_IGNORE_TRADE",
        0x011A => "CMSG_ACCEPT_TRADE",
        0x011B => "CMSG_UNACCEPT_TRADE",
        0x011C => "CMSG_CANCEL_TRADE",
        0x011D => "CMSG_SET_TRADE_ITEM",
        0x011E => "CMSG_CLEAR_TRADE_ITEM",
        0x011F => "CMSG_SET_TRADE_GOLD",
        0x0120 => "SMSG_TRADE_STATUS",
        0x0121 => "SMSG_TRADE_STATUS_EXTENDED",
        0x0122 => "SMSG_INITIALIZE_FACTIONS",
        0x0123 => "SMSG_SET_FACTION_VISIBLE",
        0x0124 => "SMSG_SET_FACTION_STANDING",
        0x0125 => "CMSG_SET_FACTION_ATWAR",
        0x0127 => "SMSG_SET_PROFICIENCY",
        0x0128 => "CMSG_SET_ACTION_BUTTON",
        0x0129 => "SMSG_ACTION_BUTTONS",
        0x012A => "SMSG_INITIAL_SPELLS",
        0x012B => "SMSG_LEARNED_SPELL",
        0x012D => "CMSG_NEW_SPELL_SLOT",
        0x012E => "CMSG_CAST_SPELL",
        0x012F => "CMSG_CANCEL_CAST",
        0x0130 => "SMSG_CAST_RESULT",
        0x0131 => "SMSG_SPELL_START",
        0x0132 => "SMSG_SPELL_GO",
        0x0133 => "SMSG_SPELL_FAILURE",
        0x0134 => "SMSG_SPELL_COOLDOWN",
        0x0136 => "CMSG_CANCEL_AURA",
        0x0137 => "SMSG_UPDATE_AURA_DURATION",
        0x0138 => "SMSG_PET_CAST_FAILED",
        0x0139 => "MSG_CHANNEL_START",
        0x013A => "MSG_CHANNEL_UPDATE",
        0x013B => "CMSG_CANCEL_CHANNELLING",
        0x013D => "CMSG_SET_SELECTION",
        0x0141 => "CMSG_ATTACKSWING",
        0x0142 => "CMSG_ATTACKSTOP",
        0x0143 => "SMSG_ATTACKSTART",
        0x0144 => "SMSG_ATTACKSTOP",
        0x0145 => "SMSG_ATTACKSWING_NOTINRANGE",
        0x0146 => "SMSG_ATTACKSWING_BADFACING",
        0x0147 => "SMSG_ATTACKSWING_NOTSTANDING",
        0x0148 => "SMSG_ATTACKSWING_DEADTARGET",
        0x0149 => "SMSG_ATTACKSWING_CANT_ATTACK",
        0x014A => "SMSG_ATTACKERSTATEUPDATE",
        0x014C => "SMSG_SPELLLOGMISS",
        0x0150 => "SMSG_SPELLHEALLOG",
        0x0151 => "SMSG_SPELLENERGIZELOG",
        0x0152 => "SMSG_SPELL_INTERRUPTED",
        0x0153 => "CMSG_SAVE_PLAYER",
        0x0154 => "CMSG_SETDEATHBINDPOINT",
        0x0155 => "SMSG_BINDPOINTUPDATE",
        0x0156 => "CMSG_GETDEATHBINDZONE",
        0x0157 => "SMSG_BINDZONEREPLY",
        0x0158 => "SMSG_PLAYERBOUND",
        0x015A => "CMSG_REPOP_REQUEST",
        0x015B => "SMSG_RESURRECT_REQUEST",
        0x015C => "CMSG_RESURRECT_RESPONSE",
        0x015D => "CMSG_LOOT",
        0x015E => "CMSG_LOOT_MONEY",
        0x015F => "CMSG_LOOT_RELEASE",
        0x0160 => "SMSG_LOOT_RESPONSE",
        0x0161 => "SMSG_LOOT_RELEASE_RESPONSE",
        0x0162 => "SMSG_LOOT_REMOVED",
        0x0163 => "SMSG_LOOT_MONEY_NOTIFY",
        0x0165 => "SMSG_LOOT_CLEAR_MONEY",
        0x0166 => "SMSG_ITEM_PUSH_RESULT",
        0x0167 => "SMSG_DUEL_REQUESTED",
        0x0168 => "SMSG_DUEL_OUTOFBOUNDS",
        0x0169 => "SMSG_DUEL_INBOUNDS",
        0x016A => "SMSG_DUEL_COMPLETE",
        0x016B => "SMSG_DUEL_WINNER",
        0x016C => "CMSG_DUEL_ACCEPTED",
        0x016D => "CMSG_DUEL_CANCELLED",
        0x0173 => "SMSG_PET_TAME_FAILURE",
        0x0174 => "CMSG_PET_SET_ACTION",
        0x0175 => "CMSG_PET_ACTION",
        0x0176 => "CMSG_PET_ABANDON",
        0x0177 => "CMSG_PET_RENAME",
        0x0178 => "SMSG_PET_NAME_INVALID",
        0x0179 => "SMSG_PET_SPELLS",
        0x017A => "SMSG_PET_MODE",
        0x017B => "CMSG_GOSSIP_HELLO",
        0x017C => "CMSG_GOSSIP_SELECT_OPTION",
        0x017D => "SMSG_GOSSIP_MESSAGE",
        0x017E => "SMSG_GOSSIP_COMPLETE",
        0x017F => "CMSG_NPC_TEXT_QUERY",
        0x0180 => "SMSG_NPC_TEXT_UPDATE",
        0x0182 => "CMSG_QUESTGIVER_STATUS_QUERY",
        0x0183 => "SMSG_QUESTGIVER_STATUS",
        0x0184 => "CMSG_QUESTGIVER_HELLO",
        0x0185 => "SMSG_QUESTGIVER_QUEST_LIST",
        0x0186 => "CMSG_QUESTGIVER_QUERY_QUEST",
        0x0187 => "CMSG_QUESTGIVER_QUEST_AUTOLAUNCH",
        0x0188 => "SMSG_QUESTGIVER_QUEST_DETAILS",
        0x0189 => "CMSG_QUESTGIVER_ACCEPT_QUEST",
        0x018A => "CMSG_QUESTGIVER_COMPLETE_QUEST",
        0x018B => "SMSG_QUESTGIVER_REQUEST_ITEMS",
        0x018C => "CMSG_QUESTGIVER_REQUEST_REWARD",
        0x018D => "SMSG_QUESTGIVER_OFFER_REWARD",
        0x018E => "CMSG_QUESTGIVER_CHOOSE_REWARD",
        0x018F => "SMSG_QUESTGIVER_QUEST_INVALID",
        0x0190 => "CMSG_QUESTGIVER_CANCEL",
        0x0191 => "SMSG_QUESTGIVER_QUEST_COMPLETE",
        0x0192 => "SMSG_QUESTGIVER_QUEST_FAILED",
        0x0193 => "CMSG_QUESTLOG_SWAP_QUEST",
        0x0194 => "CMSG_QUESTLOG_REMOVE_QUEST",
        0x0195 => "SMSG_QUESTLOG_FULL",
        0x0196 => "SMSG_QUESTUPDATE_FAILED",
        0x0197 => "SMSG_QUESTUPDATE_FAILEDTIMER",
        0x0198 => "SMSG_QUESTUPDATE_COMPLETE",
        0x0199 => "SMSG_QUESTUPDATE_ADD_KILL",
        0x019A => "SMSG_QUESTUPDATE_ADD_ITEM",
        0x019B => "CMSG_QUEST_CONFIRM_ACCEPT",
        0x019C => "SMSG_QUEST_CONFIRM_ACCEPT",
        0x019D => "CMSG_PUSHQUESTTOPARTY",
        0x019E => "CMSG_LIST_INVENTORY",
        0x019F => "SMSG_LIST_INVENTORY",
        0x01A0 => "CMSG_SELL_ITEM",
        0x01A1 => "SMSG_SELL_ITEM",
        0x01A2 => "CMSG_BUY_ITEM",
        0x01A3 => "CMSG_BUY_ITEM_IN_SLOT",
        0x01A4 => "SMSG_BUY_ITEM",
        0x01A5 => "SMSG_BUY_FAILED",
        0x01A9 => "SMSG_SHOWTAXINODES",
        0x01AA => "CMSG_TAXINODE_STATUS_QUERY",
        0x01AB => "SMSG_TAXINODE_STATUS",
        0x01AC => "CMSG_TAXIQUERYAVAILABLENODES",
        0x01AD => "CMSG_ACTIVATETAXI",
        0x01AE => "SMSG_ACTIVATETAXIREPLY",
        0x01AF => "SMSG_NEW_TAXI_PATH",
        0x01B0 => "CMSG_TRAINER_LIST",
        0x01B1 => "SMSG_TRAINER_LIST",
        0x01B2 => "CMSG_TRAINER_BUY_SPELL",
        0x01B3 => "SMSG_TRAINER_BUY_SUCCEEDED",
        0x01B4 => "SMSG_TRAINER_BUY_FAILED",
        0x01B5 => "CMSG_BANKER_ACTIVATE",
        0x01B8 => "SMSG_SHOW_BANK",
        0x01B9 => "CMSG_BUY_BANK_SLOT",
        0x01BB => "CMSG_PETITION_SHOWLIST",
        0x01BC => "SMSG_PETITION_SHOWLIST",
        0x01BD => "CMSG_PETITION_BUY",
        0x01BE => "CMSG_PETITION_SHOW_SIGNATURES",
        0x01BF => "SMSG_PETITION_SHOW_SIGNATURES",
        0x01C0 => "CMSG_PETITION_SIGN",
        0x01C1 => "SMSG_PETITION_SIGN_RESULTS",
        0x01C2 => "MSG_PETITION_DECLINE",
        0x01C3 => "SMSG_PETITION_QUERY_RESPONSE",
        0x01C4 => "CMSG_TURN_IN_PETITION",
        0x01C5 => "SMSG_TURN_IN_PETITION_RESULTS",
        0x01C7 => "CMSG_OFFER_PETITION",
        0x01CA => "CMSG_BUG",
        0x01CC => "CMSG_PLAYED_TIME",
        0x01CD => "SMSG_PLAYED_TIME",
        0x01CE => "CMSG_QUERY_TIME",
        0x01CF => "SMSG_QUERY_TIME_RESPONSE",
        0x01D0 => "SMSG_LOG_XPGAIN",
        0x01D2 => "CMSG_RECLAIM_CORPSE",
        0x01D3 => "CMSG_WRAP_ITEM",
        0x01D4 => "SMSG_LEVELUP_INFO",
        0x01D5 => "MSG_MINIMAP_PING",
        0x01DC => "CMSG_PING",
        0x01DE => "SMSG_CLEAR_COOLDOWN",
        0x01E0 => "CMSG_SETSHEATHED",
        0x01E2 => "SMSG_SPELL_DELAYED",
        0x01EB => "SMSG_ITEM_TIME_UPDATE",
        0x01EC => "SMSG_AUTH_CHALLENGE",
        0x01ED => "CMSG_AUTH_SESSION",
        0x01EE => "SMSG_AUTH_RESPONSE",
        0x01F0 => "CMSG_PET_CAST_SPELL",
        0x01F1 => "MSG_SAVE_GUILD_EMBLEM",
        0x01F2 => "MSG_TABARDVENDOR_ACTIVATE",
        0x01F4 => "CMSG_ZONEUPDATE",
        0x01F6 => "SMSG_COMPRESSED_UPDATE_OBJECT",
        0x01F8 => "SMSG_EXPLORATION_EXPERIENCE",
        0x01FB => "MSG_RANDOM_ROLL",
        0x0201 => "CMSG_UNLEARN_SPELL",
        0x0202 => "CMSG_UNLEARN_SKILL",
        0x0203 => "SMSG_REMOVED_SPELL",
        0x0205 => "CMSG_GMTICKET_CREATE",
        0x0206 => "SMSG_GMTICKET_CREATE",
        0x0207 => "CMSG_GMTICKET_UPDATETEXT",
        0x0208 => "SMSG_GMTICKET_UPDATETEXT",
        0x0209 => "SMSG_ACCOUNT_DATA_TIMES",
        0x020A => "CMSG_REQUEST_ACCOUNT_DATA",
        0x020B => "CMSG_UPDATE_ACCOUNT_DATA",
        0x020C => "SMSG_UPDATE_ACCOUNT_DATA",
        0x020D => "SMSG_UPDATE_ACCOUNT_DATA_COMPLETE",
        0x0211 => "CMSG_GMTICKET_GETTICKET",
        0x0212 => "SMSG_GMTICKET_GETTICKET",
        0x0213 => "CMSG_UNLEARN_TALENTS",
        0x0216 => "MSG_CORPSE_QUERY",
        0x0217 => "CMSG_GMTICKET_DELETETICKET",
        0x0218 => "SMSG_GMTICKET_DELETETICKET",
        0x0219 => "SMSG_CHAT_WRONG_FACTION",
        0x021A => "CMSG_GMTICKET_SYSTEMSTATUS",
        0x021B => "SMSG_GMTICKET_SYSTEMSTATUS",
        0x021C => "CMSG_SPIRIT_HEALER_ACTIVATE",
        0x021E => "SMSG_SET_REST_START",
        0x0222 => "SMSG_SPIRIT_HEALER_CONFIRM",
        0x0223 => "SMSG_GOSSIP_POI",
        0x0225 => "CMSG_CHAT_IGNORED",
        0x0231 => "CMSG_GUILD_RANK",
        0x0232 => "CMSG_GUILD_ADD_RANK",
        0x0233 => "CMSG_GUILD_DEL_RANK",
        0x0234 => "CMSG_GUILD_SET_PUBLIC_NOTE",
        0x0235 => "CMSG_GUILD_SET_OFFICER_NOTE",
        0x0236 => "SMSG_LOGIN_VERIFY_WORLD",
        0x0238 => "CMSG_SEND_MAIL",
        0x0239 => "SMSG_SEND_MAIL_RESULT",
        0x023A => "CMSG_GET_MAIL_LIST",
        0x023B => "SMSG_MAIL_LIST_RESULT",
        0x023C => "SMSG_BATTLEFIELD_LIST",
        0x023E => "CMSG_BATTLEFIELD_JOIN",
        0x0243 => "CMSG_ITEM_TEXT_QUERY",
        0x0244 => "SMSG_ITEM_TEXT_QUERY_RESPONSE",
        0x0245 => "CMSG_MAIL_TAKE_MONEY",
        0x0246 => "CMSG_MAIL_TAKE_ITEM",
        0x0247 => "CMSG_MAIL_MARK_AS_READ",
        0x0248 => "CMSG_MAIL_RETURN_TO_SENDER",
        0x0249 => "CMSG_MAIL_DELETE",
        0x024A => "CMSG_MAIL_CREATE_TEXT_ITEM",
        0x024C => "SMSG_SPELLLOGEXECUTE",
        0x024E => "SMSG_PERIODICAURALOG",
        0x0251 => "CMSG_LEARN_TALENT",
        0x0253 => "CMSG_TOGGLE_PVP",
        0x0255 => "MSG_AUCTION_HELLO",
        0x0256 => "CMSG_AUCTION_SELL_ITEM",
        0x0257 => "CMSG_AUCTION_REMOVE_ITEM",
        0x0258 => "CMSG_AUCTION_LIST_ITEMS",
        0x0259 => "CMSG_AUCTION_LIST_OWNER_ITEMS",
        0x025A => "CMSG_AUCTION_PLACE_BID",
        0x025B => "SMSG_AUCTION_COMMAND_RESULT",
        0x025C => "SMSG_AUCTION_LIST_RESULT",
        0x025D => "SMSG_AUCTION_OWNER_LIST_RESULT",
        0x025E => "SMSG_AUCTION_BIDDER_NOTIFICATION",
        0x025F => "SMSG_AUCTION_OWNER_NOTIFICATION",
        0x0264 => "CMSG_AUCTION_LIST_BIDDER_ITEMS",
        0x0265 => "SMSG_AUCTION_BIDDER_LIST_RESULT",
        0x0268 => "CMSG_SET_AMMO",
        0x026A => "CMSG_SET_ACTIVE_MOVER",
        0x026B => "CMSG_PET_CANCEL_AURA",
        0x026D => "CMSG_CANCEL_AUTO_REPEAT_SPELL",
        0x026E => "MSG_LIST_STABLED_PETS",
        0x026F => "CMSG_STABLE_PET",
        0x0270 => "CMSG_UNSTABLE_PET",
        0x0272 => "CMSG_BUY_STABLE_SLOT",
        0x0273 => "SMSG_STABLE_RESULT",
        0x0274 => "CMSG_STABLE_REVIVE_PET",
        0x0275 => "CMSG_STABLE_SWAP_PET",
        0x0279 => "CMSG_REQUEST_PET_INFO",
        0x027A => "CMSG_FAR_SIGHT",
        0x027E => "CMSG_GROUP_CHANGE_SUB_GROUP",
        0x027F => "CMSG_REQUEST_PARTY_MEMBER_STATS",
        0x0280 => "CMSG_GROUP_SWAP_SUB_GROUP",
        0x0282 => "CMSG_AUTOSTORE_BANK_ITEM",
        0x0283 => "CMSG_AUTOBANK_ITEM",
        0x0284 => "MSG_QUERY_NEXT_MAIL_TIME",
        0x0285 => "SMSG_RECEIVED_MAIL",
        0x028D => "SMSG_AUCTION_REMOVED_NOTIFICATION",
        0x028E => "CMSG_GROUP_RAID_CONVERT",
        0x028F => "CMSG_GROUP_ASSISTANT_LEADER",
        0x0290 => "CMSG_BUYBACK_ITEM",
        0x0292 => "CMSG_MEETINGSTONE_JOIN",
        0x0293 => "CMSG_MEETINGSTONE_LEAVE",
        0x0294 => "CMSG_MEETINGSTONE_CHEAT",
        0x0295 => "SMSG_MEETINGSTONE_SETQUEUE",
        0x0296 => "CMSG_MEETINGSTONE_INFO",
        0x029E => "SMSG_LOOT_ALL_PASSED",
        0x029F => "SMSG_LOOT_ROLL_WON",
        0x02A0 => "CMSG_LOOT_ROLL",
        0x02A1 => "SMSG_LOOT_START_ROLL",
        0x02A2 => "SMSG_LOOT_ROLL",
        0x02A3 => "CMSG_LOOT_MASTER_GIVE",
        0x02A4 => "SMSG_LOOT_MASTER_LIST",
        0x02A5 => "SMSG_SET_FORCED_REACTIONS",
        0x02A6 => "SMSG_SPELL_FAILED_OTHER",
        0x02A8 => "CMSG_REPAIR_ITEM",
        0x02A9 => "SMSG_CHAT_PLAYER_NOT_FOUND",
        0x02AB => "SMSG_SUMMON_REQUEST",
        0x02AC => "CMSG_SUMMON_RESPONSE",
        0x02AE => "SMSG_MONSTER_MOVE_TRANSPORT",
        0x02B0 => "MSG_MOVE_FEATHER_FALL",
        0x02B1 => "MSG_MOVE_WATER_WALK",
        0x02B3 => "SMSG_COMPRESSED_MOVES",
        0x02B7 => "SMSG_DUEL_COUNTDOWN",
        0x02B9 => "CMSG_TOGGLE_HELM",
        0x02BA => "CMSG_TOGGLE_CLOAK",
        0x02BD => "SMSG_DURABILITY_DAMAGE_DEATH",
        0x02C1 => "MSG_PETITION_RENAME",
        0x02C2 => "SMSG_INIT_WORLD_STATES",
        0x02C4 => "CMSG_ITEM_NAME_QUERY",
        0x02C5 => "SMSG_ITEM_NAME_QUERY_RESPONSE",
        0x02C6 => "SMSG_PET_ACTION_FEEDBACK",
        0x02C7 => "CMSG_CHAR_RENAME",
        0x02C8 => "SMSG_CHAR_RENAME",
        0x02C9 => "CMSG_MOVE_SPLINE_DONE",
        0x02CA => "CMSG_MOVE_FALL_RESET",
        0x02CC => "SMSG_RAID_INSTANCE_INFO",
        0x02CD => "CMSG_REQUEST_RAID_INFO",
        0x02CE => "CMSG_MOVE_TIME_SKIPPED",
        0x02CF => "CMSG_MOVE_FEATHER_FALL_ACK",
        0x02D0 => "CMSG_MOVE_WATER_WALK_ACK",
        0x02D1 => "CMSG_MOVE_NOT_ACTIVE_MOVER",
        0x02D3 => "CMSG_BATTLEFIELD_STATUS",
        0x02D4 => "SMSG_BATTLEFIELD_STATUS",
        0x02D5 => "CMSG_BATTLEFIELD_PORT",
        0x02D6 => "MSG_INSPECT_HONOR_STATS",
        0x02D7 => "CMSG_BATTLEMASTER_HELLO",
        0x02DA => "SMSG_FORCE_WALK_SPEED_CHANGE",
        0x02DC => "SMSG_FORCE_SWIM_BACK_SPEED_CHANGE",
        0x02DE => "SMSG_FORCE_TURN_RATE_CHANGE",
        0x02E1 => "SMSG_BATTLEFIELD_JOINED",
        0x02E2 => "CMSG_AREA_SPIRIT_HEALER_QUERY",
        0x02E3 => "CMSG_AREA_SPIRIT_HEALER_QUEUE",
        0x02E5 => "CMSG_LEAVE_BATTLEFIELD",
        0x02E6 => "SMSG_WARDEN_DATA",
        0x02E7 => "CMSG_WARDEN_DATA",
        0x02E8 => "SMSG_CORPSE_RECLAIM_DELAY",
        0x02EA => "CMSG_PET_STOP_ATTACK",
        0x02F0 => "CMSG_PET_UNLEARN",
        0x02F1 => "SMSG_PET_UNLEARN_CONFIRM",
        0x02F2 => "SMSG_PARTY_MEMBER_STATS_FULL",
        0x02F3 => "CMSG_PET_SPELL_AUTOCAST",
        0x02F4 => "SMSG_WEATHER",
        0x02FC => "CMSG_GUILD_INFO_TEXT",
        0x02FD => "SMSG_CHAT_RESTRICTED",
        0x02FE => "SMSG_SPLINE_SET_RUN_SPEED",
        0x02FF => "SMSG_SPLINE_SET_RUN_BACK_SPEED",
        0x0300 => "SMSG_SPLINE_SET_SWIM_SPEED",
        0x0301 => "SMSG_SPLINE_SET_WALK_SPEED",
        0x0302 => "SMSG_SPLINE_SET_SWIM_BACK_SPEED",
        0x0303 => "SMSG_SPLINE_SET_TURN_RATE",
        0x0304 => "SMSG_SPLINE_MOVE_UNROOT",
        0x0305 => "SMSG_SPLINE_MOVE_FEATHER_FALL",
        0x0306 => "SMSG_SPLINE_MOVE_NORMAL_FALL",
        0x0307 => "SMSG_SPLINE_MOVE_SET_HOVER",
        0x0308 => "SMSG_SPLINE_MOVE_UNSET_HOVER",
        0x0309 => "SMSG_SPLINE_MOVE_WATER_WALK",
        0x030A => "SMSG_SPLINE_MOVE_LAND_WALK",
        0x030D => "SMSG_SPLINE_MOVE_SET_RUN_MODE",
        0x030E => "SMSG_SPLINE_MOVE_SET_WALK_MODE",
        0x0310 => "SMSG_PRE_RESURRECT",
        0x0317 => "CMSG_SET_FACTION_INACTIVE",
        0x031A => "SMSG_SPLINE_MOVE_ROOT",
        0x031D => "CMSG_RESET_INSTANCES",
        0x031E => "SMSG_INSTANCE_RESET",
        0x031F => "SMSG_INSTANCE_RESET_FAILED",
        0x0321 => "MSG_RAID_TARGET_UPDATE",
        0x0322 => "MSG_RAID_READY_CHECK",
        0x032A => "CMSG_GMSURVEY_SUBMIT",
        0x032D => "SMSG_CHAT_PLAYER_AMBIGUOUS",
        0x0330 => "SMSG_SPELL_UPDATE_CHAIN_TARGETS",
        0x0331 => "CMSG_CHAT_FILTERED",
        0x033F => "SMSG_SPELLINSTAKILLLOG",
        _ => "UNKNOWN",
    }
}

/// Opcode names of The Burning Crusade 2.4.3 (build 8606).
pub open spec fn spec_tbc_opcode_name(opcode: u32) -> Seq<char> {
    match opcode {
        0x001C => "SMSG_PONG"@,
        0x0037 => "CMSG_CHAR_ENUM"@,
        0x003B => "SMSG_CHAR_ENUM"@,
        0x003D => "CMSG_PLAYER_LOGIN"@,
        0x004B => "CMSG_PLAYER_LOGOUT"@,
        0x004C => "SMSG_LOGOUT_RESPONSE"@,
        0x004E => "SMSG_LOGOUT_COMPLETE"@,
        0x0050 => "CMSG_NAME_QUERY"@,
        0x0051 => "SMSG_NAME_QUERY_RESPONSE"@,
        0x006C => "SMSG_DESTROY_OBJECT"@,
        0x0095 => "CMSG_MESSAGECHAT"@,
        0x0096 => "SMSG_MESSAGECHAT"@,
        0x00A8 => "SMSG_COMPRESSED_UPDATE_OBJECT"@,
        0x00A9 => "SMSG_UPDATE_OBJECT"@,
        0x00B5 => "MSG_MOVE_START_FORWARD"@,
        0x00B6 => "MSG_MOVE_START_BACKWARD"@,
        0x00B7 => "MSG_MOVE_STOP"@,
        0x00BB => "MSG_MOVE_JUMP"@,
        0x00EE => "MSG_MOVE_HEARTBEAT"@,
        0x012E => "CMSG_CAST_SPELL"@,
        0x0130 => "SMSG_SPELL_START"@,
        0x0131 => "SMSG_SPELL_GO"@,
        0x0141 => "CMSG_ATTACKSWING"@,
        0x01B2 => "SMSG_ATTACKSTART"@,
        0x01B3 => "SMSG_ATTACKSTOP"@,
        0x01DC => "CMSG_PING"@,
        0x01EC => "SMSG_AUTH_CHALLENGE"@,
        0x01EE => "CMSG_AUTH_SESSION"@,
        0x01EF => "SMSG_AUTH_RESPONSE"@,
        _ => "UNKNOWN"@,
    }
}

/// Name of `opcode` in The Burning Crusade 2.4.3 (build 8606).
fn tbc_opcode_name(opcode: u32) -> (name: &'static str)
    ensures
        name@ == spec_tbc_opcode_name(opcode),
{
    match opcode {
        0x001C => "SMSG_PONG",
        0x0037 => "CMSG_CHAR_ENUM",
        0x003B => "SMSG_CHAR_ENUM",
        0x003D => "CMSG_PLAYER_LOGIN",
        0x004B => "CMSG_PLAYER_LOGOUT",
        0x004C => "SMSG_LOGOUT_RESPONSE",
        0x004E => "SMSG_LOGOUT_COMPLETE",
        0x0050 => "CMSG_NAME_QUERY",
        0x0051 => "SMSG_NAME_QUERY_RESPONSE",
        0x006C => "SMSG_DESTROY_OBJECT",
        0x0095 => "CMSG_MESSAGECHAT",
        0x0096 => "SMSG_MESSAGECHAT",
        0x00A8 => "SMSG_COMPRESSED_UPDATE_OBJECT",
        0x00A9 => "SMSG_UPDATE_OBJECT",
        0x00B5 => "MSG_MOVE_START_FORWARD",
        0x00B6 => "MSG_MOVE_START_BACKWARD",
        0x00B7 => "MSG_MOVE_STOP",
        0x00BB => "MSG_MOVE_JUMP",
        0x00EE => "MSG_MOVE_HEARTBEAT",
        0x012E => "CMSG_CAST_SPELL",
        0x0130 => "SMSG_SPELL_START",
        0x0131 => "SMSG_SPELL_GO",
        0x0141 => "CMSG_ATTACKSWING",
        0x01B2 => "SMSG_ATTACKSTART",
        0x01B3 => "SMSG_ATTACKSTOP",
        0x01DC => "CMSG_PING",
        0x01EC => "SMSG_AUTH_CHALLENGE",
        0x01EE => "CMSG_AUTH_SESSION",
        0x01EF => "SMSG_AUTH_RESPONSE",
        _ => "UNKNOWN",
    }
}

/// Opcode names of Cataclysm 4.3.4 (build 15595).
pub open spec fn spec_cata_opcode_name(opcode: u32) -> Seq<char> {
    match opcode {
        0x001C => "SMSG_PONG"@,
        0x0160 => "SMSG_UPDATE_OBJECT"@,
        0x01DC => "CMSG_PING"@,
        0x0264 => "CMSG_CAST_SPELL"@,
        0x0344 => "CMSG_PLAYER_LOGOUT"@,
        0x0725 => "CMSG_PLAYER_LOGIN"@,
        0x2061 => "CMSG_MESSAGECHAT"@,
        0x2165 => "SMSG_LOGOUT_RESPONSE"@,
        0x2340 => "CMSG_CHAR_ENUM"@,
        0x2504 => "SMSG_SPELL_START"@,
        0x4066 => "SMSG_LOGOUT_COMPLETE"@,
        0x40A9 => "SMSG_AUTH_RESPONSE"@,
        0x4305 => "SMSG_SPELL_GO"@,
        0x4542 => "SMSG_AUTH_CHALLENGE"@,
        0x4701 => "SMSG_NAME_QUERY_RESPONSE"@,
        0x6120 => "SMSG_MESSAGECHAT"@,
        0x6362 => "SMSG_CHAR_ENUM"@,
        0x6700 => "CMSG_NAME_QUERY"@,
        0x6726 => "CMSG_AUTH_SESSION"@,
        _ => "UNKNOWN"@,
    }
}

/// Name of `opcode` in Cataclysm 4.3.4 (build 15595).
fn cata_opcode_name(opcode: u32) -> (name: &'static str)
    ensures
        name@ == spec_cata_opcode_name(opcode),
{
    match opcode {
        0x001C => "SMSG_PONG",
        0x0160 => "SMSG_UPDATE_OBJECT",
        0x01DC => "CMSG_PING",
        0x0264 => "CMSG_CAST_SPELL",
        0x0344 => "CMSG_PLAYER_LOGOUT",
        0x0725 => "CMSG_PLAYER_LOGIN",
        0x2061 => "CMSG_MESSAGECHAT",
        0x2165 => "SMSG_LOGOUT_RESPONSE",
        0x2340 => "CMSG_CHAR_ENUM",
        0x2504 => "SMSG_SPELL_START",
        0x4066 => "SMSG_LOGOUT_COMPLETE",
        0x40A9 => "SMSG_AUTH_RESPONSE",
        0x4305 => "SMSG_SPELL_GO",
        0x4542 => "SMSG_AUTH_CHALLENGE",
        0x4701 => "SMSG_NAME_QUERY_RESPONSE",
        0x6120 => "SMSG_MESSAGECHAT",
        0x6362 => "SMSG_CHAR_ENUM",
        0x6700 => "CMSG_NAME_QUERY",
        0x6726 => "CMSG_AUTH_SESSION",
        _ => "UNKNOWN",
    }
}

/// Name of `opcode` in the table of `build`.
pub open spec fn spec_opcode_name(build: u32, opcode: u32) -> Seq<char> {
    if build == BUILD_VANILLA {
        spec_vanilla_opcode_name(opcode)
    } else if build == BUILD_TBC {
        spec_tbc_opcode_name(opcode)
    } else if build == BUILD_WOTLK {
        spec_wotlk_opcode_name(opcode)
    } else if build == BUILD_CATA {
        spec_cata_opcode_name(opcode)
    } else {
        "UNKNOWN"@
    }
}

/// Name of `opcode` for `build`: looked up in that build's table, "UNKNOWN"
/// for an opcode it does not list or for a build without a table.
pub fn get_opcode_name(build: u32, opcode: u32) -> (name: &'static str)
    ensures
        name@ == spec_opcode_name(build, opcode),
{
    match build {
        BUILD_VANILLA => vanilla_opcode_name(opcode),
        BUILD_TBC => tbc_opcode_name(opcode),
        BUILD_WOTLK => wotlk_opcode_name(opcode),
        BUILD_CATA => cata_opcode_name(opcode),
        _ => "UNKNOWN",
    }
}

} // verus!
