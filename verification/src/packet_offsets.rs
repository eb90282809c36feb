//! Where each field of the packed structures sits on the wire: the bytes
//! of every header and packet structure are its fields' bytes, one after
//! another in declaration order, with no padding (the game server's
//! one-byte-aligned layout). Multi-byte numbers take their little-endian
//! bytes in place.
#![allow(non_snake_case)]

use crate::header::{PBMSG_HEAD, PSBMSG_HEAD, PSWMSG_HEAD, PWMSG_HEAD};
use crate::layout::PackedLayout;
use crate::packets::{
    PMSG_CHAT_RECV, PMSG_CHAT_WHISPER_RECV, PMSG_LIVE_CLIENT_RECV, PMSG_MOVE_RECV,
    PMSG_POSITION_RECV, PMSG_ACTION_RECV, PMSG_EVENT_REMAIN_TIME_RECV, PMSG_PET_ITEM_COMMAND_RECV,
    PMSG_PET_ITEM_INFO_RECV, PMSG_MAP_SERVER_MOVE_AUTH_RECV, PMSG_FRIEND_MESSAGE_RECV, PMSG_CONNECT_ACCOUNT_RECV,
    PMSG_CLOSE_CLIENT_RECV, PMSG_CHARACTER_CREATE_RECV, PMSG_CHARACTER_DELETE_RECV, PMSG_CHARACTER_INFO_RECV,
    PMSG_LEVEL_UP_POINT_RECV, PMSG_CHARACTER_NAME_CHECK_RECV, PMSG_CHARACTER_NAME_CHANGE_RECV, PMSG_OPTION_CHANGE_SKIN_RECV,
    PMSG_OPTION_DATA_RECV, PMSG_CLIENT_SECURITY_BREACH_RECV, PMSG_SNS_DATA_RECV, PMSG_SNS_DATA_LOG_RECV,
    PMSG_OFFTRADE_RECV, PMSG_CHAT_SEND, PMSG_CHAT_TARGET_SEND, PMSG_CHAT_WHISPER_SEND,
    PMSG_MAIN_CHECK_SEND, PMSG_EVENT_STATE_SEND, PMSG_SERVER_MSG_SEND, PMSG_WEATHER_SEND,
    PMSG_MONSTER_DIE_SEND, PMSG_USER_DIE_SEND, PMSG_ACTION_SEND, PMSG_LIFE_SEND,
    PMSG_MOVE_SEND, PMSG_ELEMENTAL_DAMAGE_SEND, PMSG_CHARACTER_CREATION_ENABLE_SEND, PMSG_LIFE_UPDATE_SEND,
    PMSG_CHARACTER_ATTACK_SPEED_SEND, PMSG_ENTER_EVENT_MAP_ERROR_SEND, PMSG_CONNECT_CLIENT_SEND2, PMSG_CONNECT_CLIENT_SEND,
    PMSG_CONNECT_ACCOUNT_SEND, PMSG_CLOSE_CLIENT_SEND, PMSG_CHARACTER_LIST_SEND, PMSG_CHARACTER_LIST,
    PMSG_CHARACTER_CREATE_SEND, PMSG_CHARACTER_DELETE_SEND, PMSG_CHARACTER_INFO_SEND, PMSG_CHARACTER_REGEN_SEND,
    PMSG_LEVEL_UP_SEND, PMSG_LEVEL_UP_POINT_SEND, PMSG_NEW_CHARACTER_CALC_SEND, PMSG_NEW_HEALTH_BAR_SEND,
    PMSG_NEW_HEALTH_BAR, PMSG_NEW_GENS_BATTLE_INFO_SEND, PMSG_NEW_MESSAGE_SEND, PMSG_OFFTRADE_SEND,
    PMSG_SHOPACTIVE_SEND, PMSG_PING_SEND,
};
use vstd::prelude::*;

verus! {

/// The packed bytes of a `PBMSG_HEAD`: type_, size, head, in this order, 3 bytes in all.
pub proof fn lemma_pbmsg_head_offsets(p: PBMSG_HEAD)
    ensures
        p.packed_bytes().len() == 3,
        ({
            let b = p.packed_bytes();
            &&& b[0] == p.type_
            &&& b[1] == p.size
            &&& b[2] == p.head
        }),
{
    p.lemma_packed_bytes_len();
}

/// The packed bytes of a `PSBMSG_HEAD`: type_, size, head, subh, in this order, 4 bytes in all.
pub proof fn lemma_psbmsg_head_offsets(p: PSBMSG_HEAD)
    ensures
        p.packed_bytes().len() == 4,
        ({
            let b = p.packed_bytes();
            &&& b[0] == p.type_
            &&& b[1] == p.size
            &&& b[2] == p.head
            &&& b[3] == p.subh
        }),
{
    p.lemma_packed_bytes_len();
}

/// The packed bytes of a `PWMSG_HEAD`: type_, size, head, in this order, 4 bytes in all.
pub proof fn lemma_pwmsg_head_offsets(p: PWMSG_HEAD)
    ensures
        p.packed_bytes().len() == 4,
        ({
            let b = p.packed_bytes();
            &&& b[0] == p.type_
            &&& b.subrange(1, 3) == p.size@
            &&& b[3] == p.head
        }),
{
    p.lemma_packed_bytes_len();
}

/// The packed bytes of a `PSWMSG_HEAD`: type_, size, head, subh, in this order, 5 bytes in all.
pub proof fn lemma_pswmsg_head_offsets(p: PSWMSG_HEAD)
    ensures
        p.packed_bytes().len() == 5,
        ({
            let b = p.packed_bytes();
            &&& b[0] == p.type_
            &&& b.subrange(1, 3) == p.size@
            &&& b[3] == p.head
            &&& b[4] == p.subh
        }),
{
    p.lemma_packed_bytes_len();
}

/// The packed bytes of a `PMSG_CHAT_RECV`: header, name, message, in this order, 73 bytes in all.
pub proof fn lemma_pmsg_chat_recv_offsets(p: PMSG_CHAT_RECV)
    ensures
        p.packed_bytes().len() == 73,
        ({
            let b = p.packed_bytes();
            &&& b[0] == p.header.type_
            &&& b[1] == p.header.size
            &&& b[2] == p.header.head
            &&& b.subrange(3, 13) == p.name@
            &&& b.subrange(13, 73) == p.message@
        }),
{
    p.lemma_packed_bytes_len();
}

/// The packed bytes of a `PMSG_CHAT_WHISPER_RECV`: header, name, message, in this order, 73 bytes in all.
pub proof fn lemma_pmsg_chat_whisper_recv_offsets(p: PMSG_CHAT_WHISPER_RECV)
    ensures
        p.packed_bytes().len() == 73,
        ({
            let b = p.packed_bytes();
            &&& b[0] == p.header.type_
            &&& b[1] == p.header.size
            &&& b[2] == p.header.head
            &&& b.subrange(3, 13) == p.name@
            &&& b.subrange(13, 73) == p.message@
        }),
{
    p.lemma_packed_bytes_len();
}

/// The packed bytes of a `PMSG_LIVE_CLIENT_RECV`: header, tick_count, physi_speed, magic_speed, in this order, 11 bytes in all.
pub proof fn lemma_pmsg_live_client_recv_offsets(p: PMSG_LIVE_CLIENT_RECV)
    ensures
        p.packed_bytes().len() == 11,
        ({
            let b = p.packed_bytes();
            &&& b[0] == p.header.type_
            &&& b[1] == p.header.size
            &&& b[2] == p.header.head
            &&& b.subrange(3, 7) == p.tick_count@
            &&& b.subrange(7, 9) == p.physi_speed@
            &&& b.subrange(9, 11) == p.magic_speed@
        }),
{
    p.lemma_packed_bytes_len();
}

/// The packed bytes of a `PMSG_MOVE_RECV`: header, x, y, path, in this order, 13 bytes in all.
pub proof fn lemma_pmsg_move_recv_offsets(p: PMSG_MOVE_RECV)
    ensures
        p.packed_bytes().len() == 13,
        ({
            let b = p.packed_bytes();
            &&& b[0] == p.header.type_
            &&& b[1] == p.header.size
            &&& b[2] == p.header.head
            &&& b[3] == p.x
            &&& b[4] == p.y
            &&& b.subrange(5, 13) == p.path@
        }),
{
    p.lemma_packed_bytes_len();
}

/// The packed bytes of a `PMSG_POSITION_RECV`: header, x, y, in this order, 5 bytes in all.
pub proof fn lemma_pmsg_position_recv_offsets(p: PMSG_POSITION_RECV)
    ensures
        p.packed_bytes().len() == 5,
        ({
            let b = p.packed_bytes();
            &&& b[0] == p.header.type_
            &&& b[1] == p.header.size
            &&& b[2] == p.header.head
            &&& b[3] == p.x
            &&& b[4] == p.y
        }),
{
    p.lemma_packed_bytes_len();
}

/// The packed bytes of a `PMSG_ACTION_RECV`: header, dir, action, index, in this order, 7 bytes in all.
pub proof fn lemma_pmsg_action_recv_offsets(p: PMSG_ACTION_RECV)
    ensures
        p.packed_bytes().len() == 7,
        ({
            let b = p.packed_bytes();
            &&& b[0] == p.header.type_
            &&& b[1] == p.header.size
            &&& b[2] == p.header.head
            &&& b[3] == p.dir
            &&& b[4] == p.action
            &&& b.subrange(5, 7) == p.index@
        }),
{
    p.lemma_packed_bytes_len();
}

/// The packed bytes of a `PMSG_EVENT_REMAIN_TIME_RECV`: header, event_type, item_level, in this order, 5 bytes in all.
pub proof fn lemma_pmsg_event_remain_time_recv_offsets(p: PMSG_EVENT_REMAIN_TIME_RECV)
    ensures
        p.packed_bytes().len() == 5,
        ({
            let b = p.packed_bytes();
            &&& b[0] == p.header.type_
            &&& b[1] == p.header.size
            &&& b[2] == p.header.head
            &&& b[3] == p.event_type
            &&& b[4] == p.item_level
        }),
{
    p.lemma_packed_bytes_len();
}

/// The packed bytes of a `PMSG_PET_ITEM_COMMAND_RECV`: header, type_, command, index, in this order, 7 bytes in all.
pub proof fn lemma_pmsg_pet_item_command_recv_offsets(p: PMSG_PET_ITEM_COMMAND_RECV)
    ensures
        p.packed_bytes().len() == 7,
        ({
            let b = p.packed_bytes();
            &&& b[0] == p.header.type_
            &&& b[1] == p.header.size
            &&& b[2] == p.header.head
            &&& b[3] == p.type_
            &&& b[4] == p.command
            &&& b.subrange(5, 7) == p.index@
        }),
{
    p.lemma_packed_bytes_len();
}

/// The packed bytes of a `PMSG_PET_ITEM_INFO_RECV`: header, type_, flag, slot, in this order, 6 bytes in all.
pub proof fn lemma_pmsg_pet_item_info_recv_offsets(p: PMSG_PET_ITEM_INFO_RECV)
    ensures
        p.packed_bytes().len() == 6,
        ({
            let b = p.packed_bytes();
            &&& b[0] == p.header.type_
            &&& b[1] == p.header.size
            &&& b[2] == p.header.head
            &&& b[3] == p.type_
            &&& b[4] == p.flag
            &&& b[5] == p.slot
        }),
{
    p.lemma_packed_bytes_len();
}

/// The packed bytes of a `PMSG_MAP_SERVER_MOVE_AUTH_RECV`: header, account, name, auth_code1, auth_code2, auth_code3, auth_code4, tick_count, client_version, client_serial, in this order, 69 bytes in all.
pub proof fn lemma_pmsg_map_server_move_auth_recv_offsets(p: PMSG_MAP_SERVER_MOVE_AUTH_RECV)
    ensures
        p.packed_bytes().len() == 69,
        ({
            let b = p.packed_bytes();
            &&& b[0] == p.header.type_
            &&& b[1] == p.header.size
            &&& b[2] == p.header.head
            &&& b[3] == p.header.subh
            &&& b.subrange(4, 16) == p.account@
            &&& b.subrange(16, 28) == p.name@
            &&& b.subrange(28, 32) == p.auth_code1@
            &&& b.subrange(32, 36) == p.auth_code2@
            &&& b.subrange(36, 40) == p.auth_code3@
            &&& b.subrange(40, 44) == p.auth_code4@
            &&& b.subrange(44, 48) == p.tick_count@
            &&& b.subrange(48, 53) == p.client_version@
            &&& b.subrange(53, 69) == p.client_serial@
        }),
{
    p.lemma_packed_bytes_len();
}

/// The packed bytes of a `PMSG_FRIEND_MESSAGE_RECV`: header, guid, name, subject, dir, action, size, text, in this order, 1082 bytes in all.
pub proof fn lemma_pmsg_friend_message_recv_offsets(p: PMSG_FRIEND_MESSAGE_RECV)
    ensures
        p.packed_bytes().len() == 1082,
        ({
            let b = p.packed_bytes();
            &&& b[0] == p.header.type_
            &&& b.subrange(1, 3) == p.header.size@
            &&& b[3] == p.header.head
            &&& b.subrange(4, 8) == p.guid@
            &&& b.subrange(8, 18) == p.name@
            &&& b.subrange(18, 78) == p.subject@
            &&& b[78] == p.dir
            &&& b[79] == p.action
            &&& b.subrange(80, 82) == p.size@
            &&& b.subrange(82, 1082) == p.text@
        }),
{
    p.lemma_packed_bytes_len();
}

/// The packed bytes of a `PMSG_CONNECT_ACCOUNT_RECV`: header, account, password, tick_count, client_version, client_serial, in this order, 51 bytes in all.
pub proof fn lemma_pmsg_connect_account_recv_offsets(p: PMSG_CONNECT_ACCOUNT_RECV)
    ensures
        p.packed_bytes().len() == 51,
        ({
            let b = p.packed_bytes();
            &&& b[0] == p.header.type_
            &&& b[1] == p.header.size
            &&& b[2] == p.header.head
            &&& b[3] == p.header.subh
            &&& b.subrange(4, 14) == p.account@
            &&& b.subrange(14, 26) == p.password@
            &&& b.subrange(26, 30) == p.tick_count@
            &&& b.subrange(30, 35) == p.client_version@
            &&& b.subrange(35, 51) == p.client_serial@
        }),
{
    p.lemma_packed_bytes_len();
}

/// The packed bytes of a `PMSG_CLOSE_CLIENT_RECV`: header, type_, in this order, 5 bytes in all.
pub proof fn lemma_pmsg_close_client_recv_offsets(p: PMSG_CLOSE_CLIENT_RECV)
    ensures
        p.packed_bytes().len() == 5,
        ({
            let b = p.packed_bytes();
            &&& b[0] == p.header.type_
            &&& b[1] == p.header.size
            &&& b[2] == p.header.head
            &&& b[3] == p.header.subh
            &&& b[4] == p.type_
        }),
{
    p.lemma_packed_bytes_len();
}

/// The packed bytes of a `PMSG_CHARACTER_CREATE_RECV`: header, name, class, in this order, 15 bytes in all.
pub proof fn lemma_pmsg_character_create_recv_offsets(p: PMSG_CHARACTER_CREATE_RECV)
    ensures
        p.packed_bytes().len() == 15,
        ({
            let b = p.packed_bytes();
            &&& b[0] == p.header.type_
            &&& b[1] == p.header.size
            &&& b[2] == p.header.head
            &&& b[3] == p.header.subh
            &&& b.subrange(4, 14) == p.name@
            &&& b[14] == p.class
        }),
{
    p.lemma_packed_bytes_len();
}

/// The packed bytes of a `PMSG_CHARACTER_DELETE_RECV`: header, name, personal_code, in this order, 24 bytes in all.
pub proof fn lemma_pmsg_character_delete_recv_offsets(p: PMSG_CHARACTER_DELETE_RECV)
    ensures
        p.packed_bytes().len() == 24,
        ({
            let b = p.packed_bytes();
            &&& b[0] == p.header.type_
            &&& b[1] == p.header.size
            &&& b[2] == p.header.head
            &&& b[3] == p.header.subh
            &&& b.subrange(4, 14) == p.name@
            &&& b.subrange(14, 24) == p.personal_code@
        }),
{
    p.lemma_packed_bytes_len();
}

/// The packed bytes of a `PMSG_CHARACTER_INFO_RECV`: header, name, in this order, 14 bytes in all.
pub proof fn lemma_pmsg_character_info_recv_offsets(p: PMSG_CHARACTER_INFO_RECV)
    ensures
        p.packed_bytes().len() == 14,
        ({
            let b = p.packed_bytes();
            &&& b[0] == p.header.type_
            &&& b[1] == p.header.size
            &&& b[2] == p.header.head
            &&& b[3] == p.header.subh
            &&& b.subrange(4, 14) == p.name@
        }),
{
    p.lemma_packed_bytes_len();
}

/// The packed bytes of a `PMSG_LEVEL_UP_POINT_RECV`: header, type_, in this order, 5 bytes in all.
pub proof fn lemma_pmsg_level_up_point_recv_offsets(p: PMSG_LEVEL_UP_POINT_RECV)
    ensures
        p.packed_bytes().len() == 5,
        ({
            let b = p.packed_bytes();
            &&& b[0] == p.header.type_
            &&& b[1] == p.header.size
            &&& b[2] == p.header.head
            &&& b[3] == p.header.subh
            &&& b[4] == p.type_
        }),
{
    p.lemma_packed_bytes_len();
}

/// The packed bytes of a `PMSG_CHARACTER_NAME_CHECK_RECV`: header, name, in this order, 14 bytes in all.
pub proof fn lemma_pmsg_character_name_check_recv_offsets(p: PMSG_CHARACTER_NAME_CHECK_RECV)
    ensures
        p.packed_bytes().len() == 14,
        ({
            let b = p.packed_bytes();
            &&& b[0] == p.header.type_
            &&& b[1] == p.header.size
            &&& b[2] == p.header.head
            &&& b[3] == p.header.subh
            &&& b.subrange(4, 14) == p.name@
        }),
{
    p.lemma_packed_bytes_len();
}

/// The packed bytes of a `PMSG_CHARACTER_NAME_CHANGE_RECV`: header, old_name, new_name, in this order, 24 bytes in all.
pub proof fn lemma_pmsg_character_name_change_recv_offsets(p: PMSG_CHARACTER_NAME_CHANGE_RECV)
    ensures
        p.packed_bytes().len() == 24,
        ({
            let b = p.packed_bytes();
            &&& b[0] == p.header.type_
            &&& b[1] == p.header.size
            &&& b[2] == p.header.head
            &&& b[3] == p.header.subh
            &&& b.subrange(4, 14) == p.old_name@
            &&& b.subrange(14, 24) == p.new_name@
        }),
{
    p.lemma_packed_bytes_len();
}

/// The packed bytes of a `PMSG_OPTION_CHANGE_SKIN_RECV`: header, change_skin, in this order, 5 bytes in all.
pub proof fn lemma_pmsg_option_change_skin_recv_offsets(p: PMSG_OPTION_CHANGE_SKIN_RECV)
    ensures
        p.packed_bytes().len() == 5,
        ({
            let b = p.packed_bytes();
            &&& b[0] == p.header.type_
            &&& b[1] == p.header.size
            &&& b[2] == p.header.head
            &&& b[3] == p.header.subh
            &&& b[4] == p.change_skin
        }),
{
    p.lemma_packed_bytes_len();
}

/// The packed bytes of a `PMSG_OPTION_DATA_RECV`: header, skill_key, game_option, q_key, w_key, e_key, chat_window, r_key, qwer_level, in this order, 34 bytes in all.
pub proof fn lemma_pmsg_option_data_recv_offsets(p: PMSG_OPTION_DATA_RECV)
    ensures
        p.packed_bytes().len() == 34,
        ({
            let b = p.packed_bytes();
            &&& b[0] == p.header.type_
            &&& b[1] == p.header.size
            &&& b[2] == p.header.head
            &&& b[3] == p.header.subh
            &&& b.subrange(4, 24) == p.skill_key@
            &&& b[24] == p.game_option
            &&& b[25] == p.q_key
            &&& b[26] == p.w_key
            &&& b[27] == p.e_key
            &&& b[28] == p.chat_window
            &&& b[29] == p.r_key
            &&& b.subrange(30, 34) == p.qwer_level@
        }),
{
    p.lemma_packed_bytes_len();
}

/// The packed bytes of a `PMSG_CLIENT_SECURITY_BREACH_RECV`: header, code, in this order, 8 bytes in all.
pub proof fn lemma_pmsg_client_security_breach_recv_offsets(p: PMSG_CLIENT_SECURITY_BREACH_RECV)
    ensures
        p.packed_bytes().len() == 8,
        ({
            let b = p.packed_bytes();
            &&& b[0] == p.header.type_
            &&& b[1] == p.header.size
            &&& b[2] == p.header.head
            &&& b[3] == p.header.subh
            &&& b.subrange(4, 8) == p.code@
        }),
{
    p.lemma_packed_bytes_len();
}

/// The packed bytes of a `PMSG_SNS_DATA_RECV`: header, result, data, in this order, 261 bytes in all.
pub proof fn lemma_pmsg_sns_data_recv_offsets(p: PMSG_SNS_DATA_RECV)
    ensures
        p.packed_bytes().len() == 261,
        ({
            let b = p.packed_bytes();
            &&& b[0] == p.header.type_
            &&& b.subrange(1, 3) == p.header.size@
            &&& b[3] == p.header.head
            &&& b[4] == p.result
            &&& b.subrange(5, 261) == p.data@
        }),
{
    p.lemma_packed_bytes_len();
}

/// The packed bytes of a `PMSG_SNS_DATA_LOG_RECV`: header, code, in this order, 6 bytes in all.
pub proof fn lemma_pmsg_sns_data_log_recv_offsets(p: PMSG_SNS_DATA_LOG_RECV)
    ensures
        p.packed_bytes().len() == 6,
        ({
            let b = p.packed_bytes();
            &&& b[0] == p.header.type_
            &&& b[1] == p.header.size
            &&& b[2] == p.header.head
            &&& b.subrange(3, 6) == p.code@
        }),
{
    p.lemma_packed_bytes_len();
}

/// The packed bytes of a `PMSG_OFFTRADE_RECV`: header, type_, in this order, 8 bytes in all.
pub proof fn lemma_pmsg_offtrade_recv_offsets(p: PMSG_OFFTRADE_RECV)
    ensures
        p.packed_bytes().len() == 8,
        ({
            let b = p.packed_bytes();
            &&& b[0] == p.header.type_
            &&& b[1] == p.header.size
            &&& b[2] == p.header.head
            &&& b[3] == p.header.subh
            &&& b.subrange(4, 8) == p.type_@
        }),
{
    p.lemma_packed_bytes_len();
}

/// The packed bytes of a `PMSG_CHAT_SEND`: header, name, message, in this order, 73 bytes in all.
pub proof fn lemma_pmsg_chat_send_offsets(p: PMSG_CHAT_SEND)
    ensures
        p.packed_bytes().len() == 73,
        ({
            let b = p.packed_bytes();
            &&& b[0] == p.header.type_
            &&& b[1] == p.header.size
            &&& b[2] == p.header.head
            &&& b.subrange(3, 13) == p.name@
            &&& b.subrange(13, 73) == p.message@
        }),
{
    p.lemma_packed_bytes_len();
}

/// The packed bytes of a `PMSG_CHAT_TARGET_SEND`: header, index, message, in this order, 65 bytes in all.
pub proof fn lemma_pmsg_chat_target_send_offsets(p: PMSG_CHAT_TARGET_SEND)
    ensures
        p.packed_bytes().len() == 65,
        ({
            let b = p.packed_bytes();
            &&& b[0] == p.header.type_
            &&& b[1] == p.header.size
            &&& b[2] == p.header.head
            &&& b.subrange(3, 5) == p.index@
            &&& b.subrange(5, 65) == p.message@
        }),
{
    p.lemma_packed_bytes_len();
}

/// The packed bytes of a `PMSG_CHAT_WHISPER_SEND`: header, name, message, in this order, 73 bytes in all.
pub proof fn lemma_pmsg_chat_whisper_send_offsets(p: PMSG_CHAT_WHISPER_SEND)
    ensures
        p.packed_bytes().len() == 73,
        ({
            let b = p.packed_bytes();
            &&& b[0] == p.header.type_
            &&& b[1] == p.header.size
            &&& b[2] == p.header.head
            &&& b.subrange(3, 13) == p.name@
            &&& b.subrange(13, 73) == p.message@
        }),
{
    p.lemma_packed_bytes_len();
}

/// The packed bytes of a `PMSG_MAIN_CHECK_SEND`: header, key, in this order, 5 bytes in all.
pub proof fn lemma_pmsg_main_check_send_offsets(p: PMSG_MAIN_CHECK_SEND)
    ensures
        p.packed_bytes().len() == 5,
        ({
            let b = p.packed_bytes();
            &&& b[0] == p.header.type_
            &&& b[1] == p.header.size
            &&& b[2] == p.header.head
            &&& b.subrange(3, 5) == p.key@
        }),
{
    p.lemma_packed_bytes_len();
}

/// The packed bytes of a `PMSG_EVENT_STATE_SEND`: header, state, event, in this order, 5 bytes in all.
pub proof fn lemma_pmsg_event_state_send_offsets(p: PMSG_EVENT_STATE_SEND)
    ensures
        p.packed_bytes().len() == 5,
        ({
            let b = p.packed_bytes();
            &&& b[0] == p.header.type_
            &&& b[1] == p.header.size
            &&& b[2] == p.header.head
            &&& b[3] == p.state
            &&& b[4] == p.event
        }),
{
    p.lemma_packed_bytes_len();
}

/// The packed bytes of a `PMSG_SERVER_MSG_SEND`: header, msg_number, in this order, 4 bytes in all.
pub proof fn lemma_pmsg_server_msg_send_offsets(p: PMSG_SERVER_MSG_SEND)
    ensures
        p.packed_bytes().len() == 4,
        ({
            let b = p.packed_bytes();
            &&& b[0] == p.header.type_
            &&& b[1] == p.header.size
            &&& b[2] == p.header.head
            &&& b[3] == p.msg_number
        }),
{
    p.lemma_packed_bytes_len();
}

/// The packed bytes of a `PMSG_WEATHER_SEND`: header, weather, in this order, 4 bytes in all.
pub proof fn lemma_pmsg_weather_send_offsets(p: PMSG_WEATHER_SEND)
    ensures
        p.packed_bytes().len() == 4,
        ({
            let b = p.packed_bytes();
            &&& b[0] == p.header.type_
            &&& b[1] == p.header.size
            &&& b[2] == p.header.head
            &&& b[3] == p.weather
        }),
{
    p.lemma_packed_bytes_len();
}

/// The packed bytes of a `PMSG_MONSTER_DIE_SEND`: header, index, experience, damage, in this order, 9 bytes in all.
pub proof fn lemma_pmsg_monster_die_send_offsets(p: PMSG_MONSTER_DIE_SEND)
    ensures
        p.packed_bytes().len() == 9,
        ({
            let b = p.packed_bytes();
            &&& b[0] == p.header.type_
            &&& b[1] == p.header.size
            &&& b[2] == p.header.head
            &&& b.subrange(3, 5) == p.index@
            &&& b.subrange(5, 7) == p.experience@
            &&& b.subrange(7, 9) == p.damage@
        }),
{
    p.lemma_packed_bytes_len();
}

/// The packed bytes of a `PMSG_USER_DIE_SEND`: header, index, skill, killer, in this order, 9 bytes in all.
pub proof fn lemma_pmsg_user_die_send_offsets(p: PMSG_USER_DIE_SEND)
    ensures
        p.packed_bytes().len() == 9,
        ({
            let b = p.packed_bytes();
            &&& b[0] == p.header.type_
            &&& b[1] == p.header.size
            &&& b[2] == p.header.head
            &&& b.subrange(3, 5) == p.index@
            &&& b.subrange(5, 7) == p.skill@
            &&& b.subrange(7, 9) == p.killer@
        }),
{
    p.lemma_packed_bytes_len();
}

/// The packed bytes of a `PMSG_ACTION_SEND`: header, index, dir, action, target, in this order, 9 bytes in all.
pub proof fn lemma_pmsg_action_send_offsets(p: PMSG_ACTION_SEND)
    ensures
        p.packed_bytes().len() == 9,
        ({
            let b = p.packed_bytes();
            &&& b[0] == p.header.type_
            &&& b[1] == p.header.size
            &&& b[2] == p.header.head
            &&& b.subrange(3, 5) == p.index@
            &&& b[5] == p.dir
            &&& b[6] == p.action
            &&& b.subrange(7, 9) == p.target@
        }),
{
    p.lemma_packed_bytes_len();
}

/// The packed bytes of a `PMSG_LIFE_SEND`: header, type_, life, flag, shield, in this order, 9 bytes in all.
pub proof fn lemma_pmsg_life_send_offsets(p: PMSG_LIFE_SEND)
    ensures
        p.packed_bytes().len() == 9,
        ({
            let b = p.packed_bytes();
            &&& b[0] == p.header.type_
            &&& b[1] == p.header.size
            &&& b[2] == p.header.head
            &&& b[3] == p.type_
            &&& b.subrange(4, 6) == p.life@
            &&& b[6] == p.flag
            &&& b.subrange(7, 9) == p.shield@
        }),
{
    p.lemma_packed_bytes_len();
}

/// The packed bytes of a `PMSG_MOVE_SEND`: header, index, x, y, dir, in this order, 8 bytes in all.
pub proof fn lemma_pmsg_move_send_offsets(p: PMSG_MOVE_SEND)
    ensures
        p.packed_bytes().len() == 8,
        ({
            let b = p.packed_bytes();
            &&& b[0] == p.header.type_
            &&& b[1] == p.header.size
            &&& b[2] == p.header.head
            &&& b.subrange(3, 5) == p.index@
            &&& b[5] == p.x
            &&& b[6] == p.y
            &&& b[7] == p.dir
        }),
{
    p.lemma_packed_bytes_len();
}

/// The packed bytes of a `PMSG_ELEMENTAL_DAMAGE_SEND`: header, index, attribute, damage, in this order, 10 bytes in all.
pub proof fn lemma_pmsg_elemental_damage_send_offsets(p: PMSG_ELEMENTAL_DAMAGE_SEND)
    ensures
        p.packed_bytes().len() == 10,
        ({
            let b = p.packed_bytes();
            &&& b[0] == p.header.type_
            &&& b[1] == p.header.size
            &&& b[2] == p.header.head
            &&& b.subrange(3, 5) == p.index@
            &&& b[5] == p.attribute
            &&& b.subrange(6, 10) == p.damage@
        }),
{
    p.lemma_packed_bytes_len();
}

/// The packed bytes of a `PMSG_CHARACTER_CREATION_ENABLE_SEND`: header, flag, result, in this order, 5 bytes in all.
pub proof fn lemma_pmsg_character_creation_enable_send_offsets(p: PMSG_CHARACTER_CREATION_ENABLE_SEND)
    ensures
        p.packed_bytes().len() == 5,
        ({
            let b = p.packed_bytes();
            &&& b[0] == p.header.type_
            &&& b[1] == p.header.size
            &&& b[2] == p.header.head
            &&& b[3] == p.flag
            &&& b[4] == p.result
        }),
{
    p.lemma_packed_bytes_len();
}

/// The packed bytes of a `PMSG_LIFE_UPDATE_SEND`: header, index, max_hp, cur_hp, in this order, 14 bytes in all.
pub proof fn lemma_pmsg_life_update_send_offsets(p: PMSG_LIFE_UPDATE_SEND)
    ensures
        p.packed_bytes().len() == 14,
        ({
            let b = p.packed_bytes();
            &&& b[0] == p.header.type_
            &&& b[1] == p.header.size
            &&& b[2] == p.header.head
            &&& b[3] == p.header.subh
            &&& b.subrange(4, 6) == p.index@
            &&& b.subrange(6, 10) == p.max_hp@
            &&& b.subrange(10, 14) == p.cur_hp@
        }),
{
    p.lemma_packed_bytes_len();
}

/// The packed bytes of a `PMSG_CHARACTER_ATTACK_SPEED_SEND`: header, physi_speed, magic_speed, in this order, 12 bytes in all.
pub proof fn lemma_pmsg_character_attack_speed_send_offsets(p: PMSG_CHARACTER_ATTACK_SPEED_SEND)
    ensures
        p.packed_bytes().len() == 12,
        ({
            let b = p.packed_bytes();
            &&& b[0] == p.header.type_
            &&& b[1] == p.header.size
            &&& b[2] == p.header.head
            &&& b[3] == p.header.subh
            &&& b.subrange(4, 8) == p.physi_speed@
            &&& b.subrange(8, 12) == p.magic_speed@
        }),
{
    p.lemma_packed_bytes_len();
}

/// The packed bytes of a `PMSG_ENTER_EVENT_MAP_ERROR_SEND`: header, result, in this order, 8 bytes in all.
pub proof fn lemma_pmsg_enter_event_map_error_send_offsets(p: PMSG_ENTER_EVENT_MAP_ERROR_SEND)
    ensures
        p.packed_bytes().len() == 8,
        ({
            let b = p.packed_bytes();
            &&& b[0] == p.header.type_
            &&& b[1] == p.header.size
            &&& b[2] == p.header.head
            &&& b[3] == p.header.subh
            &&& b.subrange(4, 8) == p.result@
        }),
{
    p.lemma_packed_bytes_len();
}

/// The packed bytes of a `PMSG_CONNECT_CLIENT_SEND2`: header, result, index, client_version, in this order, 12 bytes in all.
pub proof fn lemma_pmsg_connect_client_send2_offsets(p: PMSG_CONNECT_CLIENT_SEND2)
    ensures
        p.packed_bytes().len() == 12,
        ({
            let b = p.packed_bytes();
            &&& b[0] == p.header.type_
            &&& b[1] == p.header.size
            &&& b[2] == p.header.head
            &&& b[3] == p.header.subh
            &&& b[4] == p.result
            &&& b.subrange(5, 7) == p.index@
            &&& b.subrange(7, 12) == p.client_version@
        }),
{
    p.lemma_packed_bytes_len();
}

/// The packed bytes of a `PMSG_CONNECT_CLIENT_SEND`: header, result, index, client_version, in this order, 12 bytes in all.
pub proof fn lemma_pmsg_connect_client_send_offsets(p: PMSG_CONNECT_CLIENT_SEND)
    ensures
        p.packed_bytes().len() == 12,
        ({
            let b = p.packed_bytes();
            &&& b[0] == p.header.type_
            &&& b[1] == p.header.size
            &&& b[2] == p.header.head
            &&& b[3] == p.header.subh
            &&& b[4] == p.result
            &&& b.subrange(5, 7) == p.index@
            &&& b.subrange(7, 12) == p.client_version@
        }),
{
    p.lemma_packed_bytes_len();
}

/// The packed bytes of a `PMSG_CONNECT_ACCOUNT_SEND`: header, result, in this order, 5 bytes in all.
pub proof fn lemma_pmsg_connect_account_send_offsets(p: PMSG_CONNECT_ACCOUNT_SEND)
    ensures
        p.packed_bytes().len() == 5,
        ({
            let b = p.packed_bytes();
            &&& b[0] == p.header.type_
            &&& b[1] == p.header.size
            &&& b[2] == p.header.head
            &&& b[3] == p.header.subh
            &&& b[4] == p.result
        }),
{
    p.lemma_packed_bytes_len();
}

/// The packed bytes of a `PMSG_CLOSE_CLIENT_SEND`: header, result, in this order, 5 bytes in all.
pub proof fn lemma_pmsg_close_client_send_offsets(p: PMSG_CLOSE_CLIENT_SEND)
    ensures
        p.packed_bytes().len() == 5,
        ({
            let b = p.packed_bytes();
            &&& b[0] == p.header.type_
            &&& b[1] == p.header.size
            &&& b[2] == p.header.head
            &&& b[3] == p.header.subh
            &&& b[4] == p.result
        }),
{
    p.lemma_packed_bytes_len();
}

/// The packed bytes of a `PMSG_CHARACTER_LIST_SEND`: header, class_code, move_cnt, count, in this order, 7 bytes in all.
pub proof fn lemma_pmsg_character_list_send_offsets(p: PMSG_CHARACTER_LIST_SEND)
    ensures
        p.packed_bytes().len() == 7,
        ({
            let b = p.packed_bytes();
            &&& b[0] == p.header.type_
            &&& b[1] == p.header.size
            &&& b[2] == p.header.head
            &&& b[3] == p.header.subh
            &&& b[4] == p.class_code
            &&& b[5] == p.move_cnt
            &&& b[6] == p.count
        }),
{
    p.lemma_packed_bytes_len();
}

/// The packed bytes of a `PMSG_CHARACTER_LIST`: slot, name, level, ctl_code, charset, guild_status, in this order, 33 bytes in all.
pub proof fn lemma_pmsg_character_list_offsets(p: PMSG_CHARACTER_LIST)
    ensures
        p.packed_bytes().len() == 33,
        ({
            let b = p.packed_bytes();
            &&& b[0] == p.slot
            &&& b.subrange(1, 11) == p.name@
            &&& b.subrange(11, 13) == p.level@
            &&& b[13] == p.ctl_code
            &&& b.subrange(14, 32) == p.charset@
            &&& b[32] == p.guild_status
        }),
{
    p.lemma_packed_bytes_len();
}

/// The packed bytes of a `PMSG_CHARACTER_CREATE_SEND`: header, result, name, slot, level, class, equipment, in this order, 43 bytes in all.
pub proof fn lemma_pmsg_character_create_send_offsets(p: PMSG_CHARACTER_CREATE_SEND)
    ensures
        p.packed_bytes().len() == 43,
        ({
            let b = p.packed_bytes();
            &&& b[0] == p.header.type_
            &&& b[1] == p.header.size
            &&& b[2] == p.header.head
            &&& b[3] == p.header.subh
            &&& b[4] == p.result
            &&& b.subrange(5, 15) == p.name@
            &&& b[15] == p.slot
            &&& b.subrange(16, 18) == p.level@
            &&& b[18] == p.class
            &&& b.subrange(19, 43) == p.equipment@
        }),
{
    p.lemma_packed_bytes_len();
}

/// The packed bytes of a `PMSG_CHARACTER_DELETE_SEND`: header, result, in this order, 5 bytes in all.
pub proof fn lemma_pmsg_character_delete_send_offsets(p: PMSG_CHARACTER_DELETE_SEND)
    ensures
        p.packed_bytes().len() == 5,
        ({
            let b = p.packed_bytes();
            &&& b[0] == p.header.type_
            &&& b[1] == p.header.size
            &&& b[2] == p.header.head
            &&& b[3] == p.header.subh
            &&& b[4] == p.result
        }),
{
    p.lemma_packed_bytes_len();
}

/// The packed bytes of a `PMSG_CHARACTER_INFO_SEND`: header, x, y, map, dir, experience, next_experience, level_up_point, strength, dexterity, vitality, energy, life, max_life, mana, max_mana, shield, max_shield, bp, max_bp, money, pk_level, ctl_code, fruit_add_point, max_fruit_add_point, leadership, fruit_sub_point, max_fruit_sub_point, in this order, 66 bytes in all.
pub proof fn lemma_pmsg_character_info_send_offsets(p: PMSG_CHARACTER_INFO_SEND)
    ensures
        p.packed_bytes().len() == 66,
        ({
            let b = p.packed_bytes();
            &&& b[0] == p.header.type_
            &&& b[1] == p.header.size
            &&& b[2] == p.header.head
            &&& b[3] == p.header.subh
            &&& b[4] == p.x
            &&& b[5] == p.y
            &&& b[6] == p.map
            &&& b[7] == p.dir
            &&& b.subrange(8, 16) == p.experience@
            &&& b.subrange(16, 24) == p.next_experience@
            &&& b.subrange(24, 26) == p.level_up_point@
            &&& b.subrange(26, 28) == p.strength@
            &&& b.subrange(28, 30) == p.dexterity@
            &&& b.subrange(30, 32) == p.vitality@
            &&& b.subrange(32, 34) == p.energy@
            &&& b.subrange(34, 36) == p.life@
            &&& b.subrange(36, 38) == p.max_life@
            &&& b.subrange(38, 40) == p.mana@
            &&& b.subrange(40, 42) == p.max_mana@
            &&& b.subrange(42, 44) == p.shield@
            &&& b.subrange(44, 46) == p.max_shield@
            &&& b.subrange(46, 48) == p.bp@
            &&& b.subrange(48, 50) == p.max_bp@
            &&& b.subrange(50, 54) == p.money@
            &&& b[54] == p.pk_level
            &&& b[55] == p.ctl_code
            &&& b.subrange(56, 58) == p.fruit_add_point@
            &&& b.subrange(58, 60) == p.max_fruit_add_point@
            &&& b.subrange(60, 62) == p.leadership@
            &&& b.subrange(62, 64) == p.fruit_sub_point@
            &&& b.subrange(64, 66) == p.max_fruit_sub_point@
        }),
{
    p.lemma_packed_bytes_len();
}

/// The packed bytes of a `PMSG_CHARACTER_REGEN_SEND`: header, x, y, map, dir, life, mana, shield, bp, experience, money, in this order, 28 bytes in all.
pub proof fn lemma_pmsg_character_regen_send_offsets(p: PMSG_CHARACTER_REGEN_SEND)
    ensures
        p.packed_bytes().len() == 28,
        ({
            let b = p.packed_bytes();
            &&& b[0] == p.header.type_
            &&& b[1] == p.header.size
            &&& b[2] == p.header.head
            &&& b[3] == p.header.subh
            &&& b[4] == p.x
            &&& b[5] == p.y
            &&& b[6] == p.map
            &&& b[7] == p.dir
            &&& b.subrange(8, 10) == p.life@
            &&& b.subrange(10, 12) == p.mana@
            &&& b.subrange(12, 14) == p.shield@
            &&& b.subrange(14, 16) == p.bp@
            &&& b.subrange(16, 24) == p.experience@
            &&& b.subrange(24, 28) == p.money@
        }),
{
    p.lemma_packed_bytes_len();
}

/// The packed bytes of a `PMSG_LEVEL_UP_SEND`: header, level, level_up_point, max_life, max_mana, max_shield, max_bp, fruit_add_point, max_fruit_add_point, fruit_sub_point, max_fruit_sub_point, in this order, 24 bytes in all.
pub proof fn lemma_pmsg_level_up_send_offsets(p: PMSG_LEVEL_UP_SEND)
    ensures
        p.packed_bytes().len() == 24,
        ({
            let b = p.packed_bytes();
            &&& b[0] == p.header.type_
            &&& b[1] == p.header.size
            &&& b[2] == p.header.head
            &&& b[3] == p.header.subh
            &&& b.subrange(4, 6) == p.level@
            &&& b.subrange(6, 8) == p.level_up_point@
            &&& b.subrange(8, 10) == p.max_life@
            &&& b.subrange(10, 12) == p.max_mana@
            &&& b.subrange(12, 14) == p.max_shield@
            &&& b.subrange(14, 16) == p.max_bp@
            &&& b.subrange(16, 18) == p.fruit_add_point@
            &&& b.subrange(18, 20) == p.max_fruit_add_point@
            &&& b.subrange(20, 22) == p.fruit_sub_point@
            &&& b.subrange(22, 24) == p.max_fruit_sub_point@
        }),
{
    p.lemma_packed_bytes_len();
}

/// The packed bytes of a `PMSG_LEVEL_UP_POINT_SEND`: header, result, max_life_and_mana, max_shield, max_bp, in this order, 11 bytes in all.
pub proof fn lemma_pmsg_level_up_point_send_offsets(p: PMSG_LEVEL_UP_POINT_SEND)
    ensures
        p.packed_bytes().len() == 11,
        ({
            let b = p.packed_bytes();
            &&& b[0] == p.header.type_
            &&& b[1] == p.header.size
            &&& b[2] == p.header.head
            &&& b[3] == p.header.subh
            &&& b[4] == p.result
            &&& b.subrange(5, 7) == p.max_life_and_mana@
            &&& b.subrange(7, 9) == p.max_shield@
            &&& b.subrange(9, 11) == p.max_bp@
        }),
{
    p.lemma_packed_bytes_len();
}

/// The packed bytes of a `PMSG_NEW_CHARACTER_CALC_SEND`: header, view_cur_hp, view_max_hp, view_cur_mp, view_max_mp, view_cur_bp, view_max_bp, view_cur_sd, view_max_sd, view_add_strength, view_add_dexterity, view_add_vitality, view_add_energy, view_add_leadership, view_physi_damage_min, view_physi_damage_max, view_magic_damage_min, view_magic_damage_max, view_curse_damage_min, view_curse_damage_max, view_mul_physi_damage, view_div_physi_damage, view_mul_magic_damage, view_div_magic_damage, view_mul_curse_damage, view_div_curse_damage, view_magic_damage_rate, view_curse_damage_rate, view_physi_speed, view_magic_speed, view_attack_success_rate, view_attack_success_rate_pvp, view_defense, view_defense_success_rate, view_defense_success_rate_pvp, view_damage_multiplier, view_rf_damage_multiplier_a, view_rf_damage_multiplier_b, view_rf_damage_multiplier_c, view_dark_spirit_attack_damage_min, view_dark_spirit_attack_damage_max, view_dark_spirit_attack_speed, view_dark_spirit_attack_success_rate, in this order, 172 bytes in all.
pub proof fn lemma_pmsg_new_character_calc_send_offsets(p: PMSG_NEW_CHARACTER_CALC_SEND)
    ensures
        p.packed_bytes().len() == 172,
        ({
            let b = p.packed_bytes();
            &&& b[0] == p.header.type_
            &&& b[1] == p.header.size
            &&& b[2] == p.header.head
            &&& b[3] == p.header.subh
            &&& b.subrange(4, 8) == p.view_cur_hp@
            &&& b.subrange(8, 12) == p.view_max_hp@
            &&& b.subrange(12, 16) == p.view_cur_mp@
            &&& b.subrange(16, 20) == p.view_max_mp@
            &&& b.subrange(20, 24) == p.view_cur_bp@
            &&& b.subrange(24, 28) == p.view_max_bp@
            &&& b.subrange(28, 32) == p.view_cur_sd@
            &&& b.subrange(32, 36) == p.view_max_sd@
            &&& b.subrange(36, 40) == p.view_add_strength@
            &&& b.subrange(40, 44) == p.view_add_dexterity@
            &&& b.subrange(44, 48) == p.view_add_vitality@
            &&& b.subrange(48, 52) == p.view_add_energy@
            &&& b.subrange(52, 56) == p.view_add_leadership@
            &&& b.subrange(56, 60) == p.view_physi_damage_min@
            &&& b.subrange(60, 64) == p.view_physi_damage_max@
            &&& b.subrange(64, 68) == p.view_magic_damage_min@
            &&& b.subrange(68, 72) == p.view_magic_damage_max@
            &&& b.subrange(72, 76) == p.view_curse_damage_min@
            &&& b.subrange(76, 80) == p.view_curse_damage_max@
            &&& b.subrange(80, 84) == p.view_mul_physi_damage@
            &&& b.subrange(84, 88) == p.view_div_physi_damage@
            &&& b.subrange(88, 92) == p.view_mul_magic_damage@
            &&& b.subrange(92, 96) == p.view_div_magic_damage@
            &&& b.subrange(96, 100) == p.view_mul_curse_damage@
            &&& b.subrange(100, 104) == p.view_div_curse_damage@
            &&& b.subrange(104, 108) == p.view_magic_damage_rate@
            &&& b.subrange(108, 112) == p.view_curse_damage_rate@
            &&& b.subrange(112, 116) == p.view_physi_speed@
            &&& b.subrange(116, 120) == p.view_magic_speed@
            &&& b.subrange(120, 124) == p.view_attack_success_rate@
            &&& b.subrange(124, 128) == p.view_attack_success_rate_pvp@
            &&& b.subrange(128, 132) == p.view_defense@
            &&& b.subrange(132, 136) == p.view_defense_success_rate@
            &&& b.subrange(136, 140) == p.view_defense_success_rate_pvp@
            &&& b.subrange(140, 144) == p.view_damage_multiplier@
            &&& b.subrange(144, 148) == p.view_rf_damage_multiplier_a@
            &&& b.subrange(148, 152) == p.view_rf_damage_multiplier_b@
            &&& b.subrange(152, 156) == p.view_rf_damage_multiplier_c@
            &&& b.subrange(156, 160) == p.view_dark_spirit_attack_damage_min@
            &&& b.subrange(160, 164) == p.view_dark_spirit_attack_damage_max@
            &&& b.subrange(164, 168) == p.view_dark_spirit_attack_speed@
            &&& b.subrange(168, 172) == p.view_dark_spirit_attack_success_rate@
        }),
{
    p.lemma_packed_bytes_len();
}

/// The packed bytes of a `PMSG_NEW_HEALTH_BAR_SEND`: header, count, in this order, 6 bytes in all.
pub proof fn lemma_pmsg_new_health_bar_send_offsets(p: PMSG_NEW_HEALTH_BAR_SEND)
    ensures
        p.packed_bytes().len() == 6,
        ({
            let b = p.packed_bytes();
            &&& b[0] == p.header.type_
            &&& b.subrange(1, 3) == p.header.size@
            &&& b[3] == p.header.head
            &&& b[4] == p.header.subh
            &&& b[5] == p.count
        }),
{
    p.lemma_packed_bytes_len();
}

/// The packed bytes of a `PMSG_NEW_HEALTH_BAR`: index, type_, rate, rate2, in this order, 5 bytes in all.
pub proof fn lemma_pmsg_new_health_bar_offsets(p: PMSG_NEW_HEALTH_BAR)
    ensures
        p.packed_bytes().len() == 5,
        ({
            let b = p.packed_bytes();
            &&& b.subrange(0, 2) == p.index@
            &&& b[2] == p.type_
            &&& b[3] == p.rate
            &&& b[4] == p.rate2
        }),
{
    p.lemma_packed_bytes_len();
}

/// The packed bytes of a `PMSG_NEW_GENS_BATTLE_INFO_SEND`: header, gens_battle_map_count, gens_move_index_count, gens_battle_map, gens_move_index, in this order, 246 bytes in all.
pub proof fn lemma_pmsg_new_gens_battle_info_send_offsets(p: PMSG_NEW_GENS_BATTLE_INFO_SEND)
    ensures
        p.packed_bytes().len() == 246,
        ({
            let b = p.packed_bytes();
            &&& b[0] == p.header.type_
            &&& b[1] == p.header.size
            &&& b[2] == p.header.head
            &&& b[3] == p.header.subh
            &&& b[4] == p.gens_battle_map_count
            &&& b[5] == p.gens_move_index_count
            &&& b.subrange(6, 126) == p.gens_battle_map@
            &&& b.subrange(126, 246) == p.gens_move_index@
        }),
{
    p.lemma_packed_bytes_len();
}

/// The packed bytes of a `PMSG_NEW_MESSAGE_SEND`: header, message, in this order, 132 bytes in all.
pub proof fn lemma_pmsg_new_message_send_offsets(p: PMSG_NEW_MESSAGE_SEND)
    ensures
        p.packed_bytes().len() == 132,
        ({
            let b = p.packed_bytes();
            &&& b[0] == p.header.type_
            &&& b[1] == p.header.size
            &&& b[2] == p.header.head
            &&& b[3] == p.header.subh
            &&& b.subrange(4, 132) == p.message@
        }),
{
    p.lemma_packed_bytes_len();
}

/// The packed bytes of a `PMSG_OFFTRADE_SEND`: header, type_, in this order, 8 bytes in all.
pub proof fn lemma_pmsg_offtrade_send_offsets(p: PMSG_OFFTRADE_SEND)
    ensures
        p.packed_bytes().len() == 8,
        ({
            let b = p.packed_bytes();
            &&& b[0] == p.header.type_
            &&& b[1] == p.header.size
            &&& b[2] == p.header.head
            &&& b[3] == p.header.subh
            &&& b.subrange(4, 8) == p.type_@
        }),
{
    p.lemma_packed_bytes_len();
}

/// The packed bytes of a `PMSG_SHOPACTIVE_SEND`: header, active, type_, in this order, 12 bytes in all.
pub proof fn lemma_pmsg_shopactive_send_offsets(p: PMSG_SHOPACTIVE_SEND)
    ensures
        p.packed_bytes().len() == 12,
        ({
            let b = p.packed_bytes();
            &&& b[0] == p.header.type_
            &&& b[1] == p.header.size
            &&& b[2] == p.header.head
            &&& b[3] == p.header.subh
            &&& b.subrange(4, 8) == p.active@
            &&& b.subrange(8, 12) == p.type_@
        }),
{
    p.lemma_packed_bytes_len();
}

/// The packed bytes of a `PMSG_PING_SEND`: header, in this order, 4 bytes in all.
pub proof fn lemma_pmsg_ping_send_offsets(p: PMSG_PING_SEND)
    ensures
        p.packed_bytes().len() == 4,
        ({
            let b = p.packed_bytes();
            &&& b[0] == p.header.type_
            &&& b[1] == p.header.size
            &&& b[2] == p.header.head
            &&& b[3] == p.header.subh
        }),
{
    p.lemma_packed_bytes_len();
}

} // verus!
