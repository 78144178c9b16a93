//! Every setting is kept under a key of its own, so all of them are read back.

use crate::config;
use crate::config::ConfigModel;
use crate::config::Entry;
use crate::config::SettingModel;
use vstd::prelude::*;

verus! {

/// A number for a key, from its length and four of its characters.
pub open spec fn key_code(key: Seq<char>) -> int {
    let n = key.len() as int;
    if n == 0 {
        0
    } else {
        let d = if n > 2 {
            key[n - 3]
        } else {
            key[0]
        };
        (((n * 128 + key[n - 1] as int) * 128 + key[n / 2] as int) * 128 + key[3 * n / 4] as int)
            * 128 + d as int
    }
}

/// The place of a key among all settings, by its number; -1 for another key.
#[verifier::opaque]
pub open spec fn place_of_code(code: int) -> int {
    if code == 2629612777 {
        0
    } else if code == 5345343455 {
        1
    } else if code == 7190639346 {
        2
    } else if code == 6406615019 {
        3
    } else if code == 3166271471 {
        4
    } else if code == 6148569068 {
        5
    } else if code == 5051592673 {
        6
    } else if code == 4818827375 {
        7
    } else if code == 6118964463 {
        8
    } else if code == 6651917421 {
        9
    } else if code == 10175132901 {
        10
    } else if code == 9881531113 {
        11
    } else if code == 11517277417 {
        12
    } else if code == 11517277409 {
        13
    } else if code == 11248857708 {
        14
    } else if code == 12056098931 {
        15
    } else if code == 9072180079 {
        16
    } else if code == 11517145061 {
        17
    } else if code == 7744516590 {
        18
    } else if code == 7461451887 {
        19
    } else if code == 10145558881 {
        20
    } else if code == 9606524899 {
        21
    } else if code == 9895997679 {
        22
    } else if code == 9623304050 {
        23
    } else if code == 12322683493 {
        24
    } else if code == 12859243109 {
        25
    } else if code == 9637982949 {
        26
    } else if code == 9363256543 {
        27
    } else if code == 9877125601 {
        28
    } else if code == 9382130928 {
        29
    } else if code == 9608622049 {
        30
    } else if code == 9072180207 {
        31
    } else if code == 7752907103 {
        32
    } else if code == 8029731439 {
        33
    } else if code == 13379615329 {
        34
    } else if code == 8535290601 {
        35
    } else if code == 11785467103 {
        36
    } else if code == 1559804642 {
        37
    } else if code == 2633576802 {
        38
    } else if code == 3718001398 {
        39
    } else if code == 5854965730 {
        40
    } else if code == 6653949804 {
        41
    } else if code == 6161068015 {
        42
    } else if code == 6416923111 {
        43
    } else if code == 8296116718 {
        44
    } else if code == 6953841765 {
        45
    } else if code == 9101111269 {
        46
    } else if code == 7759032553 {
        47
    } else if code == 9906829801 {
        48
    } else if code == 8019081839 {
        49
    } else if code == 9369778164 {
        50
    } else if code == 7727477484 {
        51
    } else if code == 1865970145 {
        52
    } else if code == 9371744225 {
        53
    } else if code == 8298133989 {
        54
    } else if code == 7759245919 {
        55
    } else if code == 4271470437 {
        56
    } else if code == 3168663535 {
        57
    } else if code == 2124132837 {
        58
    } else if code == 2092545641 {
        59
    } else if code == 5848643436 {
        60
    } else if code == 2656711268 {
        61
    } else if code == 6385612652 {
        62
    } else if code == 9638342636 {
        63
    } else if code == 5582401513 {
        64
    } else if code == 5582368745 {
        65
    } else if code == 3986405750 {
        66
    } else if code == 1014575605 {
        67
    } else if code == 1555591649 {
        68
    } else if code == 2122002665 {
        69
    } else if code == 3464311525 {
        70
    } else if code == 2656664438 {
        71
    } else if code == 4269537765 {
        72
    } else if code == 1304245993 {
        73
    } else if code == 1027355876 {
        74
    } else if code == 4775096555 {
        75
    } else if code == 5060210926 {
        76
    } else if code == 6138148073 {
        77
    } else if code == 4259035753 {
        78
    } else if code == 5057900521 {
        79
    } else if code == 4521277929 {
        80
    } else if code == 3971577583 {
        81
    } else if code == 1553773298 {
        82
    } else if code == 1052392164 {
        83
    } else if code == 5072482276 {
        84
    } else if code == 786283365 {
        85
    } else if code == 2388226804 {
        86
    } else if code == 3703355893 {
        87
    } else if code == 4514854895 {
        88
    } else if code == 8264691692 {
        89
    } else if code == 8296148965 {
        90
    } else if code == 5580239084 {
        91
    } else if code == 3174659305 {
        92
    } else if code == 5611731568 {
        93
    } else if code == 6685439971 {
        94
    } else if code == 6922270815 {
        95
    } else if code == 7480324071 {
        96
    } else if code == 7748448231 {
        97
    } else if code == 6161249001 {
        98
    } else if code == 8535257710 {
        99
    } else if code == 8553822697 {
        100
    } else if code == 7199306852 {
        101
    } else if code == 7492906983 {
        102
    } else if code == 5848430175 {
        103
    } else if code == 6406665959 {
        104
    } else if code == 6674806503 {
        105
    } else if code == 5087573865 {
        106
    } else if code == 7461237998 {
        107
    } else if code == 6125596644 {
        108
    } else if code == 6419199079 {
        109
    } else if code == 8289580148 {
        110
    } else if code == 4535941476 {
        111
    } else if code == 5076842341 {
        112
    } else if code == 5311953269 {
        113
    } else if code == 4804360167 {
        114
    } else if code == 5074926192 {
        115
    } else if code == 2904127987 {
        116
    } else if code == 5045434223 {
        117
    } else if code == 3453580521 {
        118
    } else if code == 1285272161 {
        119
    } else if code == 3435034607 {
        120
    } else if code == 2107355886 {
        121
    } else if code == 1285190259 {
        122
    } else if code == 3971807585 {
        123
    } else if code == 2361094767 {
        124
    } else if code == 3745264364 {
        125
    } else if code == 9069654764 {
        126
    } else if code == 8562389610 {
        127
    } else if code == 8562389614 {
        128
    } else if code == 4499960558 {
        129
    } else if code == 5613547503 {
        130
    } else if code == 6414777193 {
        131
    } else if code == 5848463212 {
        132
    } else if code == 5582125042 {
        133
    } else if code == 5045219305 {
        134
    } else if code == 6417068020 {
        135
    } else if code == 6953973236 {
        136
    } else if code == 8264514015 {
        137
    } else if code == 9101392479 {
        138
    } else if code == 7769684447 {
        139
    } else if code == 7190606572 {
        140
    } else if code == 6387710063 {
        141
    } else if code == 5621971312 {
        142
    } else if code == 5624068464 {
        143
    } else if code == 5619874160 {
        144
    } else if code == 5588416880 {
        145
    } else if code == 9606559212 {
        146
    } else if code == 7192706159 {
        147
    } else if code == 9369825503 {
        148
    } else if code == 11233947893 {
        149
    } else if code == 3701291109 {
        150
    } else if code == 6148700660 {
        151
    } else if code == 4804294508 {
        152
    } else if code == 1845293555 {
        153
    } else if code == 7461352553 {
        154
    } else if code == 5313739108 {
        155
    } else if code == 8266609273 {
        156
    } else if code == 8834854885 {
        157
    } else if code == 7488452212 {
        158
    } else if code == 8025584364 {
        159
    } else if code == 9113776105 {
        160
    } else if code == 9344511977 {
        161
    } else if code == 10972099812 {
        162
    } else if code == 10948734959 {
        163
    } else if code == 9906517215 {
        164
    } else if code == 12861585253 {
        165
    } else if code == 9071833710 {
        166
    } else if code == 8295969375 {
        167
    } else if code == 9906516319 {
        168
    } else if code == 4776950116 {
        169
    } else if code == 5076744421 {
        170
    } else if code == 8577069545 {
        171
    } else if code == 6402177010 {
        172
    } else if code == 6418985701 {
        173
    } else if code == 6922533231 {
        174
    } else if code == 6418936549 {
        175
    } else if code == 6416840671 {
        176
    } else if code == 3999002596 {
        177
    } else if code == 7454946527 {
        178
    } else if code == 7224406765 {
        179
    } else if code == 8298166125 {
        180
    } else if code == 6418853869 {
        181
    } else if code == 8834873965 {
        182
    } else if code == 9071849449 {
        183
    } else if code == 9877123049 {
        184
    } else {
        -1
    }
}

pub open spec fn place(key: Seq<char>) -> int {
    place_of_code(key_code(key))
}

/// Whether the setting at a place is written: some are only where they are set.
pub open spec fn is_written(c: ConfigModel, place: int) -> bool {
    &&& place >= 0
    &&& place == 67 ==> c.udc is Some
    &&& place == 69 ==> c.btalias is Some
    &&& place == 71 ==> c.webserver is Some
    &&& place == 114 ==> c.ev_battery_logger is Some
    &&& place == 130 ==> c.media_dump_base_port is Some
    &&& place == 152 ==> c.hu_button_handler is Some
}

/// The settings stand at growing places, all of them before the `n`-th, and none
/// stands there that is not written.
pub open spec fn in_places(list: Seq<SettingModel>, n: int, c: ConfigModel) -> bool {
    &&& forall|i: int|
        0 <= i < list.len() ==> place((#[trigger] list[i]).key) < n && is_written(
            c,
            place(list[i].key),
        )
    &&& forall|i: int, j: int|
        0 <= i < j < list.len() ==> place((#[trigger] list[i]).key) < place(
            (#[trigger] list[j]).key,
        )
}

proof fn lemma_next_place(list: Seq<SettingModel>, s: SettingModel, n: int, c: ConfigModel)
    requires
        in_places(list, n, c),
        place(s.key) == n,
        is_written(c, n),
    ensures
        in_places(list.push(s), n + 1, c),
{
}

proof fn lemma_codes1()
    ensures
        place("advertise"@) == 0,
        place("enable_companion_bt"@) == 1,
        place("companion_bt_auth_required"@) == 2,
        place("companion_bt_auth_token"@) == 3,
        place("dongle_mode"@) == 4,
        place("preload_kernel_modules"@) == 5,
        place("kernel_module_path"@) == 6,
        place("bt_wireless_proxy"@) == 7,
        place("bt_wireless_proxy_mode"@) == 8,
        place("bt_wireless_proxy_hu_mac"@) == 9,
        place("bt_wireless_proxy_pairing_window_secs"@) == 10,
        place("bt_wireless_proxy_phone_like_pairing"@) == 11,
        place("bt_wireless_proxy_phone_like_pairing_alias"@) == 12,
        place("bt_wireless_proxy_phone_like_pairing_class"@) == 13,
{
    reveal(place_of_code);
    reveal_strlit("advertise");
    reveal_strlit("enable_companion_bt");
    reveal_strlit("companion_bt_auth_required");
    reveal_strlit("companion_bt_auth_token");
    reveal_strlit("dongle_mode");
    reveal_strlit("preload_kernel_modules");
    reveal_strlit("kernel_module_path");
    reveal_strlit("bt_wireless_proxy");
    reveal_strlit("bt_wireless_proxy_mode");
    reveal_strlit("bt_wireless_proxy_hu_mac");
    reveal_strlit("bt_wireless_proxy_pairing_window_secs");
    reveal_strlit("bt_wireless_proxy_phone_like_pairing");
    reveal_strlit("bt_wireless_proxy_phone_like_pairing_alias");
    reveal_strlit("bt_wireless_proxy_phone_like_pairing_class");
    assert(key_code("advertise"@) == 2629612777);
    assert(key_code("enable_companion_bt"@) == 5345343455);
    assert(key_code("companion_bt_auth_required"@) == 7190639346);
    assert(key_code("companion_bt_auth_token"@) == 6406615019);
    assert(key_code("dongle_mode"@) == 3166271471);
    assert(key_code("preload_kernel_modules"@) == 6148569068);
    assert(key_code("kernel_module_path"@) == 5051592673);
    assert(key_code("bt_wireless_proxy"@) == 4818827375);
    assert(key_code("bt_wireless_proxy_mode"@) == 6118964463);
    assert(key_code("bt_wireless_proxy_hu_mac"@) == 6651917421);
    assert(key_code("bt_wireless_proxy_pairing_window_secs"@) == 10175132901);
    assert(key_code("bt_wireless_proxy_phone_like_pairing"@) == 9881531113);
    assert(key_code("bt_wireless_proxy_phone_like_pairing_alias"@) == 11517277417);
    assert(key_code("bt_wireless_proxy_phone_like_pairing_class"@) == 11517277409);
}

proof fn lemma_part1_places(list: Seq<SettingModel>, c: ConfigModel)
    requires
        in_places(list, 0, c),
    ensures
        in_places(config::with_part1(list, c), 14, c),
{
    lemma_codes1();
    let l0 = list;
    let s0 = config::bool_setting("advertise"@, c.advertise);
    lemma_next_place(l0, s0, 0, c);
    let l1 = l0.push(s0);
    let s1 = config::bool_setting("enable_companion_bt"@, c.enable_companion_bt);
    lemma_next_place(l1, s1, 1, c);
    let l2 = l1.push(s1);
    let s2 = config::bool_setting("companion_bt_auth_required"@, c.companion_bt_auth_required);
    lemma_next_place(l2, s2, 2, c);
    let l3 = l2.push(s2);
    let s3 = config::text_setting("companion_bt_auth_token"@, c.companion_bt_auth_token);
    lemma_next_place(l3, s3, 3, c);
    let l4 = l3.push(s3);
    let s4 = config::bool_setting("dongle_mode"@, c.dongle_mode);
    lemma_next_place(l4, s4, 4, c);
    let l5 = l4.push(s4);
    let s5 = config::text_setting("preload_kernel_modules"@, c.preload_kernel_modules);
    lemma_next_place(l5, s5, 5, c);
    let l6 = l5.push(s5);
    let s6 = config::text_setting("kernel_module_path"@, c.kernel_module_path);
    lemma_next_place(l6, s6, 6, c);
    let l7 = l6.push(s6);
    let s7 = config::bool_setting("bt_wireless_proxy"@, c.bt_wireless_proxy);
    lemma_next_place(l7, s7, 7, c);
    let l8 = l7.push(s7);
    let s8 = config::text_setting("bt_wireless_proxy_mode"@, c.bt_wireless_proxy_mode);
    lemma_next_place(l8, s8, 8, c);
    let l9 = l8.push(s8);
    let s9 = config::text_setting("bt_wireless_proxy_hu_mac"@, c.bt_wireless_proxy_hu_mac);
    lemma_next_place(l9, s9, 9, c);
    let l10 = l9.push(s9);
    let s10 = config::int_setting("bt_wireless_proxy_pairing_window_secs"@, config::wrapped(c.bt_wireless_proxy_pairing_window_secs as int));
    lemma_next_place(l10, s10, 10, c);
    let l11 = l10.push(s10);
    let s11 = config::bool_setting("bt_wireless_proxy_phone_like_pairing"@, c.bt_wireless_proxy_phone_like_pairing);
    lemma_next_place(l11, s11, 11, c);
    let l12 = l11.push(s11);
    let s12 = config::text_setting("bt_wireless_proxy_phone_like_pairing_alias"@, c.bt_wireless_proxy_phone_like_pairing_alias);
    lemma_next_place(l12, s12, 12, c);
    let l13 = l12.push(s12);
    let s13 = config::text_setting("bt_wireless_proxy_phone_like_pairing_class"@, c.bt_wireless_proxy_phone_like_pairing_class);
    lemma_next_place(l13, s13, 13, c);
    let l14 = l13.push(s13);
}

proof fn lemma_codes2()
    ensures
        place("bt_wireless_proxy_phone_like_sdp_profiles"@) == 14,
        place("bt_wireless_proxy_phone_like_sdp_profile_set"@) == 15,
        place("bt_wireless_proxy_rendezvous_mode"@) == 16,
        place("bt_wireless_proxy_hu_first_wait_phone_secs"@) == 17,
        place("bt_wireless_proxy_hu_channel"@) == 18,
        place("bt_wireless_proxy_tcp_probe"@) == 19,
        place("bt_wireless_proxy_car_wifi_base_iface"@) == 20,
        place("bt_wireless_proxy_car_wifi_join_cmd"@) == 21,
        place("bt_wireless_proxy_car_wifi_auto_join"@) == 22,
        place("bt_wireless_proxy_wifi_join_control"@) == 23,
        place("bt_wireless_proxy_wpactrl_socket_timeout_secs"@) == 24,
        place("bt_wireless_proxy_wifi_association_timeout_secs"@) == 25,
        place("bt_wireless_proxy_dhcp_timeout_secs"@) == 26,
        place("bt_wireless_proxy_car_wifi_keep_ap"@) == 27,
{
    reveal(place_of_code);
    reveal_strlit("bt_wireless_proxy_phone_like_sdp_profiles");
    reveal_strlit("bt_wireless_proxy_phone_like_sdp_profile_set");
    reveal_strlit("bt_wireless_proxy_rendezvous_mode");
    reveal_strlit("bt_wireless_proxy_hu_first_wait_phone_secs");
    reveal_strlit("bt_wireless_proxy_hu_channel");
    reveal_strlit("bt_wireless_proxy_tcp_probe");
    reveal_strlit("bt_wireless_proxy_car_wifi_base_iface");
    reveal_strlit("bt_wireless_proxy_car_wifi_join_cmd");
    reveal_strlit("bt_wireless_proxy_car_wifi_auto_join");
    reveal_strlit("bt_wireless_proxy_wifi_join_control");
    reveal_strlit("bt_wireless_proxy_wpactrl_socket_timeout_secs");
    reveal_strlit("bt_wireless_proxy_wifi_association_timeout_secs");
    reveal_strlit("bt_wireless_proxy_dhcp_timeout_secs");
    reveal_strlit("bt_wireless_proxy_car_wifi_keep_ap");
    assert(key_code("bt_wireless_proxy_phone_like_sdp_profiles"@) == 11248857708);
    assert(key_code("bt_wireless_proxy_phone_like_sdp_profile_set"@) == 12056098931);
    assert(key_code("bt_wireless_proxy_rendezvous_mode"@) == 9072180079);
    assert(key_code("bt_wireless_proxy_hu_first_wait_phone_secs"@) == 11517145061);
    assert(key_code("bt_wireless_proxy_hu_channel"@) == 7744516590);
    assert(key_code("bt_wireless_proxy_tcp_probe"@) == 7461451887);
    assert(key_code("bt_wireless_proxy_car_wifi_base_iface"@) == 10145558881);
    assert(key_code("bt_wireless_proxy_car_wifi_join_cmd"@) == 9606524899);
    assert(key_code("bt_wireless_proxy_car_wifi_auto_join"@) == 9895997679);
    assert(key_code("bt_wireless_proxy_wifi_join_control"@) == 9623304050);
    assert(key_code("bt_wireless_proxy_wpactrl_socket_timeout_secs"@) == 12322683493);
    assert(key_code("bt_wireless_proxy_wifi_association_timeout_secs"@) == 12859243109);
    assert(key_code("bt_wireless_proxy_dhcp_timeout_secs"@) == 9637982949);
    assert(key_code("bt_wireless_proxy_car_wifi_keep_ap"@) == 9363256543);
}

proof fn lemma_part2_places(list: Seq<SettingModel>, c: ConfigModel)
    requires
        in_places(list, 14, c),
    ensures
        in_places(config::with_part2(list, c), 28, c),
{
    lemma_codes2();
    let l0 = list;
    let s0 = config::bool_setting("bt_wireless_proxy_phone_like_sdp_profiles"@, c.bt_wireless_proxy_phone_like_sdp_profiles);
    lemma_next_place(l0, s0, 14, c);
    let l1 = l0.push(s0);
    let s1 = config::text_setting("bt_wireless_proxy_phone_like_sdp_profile_set"@, c.bt_wireless_proxy_phone_like_sdp_profile_set);
    lemma_next_place(l1, s1, 15, c);
    let l2 = l1.push(s1);
    let s2 = config::text_setting("bt_wireless_proxy_rendezvous_mode"@, c.bt_wireless_proxy_rendezvous_mode);
    lemma_next_place(l2, s2, 16, c);
    let l3 = l2.push(s2);
    let s3 = config::int_setting("bt_wireless_proxy_hu_first_wait_phone_secs"@, config::wrapped(c.bt_wireless_proxy_hu_first_wait_phone_secs as int));
    lemma_next_place(l3, s3, 17, c);
    let l4 = l3.push(s3);
    let s4 = config::int_setting("bt_wireless_proxy_hu_channel"@, (match c.bt_wireless_proxy_hu_channel { Some(x) => x as i64, None => 0 }));
    lemma_next_place(l4, s4, 18, c);
    let l5 = l4.push(s4);
    let s5 = config::bool_setting("bt_wireless_proxy_tcp_probe"@, c.bt_wireless_proxy_tcp_probe);
    lemma_next_place(l5, s5, 19, c);
    let l6 = l5.push(s5);
    let s6 = config::text_setting("bt_wireless_proxy_car_wifi_base_iface"@, c.bt_wireless_proxy_car_wifi_base_iface);
    lemma_next_place(l6, s6, 20, c);
    let l7 = l6.push(s6);
    let s7 = config::text_setting("bt_wireless_proxy_car_wifi_join_cmd"@, c.bt_wireless_proxy_car_wifi_join_cmd);
    lemma_next_place(l7, s7, 21, c);
    let l8 = l7.push(s7);
    let s8 = config::bool_setting("bt_wireless_proxy_car_wifi_auto_join"@, c.bt_wireless_proxy_car_wifi_auto_join);
    lemma_next_place(l8, s8, 22, c);
    let l9 = l8.push(s8);
    let s9 = config::text_setting("bt_wireless_proxy_wifi_join_control"@, c.bt_wireless_proxy_wifi_join_control);
    lemma_next_place(l9, s9, 23, c);
    let l10 = l9.push(s9);
    let s10 = config::int_setting("bt_wireless_proxy_wpactrl_socket_timeout_secs"@, config::wrapped(c.bt_wireless_proxy_wpactrl_socket_timeout_secs as int));
    lemma_next_place(l10, s10, 24, c);
    let l11 = l10.push(s10);
    let s11 = config::int_setting("bt_wireless_proxy_wifi_association_timeout_secs"@, config::wrapped(c.bt_wireless_proxy_wifi_association_timeout_secs as int));
    lemma_next_place(l11, s11, 25, c);
    let l12 = l11.push(s11);
    let s12 = config::int_setting("bt_wireless_proxy_dhcp_timeout_secs"@, config::wrapped(c.bt_wireless_proxy_dhcp_timeout_secs as int));
    lemma_next_place(l12, s12, 26, c);
    let l13 = l12.push(s12);
    let s13 = config::bool_setting("bt_wireless_proxy_car_wifi_keep_ap"@, c.bt_wireless_proxy_car_wifi_keep_ap);
    lemma_next_place(l13, s13, 27, c);
    let l14 = l13.push(s13);
}

proof fn lemma_codes3()
    ensures
        place("bt_wireless_proxy_car_wifi_sta_iface"@) == 28,
        place("bt_wireless_proxy_car_wifi_sta_phy"@) == 29,
        place("bt_wireless_proxy_car_wifi_ap_iface"@) == 30,
        place("bt_wireless_proxy_phone_wifi_mode"@) == 31,
        place("bt_wireless_proxy_rewrite_ip"@) == 32,
        place("bt_wireless_proxy_listen_port"@) == 33,
        place("bt_wireless_proxy_use_version_projection_fallback"@) == 34,
        place("bt_wireless_proxy_wpp_keepalive"@) == 35,
        place("bt_wireless_proxy_wpp_keepalive_interval_ms"@) == 36,
        place("debug"@) == 37,
        place("pkt_debug"@) == 38,
        place("hexdump_level"@) == 39,
        place("disable_console_debug"@) == 40,
        place("pkt_debug_filter_enabled"@) == 41,
{
    reveal(place_of_code);
    reveal_strlit("bt_wireless_proxy_car_wifi_sta_iface");
    reveal_strlit("bt_wireless_proxy_car_wifi_sta_phy");
    reveal_strlit("bt_wireless_proxy_car_wifi_ap_iface");
    reveal_strlit("bt_wireless_proxy_phone_wifi_mode");
    reveal_strlit("bt_wireless_proxy_rewrite_ip");
    reveal_strlit("bt_wireless_proxy_listen_port");
    reveal_strlit("bt_wireless_proxy_use_version_projection_fallback");
    reveal_strlit("bt_wireless_proxy_wpp_keepalive");
    reveal_strlit("bt_wireless_proxy_wpp_keepalive_interval_ms");
    reveal_strlit("debug");
    reveal_strlit("pkt_debug");
    reveal_strlit("hexdump_level");
    reveal_strlit("disable_console_debug");
    reveal_strlit("pkt_debug_filter_enabled");
    assert(key_code("bt_wireless_proxy_car_wifi_sta_iface"@) == 9877125601);
    assert(key_code("bt_wireless_proxy_car_wifi_sta_phy"@) == 9382130928);
    assert(key_code("bt_wireless_proxy_car_wifi_ap_iface"@) == 9608622049);
    assert(key_code("bt_wireless_proxy_phone_wifi_mode"@) == 9072180207);
    assert(key_code("bt_wireless_proxy_rewrite_ip"@) == 7752907103);
    assert(key_code("bt_wireless_proxy_listen_port"@) == 8029731439);
    assert(key_code("bt_wireless_proxy_use_version_projection_fallback"@) == 13379615329);
    assert(key_code("bt_wireless_proxy_wpp_keepalive"@) == 8535290601);
    assert(key_code("bt_wireless_proxy_wpp_keepalive_interval_ms"@) == 11785467103);
    assert(key_code("debug"@) == 1559804642);
    assert(key_code("pkt_debug"@) == 2633576802);
    assert(key_code("hexdump_level"@) == 3718001398);
    assert(key_code("disable_console_debug"@) == 5854965730);
    assert(key_code("pkt_debug_filter_enabled"@) == 6653949804);
}

proof fn lemma_part3_places(list: Seq<SettingModel>, c: ConfigModel)
    requires
        in_places(list, 28, c),
    ensures
        in_places(config::with_part3(list, c), 42, c),
{
    lemma_codes3();
    let l0 = list;
    let s0 = config::text_setting("bt_wireless_proxy_car_wifi_sta_iface"@, c.bt_wireless_proxy_car_wifi_sta_iface);
    lemma_next_place(l0, s0, 28, c);
    let l1 = l0.push(s0);
    let s1 = config::text_setting("bt_wireless_proxy_car_wifi_sta_phy"@, c.bt_wireless_proxy_car_wifi_sta_phy);
    lemma_next_place(l1, s1, 29, c);
    let l2 = l1.push(s1);
    let s2 = config::text_setting("bt_wireless_proxy_car_wifi_ap_iface"@, c.bt_wireless_proxy_car_wifi_ap_iface);
    lemma_next_place(l2, s2, 30, c);
    let l3 = l2.push(s2);
    let s3 = config::text_setting("bt_wireless_proxy_phone_wifi_mode"@, c.bt_wireless_proxy_phone_wifi_mode);
    lemma_next_place(l3, s3, 31, c);
    let l4 = l3.push(s3);
    let s4 = config::text_setting("bt_wireless_proxy_rewrite_ip"@, c.bt_wireless_proxy_rewrite_ip);
    lemma_next_place(l4, s4, 32, c);
    let l5 = l4.push(s4);
    let s5 = config::int_setting("bt_wireless_proxy_listen_port"@, c.bt_wireless_proxy_listen_port as i64);
    lemma_next_place(l5, s5, 33, c);
    let l6 = l5.push(s5);
    let s6 = config::bool_setting("bt_wireless_proxy_use_version_projection_fallback"@, c.bt_wireless_proxy_use_version_projection_fallback);
    lemma_next_place(l6, s6, 34, c);
    let l7 = l6.push(s6);
    let s7 = config::bool_setting("bt_wireless_proxy_wpp_keepalive"@, c.bt_wireless_proxy_wpp_keepalive);
    lemma_next_place(l7, s7, 35, c);
    let l8 = l7.push(s7);
    let s8 = config::int_setting("bt_wireless_proxy_wpp_keepalive_interval_ms"@, config::wrapped(c.bt_wireless_proxy_wpp_keepalive_interval_ms as int));
    lemma_next_place(l8, s8, 36, c);
    let l9 = l8.push(s8);
    let s9 = config::bool_setting("debug"@, c.debug);
    lemma_next_place(l9, s9, 37, c);
    let l10 = l9.push(s9);
    let s10 = config::bool_setting("pkt_debug"@, c.pkt_debug);
    lemma_next_place(l10, s10, 38, c);
    let l11 = l10.push(s10);
    let s11 = config::text_setting("hexdump_level"@, c.hexdump_level);
    lemma_next_place(l11, s11, 39, c);
    let l12 = l11.push(s11);
    let s12 = config::bool_setting("disable_console_debug"@, c.disable_console_debug);
    lemma_next_place(l12, s12, 40, c);
    let l13 = l12.push(s12);
    let s13 = config::bool_setting("pkt_debug_filter_enabled"@, c.pkt_debug_filter_enabled);
    lemma_next_place(l13, s13, 41, c);
    let l14 = l13.push(s13);
}

proof fn lemma_codes4()
    ensures
        place("pkt_debug_filter_proxy"@) == 42,
        place("pkt_debug_filter_stages"@) == 43,
        place("pkt_debug_filter_service_kinds"@) == 44,
        place("pkt_debug_filter_channels"@) == 45,
        place("pkt_debug_filter_exclude_channels"@) == 46,
        place("pkt_debug_filter_message_ids"@) == 47,
        place("pkt_debug_filter_exclude_message_ids"@) == 48,
        place("pkt_debug_filter_pretty_proto"@) == 49,
        place("pkt_debug_filter_max_payload_bytes"@) == 50,
        place("pkt_debug_full_frame_enabled"@) == 51,
        place("legacy"@) == 52,
        place("usb_gadget_require_accessory_start"@) == 53,
        place("usb_gadget_rearm_on_disconnect"@) == 54,
        place("usb_gadget_rearm_cooldown_ms"@) == 55,
{
    reveal(place_of_code);
    reveal_strlit("pkt_debug_filter_proxy");
    reveal_strlit("pkt_debug_filter_stages");
    reveal_strlit("pkt_debug_filter_service_kinds");
    reveal_strlit("pkt_debug_filter_channels");
    reveal_strlit("pkt_debug_filter_exclude_channels");
    reveal_strlit("pkt_debug_filter_message_ids");
    reveal_strlit("pkt_debug_filter_exclude_message_ids");
    reveal_strlit("pkt_debug_filter_pretty_proto");
    reveal_strlit("pkt_debug_filter_max_payload_bytes");
    reveal_strlit("pkt_debug_full_frame_enabled");
    reveal_strlit("legacy");
    reveal_strlit("usb_gadget_require_accessory_start");
    reveal_strlit("usb_gadget_rearm_on_disconnect");
    reveal_strlit("usb_gadget_rearm_cooldown_ms");
    assert(key_code("pkt_debug_filter_proxy"@) == 6161068015);
    assert(key_code("pkt_debug_filter_stages"@) == 6416923111);
    assert(key_code("pkt_debug_filter_service_kinds"@) == 8296116718);
    assert(key_code("pkt_debug_filter_channels"@) == 6953841765);
    assert(key_code("pkt_debug_filter_exclude_channels"@) == 9101111269);
    assert(key_code("pkt_debug_filter_message_ids"@) == 7759032553);
    assert(key_code("pkt_debug_filter_exclude_message_ids"@) == 9906829801);
    assert(key_code("pkt_debug_filter_pretty_proto"@) == 8019081839);
    assert(key_code("pkt_debug_filter_max_payload_bytes"@) == 9369778164);
    assert(key_code("pkt_debug_full_frame_enabled"@) == 7727477484);
    assert(key_code("legacy"@) == 1865970145);
    assert(key_code("usb_gadget_require_accessory_start"@) == 9371744225);
    assert(key_code("usb_gadget_rearm_on_disconnect"@) == 8298133989);
    assert(key_code("usb_gadget_rearm_cooldown_ms"@) == 7759245919);
}

proof fn lemma_part4_places(list: Seq<SettingModel>, c: ConfigModel)
    requires
        in_places(list, 42, c),
    ensures
        in_places(config::with_part4(list, c), 56, c),
{
    lemma_codes4();
    let l0 = list;
    let s0 = config::text_setting("pkt_debug_filter_proxy"@, c.pkt_debug_filter_proxy);
    lemma_next_place(l0, s0, 42, c);
    let l1 = l0.push(s0);
    let s1 = config::text_setting("pkt_debug_filter_stages"@, c.pkt_debug_filter_stages);
    lemma_next_place(l1, s1, 43, c);
    let l2 = l1.push(s1);
    let s2 = config::text_setting("pkt_debug_filter_service_kinds"@, c.pkt_debug_filter_service_kinds);
    lemma_next_place(l2, s2, 44, c);
    let l3 = l2.push(s2);
    let s3 = config::text_setting("pkt_debug_filter_channels"@, c.pkt_debug_filter_channels);
    lemma_next_place(l3, s3, 45, c);
    let l4 = l3.push(s3);
    let s4 = config::text_setting("pkt_debug_filter_exclude_channels"@, c.pkt_debug_filter_exclude_channels);
    lemma_next_place(l4, s4, 46, c);
    let l5 = l4.push(s4);
    let s5 = config::text_setting("pkt_debug_filter_message_ids"@, c.pkt_debug_filter_message_ids);
    lemma_next_place(l5, s5, 47, c);
    let l6 = l5.push(s5);
    let s6 = config::text_setting("pkt_debug_filter_exclude_message_ids"@, c.pkt_debug_filter_exclude_message_ids);
    lemma_next_place(l6, s6, 48, c);
    let l7 = l6.push(s6);
    let s7 = config::bool_setting("pkt_debug_filter_pretty_proto"@, c.pkt_debug_filter_pretty_proto);
    lemma_next_place(l7, s7, 49, c);
    let l8 = l7.push(s7);
    let s8 = config::int_setting("pkt_debug_filter_max_payload_bytes"@, config::wrapped(c.pkt_debug_filter_max_payload_bytes as int));
    lemma_next_place(l8, s8, 50, c);
    let l9 = l8.push(s8);
    let s9 = config::bool_setting("pkt_debug_full_frame_enabled"@, c.pkt_debug_full_frame_enabled);
    lemma_next_place(l9, s9, 51, c);
    let l10 = l9.push(s9);
    let s10 = config::bool_setting("legacy"@, c.legacy);
    lemma_next_place(l10, s10, 52, c);
    let l11 = l10.push(s10);
    let s11 = config::bool_setting("usb_gadget_require_accessory_start"@, c.usb_gadget_require_accessory_start);
    lemma_next_place(l11, s11, 53, c);
    let l12 = l11.push(s11);
    let s12 = config::bool_setting("usb_gadget_rearm_on_disconnect"@, c.usb_gadget_rearm_on_disconnect);
    lemma_next_place(l12, s12, 54, c);
    let l13 = l12.push(s12);
    let s13 = config::int_setting("usb_gadget_rearm_cooldown_ms"@, config::wrapped(c.usb_gadget_rearm_cooldown_ms as int));
    lemma_next_place(l13, s13, 55, c);
    let l14 = l13.push(s13);
}

proof fn lemma_codes5()
    ensures
        place("quick_reconnect"@) == 56,
        place("bt_poweroff"@) == 57,
        place("connect"@) == 58,
        place("logfile"@) == 59,
        place("crash_handler_enabled"@) == 60,
        place("crash_dir"@) == 61,
        place("sdr_ui_override_enabled"@) == 62,
        place("sdr_ui_override_autocreate_profiles"@) == 63,
        place("sdr_ui_override_file"@) == 64,
        place("inject_displays_file"@) == 65,
        place("stats_interval"@) == 66,
{
    reveal(place_of_code);
    reveal_strlit("quick_reconnect");
    reveal_strlit("bt_poweroff");
    reveal_strlit("connect");
    reveal_strlit("logfile");
    reveal_strlit("crash_handler_enabled");
    reveal_strlit("crash_dir");
    reveal_strlit("sdr_ui_override_enabled");
    reveal_strlit("sdr_ui_override_autocreate_profiles");
    reveal_strlit("sdr_ui_override_file");
    reveal_strlit("inject_displays_file");
    reveal_strlit("stats_interval");
    assert(key_code("quick_reconnect"@) == 4271470437);
    assert(key_code("bt_poweroff"@) == 3168663535);
    assert(key_code("connect"@) == 2124132837);
    assert(key_code("logfile"@) == 2092545641);
    assert(key_code("crash_handler_enabled"@) == 5848643436);
    assert(key_code("crash_dir"@) == 2656711268);
    assert(key_code("sdr_ui_override_enabled"@) == 6385612652);
    assert(key_code("sdr_ui_override_autocreate_profiles"@) == 9638342636);
    assert(key_code("sdr_ui_override_file"@) == 5582401513);
    assert(key_code("inject_displays_file"@) == 5582368745);
    assert(key_code("stats_interval"@) == 3986405750);
}

proof fn lemma_part5_places(list: Seq<SettingModel>, c: ConfigModel)
    requires
        in_places(list, 56, c),
    ensures
        in_places(config::with_part5(list, c), 67, c),
{
    lemma_codes5();
    let l0 = list;
    let s0 = config::bool_setting("quick_reconnect"@, c.quick_reconnect);
    lemma_next_place(l0, s0, 56, c);
    let l1 = l0.push(s0);
    let s1 = config::bool_setting("bt_poweroff"@, c.bt_poweroff);
    lemma_next_place(l1, s1, 57, c);
    let l2 = l1.push(s1);
    let s2 = config::text_setting("connect"@, c.connect);
    lemma_next_place(l2, s2, 58, c);
    let l3 = l2.push(s2);
    let s3 = config::text_setting("logfile"@, c.logfile);
    lemma_next_place(l3, s3, 59, c);
    let l4 = l3.push(s3);
    let s4 = config::bool_setting("crash_handler_enabled"@, c.crash_handler_enabled);
    lemma_next_place(l4, s4, 60, c);
    let l5 = l4.push(s4);
    let s5 = config::text_setting("crash_dir"@, c.crash_dir);
    lemma_next_place(l5, s5, 61, c);
    let l6 = l5.push(s5);
    let s6 = config::bool_setting("sdr_ui_override_enabled"@, c.sdr_ui_override_enabled);
    lemma_next_place(l6, s6, 62, c);
    let l7 = l6.push(s6);
    let s7 = config::bool_setting("sdr_ui_override_autocreate_profiles"@, c.sdr_ui_override_autocreate_profiles);
    lemma_next_place(l7, s7, 63, c);
    let l8 = l7.push(s7);
    let s8 = config::text_setting("sdr_ui_override_file"@, c.sdr_ui_override_file);
    lemma_next_place(l8, s8, 64, c);
    let l9 = l8.push(s8);
    let s9 = config::text_setting("inject_displays_file"@, c.inject_displays_file);
    lemma_next_place(l9, s9, 65, c);
    let l10 = l9.push(s9);
    let s10 = config::int_setting("stats_interval"@, c.stats_interval as i64);
    lemma_next_place(l10, s10, 66, c);
    let l11 = l10.push(s10);
}

proof fn lemma_udc_place(list: Seq<SettingModel>, c: ConfigModel)
    requires
        in_places(list, 67, c),
    ensures
        in_places(config::with_text(list, "udc"@, c.udc), 68, c),
{
    reveal(place_of_code);
    reveal_strlit("udc");
    assert(key_code("udc"@) == 1014575605);
    if let Some(v) = c.udc {
        lemma_next_place(list, config::text_setting("udc"@, v), 67, c);
    }
}

proof fn lemma_codes6()
    ensures
        place("iface"@) == 68,
{
    reveal(place_of_code);
    reveal_strlit("iface");
    assert(key_code("iface"@) == 1555591649);
}

proof fn lemma_part6_places(list: Seq<SettingModel>, c: ConfigModel)
    requires
        in_places(list, 68, c),
    ensures
        in_places(config::with_part6(list, c), 69, c),
{
    lemma_codes6();
    let l0 = list;
    let s0 = config::text_setting("iface"@, c.iface);
    lemma_next_place(l0, s0, 68, c);
    let l1 = l0.push(s0);
}

proof fn lemma_btalias_place(list: Seq<SettingModel>, c: ConfigModel)
    requires
        in_places(list, 69, c),
    ensures
        in_places(config::with_text(list, "btalias"@, c.btalias), 70, c),
{
    reveal(place_of_code);
    reveal_strlit("btalias");
    assert(key_code("btalias"@) == 2122002665);
    if let Some(v) = c.btalias {
        lemma_next_place(list, config::text_setting("btalias"@, v), 69, c);
    }
}

proof fn lemma_codes7()
    ensures
        place("timeout_secs"@) == 70,
{
    reveal(place_of_code);
    reveal_strlit("timeout_secs");
    assert(key_code("timeout_secs"@) == 3464311525);
}

proof fn lemma_part7_places(list: Seq<SettingModel>, c: ConfigModel)
    requires
        in_places(list, 70, c),
    ensures
        in_places(config::with_part7(list, c), 71, c),
{
    lemma_codes7();
    let l0 = list;
    let s0 = config::int_setting("timeout_secs"@, c.timeout_secs as i64);
    lemma_next_place(l0, s0, 70, c);
    let l1 = l0.push(s0);
}

proof fn lemma_webserver_place(list: Seq<SettingModel>, c: ConfigModel)
    requires
        in_places(list, 71, c),
    ensures
        in_places(config::with_text(list, "webserver"@, c.webserver), 72, c),
{
    reveal(place_of_code);
    reveal_strlit("webserver");
    assert(key_code("webserver"@) == 2656664438);
    if let Some(v) = c.webserver {
        lemma_next_place(list, config::text_setting("webserver"@, v), 71, c);
    }
}

proof fn lemma_codes8()
    ensures
        place("bt_timeout_secs"@) == 72,
        place("mitm"@) == 73,
        place("dpi"@) == 74,
        place("audio_max_unacked"@) == 75,
        place("add_vendor_channel"@) == 76,
        place("remove_tap_restriction"@) == 77,
        place("video_in_motion"@) == 78,
        place("disable_media_sink"@) == 79,
        place("disable_tts_sink"@) == 80,
        place("developer_mode"@) == 81,
        place("wired"@) == 82,
        place("dhu"@) == 83,
        place("aa_server_tcp_addr"@) == 84,
        place("ev"@) == 85,
{
    reveal(place_of_code);
    reveal_strlit("bt_timeout_secs");
    reveal_strlit("mitm");
    reveal_strlit("dpi");
    reveal_strlit("audio_max_unacked");
    reveal_strlit("add_vendor_channel");
    reveal_strlit("remove_tap_restriction");
    reveal_strlit("video_in_motion");
    reveal_strlit("disable_media_sink");
    reveal_strlit("disable_tts_sink");
    reveal_strlit("developer_mode");
    reveal_strlit("wired");
    reveal_strlit("dhu");
    reveal_strlit("aa_server_tcp_addr");
    reveal_strlit("ev");
    assert(key_code("bt_timeout_secs"@) == 4269537765);
    assert(key_code("mitm"@) == 1304245993);
    assert(key_code("dpi"@) == 1027355876);
    assert(key_code("audio_max_unacked"@) == 4775096555);
    assert(key_code("add_vendor_channel"@) == 5060210926);
    assert(key_code("remove_tap_restriction"@) == 6138148073);
    assert(key_code("video_in_motion"@) == 4259035753);
    assert(key_code("disable_media_sink"@) == 5057900521);
    assert(key_code("disable_tts_sink"@) == 4521277929);
    assert(key_code("developer_mode"@) == 3971577583);
    assert(key_code("wired"@) == 1553773298);
    assert(key_code("dhu"@) == 1052392164);
    assert(key_code("aa_server_tcp_addr"@) == 5072482276);
    assert(key_code("ev"@) == 786283365);
}

proof fn lemma_part8_places(list: Seq<SettingModel>, c: ConfigModel)
    requires
        in_places(list, 72, c),
    ensures
        in_places(config::with_part8(list, c), 86, c),
{
    lemma_codes8();
    let l0 = list;
    let s0 = config::int_setting("bt_timeout_secs"@, c.bt_timeout_secs as i64);
    lemma_next_place(l0, s0, 72, c);
    let l1 = l0.push(s0);
    let s1 = config::bool_setting("mitm"@, c.mitm);
    lemma_next_place(l1, s1, 73, c);
    let l2 = l1.push(s1);
    let s2 = config::int_setting("dpi"@, c.dpi as i64);
    lemma_next_place(l2, s2, 74, c);
    let l3 = l2.push(s2);
    let s3 = config::int_setting("audio_max_unacked"@, c.audio_max_unacked as i64);
    lemma_next_place(l3, s3, 75, c);
    let l4 = l3.push(s3);
    let s4 = config::bool_setting("add_vendor_channel"@, c.add_vendor_channel);
    lemma_next_place(l4, s4, 76, c);
    let l5 = l4.push(s4);
    let s5 = config::bool_setting("remove_tap_restriction"@, c.remove_tap_restriction);
    lemma_next_place(l5, s5, 77, c);
    let l6 = l5.push(s5);
    let s6 = config::bool_setting("video_in_motion"@, c.video_in_motion);
    lemma_next_place(l6, s6, 78, c);
    let l7 = l6.push(s6);
    let s7 = config::bool_setting("disable_media_sink"@, c.disable_media_sink);
    lemma_next_place(l7, s7, 79, c);
    let l8 = l7.push(s7);
    let s8 = config::bool_setting("disable_tts_sink"@, c.disable_tts_sink);
    lemma_next_place(l8, s8, 80, c);
    let l9 = l8.push(s8);
    let s9 = config::bool_setting("developer_mode"@, c.developer_mode);
    lemma_next_place(l9, s9, 81, c);
    let l10 = l9.push(s9);
    let s10 = config::text_setting("wired"@, config::or_empty(c.wired));
    lemma_next_place(l10, s10, 82, c);
    let l11 = l10.push(s10);
    let s11 = config::bool_setting("dhu"@, c.dhu);
    lemma_next_place(l11, s11, 83, c);
    let l12 = l11.push(s11);
    let s12 = config::text_setting("aa_server_tcp_addr"@, c.aa_server_tcp_addr);
    lemma_next_place(l12, s12, 84, c);
    let l13 = l12.push(s12);
    let s13 = config::bool_setting("ev"@, c.ev);
    lemma_next_place(l13, s13, 85, c);
    let l14 = l13.push(s13);
}

proof fn lemma_codes9()
    ensures
        place("odometer"@) == 86,
        place("tire_pressure"@) == 87,
        place("remove_bluetooth"@) == 88,
        place("bt_real_hu_passthrough_enabled"@) == 89,
        place("bt_real_hu_passthrough_address"@) == 90,
        place("bt_a2dp_sink_enabled"@) == 91,
        place("remove_wifi"@) == 92,
        place("inject_display_types"@) == 93,
        place("inject_add_input_sources"@) == 94,
        place("inject_cluster_display_id"@) == 95,
        place("inject_cluster_width_margin"@) == 96,
        place("inject_cluster_height_margin"@) == 97,
        place("inject_cluster_density"@) == 98,
        place("inject_cluster_viewing_distance"@) == 99,
{
    reveal(place_of_code);
    reveal_strlit("odometer");
    reveal_strlit("tire_pressure");
    reveal_strlit("remove_bluetooth");
    reveal_strlit("bt_real_hu_passthrough_enabled");
    reveal_strlit("bt_real_hu_passthrough_address");
    reveal_strlit("bt_a2dp_sink_enabled");
    reveal_strlit("remove_wifi");
    reveal_strlit("inject_display_types");
    reveal_strlit("inject_add_input_sources");
    reveal_strlit("inject_cluster_display_id");
    reveal_strlit("inject_cluster_width_margin");
    reveal_strlit("inject_cluster_height_margin");
    reveal_strlit("inject_cluster_density");
    reveal_strlit("inject_cluster_viewing_distance");
    assert(key_code("odometer"@) == 2388226804);
    assert(key_code("tire_pressure"@) == 3703355893);
    assert(key_code("remove_bluetooth"@) == 4514854895);
    assert(key_code("bt_real_hu_passthrough_enabled"@) == 8264691692);
    assert(key_code("bt_real_hu_passthrough_address"@) == 8296148965);
    assert(key_code("bt_a2dp_sink_enabled"@) == 5580239084);
    assert(key_code("remove_wifi"@) == 3174659305);
    assert(key_code("inject_display_types"@) == 5611731568);
    assert(key_code("inject_add_input_sources"@) == 6685439971);
    assert(key_code("inject_cluster_display_id"@) == 6922270815);
    assert(key_code("inject_cluster_width_margin"@) == 7480324071);
    assert(key_code("inject_cluster_height_margin"@) == 7748448231);
    assert(key_code("inject_cluster_density"@) == 6161249001);
    assert(key_code("inject_cluster_viewing_distance"@) == 8535257710);
}

proof fn lemma_part9_places(list: Seq<SettingModel>, c: ConfigModel)
    requires
        in_places(list, 86, c),
    ensures
        in_places(config::with_part9(list, c), 100, c),
{
    lemma_codes9();
    let l0 = list;
    let s0 = config::bool_setting("odometer"@, c.odometer);
    lemma_next_place(l0, s0, 86, c);
    let l1 = l0.push(s0);
    let s1 = config::bool_setting("tire_pressure"@, c.tire_pressure);
    lemma_next_place(l1, s1, 87, c);
    let l2 = l1.push(s1);
    let s2 = config::bool_setting("remove_bluetooth"@, c.remove_bluetooth);
    lemma_next_place(l2, s2, 88, c);
    let l3 = l2.push(s2);
    let s3 = config::bool_setting("bt_real_hu_passthrough_enabled"@, c.bt_real_hu_passthrough_enabled);
    lemma_next_place(l3, s3, 89, c);
    let l4 = l3.push(s3);
    let s4 = config::text_setting("bt_real_hu_passthrough_address"@, c.bt_real_hu_passthrough_address);
    lemma_next_place(l4, s4, 90, c);
    let l5 = l4.push(s4);
    let s5 = config::bool_setting("bt_a2dp_sink_enabled"@, c.bt_a2dp_sink_enabled);
    lemma_next_place(l5, s5, 91, c);
    let l6 = l5.push(s5);
    let s6 = config::bool_setting("remove_wifi"@, c.remove_wifi);
    lemma_next_place(l6, s6, 92, c);
    let l7 = l6.push(s6);
    let s7 = config::text_setting("inject_display_types"@, c.inject_display_types);
    lemma_next_place(l7, s7, 93, c);
    let l8 = l7.push(s7);
    let s8 = config::bool_setting("inject_add_input_sources"@, c.inject_add_input_sources);
    lemma_next_place(l8, s8, 94, c);
    let l9 = l8.push(s8);
    let s9 = config::int_setting("inject_cluster_display_id"@, c.inject_cluster_display_id as i64);
    lemma_next_place(l9, s9, 95, c);
    let l10 = l9.push(s9);
    let s10 = config::int_setting("inject_cluster_width_margin"@, c.inject_cluster_width_margin as i64);
    lemma_next_place(l10, s10, 96, c);
    let l11 = l10.push(s10);
    let s11 = config::int_setting("inject_cluster_height_margin"@, c.inject_cluster_height_margin as i64);
    lemma_next_place(l11, s11, 97, c);
    let l12 = l11.push(s11);
    let s12 = config::int_setting("inject_cluster_density"@, c.inject_cluster_density as i64);
    lemma_next_place(l12, s12, 98, c);
    let l13 = l12.push(s12);
    let s13 = config::int_setting("inject_cluster_viewing_distance"@, c.inject_cluster_viewing_distance as i64);
    lemma_next_place(l13, s13, 99, c);
    let l14 = l13.push(s13);
}

proof fn lemma_codes10()
    ensures
        place("inject_cluster_codec_resolution"@) == 100,
        place("inject_cluster_touch_width"@) == 101,
        place("inject_cluster_touch_height"@) == 102,
        place("inject_aux_display_id"@) == 103,
        place("inject_aux_width_margin"@) == 104,
        place("inject_aux_height_margin"@) == 105,
        place("inject_aux_density"@) == 106,
        place("inject_aux_viewing_distance"@) == 107,
        place("inject_aux_touch_width"@) == 108,
        place("inject_aux_touch_height"@) == 109,
        place("inject_force_focus_without_tap"@) == 110,
        place("change_usb_order"@) == 111,
        place("stop_on_disconnect"@) == 112,
        place("waze_lht_workaround"@) == 113,
{
    reveal(place_of_code);
    reveal_strlit("inject_cluster_codec_resolution");
    reveal_strlit("inject_cluster_touch_width");
    reveal_strlit("inject_cluster_touch_height");
    reveal_strlit("inject_aux_display_id");
    reveal_strlit("inject_aux_width_margin");
    reveal_strlit("inject_aux_height_margin");
    reveal_strlit("inject_aux_density");
    reveal_strlit("inject_aux_viewing_distance");
    reveal_strlit("inject_aux_touch_width");
    reveal_strlit("inject_aux_touch_height");
    reveal_strlit("inject_force_focus_without_tap");
    reveal_strlit("change_usb_order");
    reveal_strlit("stop_on_disconnect");
    reveal_strlit("waze_lht_workaround");
    assert(key_code("inject_cluster_codec_resolution"@) == 8553822697);
    assert(key_code("inject_cluster_touch_width"@) == 7199306852);
    assert(key_code("inject_cluster_touch_height"@) == 7492906983);
    assert(key_code("inject_aux_display_id"@) == 5848430175);
    assert(key_code("inject_aux_width_margin"@) == 6406665959);
    assert(key_code("inject_aux_height_margin"@) == 6674806503);
    assert(key_code("inject_aux_density"@) == 5087573865);
    assert(key_code("inject_aux_viewing_distance"@) == 7461237998);
    assert(key_code("inject_aux_touch_width"@) == 6125596644);
    assert(key_code("inject_aux_touch_height"@) == 6419199079);
    assert(key_code("inject_force_focus_without_tap"@) == 8289580148);
    assert(key_code("change_usb_order"@) == 4535941476);
    assert(key_code("stop_on_disconnect"@) == 5076842341);
    assert(key_code("waze_lht_workaround"@) == 5311953269);
}

proof fn lemma_part10_places(list: Seq<SettingModel>, c: ConfigModel)
    requires
        in_places(list, 100, c),
    ensures
        in_places(config::with_part10(list, c), 114, c),
{
    lemma_codes10();
    let l0 = list;
    let s0 = config::text_setting("inject_cluster_codec_resolution"@, c.inject_cluster_codec_resolution);
    lemma_next_place(l0, s0, 100, c);
    let l1 = l0.push(s0);
    let s1 = config::int_setting("inject_cluster_touch_width"@, c.inject_cluster_touch_width as i64);
    lemma_next_place(l1, s1, 101, c);
    let l2 = l1.push(s1);
    let s2 = config::int_setting("inject_cluster_touch_height"@, c.inject_cluster_touch_height as i64);
    lemma_next_place(l2, s2, 102, c);
    let l3 = l2.push(s2);
    let s3 = config::int_setting("inject_aux_display_id"@, c.inject_aux_display_id as i64);
    lemma_next_place(l3, s3, 103, c);
    let l4 = l3.push(s3);
    let s4 = config::int_setting("inject_aux_width_margin"@, c.inject_aux_width_margin as i64);
    lemma_next_place(l4, s4, 104, c);
    let l5 = l4.push(s4);
    let s5 = config::int_setting("inject_aux_height_margin"@, c.inject_aux_height_margin as i64);
    lemma_next_place(l5, s5, 105, c);
    let l6 = l5.push(s5);
    let s6 = config::int_setting("inject_aux_density"@, c.inject_aux_density as i64);
    lemma_next_place(l6, s6, 106, c);
    let l7 = l6.push(s6);
    let s7 = config::int_setting("inject_aux_viewing_distance"@, c.inject_aux_viewing_distance as i64);
    lemma_next_place(l7, s7, 107, c);
    let l8 = l7.push(s7);
    let s8 = config::int_setting("inject_aux_touch_width"@, c.inject_aux_touch_width as i64);
    lemma_next_place(l8, s8, 108, c);
    let l9 = l8.push(s8);
    let s9 = config::int_setting("inject_aux_touch_height"@, c.inject_aux_touch_height as i64);
    lemma_next_place(l9, s9, 109, c);
    let l10 = l9.push(s9);
    let s10 = config::bool_setting("inject_force_focus_without_tap"@, c.inject_force_focus_without_tap);
    lemma_next_place(l10, s10, 110, c);
    let l11 = l10.push(s10);
    let s11 = config::bool_setting("change_usb_order"@, c.change_usb_order);
    lemma_next_place(l11, s11, 111, c);
    let l12 = l11.push(s11);
    let s12 = config::bool_setting("stop_on_disconnect"@, c.stop_on_disconnect);
    lemma_next_place(l12, s12, 112, c);
    let l13 = l12.push(s12);
    let s13 = config::bool_setting("waze_lht_workaround"@, c.waze_lht_workaround);
    lemma_next_place(l13, s13, 113, c);
    let l14 = l13.push(s13);
}

proof fn lemma_ev_battery_logger_place(list: Seq<SettingModel>, c: ConfigModel)
    requires
        in_places(list, 114, c),
    ensures
        in_places(config::with_text(list, "ev_battery_logger"@, c.ev_battery_logger), 115, c),
{
    reveal(place_of_code);
    reveal_strlit("ev_battery_logger");
    assert(key_code("ev_battery_logger"@) == 4804360167);
    if let Some(v) = c.ev_battery_logger {
        lemma_next_place(list, config::text_setting("ev_battery_logger"@, v), 114, c);
    }
}

proof fn lemma_codes11()
    ensures
        place("ev_connector_types"@) == 115,
        place("enable_ssh"@) == 116,
        place("usb_serial_console"@) == 117,
        place("wifi_version"@) == 118,
        place("band"@) == 119,
        place("country_code"@) == 120,
        place("channel"@) == 121,
        place("ssid"@) == 122,
        place("wpa_passphrase"@) == 123,
        place("eth_mode"@) == 124,
        place("startup_delay"@) == 125,
        place("protocol_version_override_enabled"@) == 126,
        place("protocol_version_override_major"@) == 127,
        place("protocol_version_override_minor"@) == 128,
{
    reveal(place_of_code);
    reveal_strlit("ev_connector_types");
    reveal_strlit("enable_ssh");
    reveal_strlit("usb_serial_console");
    reveal_strlit("wifi_version");
    reveal_strlit("band");
    reveal_strlit("country_code");
    reveal_strlit("channel");
    reveal_strlit("ssid");
    reveal_strlit("wpa_passphrase");
    reveal_strlit("eth_mode");
    reveal_strlit("startup_delay");
    reveal_strlit("protocol_version_override_enabled");
    reveal_strlit("protocol_version_override_major");
    reveal_strlit("protocol_version_override_minor");
    assert(key_code("ev_connector_types"@) == 5074926192);
    assert(key_code("enable_ssh"@) == 2904127987);
    assert(key_code("usb_serial_console"@) == 5045434223);
    assert(key_code("wifi_version"@) == 3453580521);
    assert(key_code("band"@) == 1285272161);
    assert(key_code("country_code"@) == 3435034607);
    assert(key_code("channel"@) == 2107355886);
    assert(key_code("ssid"@) == 1285190259);
    assert(key_code("wpa_passphrase"@) == 3971807585);
    assert(key_code("eth_mode"@) == 2361094767);
    assert(key_code("startup_delay"@) == 3745264364);
    assert(key_code("protocol_version_override_enabled"@) == 9069654764);
    assert(key_code("protocol_version_override_major"@) == 8562389610);
    assert(key_code("protocol_version_override_minor"@) == 8562389614);
}

proof fn lemma_part11_places(list: Seq<SettingModel>, c: ConfigModel)
    requires
        in_places(list, 115, c),
    ensures
        in_places(config::with_part11(list, c), 129, c),
{
    lemma_codes11();
    let l0 = list;
    let s0 = config::text_setting("ev_connector_types"@, c.ev_connector_types);
    lemma_next_place(l0, s0, 115, c);
    let l1 = l0.push(s0);
    let s1 = config::bool_setting("enable_ssh"@, c.enable_ssh);
    lemma_next_place(l1, s1, 116, c);
    let l2 = l1.push(s1);
    let s2 = config::bool_setting("usb_serial_console"@, c.usb_serial_console);
    lemma_next_place(l2, s2, 117, c);
    let l3 = l2.push(s2);
    let s3 = config::int_setting("wifi_version"@, c.wifi_version as i64);
    lemma_next_place(l3, s3, 118, c);
    let l4 = l3.push(s3);
    let s4 = config::text_setting("band"@, c.band);
    lemma_next_place(l4, s4, 119, c);
    let l5 = l4.push(s4);
    let s5 = config::text_setting("country_code"@, c.country_code);
    lemma_next_place(l5, s5, 120, c);
    let l6 = l5.push(s5);
    let s6 = config::int_setting("channel"@, c.channel as i64);
    lemma_next_place(l6, s6, 121, c);
    let l7 = l6.push(s6);
    let s7 = config::text_setting("ssid"@, c.ssid);
    lemma_next_place(l7, s7, 122, c);
    let l8 = l7.push(s7);
    let s8 = config::text_setting("wpa_passphrase"@, c.wpa_passphrase);
    lemma_next_place(l8, s8, 123, c);
    let l9 = l8.push(s8);
    let s9 = config::text_setting("eth_mode"@, c.eth_mode);
    lemma_next_place(l9, s9, 124, c);
    let l10 = l9.push(s9);
    let s10 = config::int_setting("startup_delay"@, c.startup_delay as i64);
    lemma_next_place(l10, s10, 125, c);
    let l11 = l10.push(s10);
    let s11 = config::bool_setting("protocol_version_override_enabled"@, c.protocol_version_override_enabled);
    lemma_next_place(l11, s11, 126, c);
    let l12 = l11.push(s11);
    let s12 = config::int_setting("protocol_version_override_major"@, c.protocol_version_override_major as i64);
    lemma_next_place(l12, s12, 127, c);
    let l13 = l12.push(s12);
    let s13 = config::int_setting("protocol_version_override_minor"@, c.protocol_version_override_minor as i64);
    lemma_next_place(l13, s13, 128, c);
    let l14 = l13.push(s13);
}

proof fn lemma_codes12()
    ensures
        place("external_antenna"@) == 129,
{
    reveal(place_of_code);
    reveal_strlit("external_antenna");
    assert(key_code("external_antenna"@) == 4499960558);
}

proof fn lemma_part12_places(list: Seq<SettingModel>, c: ConfigModel)
    requires
        in_places(list, 129, c),
    ensures
        in_places(config::with_part12(list, c), 130, c),
{
    lemma_codes12();
    let l0 = list;
    let s0 = config::bool_setting("external_antenna"@, c.external_antenna);
    lemma_next_place(l0, s0, 129, c);
    let l1 = l0.push(s0);
}

proof fn lemma_media_dump_base_port_place(list: Seq<SettingModel>, c: ConfigModel)
    requires
        in_places(list, 130, c),
    ensures
        in_places(config::with_port(list, "media_dump_base_port"@, c.media_dump_base_port), 131, c),
{
    reveal(place_of_code);
    reveal_strlit("media_dump_base_port");
    assert(key_code("media_dump_base_port"@) == 5613547503);
    if let Some(v) = c.media_dump_base_port {
        lemma_next_place(list, config::int_setting("media_dump_base_port"@, v as i64), 130, c);
    }
}

proof fn lemma_codes13()
    ensures
        place("media_wait_for_live_idr"@) == 131,
        place("map_album_art_enabled"@) == 132,
        place("map_album_art_source"@) == 133,
        place("map_album_art_file"@) == 134,
        place("map_album_art_max_bytes"@) == 135,
        place("map_album_art_chunk_bytes"@) == 136,
        place("map_album_art_video_display_id"@) == 137,
        place("map_album_art_capture_interval_ms"@) == 138,
        place("map_album_art_output_size_px"@) == 139,
        place("map_album_art_crop_enabled"@) == 140,
        place("map_album_art_crop_mode"@) == 141,
        place("map_album_art_crop_x"@) == 142,
        place("map_album_art_crop_y"@) == 143,
        place("map_album_art_crop_w"@) == 144,
{
    reveal(place_of_code);
    reveal_strlit("media_wait_for_live_idr");
    reveal_strlit("map_album_art_enabled");
    reveal_strlit("map_album_art_source");
    reveal_strlit("map_album_art_file");
    reveal_strlit("map_album_art_max_bytes");
    reveal_strlit("map_album_art_chunk_bytes");
    reveal_strlit("map_album_art_video_display_id");
    reveal_strlit("map_album_art_capture_interval_ms");
    reveal_strlit("map_album_art_output_size_px");
    reveal_strlit("map_album_art_crop_enabled");
    reveal_strlit("map_album_art_crop_mode");
    reveal_strlit("map_album_art_crop_x");
    reveal_strlit("map_album_art_crop_y");
    reveal_strlit("map_album_art_crop_w");
    assert(key_code("media_wait_for_live_idr"@) == 6414777193);
    assert(key_code("map_album_art_enabled"@) == 5848463212);
    assert(key_code("map_album_art_source"@) == 5582125042);
    assert(key_code("map_album_art_file"@) == 5045219305);
    assert(key_code("map_album_art_max_bytes"@) == 6417068020);
    assert(key_code("map_album_art_chunk_bytes"@) == 6953973236);
    assert(key_code("map_album_art_video_display_id"@) == 8264514015);
    assert(key_code("map_album_art_capture_interval_ms"@) == 9101392479);
    assert(key_code("map_album_art_output_size_px"@) == 7769684447);
    assert(key_code("map_album_art_crop_enabled"@) == 7190606572);
    assert(key_code("map_album_art_crop_mode"@) == 6387710063);
    assert(key_code("map_album_art_crop_x"@) == 5621971312);
    assert(key_code("map_album_art_crop_y"@) == 5624068464);
    assert(key_code("map_album_art_crop_w"@) == 5619874160);
}

proof fn lemma_part13_places(list: Seq<SettingModel>, c: ConfigModel)
    requires
        in_places(list, 131, c),
    ensures
        in_places(config::with_part13(list, c), 145, c),
{
    lemma_codes13();
    let l0 = list;
    let s0 = config::bool_setting("media_wait_for_live_idr"@, c.media_wait_for_live_idr);
    lemma_next_place(l0, s0, 131, c);
    let l1 = l0.push(s0);
    let s1 = config::bool_setting("map_album_art_enabled"@, c.map_album_art_enabled);
    lemma_next_place(l1, s1, 132, c);
    let l2 = l1.push(s1);
    let s2 = config::text_setting("map_album_art_source"@, c.map_album_art_source);
    lemma_next_place(l2, s2, 133, c);
    let l3 = l2.push(s2);
    let s3 = config::text_setting("map_album_art_file"@, c.map_album_art_file);
    lemma_next_place(l3, s3, 134, c);
    let l4 = l3.push(s3);
    let s4 = config::int_setting("map_album_art_max_bytes"@, config::wrapped(c.map_album_art_max_bytes as int));
    lemma_next_place(l4, s4, 135, c);
    let l5 = l4.push(s4);
    let s5 = config::int_setting("map_album_art_chunk_bytes"@, config::wrapped(c.map_album_art_chunk_bytes as int));
    lemma_next_place(l5, s5, 136, c);
    let l6 = l5.push(s5);
    let s6 = config::text_setting("map_album_art_video_display_id"@, c.map_album_art_video_display_id);
    lemma_next_place(l6, s6, 137, c);
    let l7 = l6.push(s6);
    let s7 = config::int_setting("map_album_art_capture_interval_ms"@, config::wrapped(c.map_album_art_capture_interval_ms as int));
    lemma_next_place(l7, s7, 138, c);
    let l8 = l7.push(s7);
    let s8 = config::int_setting("map_album_art_output_size_px"@, c.map_album_art_output_size_px as i64);
    lemma_next_place(l8, s8, 139, c);
    let l9 = l8.push(s8);
    let s9 = config::bool_setting("map_album_art_crop_enabled"@, c.map_album_art_crop_enabled);
    lemma_next_place(l9, s9, 140, c);
    let l10 = l9.push(s9);
    let s10 = config::text_setting("map_album_art_crop_mode"@, c.map_album_art_crop_mode);
    lemma_next_place(l10, s10, 141, c);
    let l11 = l10.push(s10);
    let s11 = config::int_setting("map_album_art_crop_x"@, c.map_album_art_crop_x as i64);
    lemma_next_place(l11, s11, 142, c);
    let l12 = l11.push(s11);
    let s12 = config::int_setting("map_album_art_crop_y"@, c.map_album_art_crop_y as i64);
    lemma_next_place(l12, s12, 143, c);
    let l13 = l12.push(s12);
    let s13 = config::int_setting("map_album_art_crop_w"@, c.map_album_art_crop_w as i64);
    lemma_next_place(l13, s13, 144, c);
    let l14 = l13.push(s13);
}

proof fn lemma_codes14()
    ensures
        place("map_album_art_crop_h"@) == 145,
        place("map_album_art_duration_tick_enabled"@) == 146,
        place("map_album_art_ev_text_mode"@) == 147,
        place("map_album_art_ev_prefix_max_age_ms"@) == 148,
        place("vehicle_energy_forecast_keep_last_on_null"@) == 149,
        place("collect_speed"@) == 150,
        place("disable_driving_status"@) == 151,
{
    reveal(place_of_code);
    reveal_strlit("map_album_art_crop_h");
    reveal_strlit("map_album_art_duration_tick_enabled");
    reveal_strlit("map_album_art_ev_text_mode");
    reveal_strlit("map_album_art_ev_prefix_max_age_ms");
    reveal_strlit("vehicle_energy_forecast_keep_last_on_null");
    reveal_strlit("collect_speed");
    reveal_strlit("disable_driving_status");
    assert(key_code("map_album_art_crop_h"@) == 5588416880);
    assert(key_code("map_album_art_duration_tick_enabled"@) == 9606559212);
    assert(key_code("map_album_art_ev_text_mode"@) == 7192706159);
    assert(key_code("map_album_art_ev_prefix_max_age_ms"@) == 9369825503);
    assert(key_code("vehicle_energy_forecast_keep_last_on_null"@) == 11233947893);
    assert(key_code("collect_speed"@) == 3701291109);
    assert(key_code("disable_driving_status"@) == 6148700660);
}

proof fn lemma_part14_places(list: Seq<SettingModel>, c: ConfigModel)
    requires
        in_places(list, 145, c),
    ensures
        in_places(config::with_part14(list, c), 152, c),
{
    lemma_codes14();
    let l0 = list;
    let s0 = config::int_setting("map_album_art_crop_h"@, c.map_album_art_crop_h as i64);
    lemma_next_place(l0, s0, 145, c);
    let l1 = l0.push(s0);
    let s1 = config::bool_setting("map_album_art_duration_tick_enabled"@, c.map_album_art_duration_tick_enabled);
    lemma_next_place(l1, s1, 146, c);
    let l2 = l1.push(s1);
    let s2 = config::text_setting("map_album_art_ev_text_mode"@, c.map_album_art_ev_text_mode);
    lemma_next_place(l2, s2, 147, c);
    let l3 = l2.push(s2);
    let s3 = config::int_setting("map_album_art_ev_prefix_max_age_ms"@, config::wrapped(c.map_album_art_ev_prefix_max_age_ms as int));
    lemma_next_place(l3, s3, 148, c);
    let l4 = l3.push(s3);
    let s4 = config::bool_setting("vehicle_energy_forecast_keep_last_on_null"@, c.vehicle_energy_forecast_keep_last_on_null);
    lemma_next_place(l4, s4, 149, c);
    let l5 = l4.push(s4);
    let s5 = config::bool_setting("collect_speed"@, c.collect_speed);
    lemma_next_place(l5, s5, 150, c);
    let l6 = l5.push(s5);
    let s6 = config::bool_setting("disable_driving_status"@, c.disable_driving_status);
    lemma_next_place(l6, s6, 151, c);
    let l7 = l6.push(s6);
}

proof fn lemma_hu_button_handler_place(list: Seq<SettingModel>, c: ConfigModel)
    requires
        in_places(list, 152, c),
    ensures
        in_places(config::with_text(list, "hu_button_handler"@, c.hu_button_handler), 153, c),
{
    reveal(place_of_code);
    reveal_strlit("hu_button_handler");
    assert(key_code("hu_button_handler"@) == 4804294508);
    if let Some(v) = c.hu_button_handler {
        lemma_next_place(list, config::text_setting("hu_button_handler"@, v), 152, c);
    }
}

proof fn lemma_codes15()
    ensures
        place("bt_sco"@) == 153,
        place("bt_sco_keep_bluetooth_alive"@) == 154,
        place("bt_sco_media_bridge"@) == 155,
        place("bt_sco_media_bridge_audio_type"@) == 156,
        place("bt_sco_media_bridge_gain_percent"@) == 157,
        place("bt_sco_media_bridge_limiter"@) == 158,
        place("bt_sco_media_bridge_resampler"@) == 159,
        place("bt_sco_media_bridge_ring_capacity"@) == 160,
        place("bt_sco_media_bridge_start_existing"@) == 161,
        place("bt_sco_media_bridge_start_on_first_audio"@) == 162,
        place("bt_sco_media_bridge_audio_peak_threshold"@) == 163,
        place("bt_sco_media_bridge_start_timeout_ms"@) == 164,
        place("bt_sco_media_bridge_stop_existing_on_disconnect"@) == 165,
        place("bt_sco_media_bridge_fixed_cadence"@) == 166,
{
    reveal(place_of_code);
    reveal_strlit("bt_sco");
    reveal_strlit("bt_sco_keep_bluetooth_alive");
    reveal_strlit("bt_sco_media_bridge");
    reveal_strlit("bt_sco_media_bridge_audio_type");
    reveal_strlit("bt_sco_media_bridge_gain_percent");
    reveal_strlit("bt_sco_media_bridge_limiter");
    reveal_strlit("bt_sco_media_bridge_resampler");
    reveal_strlit("bt_sco_media_bridge_ring_capacity");
    reveal_strlit("bt_sco_media_bridge_start_existing");
    reveal_strlit("bt_sco_media_bridge_start_on_first_audio");
    reveal_strlit("bt_sco_media_bridge_audio_peak_threshold");
    reveal_strlit("bt_sco_media_bridge_start_timeout_ms");
    reveal_strlit("bt_sco_media_bridge_stop_existing_on_disconnect");
    reveal_strlit("bt_sco_media_bridge_fixed_cadence");
    assert(key_code("bt_sco"@) == 1845293555);
    assert(key_code("bt_sco_keep_bluetooth_alive"@) == 7461352553);
    assert(key_code("bt_sco_media_bridge"@) == 5313739108);
    assert(key_code("bt_sco_media_bridge_audio_type"@) == 8266609273);
    assert(key_code("bt_sco_media_bridge_gain_percent"@) == 8834854885);
    assert(key_code("bt_sco_media_bridge_limiter"@) == 7488452212);
    assert(key_code("bt_sco_media_bridge_resampler"@) == 8025584364);
    assert(key_code("bt_sco_media_bridge_ring_capacity"@) == 9113776105);
    assert(key_code("bt_sco_media_bridge_start_existing"@) == 9344511977);
    assert(key_code("bt_sco_media_bridge_start_on_first_audio"@) == 10972099812);
    assert(key_code("bt_sco_media_bridge_audio_peak_threshold"@) == 10948734959);
    assert(key_code("bt_sco_media_bridge_start_timeout_ms"@) == 9906517215);
    assert(key_code("bt_sco_media_bridge_stop_existing_on_disconnect"@) == 12861585253);
    assert(key_code("bt_sco_media_bridge_fixed_cadence"@) == 9071833710);
}

proof fn lemma_part15_places(list: Seq<SettingModel>, c: ConfigModel)
    requires
        in_places(list, 153, c),
    ensures
        in_places(config::with_part15(list, c), 167, c),
{
    lemma_codes15();
    let l0 = list;
    let s0 = config::bool_setting("bt_sco"@, c.bt_sco);
    lemma_next_place(l0, s0, 153, c);
    let l1 = l0.push(s0);
    let s1 = config::bool_setting("bt_sco_keep_bluetooth_alive"@, c.bt_sco_keep_bluetooth_alive);
    lemma_next_place(l1, s1, 154, c);
    let l2 = l1.push(s1);
    let s2 = config::bool_setting("bt_sco_media_bridge"@, c.bt_sco_media_bridge);
    lemma_next_place(l2, s2, 155, c);
    let l3 = l2.push(s2);
    let s3 = config::text_setting("bt_sco_media_bridge_audio_type"@, c.bt_sco_media_bridge_audio_type.label());
    lemma_next_place(l3, s3, 156, c);
    let l4 = l3.push(s3);
    let s4 = config::int_setting("bt_sco_media_bridge_gain_percent"@, c.bt_sco_media_bridge_gain_percent as i64);
    lemma_next_place(l4, s4, 157, c);
    let l5 = l4.push(s4);
    let s5 = config::text_setting("bt_sco_media_bridge_limiter"@, c.bt_sco_media_bridge_limiter.label());
    lemma_next_place(l5, s5, 158, c);
    let l6 = l5.push(s5);
    let s6 = config::text_setting("bt_sco_media_bridge_resampler"@, c.bt_sco_media_bridge_resampler.label());
    lemma_next_place(l6, s6, 159, c);
    let l7 = l6.push(s6);
    let s7 = config::int_setting("bt_sco_media_bridge_ring_capacity"@, config::wrapped(c.bt_sco_media_bridge_ring_capacity as int));
    lemma_next_place(l7, s7, 160, c);
    let l8 = l7.push(s7);
    let s8 = config::bool_setting("bt_sco_media_bridge_start_existing"@, c.bt_sco_media_bridge_start_existing);
    lemma_next_place(l8, s8, 161, c);
    let l9 = l8.push(s8);
    let s9 = config::bool_setting("bt_sco_media_bridge_start_on_first_audio"@, c.bt_sco_media_bridge_start_on_first_audio);
    lemma_next_place(l9, s9, 162, c);
    let l10 = l9.push(s9);
    let s10 = config::int_setting("bt_sco_media_bridge_audio_peak_threshold"@, c.bt_sco_media_bridge_audio_peak_threshold as i64);
    lemma_next_place(l10, s10, 163, c);
    let l11 = l10.push(s10);
    let s11 = config::int_setting("bt_sco_media_bridge_start_timeout_ms"@, c.bt_sco_media_bridge_start_timeout_ms as i64);
    lemma_next_place(l11, s11, 164, c);
    let l12 = l11.push(s11);
    let s12 = config::bool_setting("bt_sco_media_bridge_stop_existing_on_disconnect"@, c.bt_sco_media_bridge_stop_existing_on_disconnect);
    lemma_next_place(l12, s12, 165, c);
    let l13 = l12.push(s12);
    let s13 = config::bool_setting("bt_sco_media_bridge_fixed_cadence"@, c.bt_sco_media_bridge_fixed_cadence);
    lemma_next_place(l13, s13, 166, c);
    let l14 = l13.push(s13);
}

proof fn lemma_codes16()
    ensures
        place("bt_sco_media_bridge_cadence_ms"@) == 167,
        place("bt_sco_media_bridge_jitter_buffer_ms"@) == 168,
        place("bt_sco_mic_bridge"@) == 169,
        place("bt_sco_mic_request"@) == 170,
        place("bt_sco_mic_uplink_ring_capacity"@) == 171,
        place("bt_sco_mic_echo_control"@) == 172,
        place("bt_sco_mic_gain_percent"@) == 173,
        place("bt_sco_mic_duck_threshold"@) == 174,
        place("bt_sco_mic_duck_percent"@) == 175,
        place("bt_sco_mic_duck_hold_ms"@) == 176,
        place("wasm_hooks_dir"@) == 177,
        place("wasm_script_memory_limit_mb"@) == 178,
        place("wasm_script_instance_limit"@) == 179,
        place("wasm_script_memory_count_limit"@) == 180,
{
    reveal(place_of_code);
    reveal_strlit("bt_sco_media_bridge_cadence_ms");
    reveal_strlit("bt_sco_media_bridge_jitter_buffer_ms");
    reveal_strlit("bt_sco_mic_bridge");
    reveal_strlit("bt_sco_mic_request");
    reveal_strlit("bt_sco_mic_uplink_ring_capacity");
    reveal_strlit("bt_sco_mic_echo_control");
    reveal_strlit("bt_sco_mic_gain_percent");
    reveal_strlit("bt_sco_mic_duck_threshold");
    reveal_strlit("bt_sco_mic_duck_percent");
    reveal_strlit("bt_sco_mic_duck_hold_ms");
    reveal_strlit("wasm_hooks_dir");
    reveal_strlit("wasm_script_memory_limit_mb");
    reveal_strlit("wasm_script_instance_limit");
    reveal_strlit("wasm_script_memory_count_limit");
    assert(key_code("bt_sco_media_bridge_cadence_ms"@) == 8295969375);
    assert(key_code("bt_sco_media_bridge_jitter_buffer_ms"@) == 9906516319);
    assert(key_code("bt_sco_mic_bridge"@) == 4776950116);
    assert(key_code("bt_sco_mic_request"@) == 5076744421);
    assert(key_code("bt_sco_mic_uplink_ring_capacity"@) == 8577069545);
    assert(key_code("bt_sco_mic_echo_control"@) == 6402177010);
    assert(key_code("bt_sco_mic_gain_percent"@) == 6418985701);
    assert(key_code("bt_sco_mic_duck_threshold"@) == 6922533231);
    assert(key_code("bt_sco_mic_duck_percent"@) == 6418936549);
    assert(key_code("bt_sco_mic_duck_hold_ms"@) == 6416840671);
    assert(key_code("wasm_hooks_dir"@) == 3999002596);
    assert(key_code("wasm_script_memory_limit_mb"@) == 7454946527);
    assert(key_code("wasm_script_instance_limit"@) == 7224406765);
    assert(key_code("wasm_script_memory_count_limit"@) == 8298166125);
}

proof fn lemma_part16_places(list: Seq<SettingModel>, c: ConfigModel)
    requires
        in_places(list, 167, c),
    ensures
        in_places(config::with_part16(list, c), 181, c),
{
    lemma_codes16();
    let l0 = list;
    let s0 = config::int_setting("bt_sco_media_bridge_cadence_ms"@, c.bt_sco_media_bridge_cadence_ms as i64);
    lemma_next_place(l0, s0, 167, c);
    let l1 = l0.push(s0);
    let s1 = config::int_setting("bt_sco_media_bridge_jitter_buffer_ms"@, c.bt_sco_media_bridge_jitter_buffer_ms as i64);
    lemma_next_place(l1, s1, 168, c);
    let l2 = l1.push(s1);
    let s2 = config::bool_setting("bt_sco_mic_bridge"@, c.bt_sco_mic_bridge);
    lemma_next_place(l2, s2, 169, c);
    let l3 = l2.push(s2);
    let s3 = config::bool_setting("bt_sco_mic_request"@, c.bt_sco_mic_request);
    lemma_next_place(l3, s3, 170, c);
    let l4 = l3.push(s3);
    let s4 = config::int_setting("bt_sco_mic_uplink_ring_capacity"@, config::wrapped(c.bt_sco_mic_uplink_ring_capacity as int));
    lemma_next_place(l4, s4, 171, c);
    let l5 = l4.push(s4);
    let s5 = config::text_setting("bt_sco_mic_echo_control"@, c.bt_sco_mic_echo_control.label());
    lemma_next_place(l5, s5, 172, c);
    let l6 = l5.push(s5);
    let s6 = config::int_setting("bt_sco_mic_gain_percent"@, c.bt_sco_mic_gain_percent as i64);
    lemma_next_place(l6, s6, 173, c);
    let l7 = l6.push(s6);
    let s7 = config::int_setting("bt_sco_mic_duck_threshold"@, c.bt_sco_mic_duck_threshold as i64);
    lemma_next_place(l7, s7, 174, c);
    let l8 = l7.push(s7);
    let s8 = config::int_setting("bt_sco_mic_duck_percent"@, c.bt_sco_mic_duck_percent as i64);
    lemma_next_place(l8, s8, 175, c);
    let l9 = l8.push(s8);
    let s9 = config::int_setting("bt_sco_mic_duck_hold_ms"@, c.bt_sco_mic_duck_hold_ms as i64);
    lemma_next_place(l9, s9, 176, c);
    let l10 = l9.push(s9);
    let s10 = config::text_setting("wasm_hooks_dir"@, c.wasm_hooks_dir);
    lemma_next_place(l10, s10, 177, c);
    let l11 = l10.push(s10);
    let s11 = config::int_setting("wasm_script_memory_limit_mb"@, c.wasm_script_memory_limit_mb as i64);
    lemma_next_place(l11, s11, 178, c);
    let l12 = l11.push(s11);
    let s12 = config::int_setting("wasm_script_instance_limit"@, c.wasm_script_instance_limit as i64);
    lemma_next_place(l12, s12, 179, c);
    let l13 = l12.push(s12);
    let s13 = config::int_setting("wasm_script_memory_count_limit"@, c.wasm_script_memory_count_limit as i64);
    lemma_next_place(l13, s13, 180, c);
    let l14 = l13.push(s13);
}

proof fn lemma_codes17()
    ensures
        place("wasm_script_table_limit"@) == 181,
        place("wasm_script_table_elements_limit"@) == 182,
        place("wasm_script_packet_epoch_deadline"@) == 183,
        place("wasm_script_lifecycle_epoch_deadline"@) == 184,
{
    reveal(place_of_code);
    reveal_strlit("wasm_script_table_limit");
    reveal_strlit("wasm_script_table_elements_limit");
    reveal_strlit("wasm_script_packet_epoch_deadline");
    reveal_strlit("wasm_script_lifecycle_epoch_deadline");
    assert(key_code("wasm_script_table_limit"@) == 6418853869);
    assert(key_code("wasm_script_table_elements_limit"@) == 8834873965);
    assert(key_code("wasm_script_packet_epoch_deadline"@) == 9071849449);
    assert(key_code("wasm_script_lifecycle_epoch_deadline"@) == 9877123049);
}

proof fn lemma_part17_places(list: Seq<SettingModel>, c: ConfigModel)
    requires
        in_places(list, 181, c),
    ensures
        in_places(config::with_part17(list, c), 185, c),
{
    lemma_codes17();
    let l0 = list;
    let s0 = config::int_setting("wasm_script_table_limit"@, c.wasm_script_table_limit as i64);
    lemma_next_place(l0, s0, 181, c);
    let l1 = l0.push(s0);
    let s1 = config::int_setting("wasm_script_table_elements_limit"@, c.wasm_script_table_elements_limit as i64);
    lemma_next_place(l1, s1, 182, c);
    let l2 = l1.push(s1);
    let s2 = config::int_setting("wasm_script_packet_epoch_deadline"@, config::wrapped(c.wasm_script_packet_epoch_deadline as int));
    lemma_next_place(l2, s2, 183, c);
    let l3 = l2.push(s2);
    let s3 = config::int_setting("wasm_script_lifecycle_epoch_deadline"@, config::wrapped(c.wasm_script_lifecycle_epoch_deadline as int));
    lemma_next_place(l3, s3, 184, c);
    let l4 = l3.push(s3);
}

proof fn lemma_optional_places()
    ensures
        place("wlan_subnet"@) == -1,
        place("udc"@) == 67,
        place("btalias"@) == 69,
        place("webserver"@) == 71,
        place("ev_battery_logger"@) == 114,
        place("media_dump_base_port"@) == 130,
        place("hu_button_handler"@) == 152,
{
    reveal(place_of_code);
    reveal_strlit("wlan_subnet");
    reveal_strlit("udc");
    reveal_strlit("btalias");
    reveal_strlit("webserver");
    reveal_strlit("ev_battery_logger");
    reveal_strlit("media_dump_base_port");
    reveal_strlit("hu_button_handler");
    assert(key_code("wlan_subnet"@) == 3197957998);
    assert(key_code("udc"@) == 1014575605);
    assert(key_code("btalias"@) == 2122002665);
    assert(key_code("webserver"@) == 2656664438);
    assert(key_code("ev_battery_logger"@) == 4804360167);
    assert(key_code("media_dump_base_port"@) == 5613547503);
    assert(key_code("hu_button_handler"@) == 4804294508);
}

proof fn lemma_settings_places(c: ConfigModel)
    ensures
        in_places(config::settings_of(c), 185, c),
{
    reveal(config::settings_of);
    let list = Seq::<SettingModel>::empty();
    lemma_part1_places(list, c);
    let list = config::with_part1(list, c);
    lemma_part2_places(list, c);
    let list = config::with_part2(list, c);
    lemma_part3_places(list, c);
    let list = config::with_part3(list, c);
    lemma_part4_places(list, c);
    let list = config::with_part4(list, c);
    lemma_part5_places(list, c);
    let list = config::with_part5(list, c);
    lemma_udc_place(list, c);
    let list = config::with_text(list, "udc"@, c.udc);
    lemma_part6_places(list, c);
    let list = config::with_part6(list, c);
    lemma_btalias_place(list, c);
    let list = config::with_text(list, "btalias"@, c.btalias);
    lemma_part7_places(list, c);
    let list = config::with_part7(list, c);
    lemma_webserver_place(list, c);
    let list = config::with_text(list, "webserver"@, c.webserver);
    lemma_part8_places(list, c);
    let list = config::with_part8(list, c);
    lemma_part9_places(list, c);
    let list = config::with_part9(list, c);
    lemma_part10_places(list, c);
    let list = config::with_part10(list, c);
    lemma_ev_battery_logger_place(list, c);
    let list = config::with_text(list, "ev_battery_logger"@, c.ev_battery_logger);
    lemma_part11_places(list, c);
    let list = config::with_part11(list, c);
    lemma_part12_places(list, c);
    let list = config::with_part12(list, c);
    lemma_media_dump_base_port_place(list, c);
    let list = config::with_port(list, "media_dump_base_port"@, c.media_dump_base_port);
    lemma_part13_places(list, c);
    let list = config::with_part13(list, c);
    lemma_part14_places(list, c);
    let list = config::with_part14(list, c);
    lemma_hu_button_handler_place(list, c);
    let list = config::with_text(list, "hu_button_handler"@, c.hu_button_handler);
    lemma_part15_places(list, c);
    let list = config::with_part15(list, c);
    lemma_part16_places(list, c);
    let list = config::with_part16(list, c);
    lemma_part17_places(list, c);
    let list = config::with_part17(list, c);
    assert(list == config::settings_of(c));
}

/// No two settings are written under the same key.
pub proof fn law_settings_have_their_own_keys(c: ConfigModel)
    ensures
        forall|i: int, j: int|
            0 <= i < j < config::settings_of(c).len() ==> (#[trigger] config::settings_of(c)[i]).key != (
            #[trigger] config::settings_of(c)[j]).key,
{
    lemma_settings_places(c);
}

proof fn lemma_not_written(c: ConfigModel, key: Seq<char>)
    requires
        !is_written(c, place(key)),
    ensures
        !config::is_setting_key(config::settings_of(c), key),
{
    lemma_settings_places(c);
    let list = config::settings_of(c);
    assert forall|j: int| 0 <= j < list.len() implies (#[trigger] list[j]).key != key by {
        assert(is_written(c, place(list[j].key)));
    }
}

/// What is not set is not written, nor is the network of the access point.
pub proof fn law_unset_settings_are_not_written(c: ConfigModel)
    ensures
        !config::is_setting_key(config::settings_of(c), "wlan_subnet"@),
        c.udc is None ==> !config::is_setting_key(config::settings_of(c), "udc"@),
        c.btalias is None ==> !config::is_setting_key(config::settings_of(c), "btalias"@),
        c.webserver is None ==> !config::is_setting_key(config::settings_of(c), "webserver"@),
        c.ev_battery_logger is None ==> !config::is_setting_key(config::settings_of(c), "ev_battery_logger"@),
        c.media_dump_base_port is None ==> !config::is_setting_key(config::settings_of(c), "media_dump_base_port"@),
        c.hu_button_handler is None ==> !config::is_setting_key(config::settings_of(c), "hu_button_handler"@),
{
    lemma_optional_places();
    lemma_not_written(c, "wlan_subnet"@);
    if c.udc is None {
        lemma_not_written(c, "udc"@);
    }
    if c.btalias is None {
        lemma_not_written(c, "btalias"@);
    }
    if c.webserver is None {
        lemma_not_written(c, "webserver"@);
    }
    if c.ev_battery_logger is None {
        lemma_not_written(c, "ev_battery_logger"@);
    }
    if c.media_dump_base_port is None {
        lemma_not_written(c, "media_dump_base_port"@);
    }
    if c.hu_button_handler is None {
        lemma_not_written(c, "hu_button_handler"@);
    }
}

/// What is saved is read back: in the file, every setting has its value.
pub proof fn law_saved_settings_are_read_back(
    values: Map<Seq<char>, Entry>,
    c: ConfigModel,
    i: int,
)
    requires
        0 <= i < config::settings_of(c).len(),
    ensures
        config::written(values, config::settings_of(c)).contains_key(config::settings_of(c)[i].key),
        config::written(values, config::settings_of(c))[config::settings_of(c)[i].key]
            == config::entry_of(config::settings_of(c)[i].value),
{
    law_settings_have_their_own_keys(c);
    config::law_last_setting_wins(values, config::settings_of(c), i);
}

/// Behind a save every setting has its value, and what is no setting, or is not set,
/// stays as it was, of whatever sort it is.
pub proof fn law_save_keeps_the_rest(values: Map<Seq<char>, Entry>, c: ConfigModel)
    ensures
        config::keeps_unset(c, values, config::written(values, config::settings_of(c))),
        config::is_saved(
            values,
            config::written(values, config::settings_of(c)),
            config::settings_of(c),
        ),
{
    let list = config::settings_of(c);
    let after = config::written(values, list);
    assert forall|i: int| 0 <= i < list.len() implies after.contains_key((#[trigger] list[i]).key)
        && after[list[i].key] == config::entry_of(list[i].value) by {
        law_saved_settings_are_read_back(values, c, i);
    }
    assert forall|key: Seq<char>| !config::is_setting_key(list, key) implies (
    #[trigger] after.contains_key(key)) == values.contains_key(key) && (values.contains_key(key)
        ==> after[key] == values[key]) by {
        assert forall|j: int| 0 <= j < list.len() implies (#[trigger] list[j]).key != key by {
            assert(config::is_setting_key(list, list[j].key));
        }
        config::law_save_keeps_other_keys(values, list, key);
    }
    law_unset_settings_are_not_written(c);
    assert(config::is_saved(values, after, list));
    assert forall|key: Seq<char>| !config::is_setting_key(list, key) implies config::is_kept(
        values,
        after,
        key,
    ) by {
        assert(after.contains_key(key) == values.contains_key(key));
    }
}

} // verus!
