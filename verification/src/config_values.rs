//! Every setting is written under its key, with its value; and the settings of a
//! proxy that nobody has set up.

use crate::config;
use crate::config::BtScoMediaBridgeAudioType;
use crate::config::BtScoMediaBridgeLimiter;
use crate::config::BtScoMediaBridgeResampler;
use crate::config::BtScoMicEchoControl;
use crate::config::ConfigModel;
use crate::config::GivenDefaults;
use crate::config::Scalar;
use crate::config::Setting;
use crate::config::SettingModel;
use vstd::prelude::*;

verus! {

/// Whether a value is written under a key.
pub open spec fn writes(c: ConfigModel, key: Seq<char>, value: Scalar<Seq<char>>) -> bool {
    config::settings_of(c).contains(Setting { key, value })
}

/// Whether one list begins with another.
#[verifier::opaque]
spec fn extends(list: Seq<SettingModel>, more: Seq<SettingModel>) -> bool {
    &&& list.len() <= more.len()
    &&& forall|i: int| 0 <= i < list.len() ==> #[trigger] more[i] == list[i]
}

proof fn lemma_extends(a: Seq<SettingModel>, b: Seq<SettingModel>, c: Seq<SettingModel>)
    requires
        extends(a, b),
        extends(b, c),
    ensures
        extends(a, c),
{
    reveal(extends);
    assert forall|i: int| 0 <= i < a.len() implies #[trigger] c[i] == a[i] by {
        assert(b[i] == a[i]);
    }
}


proof fn lemma_part1(list: Seq<SettingModel>, c: ConfigModel)
    ensures
        extends(list, config::with_part1(list, c)),
{
    reveal(extends);
}

proof fn lemma_part2(list: Seq<SettingModel>, c: ConfigModel)
    ensures
        extends(list, config::with_part2(list, c)),
{
    reveal(extends);
}

proof fn lemma_part3(list: Seq<SettingModel>, c: ConfigModel)
    ensures
        extends(list, config::with_part3(list, c)),
{
    reveal(extends);
}

proof fn lemma_part4(list: Seq<SettingModel>, c: ConfigModel)
    ensures
        extends(list, config::with_part4(list, c)),
{
    reveal(extends);
}

proof fn lemma_part5(list: Seq<SettingModel>, c: ConfigModel)
    ensures
        extends(list, config::with_part5(list, c)),
{
    reveal(extends);
}

proof fn lemma_part6(list: Seq<SettingModel>, c: ConfigModel)
    ensures
        extends(list, config::with_part6(list, c)),
{
    reveal(extends);
}

proof fn lemma_part7(list: Seq<SettingModel>, c: ConfigModel)
    ensures
        extends(list, config::with_part7(list, c)),
{
    reveal(extends);
}

proof fn lemma_part8(list: Seq<SettingModel>, c: ConfigModel)
    ensures
        extends(list, config::with_part8(list, c)),
{
    reveal(extends);
}

proof fn lemma_part9(list: Seq<SettingModel>, c: ConfigModel)
    ensures
        extends(list, config::with_part9(list, c)),
{
    reveal(extends);
}

proof fn lemma_part10(list: Seq<SettingModel>, c: ConfigModel)
    ensures
        extends(list, config::with_part10(list, c)),
{
    reveal(extends);
}

proof fn lemma_part11(list: Seq<SettingModel>, c: ConfigModel)
    ensures
        extends(list, config::with_part11(list, c)),
{
    reveal(extends);
}

proof fn lemma_part12(list: Seq<SettingModel>, c: ConfigModel)
    ensures
        extends(list, config::with_part12(list, c)),
{
    reveal(extends);
}

proof fn lemma_part13(list: Seq<SettingModel>, c: ConfigModel)
    ensures
        extends(list, config::with_part13(list, c)),
{
    reveal(extends);
}

proof fn lemma_part14(list: Seq<SettingModel>, c: ConfigModel)
    ensures
        extends(list, config::with_part14(list, c)),
{
    reveal(extends);
}

proof fn lemma_part15(list: Seq<SettingModel>, c: ConfigModel)
    ensures
        extends(list, config::with_part15(list, c)),
{
    reveal(extends);
}

proof fn lemma_part16(list: Seq<SettingModel>, c: ConfigModel)
    ensures
        extends(list, config::with_part16(list, c)),
{
    reveal(extends);
}

proof fn lemma_part17(list: Seq<SettingModel>, c: ConfigModel)
    ensures
        extends(list, config::with_part17(list, c)),
{
    reveal(extends);
}

proof fn lemma_text(list: Seq<SettingModel>, key: Seq<char>, t: Option<Seq<char>>)
    ensures
        extends(list, config::with_text(list, key, t)),
{
    reveal(extends);
}

proof fn lemma_port(list: Seq<SettingModel>, key: Seq<char>, p: Option<u16>)
    ensures
        extends(list, config::with_port(list, key, p)),
{
    reveal(extends);
}

/// What stands in a part of the list is written.
proof fn lemma_stands(
    c: ConfigModel,
    list: Seq<SettingModel>,
    i: int,
    key: Seq<char>,
    value: Scalar<Seq<char>>,
)
    requires
        extends(list, config::settings_of(c)),
        0 <= i < list.len(),
        list[i] == (Setting { key, value }),
    ensures
        writes(c, key, value),
{
    reveal(extends);
    assert(config::settings_of(c)[i] == list[i]);
}

/// Each part stands in the list behind the parts before it.
#[verifier::spinoff_prover]
proof fn lemma_parts(c: ConfigModel)
    ensures
        exists|list: Seq<SettingModel>| #[trigger]
            extends(config::with_part1(list, c), config::settings_of(c)),
        exists|list: Seq<SettingModel>| #[trigger]
            extends(config::with_part2(list, c), config::settings_of(c)),
        exists|list: Seq<SettingModel>| #[trigger]
            extends(config::with_part3(list, c), config::settings_of(c)),
        exists|list: Seq<SettingModel>| #[trigger]
            extends(config::with_part4(list, c), config::settings_of(c)),
        exists|list: Seq<SettingModel>| #[trigger]
            extends(config::with_part5(list, c), config::settings_of(c)),
        exists|list: Seq<SettingModel>| #[trigger]
            extends(config::with_text(list, "udc"@, c.udc), config::settings_of(c)),
        exists|list: Seq<SettingModel>| #[trigger]
            extends(config::with_part6(list, c), config::settings_of(c)),
        exists|list: Seq<SettingModel>| #[trigger]
            extends(config::with_text(list, "btalias"@, c.btalias), config::settings_of(c)),
        exists|list: Seq<SettingModel>| #[trigger]
            extends(config::with_part7(list, c), config::settings_of(c)),
        exists|list: Seq<SettingModel>| #[trigger]
            extends(config::with_text(list, "webserver"@, c.webserver), config::settings_of(c)),
        exists|list: Seq<SettingModel>| #[trigger]
            extends(config::with_part8(list, c), config::settings_of(c)),
        exists|list: Seq<SettingModel>| #[trigger]
            extends(config::with_part9(list, c), config::settings_of(c)),
        exists|list: Seq<SettingModel>| #[trigger]
            extends(config::with_part10(list, c), config::settings_of(c)),
        exists|list: Seq<SettingModel>| #[trigger]
            extends(config::with_text(list, "ev_battery_logger"@, c.ev_battery_logger), config::settings_of(c)),
        exists|list: Seq<SettingModel>| #[trigger]
            extends(config::with_part11(list, c), config::settings_of(c)),
        exists|list: Seq<SettingModel>| #[trigger]
            extends(config::with_part12(list, c), config::settings_of(c)),
        exists|list: Seq<SettingModel>| #[trigger]
            extends(config::with_port(list, "media_dump_base_port"@, c.media_dump_base_port), config::settings_of(c)),
        exists|list: Seq<SettingModel>| #[trigger]
            extends(config::with_part13(list, c), config::settings_of(c)),
        exists|list: Seq<SettingModel>| #[trigger]
            extends(config::with_part14(list, c), config::settings_of(c)),
        exists|list: Seq<SettingModel>| #[trigger]
            extends(config::with_text(list, "hu_button_handler"@, c.hu_button_handler), config::settings_of(c)),
        exists|list: Seq<SettingModel>| #[trigger]
            extends(config::with_part15(list, c), config::settings_of(c)),
        exists|list: Seq<SettingModel>| #[trigger]
            extends(config::with_part16(list, c), config::settings_of(c)),
        exists|list: Seq<SettingModel>| #[trigger]
            extends(config::with_part17(list, c), config::settings_of(c)),
{
    let l0 = Seq::<SettingModel>::empty();
    let l1 = config::with_part1(l0, c);
    let l2 = config::with_part2(l1, c);
    let l3 = config::with_part3(l2, c);
    let l4 = config::with_part4(l3, c);
    let l5 = config::with_part5(l4, c);
    let l6 = config::with_text(l5, "udc"@, c.udc);
    let l7 = config::with_part6(l6, c);
    let l8 = config::with_text(l7, "btalias"@, c.btalias);
    let l9 = config::with_part7(l8, c);
    let l10 = config::with_text(l9, "webserver"@, c.webserver);
    let l11 = config::with_part8(l10, c);
    let l12 = config::with_part9(l11, c);
    let l13 = config::with_part10(l12, c);
    let l14 = config::with_text(l13, "ev_battery_logger"@, c.ev_battery_logger);
    let l15 = config::with_part11(l14, c);
    let l16 = config::with_part12(l15, c);
    let l17 = config::with_port(l16, "media_dump_base_port"@, c.media_dump_base_port);
    let l18 = config::with_part13(l17, c);
    let l19 = config::with_part14(l18, c);
    let l20 = config::with_text(l19, "hu_button_handler"@, c.hu_button_handler);
    let l21 = config::with_part15(l20, c);
    let l22 = config::with_part16(l21, c);
    let l23 = config::with_part17(l22, c);
    assert(l23 == config::settings_of(c)) by {
        reveal(config::settings_of);
    }
    assert(extends(l23, l23)) by {
        reveal(extends);
    }
    lemma_part17(l22, c);
    lemma_extends(l22, l23, l23);
    lemma_part16(l21, c);
    lemma_extends(l21, l22, l23);
    lemma_part15(l20, c);
    lemma_extends(l20, l21, l23);
    lemma_text(l19, "hu_button_handler"@, c.hu_button_handler);
    lemma_extends(l19, l20, l23);
    lemma_part14(l18, c);
    lemma_extends(l18, l19, l23);
    lemma_part13(l17, c);
    lemma_extends(l17, l18, l23);
    lemma_port(l16, "media_dump_base_port"@, c.media_dump_base_port);
    lemma_extends(l16, l17, l23);
    lemma_part12(l15, c);
    lemma_extends(l15, l16, l23);
    lemma_part11(l14, c);
    lemma_extends(l14, l15, l23);
    lemma_text(l13, "ev_battery_logger"@, c.ev_battery_logger);
    lemma_extends(l13, l14, l23);
    lemma_part10(l12, c);
    lemma_extends(l12, l13, l23);
    lemma_part9(l11, c);
    lemma_extends(l11, l12, l23);
    lemma_part8(l10, c);
    lemma_extends(l10, l11, l23);
    lemma_text(l9, "webserver"@, c.webserver);
    lemma_extends(l9, l10, l23);
    lemma_part7(l8, c);
    lemma_extends(l8, l9, l23);
    lemma_text(l7, "btalias"@, c.btalias);
    lemma_extends(l7, l8, l23);
    lemma_part6(l6, c);
    lemma_extends(l6, l7, l23);
    lemma_text(l5, "udc"@, c.udc);
    lemma_extends(l5, l6, l23);
    lemma_part5(l4, c);
    lemma_extends(l4, l5, l23);
    lemma_part4(l3, c);
    lemma_extends(l3, l4, l23);
    lemma_part3(l2, c);
    lemma_extends(l2, l3, l23);
    lemma_part2(l1, c);
    lemma_extends(l1, l2, l23);
}

proof fn lemma_where_part1(c: ConfigModel) -> (list: Seq<SettingModel>)
    ensures
        extends(config::with_part1(list, c), config::settings_of(c)),
{
    lemma_parts(c);
    choose|list: Seq<SettingModel>| #[trigger]
        extends(config::with_part1(list, c), config::settings_of(c))
}

proof fn lemma_where_part2(c: ConfigModel) -> (list: Seq<SettingModel>)
    ensures
        extends(config::with_part2(list, c), config::settings_of(c)),
{
    lemma_parts(c);
    choose|list: Seq<SettingModel>| #[trigger]
        extends(config::with_part2(list, c), config::settings_of(c))
}

proof fn lemma_where_part3(c: ConfigModel) -> (list: Seq<SettingModel>)
    ensures
        extends(config::with_part3(list, c), config::settings_of(c)),
{
    lemma_parts(c);
    choose|list: Seq<SettingModel>| #[trigger]
        extends(config::with_part3(list, c), config::settings_of(c))
}

proof fn lemma_where_part4(c: ConfigModel) -> (list: Seq<SettingModel>)
    ensures
        extends(config::with_part4(list, c), config::settings_of(c)),
{
    lemma_parts(c);
    choose|list: Seq<SettingModel>| #[trigger]
        extends(config::with_part4(list, c), config::settings_of(c))
}

proof fn lemma_where_part5(c: ConfigModel) -> (list: Seq<SettingModel>)
    ensures
        extends(config::with_part5(list, c), config::settings_of(c)),
{
    lemma_parts(c);
    choose|list: Seq<SettingModel>| #[trigger]
        extends(config::with_part5(list, c), config::settings_of(c))
}

proof fn lemma_where_part6(c: ConfigModel) -> (list: Seq<SettingModel>)
    ensures
        extends(config::with_part6(list, c), config::settings_of(c)),
{
    lemma_parts(c);
    choose|list: Seq<SettingModel>| #[trigger]
        extends(config::with_part6(list, c), config::settings_of(c))
}

proof fn lemma_where_part7(c: ConfigModel) -> (list: Seq<SettingModel>)
    ensures
        extends(config::with_part7(list, c), config::settings_of(c)),
{
    lemma_parts(c);
    choose|list: Seq<SettingModel>| #[trigger]
        extends(config::with_part7(list, c), config::settings_of(c))
}

proof fn lemma_where_part8(c: ConfigModel) -> (list: Seq<SettingModel>)
    ensures
        extends(config::with_part8(list, c), config::settings_of(c)),
{
    lemma_parts(c);
    choose|list: Seq<SettingModel>| #[trigger]
        extends(config::with_part8(list, c), config::settings_of(c))
}

proof fn lemma_where_part9(c: ConfigModel) -> (list: Seq<SettingModel>)
    ensures
        extends(config::with_part9(list, c), config::settings_of(c)),
{
    lemma_parts(c);
    choose|list: Seq<SettingModel>| #[trigger]
        extends(config::with_part9(list, c), config::settings_of(c))
}

proof fn lemma_where_part10(c: ConfigModel) -> (list: Seq<SettingModel>)
    ensures
        extends(config::with_part10(list, c), config::settings_of(c)),
{
    lemma_parts(c);
    choose|list: Seq<SettingModel>| #[trigger]
        extends(config::with_part10(list, c), config::settings_of(c))
}

proof fn lemma_where_part11(c: ConfigModel) -> (list: Seq<SettingModel>)
    ensures
        extends(config::with_part11(list, c), config::settings_of(c)),
{
    lemma_parts(c);
    choose|list: Seq<SettingModel>| #[trigger]
        extends(config::with_part11(list, c), config::settings_of(c))
}

proof fn lemma_where_part12(c: ConfigModel) -> (list: Seq<SettingModel>)
    ensures
        extends(config::with_part12(list, c), config::settings_of(c)),
{
    lemma_parts(c);
    choose|list: Seq<SettingModel>| #[trigger]
        extends(config::with_part12(list, c), config::settings_of(c))
}

proof fn lemma_where_part13(c: ConfigModel) -> (list: Seq<SettingModel>)
    ensures
        extends(config::with_part13(list, c), config::settings_of(c)),
{
    lemma_parts(c);
    choose|list: Seq<SettingModel>| #[trigger]
        extends(config::with_part13(list, c), config::settings_of(c))
}

proof fn lemma_where_part14(c: ConfigModel) -> (list: Seq<SettingModel>)
    ensures
        extends(config::with_part14(list, c), config::settings_of(c)),
{
    lemma_parts(c);
    choose|list: Seq<SettingModel>| #[trigger]
        extends(config::with_part14(list, c), config::settings_of(c))
}

proof fn lemma_where_part15(c: ConfigModel) -> (list: Seq<SettingModel>)
    ensures
        extends(config::with_part15(list, c), config::settings_of(c)),
{
    lemma_parts(c);
    choose|list: Seq<SettingModel>| #[trigger]
        extends(config::with_part15(list, c), config::settings_of(c))
}

proof fn lemma_where_part16(c: ConfigModel) -> (list: Seq<SettingModel>)
    ensures
        extends(config::with_part16(list, c), config::settings_of(c)),
{
    lemma_parts(c);
    choose|list: Seq<SettingModel>| #[trigger]
        extends(config::with_part16(list, c), config::settings_of(c))
}

proof fn lemma_where_part17(c: ConfigModel) -> (list: Seq<SettingModel>)
    ensures
        extends(config::with_part17(list, c), config::settings_of(c)),
{
    lemma_parts(c);
    choose|list: Seq<SettingModel>| #[trigger]
        extends(config::with_part17(list, c), config::settings_of(c))
}

/// The settings of the companion, of the kernel modules and of the pairing, each under its key.
pub proof fn law_first_settings_are_written(c: ConfigModel)
    ensures
        writes(c, "advertise"@, Scalar::Bool(c.advertise)),
        writes(c, "enable_companion_bt"@, Scalar::Bool(c.enable_companion_bt)),
        writes(c, "companion_bt_auth_required"@, Scalar::Bool(c.companion_bt_auth_required)),
        writes(c, "companion_bt_auth_token"@, Scalar::Text(c.companion_bt_auth_token)),
        writes(c, "dongle_mode"@, Scalar::Bool(c.dongle_mode)),
        writes(c, "preload_kernel_modules"@, Scalar::Text(c.preload_kernel_modules)),
        writes(c, "kernel_module_path"@, Scalar::Text(c.kernel_module_path)),
        writes(c, "bt_wireless_proxy"@, Scalar::Bool(c.bt_wireless_proxy)),
        writes(c, "bt_wireless_proxy_mode"@, Scalar::Text(c.bt_wireless_proxy_mode)),
        writes(c, "bt_wireless_proxy_hu_mac"@, Scalar::Text(c.bt_wireless_proxy_hu_mac)),
        writes(c, "bt_wireless_proxy_pairing_window_secs"@, Scalar::Int(config::wrapped(c.bt_wireless_proxy_pairing_window_secs as int))),
        writes(c, "bt_wireless_proxy_phone_like_pairing"@, Scalar::Bool(c.bt_wireless_proxy_phone_like_pairing)),
        writes(c, "bt_wireless_proxy_phone_like_pairing_alias"@, Scalar::Text(c.bt_wireless_proxy_phone_like_pairing_alias)),
        writes(c, "bt_wireless_proxy_phone_like_pairing_class"@, Scalar::Text(c.bt_wireless_proxy_phone_like_pairing_class)),
{
    let list = lemma_where_part1(c);
    let part = config::with_part1(list, c);
    let from = list.len() as int;
    lemma_stands(c, part, from + 0, "advertise"@, Scalar::Bool(c.advertise));
    lemma_stands(c, part, from + 1, "enable_companion_bt"@, Scalar::Bool(c.enable_companion_bt));
    lemma_stands(c, part, from + 2, "companion_bt_auth_required"@, Scalar::Bool(c.companion_bt_auth_required));
    lemma_stands(c, part, from + 3, "companion_bt_auth_token"@, Scalar::Text(c.companion_bt_auth_token));
    lemma_stands(c, part, from + 4, "dongle_mode"@, Scalar::Bool(c.dongle_mode));
    lemma_stands(c, part, from + 5, "preload_kernel_modules"@, Scalar::Text(c.preload_kernel_modules));
    lemma_stands(c, part, from + 6, "kernel_module_path"@, Scalar::Text(c.kernel_module_path));
    lemma_stands(c, part, from + 7, "bt_wireless_proxy"@, Scalar::Bool(c.bt_wireless_proxy));
    lemma_stands(c, part, from + 8, "bt_wireless_proxy_mode"@, Scalar::Text(c.bt_wireless_proxy_mode));
    lemma_stands(c, part, from + 9, "bt_wireless_proxy_hu_mac"@, Scalar::Text(c.bt_wireless_proxy_hu_mac));
    lemma_stands(c, part, from + 10, "bt_wireless_proxy_pairing_window_secs"@, Scalar::Int(config::wrapped(c.bt_wireless_proxy_pairing_window_secs as int)));
    lemma_stands(c, part, from + 11, "bt_wireless_proxy_phone_like_pairing"@, Scalar::Bool(c.bt_wireless_proxy_phone_like_pairing));
    lemma_stands(c, part, from + 12, "bt_wireless_proxy_phone_like_pairing_alias"@, Scalar::Text(c.bt_wireless_proxy_phone_like_pairing_alias));
    lemma_stands(c, part, from + 13, "bt_wireless_proxy_phone_like_pairing_class"@, Scalar::Text(c.bt_wireless_proxy_phone_like_pairing_class));
}

/// The settings of the rendezvous and of the joining of the car's network, each under its key.
pub proof fn law_rendezvous_settings_are_written(c: ConfigModel)
    ensures
        writes(c, "bt_wireless_proxy_phone_like_sdp_profiles"@, Scalar::Bool(c.bt_wireless_proxy_phone_like_sdp_profiles)),
        writes(c, "bt_wireless_proxy_phone_like_sdp_profile_set"@, Scalar::Text(c.bt_wireless_proxy_phone_like_sdp_profile_set)),
        writes(c, "bt_wireless_proxy_rendezvous_mode"@, Scalar::Text(c.bt_wireless_proxy_rendezvous_mode)),
        writes(c, "bt_wireless_proxy_hu_first_wait_phone_secs"@, Scalar::Int(config::wrapped(c.bt_wireless_proxy_hu_first_wait_phone_secs as int))),
        writes(
            c,
            "bt_wireless_proxy_hu_channel"@,
            Scalar::Int(
                match c.bt_wireless_proxy_hu_channel {
                    Some(x) => x as i64,
                    None => 0,
                },
            ),
        ),
        writes(c, "bt_wireless_proxy_tcp_probe"@, Scalar::Bool(c.bt_wireless_proxy_tcp_probe)),
        writes(c, "bt_wireless_proxy_car_wifi_base_iface"@, Scalar::Text(c.bt_wireless_proxy_car_wifi_base_iface)),
        writes(c, "bt_wireless_proxy_car_wifi_join_cmd"@, Scalar::Text(c.bt_wireless_proxy_car_wifi_join_cmd)),
        writes(c, "bt_wireless_proxy_car_wifi_auto_join"@, Scalar::Bool(c.bt_wireless_proxy_car_wifi_auto_join)),
        writes(c, "bt_wireless_proxy_wifi_join_control"@, Scalar::Text(c.bt_wireless_proxy_wifi_join_control)),
        writes(c, "bt_wireless_proxy_wpactrl_socket_timeout_secs"@, Scalar::Int(config::wrapped(c.bt_wireless_proxy_wpactrl_socket_timeout_secs as int))),
        writes(c, "bt_wireless_proxy_wifi_association_timeout_secs"@, Scalar::Int(config::wrapped(c.bt_wireless_proxy_wifi_association_timeout_secs as int))),
        writes(c, "bt_wireless_proxy_dhcp_timeout_secs"@, Scalar::Int(config::wrapped(c.bt_wireless_proxy_dhcp_timeout_secs as int))),
        writes(c, "bt_wireless_proxy_car_wifi_keep_ap"@, Scalar::Bool(c.bt_wireless_proxy_car_wifi_keep_ap)),
{
    let list = lemma_where_part2(c);
    let part = config::with_part2(list, c);
    let from = list.len() as int;
    lemma_stands(c, part, from + 0, "bt_wireless_proxy_phone_like_sdp_profiles"@, Scalar::Bool(c.bt_wireless_proxy_phone_like_sdp_profiles));
    lemma_stands(c, part, from + 1, "bt_wireless_proxy_phone_like_sdp_profile_set"@, Scalar::Text(c.bt_wireless_proxy_phone_like_sdp_profile_set));
    lemma_stands(c, part, from + 2, "bt_wireless_proxy_rendezvous_mode"@, Scalar::Text(c.bt_wireless_proxy_rendezvous_mode));
    lemma_stands(c, part, from + 3, "bt_wireless_proxy_hu_first_wait_phone_secs"@, Scalar::Int(config::wrapped(c.bt_wireless_proxy_hu_first_wait_phone_secs as int)));
    lemma_stands(c, part, from + 4, "bt_wireless_proxy_hu_channel"@, Scalar::Int((match c.bt_wireless_proxy_hu_channel { Some(x) => x as i64, None => 0 })));
    lemma_stands(c, part, from + 5, "bt_wireless_proxy_tcp_probe"@, Scalar::Bool(c.bt_wireless_proxy_tcp_probe));
    lemma_stands(c, part, from + 6, "bt_wireless_proxy_car_wifi_base_iface"@, Scalar::Text(c.bt_wireless_proxy_car_wifi_base_iface));
    lemma_stands(c, part, from + 7, "bt_wireless_proxy_car_wifi_join_cmd"@, Scalar::Text(c.bt_wireless_proxy_car_wifi_join_cmd));
    lemma_stands(c, part, from + 8, "bt_wireless_proxy_car_wifi_auto_join"@, Scalar::Bool(c.bt_wireless_proxy_car_wifi_auto_join));
    lemma_stands(c, part, from + 9, "bt_wireless_proxy_wifi_join_control"@, Scalar::Text(c.bt_wireless_proxy_wifi_join_control));
    lemma_stands(c, part, from + 10, "bt_wireless_proxy_wpactrl_socket_timeout_secs"@, Scalar::Int(config::wrapped(c.bt_wireless_proxy_wpactrl_socket_timeout_secs as int)));
    lemma_stands(c, part, from + 11, "bt_wireless_proxy_wifi_association_timeout_secs"@, Scalar::Int(config::wrapped(c.bt_wireless_proxy_wifi_association_timeout_secs as int)));
    lemma_stands(c, part, from + 12, "bt_wireless_proxy_dhcp_timeout_secs"@, Scalar::Int(config::wrapped(c.bt_wireless_proxy_dhcp_timeout_secs as int)));
    lemma_stands(c, part, from + 13, "bt_wireless_proxy_car_wifi_keep_ap"@, Scalar::Bool(c.bt_wireless_proxy_car_wifi_keep_ap));
}

/// The settings of the phone's network and of the logging, each under its key.
pub proof fn law_phone_network_settings_are_written(c: ConfigModel)
    ensures
        writes(c, "bt_wireless_proxy_car_wifi_sta_iface"@, Scalar::Text(c.bt_wireless_proxy_car_wifi_sta_iface)),
        writes(c, "bt_wireless_proxy_car_wifi_sta_phy"@, Scalar::Text(c.bt_wireless_proxy_car_wifi_sta_phy)),
        writes(c, "bt_wireless_proxy_car_wifi_ap_iface"@, Scalar::Text(c.bt_wireless_proxy_car_wifi_ap_iface)),
        writes(c, "bt_wireless_proxy_phone_wifi_mode"@, Scalar::Text(c.bt_wireless_proxy_phone_wifi_mode)),
        writes(c, "bt_wireless_proxy_rewrite_ip"@, Scalar::Text(c.bt_wireless_proxy_rewrite_ip)),
        writes(c, "bt_wireless_proxy_listen_port"@, Scalar::Int(c.bt_wireless_proxy_listen_port as i64)),
        writes(c, "bt_wireless_proxy_use_version_projection_fallback"@, Scalar::Bool(c.bt_wireless_proxy_use_version_projection_fallback)),
        writes(c, "bt_wireless_proxy_wpp_keepalive"@, Scalar::Bool(c.bt_wireless_proxy_wpp_keepalive)),
        writes(c, "bt_wireless_proxy_wpp_keepalive_interval_ms"@, Scalar::Int(config::wrapped(c.bt_wireless_proxy_wpp_keepalive_interval_ms as int))),
        writes(c, "debug"@, Scalar::Bool(c.debug)),
        writes(c, "pkt_debug"@, Scalar::Bool(c.pkt_debug)),
        writes(c, "hexdump_level"@, Scalar::Text(c.hexdump_level)),
        writes(c, "disable_console_debug"@, Scalar::Bool(c.disable_console_debug)),
        writes(c, "pkt_debug_filter_enabled"@, Scalar::Bool(c.pkt_debug_filter_enabled)),
{
    let list = lemma_where_part3(c);
    let part = config::with_part3(list, c);
    let from = list.len() as int;
    lemma_stands(c, part, from + 0, "bt_wireless_proxy_car_wifi_sta_iface"@, Scalar::Text(c.bt_wireless_proxy_car_wifi_sta_iface));
    lemma_stands(c, part, from + 1, "bt_wireless_proxy_car_wifi_sta_phy"@, Scalar::Text(c.bt_wireless_proxy_car_wifi_sta_phy));
    lemma_stands(c, part, from + 2, "bt_wireless_proxy_car_wifi_ap_iface"@, Scalar::Text(c.bt_wireless_proxy_car_wifi_ap_iface));
    lemma_stands(c, part, from + 3, "bt_wireless_proxy_phone_wifi_mode"@, Scalar::Text(c.bt_wireless_proxy_phone_wifi_mode));
    lemma_stands(c, part, from + 4, "bt_wireless_proxy_rewrite_ip"@, Scalar::Text(c.bt_wireless_proxy_rewrite_ip));
    lemma_stands(c, part, from + 5, "bt_wireless_proxy_listen_port"@, Scalar::Int(c.bt_wireless_proxy_listen_port as i64));
    lemma_stands(c, part, from + 6, "bt_wireless_proxy_use_version_projection_fallback"@, Scalar::Bool(c.bt_wireless_proxy_use_version_projection_fallback));
    lemma_stands(c, part, from + 7, "bt_wireless_proxy_wpp_keepalive"@, Scalar::Bool(c.bt_wireless_proxy_wpp_keepalive));
    lemma_stands(c, part, from + 8, "bt_wireless_proxy_wpp_keepalive_interval_ms"@, Scalar::Int(config::wrapped(c.bt_wireless_proxy_wpp_keepalive_interval_ms as int)));
    lemma_stands(c, part, from + 9, "debug"@, Scalar::Bool(c.debug));
    lemma_stands(c, part, from + 10, "pkt_debug"@, Scalar::Bool(c.pkt_debug));
    lemma_stands(c, part, from + 11, "hexdump_level"@, Scalar::Text(c.hexdump_level));
    lemma_stands(c, part, from + 12, "disable_console_debug"@, Scalar::Bool(c.disable_console_debug));
    lemma_stands(c, part, from + 13, "pkt_debug_filter_enabled"@, Scalar::Bool(c.pkt_debug_filter_enabled));
}

/// The settings of the packet filter and of the USB gadget, each under its key.
pub proof fn law_packet_settings_are_written(c: ConfigModel)
    ensures
        writes(c, "pkt_debug_filter_proxy"@, Scalar::Text(c.pkt_debug_filter_proxy)),
        writes(c, "pkt_debug_filter_stages"@, Scalar::Text(c.pkt_debug_filter_stages)),
        writes(c, "pkt_debug_filter_service_kinds"@, Scalar::Text(c.pkt_debug_filter_service_kinds)),
        writes(c, "pkt_debug_filter_channels"@, Scalar::Text(c.pkt_debug_filter_channels)),
        writes(c, "pkt_debug_filter_exclude_channels"@, Scalar::Text(c.pkt_debug_filter_exclude_channels)),
        writes(c, "pkt_debug_filter_message_ids"@, Scalar::Text(c.pkt_debug_filter_message_ids)),
        writes(c, "pkt_debug_filter_exclude_message_ids"@, Scalar::Text(c.pkt_debug_filter_exclude_message_ids)),
        writes(c, "pkt_debug_filter_pretty_proto"@, Scalar::Bool(c.pkt_debug_filter_pretty_proto)),
        writes(c, "pkt_debug_filter_max_payload_bytes"@, Scalar::Int(config::wrapped(c.pkt_debug_filter_max_payload_bytes as int))),
        writes(c, "pkt_debug_full_frame_enabled"@, Scalar::Bool(c.pkt_debug_full_frame_enabled)),
        writes(c, "legacy"@, Scalar::Bool(c.legacy)),
        writes(c, "usb_gadget_require_accessory_start"@, Scalar::Bool(c.usb_gadget_require_accessory_start)),
        writes(c, "usb_gadget_rearm_on_disconnect"@, Scalar::Bool(c.usb_gadget_rearm_on_disconnect)),
        writes(c, "usb_gadget_rearm_cooldown_ms"@, Scalar::Int(config::wrapped(c.usb_gadget_rearm_cooldown_ms as int))),
{
    let list = lemma_where_part4(c);
    let part = config::with_part4(list, c);
    let from = list.len() as int;
    lemma_stands(c, part, from + 0, "pkt_debug_filter_proxy"@, Scalar::Text(c.pkt_debug_filter_proxy));
    lemma_stands(c, part, from + 1, "pkt_debug_filter_stages"@, Scalar::Text(c.pkt_debug_filter_stages));
    lemma_stands(c, part, from + 2, "pkt_debug_filter_service_kinds"@, Scalar::Text(c.pkt_debug_filter_service_kinds));
    lemma_stands(c, part, from + 3, "pkt_debug_filter_channels"@, Scalar::Text(c.pkt_debug_filter_channels));
    lemma_stands(c, part, from + 4, "pkt_debug_filter_exclude_channels"@, Scalar::Text(c.pkt_debug_filter_exclude_channels));
    lemma_stands(c, part, from + 5, "pkt_debug_filter_message_ids"@, Scalar::Text(c.pkt_debug_filter_message_ids));
    lemma_stands(c, part, from + 6, "pkt_debug_filter_exclude_message_ids"@, Scalar::Text(c.pkt_debug_filter_exclude_message_ids));
    lemma_stands(c, part, from + 7, "pkt_debug_filter_pretty_proto"@, Scalar::Bool(c.pkt_debug_filter_pretty_proto));
    lemma_stands(c, part, from + 8, "pkt_debug_filter_max_payload_bytes"@, Scalar::Int(config::wrapped(c.pkt_debug_filter_max_payload_bytes as int)));
    lemma_stands(c, part, from + 9, "pkt_debug_full_frame_enabled"@, Scalar::Bool(c.pkt_debug_full_frame_enabled));
    lemma_stands(c, part, from + 10, "legacy"@, Scalar::Bool(c.legacy));
    lemma_stands(c, part, from + 11, "usb_gadget_require_accessory_start"@, Scalar::Bool(c.usb_gadget_require_accessory_start));
    lemma_stands(c, part, from + 12, "usb_gadget_rearm_on_disconnect"@, Scalar::Bool(c.usb_gadget_rearm_on_disconnect));
    lemma_stands(c, part, from + 13, "usb_gadget_rearm_cooldown_ms"@, Scalar::Int(config::wrapped(c.usb_gadget_rearm_cooldown_ms as int)));
}

/// The settings of the connection and of the files, each under its key.
pub proof fn law_connection_settings_are_written(c: ConfigModel)
    ensures
        writes(c, "quick_reconnect"@, Scalar::Bool(c.quick_reconnect)),
        writes(c, "bt_poweroff"@, Scalar::Bool(c.bt_poweroff)),
        writes(c, "connect"@, Scalar::Text(c.connect)),
        writes(c, "logfile"@, Scalar::Text(c.logfile)),
        writes(c, "crash_handler_enabled"@, Scalar::Bool(c.crash_handler_enabled)),
        writes(c, "crash_dir"@, Scalar::Text(c.crash_dir)),
        writes(c, "sdr_ui_override_enabled"@, Scalar::Bool(c.sdr_ui_override_enabled)),
        writes(c, "sdr_ui_override_autocreate_profiles"@, Scalar::Bool(c.sdr_ui_override_autocreate_profiles)),
        writes(c, "sdr_ui_override_file"@, Scalar::Text(c.sdr_ui_override_file)),
        writes(c, "inject_displays_file"@, Scalar::Text(c.inject_displays_file)),
        writes(c, "stats_interval"@, Scalar::Int(c.stats_interval as i64)),
{
    let list = lemma_where_part5(c);
    let part = config::with_part5(list, c);
    let from = list.len() as int;
    lemma_stands(c, part, from + 0, "quick_reconnect"@, Scalar::Bool(c.quick_reconnect));
    lemma_stands(c, part, from + 1, "bt_poweroff"@, Scalar::Bool(c.bt_poweroff));
    lemma_stands(c, part, from + 2, "connect"@, Scalar::Text(c.connect));
    lemma_stands(c, part, from + 3, "logfile"@, Scalar::Text(c.logfile));
    lemma_stands(c, part, from + 4, "crash_handler_enabled"@, Scalar::Bool(c.crash_handler_enabled));
    lemma_stands(c, part, from + 5, "crash_dir"@, Scalar::Text(c.crash_dir));
    lemma_stands(c, part, from + 6, "sdr_ui_override_enabled"@, Scalar::Bool(c.sdr_ui_override_enabled));
    lemma_stands(c, part, from + 7, "sdr_ui_override_autocreate_profiles"@, Scalar::Bool(c.sdr_ui_override_autocreate_profiles));
    lemma_stands(c, part, from + 8, "sdr_ui_override_file"@, Scalar::Text(c.sdr_ui_override_file));
    lemma_stands(c, part, from + 9, "inject_displays_file"@, Scalar::Text(c.inject_displays_file));
    lemma_stands(c, part, from + 10, "stats_interval"@, Scalar::Int(c.stats_interval as i64));
}

/// The interface, each under its key.
pub proof fn law_interface_is_written(c: ConfigModel)
    ensures
        writes(c, "iface"@, Scalar::Text(c.iface)),
{
    let list = lemma_where_part6(c);
    let part = config::with_part6(list, c);
    let from = list.len() as int;
    lemma_stands(c, part, from + 0, "iface"@, Scalar::Text(c.iface));
}

/// The timeout, each under its key.
pub proof fn law_timeout_is_written(c: ConfigModel)
    ensures
        writes(c, "timeout_secs"@, Scalar::Int(c.timeout_secs as i64)),
{
    let list = lemma_where_part7(c);
    let part = config::with_part7(list, c);
    let from = list.len() as int;
    lemma_stands(c, part, from + 0, "timeout_secs"@, Scalar::Int(c.timeout_secs as i64));
}

/// The settings of the projection, each under its key.
pub proof fn law_projection_settings_are_written(c: ConfigModel)
    ensures
        writes(c, "bt_timeout_secs"@, Scalar::Int(c.bt_timeout_secs as i64)),
        writes(c, "mitm"@, Scalar::Bool(c.mitm)),
        writes(c, "dpi"@, Scalar::Int(c.dpi as i64)),
        writes(c, "audio_max_unacked"@, Scalar::Int(c.audio_max_unacked as i64)),
        writes(c, "add_vendor_channel"@, Scalar::Bool(c.add_vendor_channel)),
        writes(c, "remove_tap_restriction"@, Scalar::Bool(c.remove_tap_restriction)),
        writes(c, "video_in_motion"@, Scalar::Bool(c.video_in_motion)),
        writes(c, "disable_media_sink"@, Scalar::Bool(c.disable_media_sink)),
        writes(c, "disable_tts_sink"@, Scalar::Bool(c.disable_tts_sink)),
        writes(c, "developer_mode"@, Scalar::Bool(c.developer_mode)),
        writes(
            c,
            "wired"@,
            Scalar::Text(
                match c.wired {
                    Some(v) => v,
                    None => ""@,
                },
            ),
        ),
        writes(c, "dhu"@, Scalar::Bool(c.dhu)),
        writes(c, "aa_server_tcp_addr"@, Scalar::Text(c.aa_server_tcp_addr)),
        writes(c, "ev"@, Scalar::Bool(c.ev)),
{
    let list = lemma_where_part8(c);
    let part = config::with_part8(list, c);
    let from = list.len() as int;
    lemma_stands(c, part, from + 0, "bt_timeout_secs"@, Scalar::Int(c.bt_timeout_secs as i64));
    lemma_stands(c, part, from + 1, "mitm"@, Scalar::Bool(c.mitm));
    lemma_stands(c, part, from + 2, "dpi"@, Scalar::Int(c.dpi as i64));
    lemma_stands(c, part, from + 3, "audio_max_unacked"@, Scalar::Int(c.audio_max_unacked as i64));
    lemma_stands(c, part, from + 4, "add_vendor_channel"@, Scalar::Bool(c.add_vendor_channel));
    lemma_stands(c, part, from + 5, "remove_tap_restriction"@, Scalar::Bool(c.remove_tap_restriction));
    lemma_stands(c, part, from + 6, "video_in_motion"@, Scalar::Bool(c.video_in_motion));
    lemma_stands(c, part, from + 7, "disable_media_sink"@, Scalar::Bool(c.disable_media_sink));
    lemma_stands(c, part, from + 8, "disable_tts_sink"@, Scalar::Bool(c.disable_tts_sink));
    lemma_stands(c, part, from + 9, "developer_mode"@, Scalar::Bool(c.developer_mode));
    lemma_stands(c, part, from + 10, "wired"@, Scalar::Text(config::or_empty(c.wired)));
    lemma_stands(c, part, from + 11, "dhu"@, Scalar::Bool(c.dhu));
    lemma_stands(c, part, from + 12, "aa_server_tcp_addr"@, Scalar::Text(c.aa_server_tcp_addr));
    lemma_stands(c, part, from + 13, "ev"@, Scalar::Bool(c.ev));
}

/// The settings of the sensors and of the cluster display, each under its key.
pub proof fn law_cluster_settings_are_written(c: ConfigModel)
    ensures
        writes(c, "odometer"@, Scalar::Bool(c.odometer)),
        writes(c, "tire_pressure"@, Scalar::Bool(c.tire_pressure)),
        writes(c, "remove_bluetooth"@, Scalar::Bool(c.remove_bluetooth)),
        writes(c, "bt_real_hu_passthrough_enabled"@, Scalar::Bool(c.bt_real_hu_passthrough_enabled)),
        writes(c, "bt_real_hu_passthrough_address"@, Scalar::Text(c.bt_real_hu_passthrough_address)),
        writes(c, "bt_a2dp_sink_enabled"@, Scalar::Bool(c.bt_a2dp_sink_enabled)),
        writes(c, "remove_wifi"@, Scalar::Bool(c.remove_wifi)),
        writes(c, "inject_display_types"@, Scalar::Text(c.inject_display_types)),
        writes(c, "inject_add_input_sources"@, Scalar::Bool(c.inject_add_input_sources)),
        writes(c, "inject_cluster_display_id"@, Scalar::Int(c.inject_cluster_display_id as i64)),
        writes(c, "inject_cluster_width_margin"@, Scalar::Int(c.inject_cluster_width_margin as i64)),
        writes(c, "inject_cluster_height_margin"@, Scalar::Int(c.inject_cluster_height_margin as i64)),
        writes(c, "inject_cluster_density"@, Scalar::Int(c.inject_cluster_density as i64)),
        writes(c, "inject_cluster_viewing_distance"@, Scalar::Int(c.inject_cluster_viewing_distance as i64)),
{
    let list = lemma_where_part9(c);
    let part = config::with_part9(list, c);
    let from = list.len() as int;
    lemma_stands(c, part, from + 0, "odometer"@, Scalar::Bool(c.odometer));
    lemma_stands(c, part, from + 1, "tire_pressure"@, Scalar::Bool(c.tire_pressure));
    lemma_stands(c, part, from + 2, "remove_bluetooth"@, Scalar::Bool(c.remove_bluetooth));
    lemma_stands(c, part, from + 3, "bt_real_hu_passthrough_enabled"@, Scalar::Bool(c.bt_real_hu_passthrough_enabled));
    lemma_stands(c, part, from + 4, "bt_real_hu_passthrough_address"@, Scalar::Text(c.bt_real_hu_passthrough_address));
    lemma_stands(c, part, from + 5, "bt_a2dp_sink_enabled"@, Scalar::Bool(c.bt_a2dp_sink_enabled));
    lemma_stands(c, part, from + 6, "remove_wifi"@, Scalar::Bool(c.remove_wifi));
    lemma_stands(c, part, from + 7, "inject_display_types"@, Scalar::Text(c.inject_display_types));
    lemma_stands(c, part, from + 8, "inject_add_input_sources"@, Scalar::Bool(c.inject_add_input_sources));
    lemma_stands(c, part, from + 9, "inject_cluster_display_id"@, Scalar::Int(c.inject_cluster_display_id as i64));
    lemma_stands(c, part, from + 10, "inject_cluster_width_margin"@, Scalar::Int(c.inject_cluster_width_margin as i64));
    lemma_stands(c, part, from + 11, "inject_cluster_height_margin"@, Scalar::Int(c.inject_cluster_height_margin as i64));
    lemma_stands(c, part, from + 12, "inject_cluster_density"@, Scalar::Int(c.inject_cluster_density as i64));
    lemma_stands(c, part, from + 13, "inject_cluster_viewing_distance"@, Scalar::Int(c.inject_cluster_viewing_distance as i64));
}

/// The settings of the auxiliary display and of the workarounds, each under its key.
pub proof fn law_auxiliary_display_settings_are_written(c: ConfigModel)
    ensures
        writes(c, "inject_cluster_codec_resolution"@, Scalar::Text(c.inject_cluster_codec_resolution)),
        writes(c, "inject_cluster_touch_width"@, Scalar::Int(c.inject_cluster_touch_width as i64)),
        writes(c, "inject_cluster_touch_height"@, Scalar::Int(c.inject_cluster_touch_height as i64)),
        writes(c, "inject_aux_display_id"@, Scalar::Int(c.inject_aux_display_id as i64)),
        writes(c, "inject_aux_width_margin"@, Scalar::Int(c.inject_aux_width_margin as i64)),
        writes(c, "inject_aux_height_margin"@, Scalar::Int(c.inject_aux_height_margin as i64)),
        writes(c, "inject_aux_density"@, Scalar::Int(c.inject_aux_density as i64)),
        writes(c, "inject_aux_viewing_distance"@, Scalar::Int(c.inject_aux_viewing_distance as i64)),
        writes(c, "inject_aux_touch_width"@, Scalar::Int(c.inject_aux_touch_width as i64)),
        writes(c, "inject_aux_touch_height"@, Scalar::Int(c.inject_aux_touch_height as i64)),
        writes(c, "inject_force_focus_without_tap"@, Scalar::Bool(c.inject_force_focus_without_tap)),
        writes(c, "change_usb_order"@, Scalar::Bool(c.change_usb_order)),
        writes(c, "stop_on_disconnect"@, Scalar::Bool(c.stop_on_disconnect)),
        writes(c, "waze_lht_workaround"@, Scalar::Bool(c.waze_lht_workaround)),
{
    let list = lemma_where_part10(c);
    let part = config::with_part10(list, c);
    let from = list.len() as int;
    lemma_stands(c, part, from + 0, "inject_cluster_codec_resolution"@, Scalar::Text(c.inject_cluster_codec_resolution));
    lemma_stands(c, part, from + 1, "inject_cluster_touch_width"@, Scalar::Int(c.inject_cluster_touch_width as i64));
    lemma_stands(c, part, from + 2, "inject_cluster_touch_height"@, Scalar::Int(c.inject_cluster_touch_height as i64));
    lemma_stands(c, part, from + 3, "inject_aux_display_id"@, Scalar::Int(c.inject_aux_display_id as i64));
    lemma_stands(c, part, from + 4, "inject_aux_width_margin"@, Scalar::Int(c.inject_aux_width_margin as i64));
    lemma_stands(c, part, from + 5, "inject_aux_height_margin"@, Scalar::Int(c.inject_aux_height_margin as i64));
    lemma_stands(c, part, from + 6, "inject_aux_density"@, Scalar::Int(c.inject_aux_density as i64));
    lemma_stands(c, part, from + 7, "inject_aux_viewing_distance"@, Scalar::Int(c.inject_aux_viewing_distance as i64));
    lemma_stands(c, part, from + 8, "inject_aux_touch_width"@, Scalar::Int(c.inject_aux_touch_width as i64));
    lemma_stands(c, part, from + 9, "inject_aux_touch_height"@, Scalar::Int(c.inject_aux_touch_height as i64));
    lemma_stands(c, part, from + 10, "inject_force_focus_without_tap"@, Scalar::Bool(c.inject_force_focus_without_tap));
    lemma_stands(c, part, from + 11, "change_usb_order"@, Scalar::Bool(c.change_usb_order));
    lemma_stands(c, part, from + 12, "stop_on_disconnect"@, Scalar::Bool(c.stop_on_disconnect));
    lemma_stands(c, part, from + 13, "waze_lht_workaround"@, Scalar::Bool(c.waze_lht_workaround));
}

/// The settings of the access point and of the version, each under its key.
pub proof fn law_access_point_settings_are_written(c: ConfigModel)
    ensures
        writes(c, "ev_connector_types"@, Scalar::Text(c.ev_connector_types)),
        writes(c, "enable_ssh"@, Scalar::Bool(c.enable_ssh)),
        writes(c, "usb_serial_console"@, Scalar::Bool(c.usb_serial_console)),
        writes(c, "wifi_version"@, Scalar::Int(c.wifi_version as i64)),
        writes(c, "band"@, Scalar::Text(c.band)),
        writes(c, "country_code"@, Scalar::Text(c.country_code)),
        writes(c, "channel"@, Scalar::Int(c.channel as i64)),
        writes(c, "ssid"@, Scalar::Text(c.ssid)),
        writes(c, "wpa_passphrase"@, Scalar::Text(c.wpa_passphrase)),
        writes(c, "eth_mode"@, Scalar::Text(c.eth_mode)),
        writes(c, "startup_delay"@, Scalar::Int(c.startup_delay as i64)),
        writes(c, "protocol_version_override_enabled"@, Scalar::Bool(c.protocol_version_override_enabled)),
        writes(c, "protocol_version_override_major"@, Scalar::Int(c.protocol_version_override_major as i64)),
        writes(c, "protocol_version_override_minor"@, Scalar::Int(c.protocol_version_override_minor as i64)),
{
    let list = lemma_where_part11(c);
    let part = config::with_part11(list, c);
    let from = list.len() as int;
    lemma_stands(c, part, from + 0, "ev_connector_types"@, Scalar::Text(c.ev_connector_types));
    lemma_stands(c, part, from + 1, "enable_ssh"@, Scalar::Bool(c.enable_ssh));
    lemma_stands(c, part, from + 2, "usb_serial_console"@, Scalar::Bool(c.usb_serial_console));
    lemma_stands(c, part, from + 3, "wifi_version"@, Scalar::Int(c.wifi_version as i64));
    lemma_stands(c, part, from + 4, "band"@, Scalar::Text(c.band));
    lemma_stands(c, part, from + 5, "country_code"@, Scalar::Text(c.country_code));
    lemma_stands(c, part, from + 6, "channel"@, Scalar::Int(c.channel as i64));
    lemma_stands(c, part, from + 7, "ssid"@, Scalar::Text(c.ssid));
    lemma_stands(c, part, from + 8, "wpa_passphrase"@, Scalar::Text(c.wpa_passphrase));
    lemma_stands(c, part, from + 9, "eth_mode"@, Scalar::Text(c.eth_mode));
    lemma_stands(c, part, from + 10, "startup_delay"@, Scalar::Int(c.startup_delay as i64));
    lemma_stands(c, part, from + 11, "protocol_version_override_enabled"@, Scalar::Bool(c.protocol_version_override_enabled));
    lemma_stands(c, part, from + 12, "protocol_version_override_major"@, Scalar::Int(c.protocol_version_override_major as i64));
    lemma_stands(c, part, from + 13, "protocol_version_override_minor"@, Scalar::Int(c.protocol_version_override_minor as i64));
}

/// The antenna, each under its key.
pub proof fn law_antenna_is_written(c: ConfigModel)
    ensures
        writes(c, "external_antenna"@, Scalar::Bool(c.external_antenna)),
{
    let list = lemma_where_part12(c);
    let part = config::with_part12(list, c);
    let from = list.len() as int;
    lemma_stands(c, part, from + 0, "external_antenna"@, Scalar::Bool(c.external_antenna));
}

/// The settings of the album art, each under its key.
pub proof fn law_album_art_settings_are_written(c: ConfigModel)
    ensures
        writes(c, "media_wait_for_live_idr"@, Scalar::Bool(c.media_wait_for_live_idr)),
        writes(c, "map_album_art_enabled"@, Scalar::Bool(c.map_album_art_enabled)),
        writes(c, "map_album_art_source"@, Scalar::Text(c.map_album_art_source)),
        writes(c, "map_album_art_file"@, Scalar::Text(c.map_album_art_file)),
        writes(c, "map_album_art_max_bytes"@, Scalar::Int(config::wrapped(c.map_album_art_max_bytes as int))),
        writes(c, "map_album_art_chunk_bytes"@, Scalar::Int(config::wrapped(c.map_album_art_chunk_bytes as int))),
        writes(c, "map_album_art_video_display_id"@, Scalar::Text(c.map_album_art_video_display_id)),
        writes(c, "map_album_art_capture_interval_ms"@, Scalar::Int(config::wrapped(c.map_album_art_capture_interval_ms as int))),
        writes(c, "map_album_art_output_size_px"@, Scalar::Int(c.map_album_art_output_size_px as i64)),
        writes(c, "map_album_art_crop_enabled"@, Scalar::Bool(c.map_album_art_crop_enabled)),
        writes(c, "map_album_art_crop_mode"@, Scalar::Text(c.map_album_art_crop_mode)),
        writes(c, "map_album_art_crop_x"@, Scalar::Int(c.map_album_art_crop_x as i64)),
        writes(c, "map_album_art_crop_y"@, Scalar::Int(c.map_album_art_crop_y as i64)),
        writes(c, "map_album_art_crop_w"@, Scalar::Int(c.map_album_art_crop_w as i64)),
{
    let list = lemma_where_part13(c);
    let part = config::with_part13(list, c);
    let from = list.len() as int;
    lemma_stands(c, part, from + 0, "media_wait_for_live_idr"@, Scalar::Bool(c.media_wait_for_live_idr));
    lemma_stands(c, part, from + 1, "map_album_art_enabled"@, Scalar::Bool(c.map_album_art_enabled));
    lemma_stands(c, part, from + 2, "map_album_art_source"@, Scalar::Text(c.map_album_art_source));
    lemma_stands(c, part, from + 3, "map_album_art_file"@, Scalar::Text(c.map_album_art_file));
    lemma_stands(c, part, from + 4, "map_album_art_max_bytes"@, Scalar::Int(config::wrapped(c.map_album_art_max_bytes as int)));
    lemma_stands(c, part, from + 5, "map_album_art_chunk_bytes"@, Scalar::Int(config::wrapped(c.map_album_art_chunk_bytes as int)));
    lemma_stands(c, part, from + 6, "map_album_art_video_display_id"@, Scalar::Text(c.map_album_art_video_display_id));
    lemma_stands(c, part, from + 7, "map_album_art_capture_interval_ms"@, Scalar::Int(config::wrapped(c.map_album_art_capture_interval_ms as int)));
    lemma_stands(c, part, from + 8, "map_album_art_output_size_px"@, Scalar::Int(c.map_album_art_output_size_px as i64));
    lemma_stands(c, part, from + 9, "map_album_art_crop_enabled"@, Scalar::Bool(c.map_album_art_crop_enabled));
    lemma_stands(c, part, from + 10, "map_album_art_crop_mode"@, Scalar::Text(c.map_album_art_crop_mode));
    lemma_stands(c, part, from + 11, "map_album_art_crop_x"@, Scalar::Int(c.map_album_art_crop_x as i64));
    lemma_stands(c, part, from + 12, "map_album_art_crop_y"@, Scalar::Int(c.map_album_art_crop_y as i64));
    lemma_stands(c, part, from + 13, "map_album_art_crop_w"@, Scalar::Int(c.map_album_art_crop_w as i64));
}

/// The settings of the forecast, each under its key.
pub proof fn law_forecast_settings_are_written(c: ConfigModel)
    ensures
        writes(c, "map_album_art_crop_h"@, Scalar::Int(c.map_album_art_crop_h as i64)),
        writes(c, "map_album_art_duration_tick_enabled"@, Scalar::Bool(c.map_album_art_duration_tick_enabled)),
        writes(c, "map_album_art_ev_text_mode"@, Scalar::Text(c.map_album_art_ev_text_mode)),
        writes(c, "map_album_art_ev_prefix_max_age_ms"@, Scalar::Int(config::wrapped(c.map_album_art_ev_prefix_max_age_ms as int))),
        writes(c, "vehicle_energy_forecast_keep_last_on_null"@, Scalar::Bool(c.vehicle_energy_forecast_keep_last_on_null)),
        writes(c, "collect_speed"@, Scalar::Bool(c.collect_speed)),
        writes(c, "disable_driving_status"@, Scalar::Bool(c.disable_driving_status)),
{
    let list = lemma_where_part14(c);
    let part = config::with_part14(list, c);
    let from = list.len() as int;
    lemma_stands(c, part, from + 0, "map_album_art_crop_h"@, Scalar::Int(c.map_album_art_crop_h as i64));
    lemma_stands(c, part, from + 1, "map_album_art_duration_tick_enabled"@, Scalar::Bool(c.map_album_art_duration_tick_enabled));
    lemma_stands(c, part, from + 2, "map_album_art_ev_text_mode"@, Scalar::Text(c.map_album_art_ev_text_mode));
    lemma_stands(c, part, from + 3, "map_album_art_ev_prefix_max_age_ms"@, Scalar::Int(config::wrapped(c.map_album_art_ev_prefix_max_age_ms as int)));
    lemma_stands(c, part, from + 4, "vehicle_energy_forecast_keep_last_on_null"@, Scalar::Bool(c.vehicle_energy_forecast_keep_last_on_null));
    lemma_stands(c, part, from + 5, "collect_speed"@, Scalar::Bool(c.collect_speed));
    lemma_stands(c, part, from + 6, "disable_driving_status"@, Scalar::Bool(c.disable_driving_status));
}

/// The settings of the audio bridge, each under its key.
pub proof fn law_audio_settings_are_written(c: ConfigModel)
    ensures
        writes(c, "bt_sco"@, Scalar::Bool(c.bt_sco)),
        writes(c, "bt_sco_keep_bluetooth_alive"@, Scalar::Bool(c.bt_sco_keep_bluetooth_alive)),
        writes(c, "bt_sco_media_bridge"@, Scalar::Bool(c.bt_sco_media_bridge)),
        writes(c, "bt_sco_media_bridge_audio_type"@, Scalar::Text(c.bt_sco_media_bridge_audio_type.label())),
        writes(c, "bt_sco_media_bridge_gain_percent"@, Scalar::Int(c.bt_sco_media_bridge_gain_percent as i64)),
        writes(c, "bt_sco_media_bridge_limiter"@, Scalar::Text(c.bt_sco_media_bridge_limiter.label())),
        writes(c, "bt_sco_media_bridge_resampler"@, Scalar::Text(c.bt_sco_media_bridge_resampler.label())),
        writes(c, "bt_sco_media_bridge_ring_capacity"@, Scalar::Int(config::wrapped(c.bt_sco_media_bridge_ring_capacity as int))),
        writes(c, "bt_sco_media_bridge_start_existing"@, Scalar::Bool(c.bt_sco_media_bridge_start_existing)),
        writes(c, "bt_sco_media_bridge_start_on_first_audio"@, Scalar::Bool(c.bt_sco_media_bridge_start_on_first_audio)),
        writes(c, "bt_sco_media_bridge_audio_peak_threshold"@, Scalar::Int(c.bt_sco_media_bridge_audio_peak_threshold as i64)),
        writes(c, "bt_sco_media_bridge_start_timeout_ms"@, Scalar::Int(c.bt_sco_media_bridge_start_timeout_ms as i64)),
        writes(c, "bt_sco_media_bridge_stop_existing_on_disconnect"@, Scalar::Bool(c.bt_sco_media_bridge_stop_existing_on_disconnect)),
        writes(c, "bt_sco_media_bridge_fixed_cadence"@, Scalar::Bool(c.bt_sco_media_bridge_fixed_cadence)),
{
    let list = lemma_where_part15(c);
    let part = config::with_part15(list, c);
    let from = list.len() as int;
    lemma_stands(c, part, from + 0, "bt_sco"@, Scalar::Bool(c.bt_sco));
    lemma_stands(c, part, from + 1, "bt_sco_keep_bluetooth_alive"@, Scalar::Bool(c.bt_sco_keep_bluetooth_alive));
    lemma_stands(c, part, from + 2, "bt_sco_media_bridge"@, Scalar::Bool(c.bt_sco_media_bridge));
    lemma_stands(c, part, from + 3, "bt_sco_media_bridge_audio_type"@, Scalar::Text(c.bt_sco_media_bridge_audio_type.label()));
    lemma_stands(c, part, from + 4, "bt_sco_media_bridge_gain_percent"@, Scalar::Int(c.bt_sco_media_bridge_gain_percent as i64));
    lemma_stands(c, part, from + 5, "bt_sco_media_bridge_limiter"@, Scalar::Text(c.bt_sco_media_bridge_limiter.label()));
    lemma_stands(c, part, from + 6, "bt_sco_media_bridge_resampler"@, Scalar::Text(c.bt_sco_media_bridge_resampler.label()));
    lemma_stands(c, part, from + 7, "bt_sco_media_bridge_ring_capacity"@, Scalar::Int(config::wrapped(c.bt_sco_media_bridge_ring_capacity as int)));
    lemma_stands(c, part, from + 8, "bt_sco_media_bridge_start_existing"@, Scalar::Bool(c.bt_sco_media_bridge_start_existing));
    lemma_stands(c, part, from + 9, "bt_sco_media_bridge_start_on_first_audio"@, Scalar::Bool(c.bt_sco_media_bridge_start_on_first_audio));
    lemma_stands(c, part, from + 10, "bt_sco_media_bridge_audio_peak_threshold"@, Scalar::Int(c.bt_sco_media_bridge_audio_peak_threshold as i64));
    lemma_stands(c, part, from + 11, "bt_sco_media_bridge_start_timeout_ms"@, Scalar::Int(c.bt_sco_media_bridge_start_timeout_ms as i64));
    lemma_stands(c, part, from + 12, "bt_sco_media_bridge_stop_existing_on_disconnect"@, Scalar::Bool(c.bt_sco_media_bridge_stop_existing_on_disconnect));
    lemma_stands(c, part, from + 13, "bt_sco_media_bridge_fixed_cadence"@, Scalar::Bool(c.bt_sco_media_bridge_fixed_cadence));
}

/// The settings of the microphone and of the scripts, each under its key.
pub proof fn law_microphone_settings_are_written(c: ConfigModel)
    ensures
        writes(c, "bt_sco_media_bridge_cadence_ms"@, Scalar::Int(c.bt_sco_media_bridge_cadence_ms as i64)),
        writes(c, "bt_sco_media_bridge_jitter_buffer_ms"@, Scalar::Int(c.bt_sco_media_bridge_jitter_buffer_ms as i64)),
        writes(c, "bt_sco_mic_bridge"@, Scalar::Bool(c.bt_sco_mic_bridge)),
        writes(c, "bt_sco_mic_request"@, Scalar::Bool(c.bt_sco_mic_request)),
        writes(c, "bt_sco_mic_uplink_ring_capacity"@, Scalar::Int(config::wrapped(c.bt_sco_mic_uplink_ring_capacity as int))),
        writes(c, "bt_sco_mic_echo_control"@, Scalar::Text(c.bt_sco_mic_echo_control.label())),
        writes(c, "bt_sco_mic_gain_percent"@, Scalar::Int(c.bt_sco_mic_gain_percent as i64)),
        writes(c, "bt_sco_mic_duck_threshold"@, Scalar::Int(c.bt_sco_mic_duck_threshold as i64)),
        writes(c, "bt_sco_mic_duck_percent"@, Scalar::Int(c.bt_sco_mic_duck_percent as i64)),
        writes(c, "bt_sco_mic_duck_hold_ms"@, Scalar::Int(c.bt_sco_mic_duck_hold_ms as i64)),
        writes(c, "wasm_hooks_dir"@, Scalar::Text(c.wasm_hooks_dir)),
        writes(c, "wasm_script_memory_limit_mb"@, Scalar::Int(c.wasm_script_memory_limit_mb as i64)),
        writes(c, "wasm_script_instance_limit"@, Scalar::Int(c.wasm_script_instance_limit as i64)),
        writes(c, "wasm_script_memory_count_limit"@, Scalar::Int(c.wasm_script_memory_count_limit as i64)),
{
    let list = lemma_where_part16(c);
    let part = config::with_part16(list, c);
    let from = list.len() as int;
    lemma_stands(c, part, from + 0, "bt_sco_media_bridge_cadence_ms"@, Scalar::Int(c.bt_sco_media_bridge_cadence_ms as i64));
    lemma_stands(c, part, from + 1, "bt_sco_media_bridge_jitter_buffer_ms"@, Scalar::Int(c.bt_sco_media_bridge_jitter_buffer_ms as i64));
    lemma_stands(c, part, from + 2, "bt_sco_mic_bridge"@, Scalar::Bool(c.bt_sco_mic_bridge));
    lemma_stands(c, part, from + 3, "bt_sco_mic_request"@, Scalar::Bool(c.bt_sco_mic_request));
    lemma_stands(c, part, from + 4, "bt_sco_mic_uplink_ring_capacity"@, Scalar::Int(config::wrapped(c.bt_sco_mic_uplink_ring_capacity as int)));
    lemma_stands(c, part, from + 5, "bt_sco_mic_echo_control"@, Scalar::Text(c.bt_sco_mic_echo_control.label()));
    lemma_stands(c, part, from + 6, "bt_sco_mic_gain_percent"@, Scalar::Int(c.bt_sco_mic_gain_percent as i64));
    lemma_stands(c, part, from + 7, "bt_sco_mic_duck_threshold"@, Scalar::Int(c.bt_sco_mic_duck_threshold as i64));
    lemma_stands(c, part, from + 8, "bt_sco_mic_duck_percent"@, Scalar::Int(c.bt_sco_mic_duck_percent as i64));
    lemma_stands(c, part, from + 9, "bt_sco_mic_duck_hold_ms"@, Scalar::Int(c.bt_sco_mic_duck_hold_ms as i64));
    lemma_stands(c, part, from + 10, "wasm_hooks_dir"@, Scalar::Text(c.wasm_hooks_dir));
    lemma_stands(c, part, from + 11, "wasm_script_memory_limit_mb"@, Scalar::Int(c.wasm_script_memory_limit_mb as i64));
    lemma_stands(c, part, from + 12, "wasm_script_instance_limit"@, Scalar::Int(c.wasm_script_instance_limit as i64));
    lemma_stands(c, part, from + 13, "wasm_script_memory_count_limit"@, Scalar::Int(c.wasm_script_memory_count_limit as i64));
}

/// The limits of the scripts, each under its key.
pub proof fn law_script_settings_are_written(c: ConfigModel)
    ensures
        writes(c, "wasm_script_table_limit"@, Scalar::Int(c.wasm_script_table_limit as i64)),
        writes(c, "wasm_script_table_elements_limit"@, Scalar::Int(c.wasm_script_table_elements_limit as i64)),
        writes(c, "wasm_script_packet_epoch_deadline"@, Scalar::Int(config::wrapped(c.wasm_script_packet_epoch_deadline as int))),
        writes(c, "wasm_script_lifecycle_epoch_deadline"@, Scalar::Int(config::wrapped(c.wasm_script_lifecycle_epoch_deadline as int))),
{
    let list = lemma_where_part17(c);
    let part = config::with_part17(list, c);
    let from = list.len() as int;
    lemma_stands(c, part, from + 0, "wasm_script_table_limit"@, Scalar::Int(c.wasm_script_table_limit as i64));
    lemma_stands(c, part, from + 1, "wasm_script_table_elements_limit"@, Scalar::Int(c.wasm_script_table_elements_limit as i64));
    lemma_stands(c, part, from + 2, "wasm_script_packet_epoch_deadline"@, Scalar::Int(config::wrapped(c.wasm_script_packet_epoch_deadline as int)));
    lemma_stands(c, part, from + 3, "wasm_script_lifecycle_epoch_deadline"@, Scalar::Int(config::wrapped(c.wasm_script_lifecycle_epoch_deadline as int)));
}

/// What may be left out is written where it is set.
pub proof fn law_optional_settings_are_written(c: ConfigModel)
    ensures
        c.udc is Some ==> writes(c, "udc"@, Scalar::Text(c.udc->0)),
        c.btalias is Some ==> writes(c, "btalias"@, Scalar::Text(c.btalias->0)),
        c.webserver is Some ==> writes(c, "webserver"@, Scalar::Text(c.webserver->0)),
        c.ev_battery_logger is Some ==> writes(c, "ev_battery_logger"@, Scalar::Text(c.ev_battery_logger->0)),
        c.media_dump_base_port is Some ==> writes(c, "media_dump_base_port"@, Scalar::Int(c.media_dump_base_port->0 as i64)),
        c.hu_button_handler is Some ==> writes(c, "hu_button_handler"@, Scalar::Text(c.hu_button_handler->0)),
{
    lemma_parts(c);
    if c.udc is Some {
        let list = choose|list: Seq<SettingModel>| #[trigger]
            extends(config::with_text(list, "udc"@, c.udc), config::settings_of(c));
        let part = config::with_text(list, "udc"@, c.udc);
        lemma_stands(c, part, list.len() as int, "udc"@, Scalar::Text(c.udc->0));
    }
    if c.btalias is Some {
        let list = choose|list: Seq<SettingModel>| #[trigger]
            extends(config::with_text(list, "btalias"@, c.btalias), config::settings_of(c));
        let part = config::with_text(list, "btalias"@, c.btalias);
        lemma_stands(c, part, list.len() as int, "btalias"@, Scalar::Text(c.btalias->0));
    }
    if c.webserver is Some {
        let list = choose|list: Seq<SettingModel>| #[trigger]
            extends(config::with_text(list, "webserver"@, c.webserver), config::settings_of(c));
        let part = config::with_text(list, "webserver"@, c.webserver);
        lemma_stands(c, part, list.len() as int, "webserver"@, Scalar::Text(c.webserver->0));
    }
    if c.ev_battery_logger is Some {
        let list = choose|list: Seq<SettingModel>| #[trigger]
            extends(config::with_text(list, "ev_battery_logger"@, c.ev_battery_logger), config::settings_of(c));
        let part = config::with_text(list, "ev_battery_logger"@, c.ev_battery_logger);
        lemma_stands(c, part, list.len() as int, "ev_battery_logger"@, Scalar::Text(c.ev_battery_logger->0));
    }
    if c.media_dump_base_port is Some {
        let list = choose|list: Seq<SettingModel>| #[trigger]
            extends(config::with_port(list, "media_dump_base_port"@, c.media_dump_base_port), config::settings_of(c));
        let part = config::with_port(list, "media_dump_base_port"@, c.media_dump_base_port);
        lemma_stands(c, part, list.len() as int, "media_dump_base_port"@, Scalar::Int(c.media_dump_base_port->0 as i64));
    }
    if c.hu_button_handler is Some {
        let list = choose|list: Seq<SettingModel>| #[trigger]
            extends(config::with_text(list, "hu_button_handler"@, c.hu_button_handler), config::settings_of(c));
        let part = config::with_text(list, "hu_button_handler"@, c.hu_button_handler);
        lemma_stands(c, part, list.len() as int, "hu_button_handler"@, Scalar::Text(c.hu_button_handler->0));
    }
}

/// The proxy between phone and head unit is off at first, whatever the device.
pub proof fn law_proxy_is_off_at_first(iw: Seq<char>, given: GivenDefaults<Seq<char>>)
    ensures
        ({
            let d = config::default_config(iw, given);
            &&& !d.bt_wireless_proxy
            &&& d.bt_wireless_proxy_mode == "car-wifi-mitm"@
            &&& d.bt_wireless_proxy_hu_mac.len() == 0
            &&& d.bt_wireless_proxy_pairing_window_secs == 120
            &&& !d.bt_wireless_proxy_phone_like_pairing
            &&& d.bt_wireless_proxy_phone_like_pairing_alias == "AndroidAuto"@
            &&& d.bt_wireless_proxy_phone_like_pairing_class == "0x00020C"@
            &&& !d.bt_wireless_proxy_phone_like_sdp_profiles
            &&& d.bt_wireless_proxy_phone_like_sdp_profile_set == "minimal"@
            &&& d.bt_wireless_proxy_rendezvous_mode == "auto"@
            &&& d.bt_wireless_proxy_hu_first_wait_phone_secs == 30
            &&& d.bt_wireless_proxy_hu_channel is None
            &&& d.bt_wireless_proxy_tcp_probe
            &&& d.bt_wireless_proxy_car_wifi_base_iface == "wlan0"@
            &&& d.bt_wireless_proxy_car_wifi_join_cmd.len() == 0
            &&& !d.bt_wireless_proxy_car_wifi_auto_join
            &&& d.bt_wireless_proxy_wifi_join_control == "auto"@
            &&& d.bt_wireless_proxy_wpactrl_socket_timeout_secs == 12
            &&& d.bt_wireless_proxy_wifi_association_timeout_secs == 30
            &&& d.bt_wireless_proxy_dhcp_timeout_secs == 30
            &&& !d.bt_wireless_proxy_car_wifi_keep_ap
            &&& d.bt_wireless_proxy_car_wifi_sta_iface.len() == 0
            &&& d.bt_wireless_proxy_car_wifi_sta_phy.len() == 0
            &&& d.bt_wireless_proxy_car_wifi_ap_iface.len() == 0
            &&& d.bt_wireless_proxy_phone_wifi_mode == "car_ap"@
            &&& d.bt_wireless_proxy_rewrite_ip.len() == 0
            &&& d.bt_wireless_proxy_listen_port == 5288
            &&& d.bt_wireless_proxy_use_version_projection_fallback
            &&& !d.bt_wireless_proxy_wpp_keepalive
            &&& d.bt_wireless_proxy_wpp_keepalive_interval_ms == 2000
        }),
{
}

/// Nothing but the usual is logged at first, whatever the device.
pub proof fn law_logging_is_off_at_first(iw: Seq<char>, given: GivenDefaults<Seq<char>>)
    ensures
        ({
            let d = config::default_config(iw, given);
            &&& !d.debug
            &&& !d.pkt_debug
            &&& d.hexdump_level == "Disabled"@
            &&& !d.disable_console_debug
            &&& !d.pkt_debug_filter_enabled
            &&& d.pkt_debug_filter_proxy == "both"@
            &&& d.pkt_debug_filter_stages.len() == 0
            &&& d.pkt_debug_filter_service_kinds.len() == 0
            &&& d.pkt_debug_filter_channels.len() == 0
            &&& d.pkt_debug_filter_exclude_channels.len() == 0
            &&& d.pkt_debug_filter_message_ids.len() == 0
            &&& d.pkt_debug_filter_exclude_message_ids.len() == 0
            &&& d.pkt_debug_filter_pretty_proto
            &&& d.pkt_debug_filter_max_payload_bytes == 2048
            &&& !d.pkt_debug_full_frame_enabled
            &&& d.logfile == "/var/log/aa-proxy-rs.log"@
            &&& d.crash_handler_enabled
            &&& d.crash_dir == "/data/aa-proxy-rs/crashes"@
            &&& d.stats_interval == 0
        }),
{
}

/// No display is injected at first, whatever the device.
pub proof fn law_displays_have_defaults(iw: Seq<char>, given: GivenDefaults<Seq<char>>)
    ensures
        ({
            let d = config::default_config(iw, given);
            &&& d.sdr_ui_override_enabled
            &&& d.sdr_ui_override_autocreate_profiles
            &&& d.sdr_ui_override_file == "/etc/aa-proxy-rs/sdr-ui-overrides.toml"@
            &&& d.inject_displays_file == "/etc/aa-proxy-rs/inject-displays.toml"@
            &&& d.inject_display_types == given.inject_display_types
            &&& !d.inject_add_input_sources
            &&& d.inject_cluster_display_id == 1
            &&& d.inject_cluster_width_margin == 270
            &&& d.inject_cluster_height_margin == 344
            &&& d.inject_cluster_density == 180
            &&& d.inject_cluster_viewing_distance == 100
            &&& d.inject_cluster_codec_resolution == given.inject_cluster_codec_resolution
            &&& d.inject_cluster_touch_width == 1280
            &&& d.inject_cluster_touch_height == 720
            &&& d.inject_aux_display_id == 2
            &&& d.inject_aux_width_margin == 0
            &&& d.inject_aux_height_margin == 0
            &&& d.inject_aux_density == 160
            &&& d.inject_aux_viewing_distance == 300
            &&& d.inject_aux_touch_width == 1280
            &&& d.inject_aux_touch_height == 720
            &&& !d.inject_force_focus_without_tap
        }),
{
}

/// The album art at first, whatever the device.
pub proof fn law_album_art_has_defaults(iw: Seq<char>, given: GivenDefaults<Seq<char>>)
    ensures
        ({
            let d = config::default_config(iw, given);
            &&& !d.map_album_art_enabled
            &&& d.map_album_art_source == "file"@
            &&& d.map_album_art_file == "/data/aa-proxy-rs/map-album-art.png"@
            &&& d.map_album_art_max_bytes == 0
            &&& d.map_album_art_chunk_bytes == 16_120
            &&& d.map_album_art_video_display_id == "aux-1"@
            &&& d.map_album_art_capture_interval_ms == 2_000
            &&& d.map_album_art_output_size_px == 256
            &&& d.map_album_art_crop_enabled
            &&& d.map_album_art_crop_mode == "percent"@
            &&& d.map_album_art_crop_x == 30
            &&& d.map_album_art_crop_y == 20
            &&& d.map_album_art_crop_w == 40
            &&& d.map_album_art_crop_h == 40
            &&& !d.map_album_art_duration_tick_enabled
            &&& d.map_album_art_ev_text_mode == "album_art"@
            &&& d.map_album_art_ev_prefix_max_age_ms == 0
        }),
{
}

/// The audio bridge at first, whatever the device.
pub proof fn law_audio_has_defaults(iw: Seq<char>, given: GivenDefaults<Seq<char>>)
    ensures
        ({
            let d = config::default_config(iw, given);
            &&& !d.bt_sco
            &&& d.bt_sco_keep_bluetooth_alive
            &&& !d.bt_sco_media_bridge
            &&& d.bt_sco_media_bridge_audio_type == BtScoMediaBridgeAudioType::Media
            &&& d.bt_sco_media_bridge_gain_percent == 300
            &&& d.bt_sco_media_bridge_limiter == BtScoMediaBridgeLimiter::Off
            &&& d.bt_sco_media_bridge_resampler == BtScoMediaBridgeResampler::Repeat
            &&& d.bt_sco_media_bridge_ring_capacity == 128
            &&& d.bt_sco_media_bridge_start_existing
            &&& d.bt_sco_media_bridge_start_on_first_audio
            &&& d.bt_sco_media_bridge_audio_peak_threshold == 256
            &&& d.bt_sco_media_bridge_start_timeout_ms == 5000
            &&& d.bt_sco_media_bridge_stop_existing_on_disconnect
            &&& !d.bt_sco_media_bridge_fixed_cadence
            &&& d.bt_sco_media_bridge_cadence_ms == 22
            &&& d.bt_sco_media_bridge_jitter_buffer_ms == 60
            &&& !d.bt_sco_mic_bridge
            &&& d.bt_sco_mic_request
            &&& d.bt_sco_mic_uplink_ring_capacity == 256
            &&& d.bt_sco_mic_echo_control == BtScoMicEchoControl::Ducking
            &&& d.bt_sco_mic_gain_percent == 100
            &&& d.bt_sco_mic_duck_threshold == 700
            &&& d.bt_sco_mic_duck_percent == 35
            &&& d.bt_sco_mic_duck_hold_ms == 180
        }),
{
}

/// The limits of scripts at first, whatever the device.
pub proof fn law_scripts_have_defaults(iw: Seq<char>, given: GivenDefaults<Seq<char>>)
    ensures
        ({
            let d = config::default_config(iw, given);
            &&& d.wasm_hooks_dir == "/data/wasm-hooks"@
            &&& d.wasm_script_memory_limit_mb == 5
            &&& d.wasm_script_instance_limit == 16
            &&& d.wasm_script_memory_count_limit == 4
            &&& d.wasm_script_table_limit == 8
            &&& d.wasm_script_table_elements_limit == 512
            &&& d.wasm_script_packet_epoch_deadline == 100
            &&& d.wasm_script_lifecycle_epoch_deadline == 1000
        }),
{
}

/// All other settings at first, whatever the device.
pub proof fn law_rest_has_defaults(iw: Seq<char>, given: GivenDefaults<Seq<char>>)
    ensures
        ({
            let d = config::default_config(iw, given);
            &&& d.advertise
            &&& d.enable_companion_bt
            &&& d.companion_bt_auth_required
            &&& d.companion_bt_auth_token.len() == 0
            &&& !d.dongle_mode
            &&& d.preload_kernel_modules.len() == 0
            &&& d.kernel_module_path == "/data/aa-proxy-rs/firmware"@
            &&& d.legacy
            &&& !d.usb_gadget_require_accessory_start
            &&& !d.usb_gadget_rearm_on_disconnect
            &&& d.usb_gadget_rearm_cooldown_ms == 1500
            &&& !d.quick_reconnect
            &&& !d.bt_poweroff
            &&& d.connect == given.connect
            &&& d.udc is None
            &&& d.iface == "wlan0"@
            &&& d.wlan_subnet == "10.0.0"@
            &&& d.btalias is None
            &&& d.timeout_secs == 10
            &&& d.webserver == Some("0.0.0.0:80"@)
            &&& d.bt_timeout_secs == 120
            &&& !d.mitm
            &&& d.dpi == 0
            &&& d.audio_max_unacked == 0
            &&& d.add_vendor_channel
            &&& !d.remove_tap_restriction
            &&& !d.video_in_motion
            &&& !d.disable_media_sink
            &&& !d.disable_tts_sink
            &&& !d.developer_mode
            &&& d.wired is None
            &&& !d.dhu
            &&& d.aa_server_tcp_addr.len() == 0
            &&& !d.ev
            &&& !d.odometer
            &&& !d.tire_pressure
            &&& !d.remove_bluetooth
            &&& !d.bt_real_hu_passthrough_enabled
            &&& d.bt_real_hu_passthrough_address.len() == 0
            &&& !d.bt_a2dp_sink_enabled
            &&& !d.remove_wifi
            &&& !d.change_usb_order
            &&& !d.stop_on_disconnect
            &&& !d.waze_lht_workaround
            &&& d.ev_battery_logger is None
            &&& d.ev_connector_types == given.ev_connector_types
            &&& d.enable_ssh
            &&& !d.usb_serial_console
            &&& d.country_code == "US"@
            &&& d.ssid == "aa-proxy"@
            &&& d.wpa_passphrase == "aa-proxy"@
            &&& d.eth_mode.len() == 0
            &&& d.startup_delay == 0
            &&& !d.protocol_version_override_enabled
            &&& d.protocol_version_override_major == 5
            &&& d.protocol_version_override_minor == 1
            &&& !d.external_antenna
            &&& d.media_dump_base_port is None
            &&& d.media_wait_for_live_idr
            &&& d.vehicle_energy_forecast_keep_last_on_null
            &&& !d.collect_speed
            &&& !d.disable_driving_status
            &&& d.hu_button_handler is None
            &&& d.action_requested is None
            &&& !d.runtime_mitm_failed
        }),
{
}

/// The network is on channel 36 of the five gigahertz band where the device has
/// it, and on channel 6 of the other band where it has not; its generation is
/// the newest of the device, and the first where none is known.
pub proof fn law_network_suits_the_device(iw: Seq<char>, given: GivenDefaults<Seq<char>>)
    ensures
        ({
            let d = config::default_config(iw, given);
            let fast = config::some_line_holds(iw, "5180.0 MHz"@);
            &&& fast ==> d.band == "5"@ && d.channel == 36
            &&& !fast ==> d.band == "2.4"@ && d.channel == 6
            &&& config::latest_wifi_version(iw) is Some ==> d.wifi_version
                == config::latest_wifi_version(iw)->0
            &&& config::latest_wifi_version(iw) is None ==> d.wifi_version == 1
        }),
{
}

} // verus!
