//! The Bluetooth services that a phone is expected to offer.

use crate::sdp;
use crate::text;
use vstd::prelude::*;

verus! {

pub const HSP_HS_UUID: u128 = 0x0000110800001000800000805f9b34fb;

pub const HSP_AG_UUID: u128 = 0x0000111200001000800000805f9b34fb;

pub const SDP_OBEX_OBJECT_PUSH_UUID: u128 = 0x0000110500001000800000805f9b34fb;

pub const SDP_AUDIO_SOURCE_UUID: u128 = 0x0000110a00001000800000805f9b34fb;

pub const SDP_AUDIO_SINK_UUID: u128 = 0x0000110b00001000800000805f9b34fb;

pub const SDP_AVRCP_TARGET_UUID: u128 = 0x0000110c00001000800000805f9b34fb;

pub const SDP_AVRCP_REMOTE_UUID: u128 = 0x0000110e00001000800000805f9b34fb;

pub const SDP_AVRCP_CONTROLLER_UUID: u128 = 0x0000110f00001000800000805f9b34fb;

pub const SDP_PANU_UUID: u128 = 0x0000111500001000800000805f9b34fb;

pub const SDP_NAP_UUID: u128 = 0x0000111600001000800000805f9b34fb;

pub const SDP_HANDSFREE_AG_UUID: u128 = 0x0000111f00001000800000805f9b34fb;

pub const SDP_PHONEBOOK_ACCESS_SERVER_UUID: u128 = 0x0000112f00001000800000805f9b34fb;

pub const SDP_MESSAGE_ACCESS_SERVER_UUID: u128 = 0x0000113200001000800000805f9b34fb;

pub const SDP_PNP_INFORMATION_UUID: u128 = 0x0000120000001000800000805f9b34fb;

/// A service that is announced; nothing stands behind it.
pub struct Profile<T> {
    pub uuid: u128,
    pub name: T,
    pub tag: T,
}

pub type PhoneLikeSdpProfileSpec = Profile<&'static str>;

impl DeepView for Profile<&'static str> {
    type V = Profile<Seq<char>>;

    open spec fn deep_view(&self) -> Profile<Seq<char>> {
        Profile { uuid: self.uuid, name: self.name@, tag: self.tag@ }
    }
}

pub open spec fn profile(uuid: u128, name: Seq<char>, tag: Seq<char>) -> Profile<Seq<char>> {
    Profile { uuid, name, tag }
}

/// What every phone offers.
pub open spec fn minimal_profiles() -> Seq<Profile<Seq<char>>> {
    seq![
        profile(SDP_HANDSFREE_AG_UUID, "Handsfree Audio Gateway"@, "hfp_ag"@),
        profile(SDP_PHONEBOOK_ACCESS_SERVER_UUID, "Phonebook Access Server"@, "pbap_server"@),
        profile(SDP_MESSAGE_ACCESS_SERVER_UUID, "Message Access Server"@, "map_server"@),
        profile(SDP_OBEX_OBJECT_PUSH_UUID, "OBEX Object Push"@, "opp"@),
        profile(SDP_AUDIO_SOURCE_UUID, "Audio Source"@, "a2dp_source"@),
        profile(SDP_AVRCP_TARGET_UUID, "A/V Remote Control Target"@, "avrcp_target"@),
    ]
}

/// What a phone offers besides.
pub open spec fn further_profiles() -> Seq<Profile<Seq<char>>> {
    seq![
        profile(HSP_AG_UUID, "Headset Audio Gateway"@, "hsp_ag"@),
        profile(SDP_AVRCP_REMOTE_UUID, "A/V Remote Control"@, "avrcp_remote"@),
        profile(SDP_AVRCP_CONTROLLER_UUID, "A/V Remote Control Controller"@, "avrcp_controller"@),
        profile(SDP_PANU_UUID, "PANU"@, "panu"@),
        profile(SDP_NAP_UUID, "NAP"@, "nap"@),
        profile(SDP_PNP_INFORMATION_UUID, "PnP Information"@, "pnp"@),
    ]
}

pub open spec fn is_full_set(profile_set: Seq<char>) -> bool {
    let s = text::lower(text::trimmed(profile_set));
    s == "full"@ || s == "android"@ || s == "phone"@
}

/// The services of a set. A set that is not known is the minimal one.
pub open spec fn profiles_of(profile_set: Seq<char>) -> Seq<Profile<Seq<char>>> {
    if is_full_set(profile_set) {
        minimal_profiles() + further_profiles()
    } else {
        minimal_profiles()
    }
}

fn push_profile(
    specs: &mut Vec<PhoneLikeSdpProfileSpec>,
    uuid: u128,
    name: &'static str,
    tag: &'static str,
)
    ensures
        final(specs).deep_view() == old(specs).deep_view().push(profile(uuid, name@, tag@)),
{
    let ghost before = specs.deep_view();
    specs.push(Profile { uuid, name, tag });
    assert(specs.deep_view() =~= before.push(profile(uuid, name@, tag@)));
}

fn push_further(specs: &mut Vec<PhoneLikeSdpProfileSpec>)
    ensures
        final(specs).deep_view() == old(specs).deep_view() + further_profiles(),
{
    let ghost before = specs.deep_view();
    push_profile(specs, HSP_AG_UUID, "Headset Audio Gateway", "hsp_ag");
    push_profile(specs, SDP_AVRCP_REMOTE_UUID, "A/V Remote Control", "avrcp_remote");
    push_profile(specs, SDP_AVRCP_CONTROLLER_UUID, "A/V Remote Control Controller", "avrcp_controller");
    push_profile(specs, SDP_PANU_UUID, "PANU", "panu");
    push_profile(specs, SDP_NAP_UUID, "NAP", "nap");
    push_profile(specs, SDP_PNP_INFORMATION_UUID, "PnP Information", "pnp");
    assert(specs.deep_view() =~= before + further_profiles());
}

pub fn phone_like_sdp_profile_specs(profile_set: &str) -> (r: Vec<PhoneLikeSdpProfileSpec>)
    ensures
        r.deep_view() == profiles_of(profile_set@),
{
    let mut specs: Vec<PhoneLikeSdpProfileSpec> = Vec::new();
    push_profile(&mut specs, SDP_HANDSFREE_AG_UUID, "Handsfree Audio Gateway", "hfp_ag");
    push_profile(&mut specs, SDP_PHONEBOOK_ACCESS_SERVER_UUID, "Phonebook Access Server", "pbap_server");
    push_profile(&mut specs, SDP_MESSAGE_ACCESS_SERVER_UUID, "Message Access Server", "map_server");
    push_profile(&mut specs, SDP_OBEX_OBJECT_PUSH_UUID, "OBEX Object Push", "opp");
    push_profile(&mut specs, SDP_AUDIO_SOURCE_UUID, "Audio Source", "a2dp_source");
    push_profile(&mut specs, SDP_AVRCP_TARGET_UUID, "A/V Remote Control Target", "avrcp_target");
    assert(specs.deep_view() =~= minimal_profiles());
    let set = text::to_ascii_lowercase(text::trim(profile_set));
    if text::same(set.as_str(), "full") || text::same(set.as_str(), "android") || text::same(
        set.as_str(),
        "phone",
    ) {
        push_further(&mut specs);
    }
    specs
}

/// No service is announced twice, and never that of Android Auto, which is
/// announced on its own.
pub proof fn law_profiles_are_distinct(profile_set: Seq<char>)
    ensures
        forall|i: int, j: int|
            0 <= i < j < profiles_of(profile_set).len() ==> (#[trigger] profiles_of(
                profile_set,
            )[i]).uuid != (#[trigger] profiles_of(profile_set)[j]).uuid,
        forall|i: int|
            0 <= i < profiles_of(profile_set).len() ==> (#[trigger] profiles_of(
                profile_set,
            )[i]).uuid != sdp::AAWG_PROFILE_UUID,
{
}

/// Whatever the set, the six services that every phone offers come first, in
/// this order.
pub proof fn law_every_phone_offers_these(profile_set: Seq<char>)
    ensures
        ({
            let got = profiles_of(profile_set);
            &&& got.len() == 6 || got.len() == 12
            &&& got[0] == profile(0x0000111f00001000800000805f9b34fb, "Handsfree Audio Gateway"@, "hfp_ag"@)
            &&& got[1] == profile(0x0000112f00001000800000805f9b34fb, "Phonebook Access Server"@, "pbap_server"@)
            &&& got[2] == profile(0x0000113200001000800000805f9b34fb, "Message Access Server"@, "map_server"@)
            &&& got[3] == profile(0x0000110500001000800000805f9b34fb, "OBEX Object Push"@, "opp"@)
            &&& got[4] == profile(0x0000110a00001000800000805f9b34fb, "Audio Source"@, "a2dp_source"@)
            &&& got[5] == profile(0x0000110c00001000800000805f9b34fb, "A/V Remote Control Target"@, "avrcp_target"@)
        }),
{
}

/// The words `full`, `android` and `phone`, in any letters and with any white
/// space around them, stand for six services more; every other word stands for
/// none.
pub proof fn law_full_set_offers_more(profile_set: Seq<char>)
    ensures
        ({
            let word = text::lower(text::trimmed(profile_set));
            let got = profiles_of(profile_set);
            &&& (word == "full"@ || word == "android"@ || word == "phone"@) <==> got.len() == 12
            &&& !(word == "full"@ || word == "android"@ || word == "phone"@) <==> got.len() == 6
        }),
        profiles_of(profile_set).len() == 12 ==> ({
            let got = profiles_of(profile_set);
            &&& got[6] == profile(0x0000111200001000800000805f9b34fb, "Headset Audio Gateway"@, "hsp_ag"@)
            &&& got[7] == profile(0x0000110e00001000800000805f9b34fb, "A/V Remote Control"@, "avrcp_remote"@)
            &&& got[8] == profile(0x0000110f00001000800000805f9b34fb, "A/V Remote Control Controller"@, "avrcp_controller"@)
            &&& got[9] == profile(0x0000111500001000800000805f9b34fb, "PANU"@, "panu"@)
            &&& got[10] == profile(0x0000111600001000800000805f9b34fb, "NAP"@, "nap"@)
            &&& got[11] == profile(0x0000120000001000800000805f9b34fb, "PnP Information"@, "pnp"@)
        }),
{
}

} // verus!
