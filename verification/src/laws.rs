use vstd::prelude::*;

use crate::encoding::base64_encode;
use crate::hls::hls_output_dir_text;
use crate::server::{hls_mount_path_text, HLS_ROUTE_PREFIX};
use crate::hls::HLS_BASE_PATH;
use crate::onvif::{fault_reason, profile_token_of, xaddr_of, FAULT, FAULT_TEXT, PROFILES, TOKEN, UNKNOWN_ERROR, XADDR};
use crate::soap::{NS_MEDIA, NS_SCHEMA};
use crate::xml::{
    attribute_named, child_tagged, descends_from, first_match, has_tag, lemma_first_match_bounds,
    lemma_first_match_is, named, named_below, parsed_xml, tagged, XmlNodeView,
};
use crate::auth::{entropy_stamp, entropy_works, RequestEntropy};
use crate::config::CameraConfig;
use crate::onvif::{
    on_response_result, ptz_move_result, ptz_stop_result, start_connect_result, ConnectStep,
    OnvifClient, OnvifConnect, SoapRequest, MEDIA_SERVICE, PTZ_SERVICE,
};
use crate::address::{device_service_url_text, parsed_url};
use crate::error::OnvifError;

verus! {

/// The address found for a service is the text of an `XAddr` element (ONVIF
/// schema namespace) that is a direct child of the first element of that
/// service in the document.
pub proof fn law_xaddr_is_child_of_first_service_element(nodes: Seq<XmlNodeView>, service: Seq<char>)
    ensures
        xaddr_of(nodes, service) matches Some(url) ==> exists|s: int, x: int| {
            &&& 0 <= s < nodes.len()
            &&& 0 <= x < nodes.len()
            &&& has_tag(nodes[s], service, NS_SCHEMA@)
            &&& (forall|i: int| 0 <= i < s ==> !has_tag(#[trigger] nodes[i], service, NS_SCHEMA@))
            &&& nodes[x].parent == Some(s as usize)
            &&& has_tag(nodes[x], XADDR@, NS_SCHEMA@)
            &&& nodes[x].text == Some(url)
        },
{
    let len = nodes.len() as int;
    let svc = tagged(nodes, service, NS_SCHEMA@);
    lemma_first_match_bounds(0, len, svc);
    if let Some(s) = first_match(0, len, svc) {
        let child = child_tagged(nodes, s, XADDR@, NS_SCHEMA@);
        lemma_first_match_bounds(0, len, child);
        if let Some(x) = first_match(0, len, child) {
            assert forall|i: int| 0 <= i < s implies !has_tag(#[trigger] nodes[i], service, NS_SCHEMA@) by {
                assert(!svc(i));
            }
            assert(child(x));
            if let Some(url) = xaddr_of(nodes, service) {
                assert(nodes[x].text == Some(url));
            }
        }
    }
}

/// No address is found for a service of which the document has no element.
pub proof fn law_xaddr_absent_without_service_element(nodes: Seq<XmlNodeView>, service: Seq<char>)
    requires
        forall|i: int| 0 <= i < nodes.len() ==> !has_tag(#[trigger] nodes[i], service, NS_SCHEMA@),
    ensures
        xaddr_of(nodes, service) is None,
{
    let len = nodes.len() as int;
    let svc = tagged(nodes, service, NS_SCHEMA@);
    lemma_first_match_bounds(0, len, svc);
    if let Some(s) = first_match(0, len, svc) {
        assert(svc(s));
        assert(!has_tag(nodes[s], service, NS_SCHEMA@));
    }
}

/// The profile token is the value of the first `token` attribute of the
/// first `Profiles` element (ONVIF media namespace) of the document.
pub proof fn law_profile_token_of_first_profile(nodes: Seq<XmlNodeView>)
    ensures
        profile_token_of(nodes) matches Some(token) ==> exists|p: int, k: int| {
            &&& 0 <= p < nodes.len()
            &&& has_tag(nodes[p], PROFILES@, NS_MEDIA@)
            &&& (forall|i: int| 0 <= i < p ==> !has_tag(#[trigger] nodes[i], PROFILES@, NS_MEDIA@))
            &&& 0 <= k < nodes[p].attributes.len()
            &&& nodes[p].attributes[k] == (TOKEN@, token)
        },
{
    let len = nodes.len() as int;
    let prof = tagged(nodes, PROFILES@, NS_MEDIA@);
    lemma_first_match_bounds(0, len, prof);
    if let Some(p) = first_match(0, len, prof) {
        let attrs = nodes[p].attributes;
        let tok = attribute_named(attrs, TOKEN@);
        lemma_first_match_bounds(0, attrs.len() as int, tok);
        if let Some(k) = first_match(0, attrs.len() as int, tok) {
            assert forall|i: int| 0 <= i < p implies !has_tag(#[trigger] nodes[i], PROFILES@, NS_MEDIA@) by {
                assert(!prof(i));
            }
            assert(tok(k));
            assert(attrs[k] == (attrs[k].0, attrs[k].1));
        }
    }
}

/// A response is reported as a fault exactly when one of its nodes is named
/// `Fault`, whatever its namespace.
pub proof fn law_fault_iff_fault_node(nodes: Seq<XmlNodeView>)
    ensures
        fault_reason(nodes) is Some <==> exists|i: int| 0 <= i < nodes.len() && #[trigger] nodes[i].name == FAULT@,
{
    let len = nodes.len() as int;
    let fault = named(nodes, FAULT@);
    lemma_first_match_bounds(0, len, fault);
    if let Some(f) = first_match(0, len, fault) {
        assert(fault(f));
    } else {
        assert forall|i: int| 0 <= i < len implies #[trigger] nodes[i].name != FAULT@ by {
            assert(!fault(i));
        }
    }
}

/// The reason of a fault is either `unknown error` or the text of a node
/// named `Text` inside the first `Fault` node.
pub proof fn law_fault_reason_comes_from_the_fault(nodes: Seq<XmlNodeView>)
    ensures
        fault_reason(nodes) matches Some(reason) ==> reason == UNKNOWN_ERROR@ || exists|f: int, k: int| {
            &&& 0 <= f <= k < nodes.len()
            &&& nodes[f].name == FAULT@
            &&& (forall|i: int| 0 <= i < f ==> #[trigger] nodes[i].name != FAULT@)
            &&& descends_from(nodes, k, f)
            &&& nodes[k].name == FAULT_TEXT@
            &&& nodes[k].text == Some(reason)
        },
{
    let len = nodes.len() as int;
    let fault = named(nodes, FAULT@);
    lemma_first_match_bounds(0, len, fault);
    if let Some(f) = first_match(0, len, fault) {
        let below = named_below(nodes, f, FAULT_TEXT@);
        lemma_first_match_bounds(f, len, below);
        assert forall|i: int| 0 <= i < f implies #[trigger] nodes[i].name != FAULT@ by {
            assert(!fault(i));
        }
        assert(fault(f));
        if let Some(k) = first_match(f, len, below) {
            assert(below(k));
        }
    }
}

/// Each camera's HLS output is served under `/hls/<name>` from the very
/// directory, `hls/<name>`, that its writer fills (for a name that is not an
/// absolute path).
pub proof fn law_hls_served_from_written_dir(camera_name: Seq<char>)
    requires
        !(camera_name.len() > 0 && camera_name[0] == '/'),
    ensures
        hls_mount_path_text(camera_name) == "/"@ + hls_output_dir_text(camera_name),
{
    reveal_strlit("/hls/");
    reveal_strlit("hls");
    reveal_strlit("/");
    assert(hls_mount_path_text(camera_name) =~= "/"@ + hls_output_dir_text(camera_name));
}

/// Standard Base64 turns every started group of three bytes into four
/// characters: the 16-byte nonce travels as 24 characters and the 20-byte
/// SHA-1 digest as 28.
pub proof fn law_base64_length(bytes: Seq<u8>)
    ensures
        base64_encode(bytes).len() == 4 * ((bytes.len() + 2) / 3),
    decreases bytes.len(),
{
    if bytes.len() >= 3 {
        law_base64_length(bytes.subrange(3, bytes.len() as int));
    }
}

/// Completeness of the address lookup: where `s` is the first element of
/// the service (schema namespace) and `x` is its first `XAddr` child (schema
/// namespace), whatever other children come before it, the address found is
/// the text of `x`.
pub proof fn law_xaddr_found_when_present(nodes: Seq<XmlNodeView>, service: Seq<char>, s: int, x: int)
    requires
        0 <= s < nodes.len(),
        has_tag(nodes[s], service, NS_SCHEMA@),
        forall|i: int| 0 <= i < s ==> !has_tag(#[trigger] nodes[i], service, NS_SCHEMA@),
        0 <= x < nodes.len(),
        nodes[x].parent == Some(s as usize),
        has_tag(nodes[x], XADDR@, NS_SCHEMA@),
        forall|j: int| 0 <= j < x ==> !(#[trigger] nodes[j].parent == Some(s as usize) && has_tag(nodes[j], XADDR@, NS_SCHEMA@)),
    ensures
        xaddr_of(nodes, service) == nodes[x].text,
{
    let len = nodes.len() as int;
    let svc = tagged(nodes, service, NS_SCHEMA@);
    assert forall|i: int| 0 <= i < s implies !#[trigger] svc(i) by {
        assert(!has_tag(nodes[i], service, NS_SCHEMA@));
    }
    lemma_first_match_is(0, len, svc, s);
    let child = child_tagged(nodes, s, XADDR@, NS_SCHEMA@);
    assert forall|j: int| 0 <= j < x implies !#[trigger] child(j) by {
        assert(!(nodes[j].parent == Some(s as usize) && has_tag(nodes[j], XADDR@, NS_SCHEMA@)));
    }
    lemma_first_match_is(0, len, child, x);
}

/// Completeness of the token lookup: where `p` is the first `Profiles`
/// element (media namespace) and `k` its first attribute named `token`, at
/// whatever position, the token found is that attribute's value.
pub proof fn law_profile_token_found_when_present(nodes: Seq<XmlNodeView>, p: int, k: int)
    requires
        0 <= p < nodes.len(),
        has_tag(nodes[p], PROFILES@, NS_MEDIA@),
        forall|i: int| 0 <= i < p ==> !has_tag(#[trigger] nodes[i], PROFILES@, NS_MEDIA@),
        0 <= k < nodes[p].attributes.len(),
        nodes[p].attributes[k].0 == TOKEN@,
        forall|j: int| 0 <= j < k ==> #[trigger] nodes[p].attributes[j].0 != TOKEN@,
    ensures
        profile_token_of(nodes) == Some(nodes[p].attributes[k].1),
{
    let len = nodes.len() as int;
    let prof = tagged(nodes, PROFILES@, NS_MEDIA@);
    assert forall|i: int| 0 <= i < p implies !#[trigger] prof(i) by {
        assert(!has_tag(nodes[i], PROFILES@, NS_MEDIA@));
    }
    lemma_first_match_is(0, len, prof, p);
    let attrs = nodes[p].attributes;
    let tok = attribute_named(attrs, TOKEN@);
    assert forall|j: int| 0 <= j < k implies !#[trigger] tok(j) by {
        assert(attrs[j].0 != TOKEN@);
    }
    lemma_first_match_is(0, attrs.len() as int, tok, k);
}

/// No token is found where the first `Profiles` element has no attribute
/// named `token`, or where there is no `Profiles` element.
pub proof fn law_profile_token_absent(nodes: Seq<XmlNodeView>)
    requires
        forall|p: int| 0 <= p < nodes.len() && #[trigger] has_tag(nodes[p], PROFILES@, NS_MEDIA@) && (forall|i: int|
            0 <= i < p ==> !has_tag(#[trigger] nodes[i], PROFILES@, NS_MEDIA@)) ==> forall|k: int|
            0 <= k < nodes[p].attributes.len() ==> #[trigger] nodes[p].attributes[k].0 != TOKEN@,
    ensures
        profile_token_of(nodes) is None,
{
    let len = nodes.len() as int;
    let prof = tagged(nodes, PROFILES@, NS_MEDIA@);
    lemma_first_match_bounds(0, len, prof);
    if let Some(p) = first_match(0, len, prof) {
        assert(prof(p));
        assert forall|i: int| 0 <= i < p implies !has_tag(#[trigger] nodes[i], PROFILES@, NS_MEDIA@) by {
            assert(!prof(i));
        }
        let attrs = nodes[p].attributes;
        let tok = attribute_named(attrs, TOKEN@);
        lemma_first_match_bounds(0, attrs.len() as int, tok);
        if let Some(k) = first_match(0, attrs.len() as int, tok) {
            assert(tok(k));
            assert(nodes[p].attributes[k].0 != TOKEN@);
        }
    }
}

/// Capabilities that give addresses for both Media and PTZ always move the
/// connection on, whatever the addresses (the same endpoint for both
/// included), once the random source and the clock answer: the next request
/// asks the Media address for profiles and both addresses are kept.
pub proof fn law_capabilities_with_both_addresses_continue(
    camera_config: CameraConfig,
    response: Seq<char>,
    nodes: Seq<XmlNodeView>,
    media: Seq<char>,
    ptz: Seq<char>,
    entropy: RequestEntropy,
    res: Result<ConnectStep, OnvifError>,
)
    requires
        parsed_xml(response) == Some(nodes),
        xaddr_of(nodes, MEDIA_SERVICE@) == Some(media),
        xaddr_of(nodes, PTZ_SERVICE@) == Some(ptz),
        entropy_works(entropy),
        on_response_result(OnvifConnect::AwaitingCapabilities { camera_config }, response, entropy, res),
    ensures
        res matches Ok(
            ConnectStep::Send(OnvifConnect::AwaitingProfiles { camera_config: c, media_service_url: m, ptz_service_url: p }, request),
        ) && c == camera_config && m@ == media && p@ == ptz && request.url@ == media,
{
    assert(entropy_stamp(entropy) is Ok);
}

/// With such capabilities, the answer fails only where the random source or
/// the clock failed.
pub proof fn law_capabilities_fail_only_from_entropy(
    camera_config: CameraConfig,
    response: Seq<char>,
    nodes: Seq<XmlNodeView>,
    entropy: RequestEntropy,
    res: Result<ConnectStep, OnvifError>,
)
    requires
        parsed_xml(response) == Some(nodes),
        xaddr_of(nodes, MEDIA_SERVICE@) is Some,
        xaddr_of(nodes, PTZ_SERVICE@) is Some,
        on_response_result(OnvifConnect::AwaitingCapabilities { camera_config }, response, entropy, res),
    ensures
        res is Err ==> !entropy_works(entropy) && (res matches Err(e) && (e is RandomSourceFailed || e is ClockUnavailable)),
{
}

/// Connecting starts with the capabilities request to the parsed device URL
/// whenever that URL parses and the random source and the clock answer.
pub proof fn law_start_connect_succeeds(
    camera_config: CameraConfig,
    url: Seq<char>,
    entropy: RequestEntropy,
    res: Result<(OnvifConnect, SoapRequest), OnvifError>,
)
    requires
        parsed_url(device_service_url_text(camera_config)) == Some(url),
        entropy_works(entropy),
        start_connect_result(camera_config, entropy, res),
    ensures
        res matches Ok((state, request)) && request.url@ == url
            && state == (OnvifConnect::AwaitingCapabilities { camera_config }),
{
    assert(entropy_stamp(entropy) is Ok);
}

/// A move request is built for every velocity once the random source and
/// the clock answer: it goes to the client's PTZ address.
pub proof fn law_ptz_move_succeeds(
    client: OnvifClient,
    pan: Seq<char>,
    tilt: Seq<char>,
    entropy: RequestEntropy,
    res: Result<SoapRequest, OnvifError>,
)
    requires
        entropy_works(entropy),
        ptz_move_result(client, pan, tilt, entropy, res),
    ensures
        res matches Ok(request) && request.url@ == client.spec_ptz_service_url(),
{
    assert(entropy_stamp(entropy) is Ok);
}

/// Whether a move request is built does not depend on the velocities: with
/// the same entropy, two velocities both succeed, or both fail with the same
/// error.
pub proof fn law_ptz_move_outcome_ignores_velocity(
    client: OnvifClient,
    pan1: Seq<char>,
    tilt1: Seq<char>,
    pan2: Seq<char>,
    tilt2: Seq<char>,
    entropy: RequestEntropy,
    res1: Result<SoapRequest, OnvifError>,
    res2: Result<SoapRequest, OnvifError>,
)
    requires
        ptz_move_result(client, pan1, tilt1, entropy, res1),
        ptz_move_result(client, pan2, tilt2, entropy, res2),
    ensures
        res1 is Ok <==> res2 is Ok,
        res1 is Err ==> res1 == res2,
{
}

/// A stop request is built once the random source and the clock answer: it
/// goes to the client's PTZ address.
pub proof fn law_ptz_stop_succeeds(client: OnvifClient, entropy: RequestEntropy, res: Result<SoapRequest, OnvifError>)
    requires
        entropy_works(entropy),
        ptz_stop_result(client, entropy, res),
    ensures
        res matches Ok(request) && request.url@ == client.spec_ptz_service_url(),
{
    assert(entropy_stamp(entropy) is Ok);
}

/// A camera's HLS output is mounted at `/hls/` followed by its whole name,
/// and the name can be read back from the path.
pub proof fn law_hls_mount_path_is_prefixed_name(camera_name: Seq<char>)
    ensures
        hls_mount_path_text(camera_name) == "/hls/"@ + camera_name,
        hls_mount_path_text(camera_name).len() == camera_name.len() + 5,
        hls_mount_path_text(camera_name).subrange(5, camera_name.len() + 5int) == camera_name,
{
    reveal_strlit("/hls/");
    assert(HLS_ROUTE_PREFIX@ == "/hls/"@);
    assert(hls_mount_path_text(camera_name).subrange(5, camera_name.len() + 5int) =~= camera_name);
}

/// A camera's HLS output directory is `hls/` followed by its whole name
/// (for a name that is not an absolute path).
pub proof fn law_hls_output_dir_is_prefixed_name(camera_name: Seq<char>)
    requires
        !(camera_name.len() > 0 && camera_name[0] == '/'),
    ensures
        hls_output_dir_text(camera_name) == "hls/"@ + camera_name,
        hls_output_dir_text(camera_name).subrange(4, camera_name.len() + 4int) == camera_name,
{
    reveal_strlit("hls/");
    reveal_strlit("hls");
    reveal_strlit("/");
    assert(HLS_BASE_PATH@ + "/"@ =~= "hls/"@);
    assert(hls_output_dir_text(camera_name) =~= "hls/"@ + camera_name);
    assert(hls_output_dir_text(camera_name).subrange(4, camera_name.len() + 4int) =~= camera_name);
}

/// Different cameras get different mount paths and, for names that are not
/// absolute paths, different output directories.
pub proof fn law_hls_paths_distinct(a: Seq<char>, b: Seq<char>)
    requires
        a != b,
    ensures
        hls_mount_path_text(a) != hls_mount_path_text(b),
        !(a.len() > 0 && a[0] == '/') && !(b.len() > 0 && b[0] == '/') ==> hls_output_dir_text(a) != hls_output_dir_text(b),
{
    law_hls_mount_path_is_prefixed_name(a);
    law_hls_mount_path_is_prefixed_name(b);
    if !(a.len() > 0 && a[0] == '/') && !(b.len() > 0 && b[0] == '/') {
        law_hls_output_dir_is_prefixed_name(a);
        law_hls_output_dir_is_prefixed_name(b);
    }
}

} // verus!
