//! The interface directory: descriptors as the enumeration provider reports
//! them, the configured include/exclude rules, and the cache of the last
//! accepted set.
use std::collections::HashMap;
use vstd::prelude::*;

use crate::config::{NetworkMonitorConfig, LOOPBACK_TYPE};
use crate::error::{NetworkError, Result};
use crate::speed::format_bits_per_second;
use crate::text::{chars_of, contains_chars, folded_contains, has_substring, lower_of, to_lower};

verus! {

broadcast use vstd::std_specs::hash::group_hash_axioms;

/// One interface as the enumeration provider reports it.
#[derive(Clone, Debug)]
pub struct NetworkInterface {
    pub index: u32,
    pub interface_type: u32,
    pub description: String,
    pub is_operational: bool,
    /// Cumulative bytes sent.
    pub bytes_sent: u64,
    /// Cumulative bytes received.
    pub bytes_received: u64,
    /// Link speed in bits per second.
    pub speed: u64,
}

/// Status an enumeration backend reports when the operation is not supported
/// on this system (`HRESULT_FROM_WIN32(ERROR_INVALID_FUNCTION)`).
pub const UNSUPPORTED_OPERATION: i32 = -2147024895;

/// Whether an enumeration result says the backend is unsupported, the one
/// signal on which the next backend in preference order is tried; any other
/// failure is final.
pub fn provider_unsupported(outcome: &Result<Vec<NetworkInterface>>) -> (r: bool)
    ensures
        r == (outcome matches Err(NetworkError::WindowsApi(code)) && code == UNSUPPORTED_OPERATION),
{
    match outcome {
        Err(NetworkError::WindowsApi(code)) => *code == UNSUPPORTED_OPERATION,
        _ => false,
    }
}

/// Lower-case keywords whose presence in a description marks a virtual,
/// tunnelling or dial-up adapter.
pub open spec fn virtual_keywords() -> Seq<&'static str> {
    seq![
        "virtual",
        "vpn",
        "tunnel",
        "tap",
        "tun",
        "vmware",
        "virtualbox",
        "hyper-v",
        "teredo",
        "6to4",
        "microsoft wi-fi direct virtual adapter",
        "isatap",
        "wan miniport",
        "ras async adapter",
        "pptp",
        "l2tp",
        "sstp",
        "ikev2",
        "ppp",
        "dial-up",
    ]
}

/// The description, case-folded, holds one of the virtual keywords.
pub open spec fn is_virtual_description(description: Seq<char>) -> bool {
    exists|k: int|
        0 <= k < virtual_keywords().len() && has_substring(
            lower_of(description),
            (#[trigger] virtual_keywords()[k])@,
        )
}

/// Some pattern, case-folded, occurs in the case-folded description.
pub open spec fn any_folded_match(folded: Seq<char>, patterns: Seq<String>) -> bool {
    exists|j: int| 0 <= j < patterns.len() && has_substring(folded, lower_of((#[trigger] patterns[j])@))
}

/// The filter rules, in their fixed order: inclusion lists first (each only
/// where non-empty), then the loopback, virtual and bluetooth toggles, the
/// type codes and the name filters.
pub open spec fn accepts(config: NetworkMonitorConfig, i: NetworkInterface) -> bool {
    let folded = lower_of(i.description@);
    &&& (config.include_interface_indices@.len() > 0 ==> config.include_interface_indices@.contains(
        i.index,
    ))
    &&& (config.include_interface_name_patterns@.len() > 0 ==> any_folded_match(
        folded,
        config.include_interface_name_patterns@,
    ))
    &&& !(config.exclude_loopback && i.interface_type == LOOPBACK_TYPE)
    &&& !(config.exclude_virtual && is_virtual_description(i.description@))
    &&& !(config.exclude_bluetooth && has_substring(folded, "bluetooth"@))
    &&& !config.interface_type_filters@.contains(i.interface_type)
    &&& !any_folded_match(folded, config.interface_name_filters@)
}

/// The descriptors that pass the filters, in enumeration order.
pub open spec fn accepted(config: NetworkMonitorConfig, s: Seq<NetworkInterface>) -> Seq<
    NetworkInterface,
>
    decreases s.len(),
{
    if s.len() == 0 {
        Seq::empty()
    } else {
        let prefix = accepted(config, s.drop_last());
        if accepts(config, s.last()) {
            prefix.push(s.last())
        } else {
            prefix
        }
    }
}

/// Descriptors by index; a later descriptor replaces an earlier one with the
/// same index.
pub open spec fn by_index(s: Seq<NetworkInterface>) -> Map<u32, NetworkInterface>
    decreases s.len(),
{
    if s.len() == 0 {
        Map::empty()
    } else {
        by_index(s.drop_last()).insert(s.last().index, s.last())
    }
}

/// Sum of the sent counters.
pub open spec fn sent_total(s: Seq<NetworkInterface>) -> nat
    decreases s.len(),
{
    if s.len() == 0 {
        0
    } else {
        (sent_total(s.drop_last()) + s.last().bytes_sent) as nat
    }
}

/// Sum of the received counters.
pub open spec fn received_total(s: Seq<NetworkInterface>) -> nat
    decreases s.len(),
{
    if s.len() == 0 {
        0
    } else {
        (received_total(s.drop_last()) + s.last().bytes_received) as nat
    }
}

/// A sum taken modulo 2^64, as fixed-width counters wrap.
pub open spec fn wrap64(n: nat) -> u64 {
    (n % 0x1_0000_0000_0000_0000) as u64
}

pub open spec fn interface_type_label(interface_type: u32) -> &'static str {
    if interface_type == 1 {
        "Other"
    } else if interface_type == 6 {
        "Ethernet"
    } else if interface_type == 9 {
        "Token Ring"
    } else if interface_type == 23 {
        "PPP"
    } else if interface_type == 24 {
        "Loopback"
    } else if interface_type == 37 {
        "Serial"
    } else if interface_type == 71 {
        "Wi-Fi"
    } else if interface_type == 131 {
        "Tunnel"
    } else if interface_type == 144 {
        "WWAN"
    } else if interface_type == 145 {
        "WiMAX"
    } else {
        "Unknown"
    }
}

fn virtual_keyword_list() -> (v: Vec<&'static str>)
    ensures
        v@ == virtual_keywords(),
{
    let mut v: Vec<&'static str> = Vec::new();
    v.push("virtual");
    v.push("vpn");
    v.push("tunnel");
    v.push("tap");
    v.push("tun");
    v.push("vmware");
    v.push("virtualbox");
    v.push("hyper-v");
    v.push("teredo");
    v.push("6to4");
    v.push("microsoft wi-fi direct virtual adapter");
    v.push("isatap");
    v.push("wan miniport");
    v.push("ras async adapter");
    v.push("pptp");
    v.push("l2tp");
    v.push("sstp");
    v.push("ikev2");
    v.push("ppp");
    v.push("dial-up");
    assert(v@ =~= virtual_keywords());
    v
}

/// Whether a description names a virtual adapter (case-insensitive keyword search).
pub fn is_virtual_interface_by_description(description: &str) -> (r: bool)
    ensures
        r == is_virtual_description(description@),
{
    let lowered = to_lower(description);
    let folded = chars_of(lowered.as_str());
    let keywords = virtual_keyword_list();
    let mut k: usize = 0;
    while k < keywords.len()
        invariant
            keywords@ == virtual_keywords(),
            folded@ == lower_of(description@),
            k <= keywords@.len(),
            forall|j: int| 0 <= j < k ==> !has_substring(folded@, (#[trigger] keywords@[j])@),
        decreases keywords@.len() - k,
    {
        let keyword = chars_of(keywords[k]);
        if contains_chars(&folded, &keyword) {
            return true;
        }
        k = k + 1;
    }
    false
}

fn any_pattern_matches(folded: &Vec<char>, patterns: &Vec<String>) -> (r: bool)
    ensures
        r == any_folded_match(folded@, patterns@),
{
    let mut j: usize = 0;
    while j < patterns.len()
        invariant
            j <= patterns@.len(),
            forall|k: int| 0 <= k < j ==> !has_substring(folded@, lower_of((#[trigger] patterns@[k])@)),
        decreases patterns@.len() - j,
    {
        if folded_contains(folded, patterns[j].as_str()) {
            return true;
        }
        j = j + 1;
    }
    false
}

fn contains_code(codes: &Vec<u32>, code: u32) -> (r: bool)
    ensures
        r == codes@.contains(code),
{
    let mut j: usize = 0;
    while j < codes.len()
        invariant
            j <= codes@.len(),
            forall|k: int| 0 <= k < j ==> codes@[k] != code,
        decreases codes@.len() - j,
    {
        if codes[j] == code {
            return true;
        }
        j = j + 1;
    }
    false
}

impl NetworkInterface {
    pub fn is_virtual(&self) -> (r: bool)
        ensures
            r == is_virtual_description(self.description@),
    {
        is_virtual_interface_by_description(self.description.as_str())
    }

    pub fn is_loopback(&self) -> (r: bool)
        ensures
            r == (self.interface_type == LOOPBACK_TYPE),
    {
        self.interface_type == LOOPBACK_TYPE
    }

    pub fn is_bluetooth(&self) -> (r: bool)
        ensures
            r == has_substring(lower_of(self.description@), "bluetooth"@),
    {
        let lowered = to_lower(self.description.as_str());
        let folded = chars_of(lowered.as_str());
        let keyword = chars_of("bluetooth");
        contains_chars(&folded, &keyword)
    }

    pub fn total_bytes(&self) -> (r: u64)
        ensures
            r == crate::speed::saturating_sum(self.bytes_sent, self.bytes_received),
    {
        self.bytes_sent.saturating_add(self.bytes_received)
    }

    pub fn type_label(&self) -> (r: &'static str)
        ensures
            r == interface_type_label(self.interface_type),
    {
        match self.interface_type {
            1 => "Other",
            6 => "Ethernet",
            9 => "Token Ring",
            23 => "PPP",
            24 => "Loopback",
            37 => "Serial",
            71 => "Wi-Fi",
            131 => "Tunnel",
            144 => "WWAN",
            145 => "WiMAX",
            _ => "Unknown",
        }
    }

    /// The link speed in bit units.
    pub fn formatted_speed(&self) -> (r: String)
        ensures
            r@ == crate::speed::rate_text(self.speed as nat, true),
    {
        format_bits_per_second(self.speed)
    }

    /// A field-by-field copy.
    pub(crate) fn duplicate(&self) -> (r: NetworkInterface)
        ensures
            r == *self,
    {
        NetworkInterface {
            index: self.index,
            interface_type: self.interface_type,
            description: self.description.clone(),
            is_operational: self.is_operational,
            bytes_sent: self.bytes_sent,
            bytes_received: self.bytes_received,
            speed: self.speed,
        }
    }
}

/// Applies a configuration's filters to enumerated descriptors and keeps the
/// accepted ones by index.
pub struct InterfaceManager {
    config: NetworkMonitorConfig,
    interface_cache: HashMap<u32, NetworkInterface>,
}

impl InterfaceManager {
    /// The configuration whose filters apply.
    pub closed spec fn filters(&self) -> NetworkMonitorConfig {
        self.config
    }

    /// The accepted descriptors of the last enumeration, by index.
    pub closed spec fn cached(&self) -> Map<u32, NetworkInterface> {
        self.interface_cache@
    }

    pub fn new(config: NetworkMonitorConfig) -> (m: InterfaceManager)
        ensures
            m.filters() == config,
            m.cached() == Map::<u32, NetworkInterface>::empty(),
    {
        InterfaceManager { config, interface_cache: HashMap::new() }
    }

    pub fn config(&self) -> (r: &NetworkMonitorConfig)
        ensures
            *r == self.filters(),
    {
        &self.config
    }

    /// Whether the configured rules accept one descriptor.
    pub fn should_include_interface(&self, interface: &NetworkInterface) -> (r: bool)
        ensures
            r == accepts(self.filters(), *interface),
    {
        let config = &self.config;
        if config.include_interface_indices.len() > 0 && !contains_code(
            &config.include_interface_indices,
            interface.index,
        ) {
            return false;
        }
        let lowered = to_lower(interface.description.as_str());
        let folded = chars_of(lowered.as_str());
        if config.include_interface_name_patterns.len() > 0 && !any_pattern_matches(
            &folded,
            &config.include_interface_name_patterns,
        ) {
            return false;
        }
        if config.exclude_loopback && interface.is_loopback() {
            return false;
        }
        if config.exclude_virtual && interface.is_virtual() {
            return false;
        }
        if config.exclude_bluetooth && interface.is_bluetooth() {
            return false;
        }
        if contains_code(&config.interface_type_filters, interface.interface_type) {
            return false;
        }
        if any_pattern_matches(&folded, &config.interface_name_filters) {
            return false;
        }
        true
    }

    /// Filters one enumeration result, replaces the cache with the accepted
    /// descriptors and returns them; fails when the filters accept none.
    pub fn get_active_interfaces(&mut self, enumerated: Vec<NetworkInterface>) -> (r: Result<
        Vec<NetworkInterface>,
    >)
        ensures
            final(self).filters() == old(self).filters(),
            final(self).cached() == by_index(accepted(old(self).filters(), enumerated@)),
            r is Ok <==> accepted(old(self).filters(), enumerated@).len() > 0,
            r is Ok ==> r->Ok_0@ == accepted(old(self).filters(), enumerated@),
            r is Err ==> r->Err_0 is NoInterfacesFound,
    {
        let mut active: Vec<NetworkInterface> = Vec::new();
        let mut cache: HashMap<u32, NetworkInterface> = HashMap::new();
        let n = enumerated.len();
        let mut k: usize = 0;
        while k < n
            invariant
                n == enumerated@.len(),
                k <= n,
                active@ == accepted(self.filters(), enumerated@.take(k as int)),
                cache@ == by_index(active@),
            decreases n - k,
        {
            let interface = &enumerated[k];
            assert(enumerated@.take(k + 1).drop_last() == enumerated@.take(k as int));
            if self.should_include_interface(interface) {
                let ghost before = active@;
                cache.insert(interface.index, interface.duplicate());
                active.push(interface.duplicate());
                assert(active@.drop_last() == before);
            }
            k = k + 1;
        }
        assert(enumerated@.take(n as int) == enumerated@);
        self.interface_cache = cache;
        if active.len() == 0 {
            return Err(NetworkError::NoInterfacesFound);
        }
        Ok(active)
    }

    /// Wrapping sums of the sent and received counters over the accepted
    /// descriptors of one enumeration result.
    pub fn get_total_traffic(&mut self, enumerated: Vec<NetworkInterface>) -> (r: Result<(u64, u64)>)
        ensures
            final(self).filters() == old(self).filters(),
            final(self).cached() == by_index(accepted(old(self).filters(), enumerated@)),
            r is Ok <==> accepted(old(self).filters(), enumerated@).len() > 0,
            r is Ok ==> r->Ok_0 == (
                wrap64(sent_total(accepted(old(self).filters(), enumerated@))),
                wrap64(received_total(accepted(old(self).filters(), enumerated@))),
            ),
            r is Err ==> r->Err_0 is NoInterfacesFound,
    {
        let active = match self.get_active_interfaces(enumerated) {
            Ok(active) => active,
            Err(e) => return Err(e),
        };
        let mut sent: u64 = 0;
        let mut received: u64 = 0;
        let mut k: usize = 0;
        while k < active.len()
            invariant
                k <= active@.len(),
                sent == wrap64(sent_total(active@.take(k as int))),
                received == wrap64(received_total(active@.take(k as int))),
            decreases active@.len() - k,
        {
            let ghost prefix = active@.take(k as int);
            assert(active@.take(k + 1).drop_last() == prefix);
            proof {
                vstd::arithmetic::div_mod::lemma_add_mod_noop(
                    sent_total(prefix) as int,
                    active@[k as int].bytes_sent as int,
                    0x1_0000_0000_0000_0000,
                );
                vstd::arithmetic::div_mod::lemma_add_mod_noop(
                    received_total(prefix) as int,
                    active@[k as int].bytes_received as int,
                    0x1_0000_0000_0000_0000,
                );
                vstd::arithmetic::div_mod::lemma_small_mod(
                    active@[k as int].bytes_sent as nat,
                    0x1_0000_0000_0000_0000,
                );
                vstd::arithmetic::div_mod::lemma_small_mod(
                    active@[k as int].bytes_received as nat,
                    0x1_0000_0000_0000_0000,
                );
            }
            sent = sent.wrapping_add(active[k].bytes_sent);
            received = received.wrapping_add(active[k].bytes_received);
            k = k + 1;
        }
        assert(active@.take(active@.len() as int) == active@);
        Ok((sent, received))
    }

    /// The cached descriptor with the given index, if the last enumeration
    /// accepted one.
    pub fn get_interface_by_index(&self, index: u32) -> (r: Option<&NetworkInterface>)
        ensures
            r is Some <==> self.cached().contains_key(index),
            r is Some ==> *r->0 == self.cached()[index],
    {
        self.interface_cache.get(&index)
    }

    /// Empties the cache, then fills it from one enumeration result.
    pub fn refresh_cache(&mut self, enumerated: Vec<NetworkInterface>) -> (r: Result<()>)
        ensures
            final(self).filters() == old(self).filters(),
            final(self).cached() == by_index(accepted(old(self).filters(), enumerated@)),
            r is Ok <==> accepted(old(self).filters(), enumerated@).len() > 0,
            r is Err ==> r->Err_0 is NoInterfacesFound,
    {
        self.interface_cache.clear();
        match self.get_active_interfaces(enumerated) {
            Ok(_) => Ok(()),
            Err(e) => Err(e),
        }
    }
}

} // verus!
