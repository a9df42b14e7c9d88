use vstd::prelude::*;
use std::collections::HashMap;
use vstd::string::StringExecFns;
use vstd::utf8::{decode_utf8, encode_utf8, valid_utf8};
use crate::codec::{canon_result, canonicalize};
use crate::error::{result_view, ErrorSpec, RBFRTError};
use crate::str_map::StrMap;
use crate::table::action_data::NamedBytes;
use crate::table::match_value::{MatchSpec, MatchValue};
use crate::table::table_entry::{
    lemma_put_first_key, NamedMatch, Request, RequestType, RequestView, TableEntry, TableEntryView, TableOperation,
};
use crate::table::to_bytes::{
    any_set, be_bytes, be_decode, be_value, copy_bytes, lemma_be_value_bound, lemma_be_value_canonical,
    lemma_pow256_values, to_bool, to_text,
};
use crate::seq_ext::{first_index, lemma_first_index_none, lemma_first_index_some};
use crate::text::str_eq;
use crate::util::decimal::{decimal, decimal_string, parse_decimal, parse_number};

verus! {

broadcast use vstd::std_specs::hash::group_hash_axioms;

/// The speeds that a port can be set to.
#[allow(non_camel_case_types)]
#[derive(Debug, Clone, Copy, PartialEq, Eq, Structural)]
pub enum Speed {
    BF_SPEED_1G,
    BF_SPEED_10G,
    BF_SPEED_20G,
    BF_SPEED_25G,
    BF_SPEED_40G,
    BF_SPEED_50G,
    BF_SPEED_100G,
    BF_SPEED_400G,
}

/// The auto negotiation settings of a port.
#[allow(non_camel_case_types)]
#[derive(Debug, Clone, Copy, PartialEq, Eq, Structural)]
pub enum AutoNegotiation {
    PM_AN_DEFAULT,
    PM_AN_FORCE_ENABLE,
    PM_AN_FORCE_DISABLE,
}

/// The forward error correction settings of a port.
#[allow(non_camel_case_types)]
#[derive(Debug, Clone, Copy, PartialEq, Eq, Structural)]
pub enum FEC {
    BF_FEC_TYP_NONE,
    BF_FEC_TYP_FC,
    BF_FEC_TYP_REED_SOLOMON,
}

/// The loopback settings of a port.
#[allow(non_camel_case_types)]
#[derive(Debug, Clone, Copy, PartialEq, Eq, Structural)]
pub enum Loopback {
    BF_LPBK_NONE,
    BF_LPBK_MAC_NEAR,
    BF_LPBK_MAC_FAR,
}

impl Speed {
    /// The name of the setting on the wire.
    pub open spec fn spec_name(self) -> Seq<char> {
        match self {
            Speed::BF_SPEED_1G => "BF_SPEED_1G"@,
            Speed::BF_SPEED_10G => "BF_SPEED_10G"@,
            Speed::BF_SPEED_20G => "BF_SPEED_20G"@,
            Speed::BF_SPEED_25G => "BF_SPEED_25G"@,
            Speed::BF_SPEED_40G => "BF_SPEED_40G"@,
            Speed::BF_SPEED_50G => "BF_SPEED_50G"@,
            Speed::BF_SPEED_100G => "BF_SPEED_100G"@,
            Speed::BF_SPEED_400G => "BF_SPEED_400G"@,
        }
    }

    pub fn name(self) -> (r: &'static str)
        ensures
            r@ == self.spec_name(),
    {
        match self {
            Speed::BF_SPEED_1G => "BF_SPEED_1G",
            Speed::BF_SPEED_10G => "BF_SPEED_10G",
            Speed::BF_SPEED_20G => "BF_SPEED_20G",
            Speed::BF_SPEED_25G => "BF_SPEED_25G",
            Speed::BF_SPEED_40G => "BF_SPEED_40G",
            Speed::BF_SPEED_50G => "BF_SPEED_50G",
            Speed::BF_SPEED_100G => "BF_SPEED_100G",
            Speed::BF_SPEED_400G => "BF_SPEED_400G",
        }
    }

    /// The setting with the given name.
    pub open spec fn named(name: Seq<char>) -> Option<Speed> {
        if name == "BF_SPEED_1G"@ {
            Some(Speed::BF_SPEED_1G)
        } else if name == "BF_SPEED_10G"@ {
            Some(Speed::BF_SPEED_10G)
        } else if name == "BF_SPEED_20G"@ {
            Some(Speed::BF_SPEED_20G)
        } else if name == "BF_SPEED_25G"@ {
            Some(Speed::BF_SPEED_25G)
        } else if name == "BF_SPEED_40G"@ {
            Some(Speed::BF_SPEED_40G)
        } else if name == "BF_SPEED_50G"@ {
            Some(Speed::BF_SPEED_50G)
        } else if name == "BF_SPEED_100G"@ {
            Some(Speed::BF_SPEED_100G)
        } else if name == "BF_SPEED_400G"@ {
            Some(Speed::BF_SPEED_400G)
        } else {
            None
        }
    }

    /// The setting with the given name.
    pub fn from_name(name: &str) -> (r: Option<Speed>)
        ensures
            r == Speed::named(name@),
            match r {
                Some(v) => v.spec_name() == name@,
                None => forall|v: Speed| v.spec_name() != name@,
            },
    {
        if str_eq(name, "BF_SPEED_1G") {
            Some(Speed::BF_SPEED_1G)
        } else if str_eq(name, "BF_SPEED_10G") {
            Some(Speed::BF_SPEED_10G)
        } else if str_eq(name, "BF_SPEED_20G") {
            Some(Speed::BF_SPEED_20G)
        } else if str_eq(name, "BF_SPEED_25G") {
            Some(Speed::BF_SPEED_25G)
        } else if str_eq(name, "BF_SPEED_40G") {
            Some(Speed::BF_SPEED_40G)
        } else if str_eq(name, "BF_SPEED_50G") {
            Some(Speed::BF_SPEED_50G)
        } else if str_eq(name, "BF_SPEED_100G") {
            Some(Speed::BF_SPEED_100G)
        } else if str_eq(name, "BF_SPEED_400G") {
            Some(Speed::BF_SPEED_400G)
        } else {
            assert forall|v: Speed| v.spec_name() != name@ by {}
            None
        }
    }
}

impl AutoNegotiation {
    /// The name of the setting on the wire.
    pub open spec fn spec_name(self) -> Seq<char> {
        match self {
            AutoNegotiation::PM_AN_DEFAULT => "PM_AN_DEFAULT"@,
            AutoNegotiation::PM_AN_FORCE_ENABLE => "PM_AN_FORCE_ENABLE"@,
            AutoNegotiation::PM_AN_FORCE_DISABLE => "PM_AN_FORCE_DISABLE"@,
        }
    }

    pub fn name(self) -> (r: &'static str)
        ensures
            r@ == self.spec_name(),
    {
        match self {
            AutoNegotiation::PM_AN_DEFAULT => "PM_AN_DEFAULT",
            AutoNegotiation::PM_AN_FORCE_ENABLE => "PM_AN_FORCE_ENABLE",
            AutoNegotiation::PM_AN_FORCE_DISABLE => "PM_AN_FORCE_DISABLE",
        }
    }

    /// The setting with the given name.
    pub open spec fn named(name: Seq<char>) -> Option<AutoNegotiation> {
        if name == "PM_AN_DEFAULT"@ {
            Some(AutoNegotiation::PM_AN_DEFAULT)
        } else if name == "PM_AN_FORCE_ENABLE"@ {
            Some(AutoNegotiation::PM_AN_FORCE_ENABLE)
        } else if name == "PM_AN_FORCE_DISABLE"@ {
            Some(AutoNegotiation::PM_AN_FORCE_DISABLE)
        } else {
            None
        }
    }

    /// The setting with the given name.
    pub fn from_name(name: &str) -> (r: Option<AutoNegotiation>)
        ensures
            r == AutoNegotiation::named(name@),
            match r {
                Some(v) => v.spec_name() == name@,
                None => forall|v: AutoNegotiation| v.spec_name() != name@,
            },
    {
        if str_eq(name, "PM_AN_DEFAULT") {
            Some(AutoNegotiation::PM_AN_DEFAULT)
        } else if str_eq(name, "PM_AN_FORCE_ENABLE") {
            Some(AutoNegotiation::PM_AN_FORCE_ENABLE)
        } else if str_eq(name, "PM_AN_FORCE_DISABLE") {
            Some(AutoNegotiation::PM_AN_FORCE_DISABLE)
        } else {
            assert forall|v: AutoNegotiation| v.spec_name() != name@ by {}
            None
        }
    }
}

impl FEC {
    /// The name of the setting on the wire.
    pub open spec fn spec_name(self) -> Seq<char> {
        match self {
            FEC::BF_FEC_TYP_NONE => "BF_FEC_TYP_NONE"@,
            FEC::BF_FEC_TYP_FC => "BF_FEC_TYP_FC"@,
            FEC::BF_FEC_TYP_REED_SOLOMON => "BF_FEC_TYP_REED_SOLOMON"@,
        }
    }

    pub fn name(self) -> (r: &'static str)
        ensures
            r@ == self.spec_name(),
    {
        match self {
            FEC::BF_FEC_TYP_NONE => "BF_FEC_TYP_NONE",
            FEC::BF_FEC_TYP_FC => "BF_FEC_TYP_FC",
            FEC::BF_FEC_TYP_REED_SOLOMON => "BF_FEC_TYP_REED_SOLOMON",
        }
    }

    /// The setting with the given name.
    pub open spec fn named(name: Seq<char>) -> Option<FEC> {
        if name == "BF_FEC_TYP_NONE"@ {
            Some(FEC::BF_FEC_TYP_NONE)
        } else if name == "BF_FEC_TYP_FC"@ {
            Some(FEC::BF_FEC_TYP_FC)
        } else if name == "BF_FEC_TYP_REED_SOLOMON"@ {
            Some(FEC::BF_FEC_TYP_REED_SOLOMON)
        } else {
            None
        }
    }

    /// The setting with the given name.
    pub fn from_name(name: &str) -> (r: Option<FEC>)
        ensures
            r == FEC::named(name@),
            match r {
                Some(v) => v.spec_name() == name@,
                None => forall|v: FEC| v.spec_name() != name@,
            },
    {
        if str_eq(name, "BF_FEC_TYP_NONE") {
            Some(FEC::BF_FEC_TYP_NONE)
        } else if str_eq(name, "BF_FEC_TYP_FC") {
            Some(FEC::BF_FEC_TYP_FC)
        } else if str_eq(name, "BF_FEC_TYP_REED_SOLOMON") {
            Some(FEC::BF_FEC_TYP_REED_SOLOMON)
        } else {
            assert forall|v: FEC| v.spec_name() != name@ by {}
            None
        }
    }
}

impl Loopback {
    /// The name of the setting on the wire.
    pub open spec fn spec_name(self) -> Seq<char> {
        match self {
            Loopback::BF_LPBK_NONE => "BF_LPBK_NONE"@,
            Loopback::BF_LPBK_MAC_NEAR => "BF_LPBK_MAC_NEAR"@,
            Loopback::BF_LPBK_MAC_FAR => "BF_LPBK_MAC_FAR"@,
        }
    }

    pub fn name(self) -> (r: &'static str)
        ensures
            r@ == self.spec_name(),
    {
        match self {
            Loopback::BF_LPBK_NONE => "BF_LPBK_NONE",
            Loopback::BF_LPBK_MAC_NEAR => "BF_LPBK_MAC_NEAR",
            Loopback::BF_LPBK_MAC_FAR => "BF_LPBK_MAC_FAR",
        }
    }

    /// The setting with the given name.
    pub open spec fn named(name: Seq<char>) -> Option<Loopback> {
        if name == "BF_LPBK_NONE"@ {
            Some(Loopback::BF_LPBK_NONE)
        } else if name == "BF_LPBK_MAC_NEAR"@ {
            Some(Loopback::BF_LPBK_MAC_NEAR)
        } else if name == "BF_LPBK_MAC_FAR"@ {
            Some(Loopback::BF_LPBK_MAC_FAR)
        } else {
            None
        }
    }

    /// The setting with the given name.
    pub fn from_name(name: &str) -> (r: Option<Loopback>)
        ensures
            r == Loopback::named(name@),
            match r {
                Some(v) => v.spec_name() == name@,
                None => forall|v: Loopback| v.spec_name() != name@,
            },
    {
        if str_eq(name, "BF_LPBK_NONE") {
            Some(Loopback::BF_LPBK_NONE)
        } else if str_eq(name, "BF_LPBK_MAC_NEAR") {
            Some(Loopback::BF_LPBK_MAC_NEAR)
        } else if str_eq(name, "BF_LPBK_MAC_FAR") {
            Some(Loopback::BF_LPBK_MAC_FAR)
        } else {
            assert forall|v: Loopback| v.spec_name() != name@ by {}
            None
        }
    }
}

/// A port of the switch with its settings.
#[derive(Debug, Clone, Copy)]
pub struct Port {
    port: u32,
    channel: u8,
    dev_port: Option<u32>,
    speed: Speed,
    auto_neg: AutoNegotiation,
    fec: FEC,
    loopback: Loopback,
    enable: bool,
    status: bool,
}

pub struct PortView {
    pub port: u32,
    pub channel: u8,
    pub dev_port: Option<u32>,
    pub speed: Speed,
    pub auto_neg: AutoNegotiation,
    pub fec: FEC,
    pub loopback: Loopback,
    pub enable: bool,
    pub status: bool,
}

impl View for Port {
    type V = PortView;

    closed spec fn view(&self) -> PortView {
        PortView {
            port: self.port,
            channel: self.channel,
            dev_port: self.dev_port,
            speed: self.speed,
            auto_neg: self.auto_neg,
            fec: self.fec,
            loopback: self.loopback,
            enable: self.enable,
            status: self.status,
        }
    }
}

impl Port {
    /// The port with the given number and channel on the front panel: at
    /// 1G, with default auto negotiation, without error correction and
    /// loopback, enabled.
    pub fn new(port: u32, channel: u8) -> (r: Port)
        ensures
            r@ == (PortView {
                port,
                channel,
                dev_port: None,
                speed: Speed::BF_SPEED_1G,
                auto_neg: AutoNegotiation::PM_AN_DEFAULT,
                fec: FEC::BF_FEC_TYP_NONE,
                loopback: Loopback::BF_LPBK_NONE,
                enable: true,
                status: false,
            }),
    {
        Port {
            port,
            channel,
            dev_port: None,
            speed: Speed::BF_SPEED_1G,
            auto_neg: AutoNegotiation::PM_AN_DEFAULT,
            fec: FEC::BF_FEC_TYP_NONE,
            loopback: Loopback::BF_LPBK_NONE,
            enable: true,
            status: false,
        }
    }

    pub fn speed(self, speed: Speed) -> (r: Port)
        ensures
            r@ == (PortView { speed, ..self@ }),
    {
        Port { speed, ..self }
    }

    pub fn loopback(self, loopback: Loopback) -> (r: Port)
        ensures
            r@ == (PortView { loopback, ..self@ }),
    {
        Port { loopback, ..self }
    }

    pub fn enable(self) -> (r: Port)
        ensures
            r@ == (PortView { enable: true, ..self@ }),
    {
        Port { enable: true, ..self }
    }

    pub fn disable(self) -> (r: Port)
        ensures
            r@ == (PortView { enable: false, ..self@ }),
    {
        Port { enable: false, ..self }
    }

    pub fn auto_negotiation(self, auto_neg: AutoNegotiation) -> (r: Port)
        ensures
            r@ == (PortView { auto_neg, ..self@ }),
    {
        Port { auto_neg, ..self }
    }

    pub fn fec(self, fec: FEC) -> (r: Port)
        ensures
            r@ == (PortView { fec, ..self@ }),
    {
        Port { fec, ..self }
    }

    pub fn get_speed(&self) -> (r: &Speed)
        ensures
            *r == self@.speed,
    {
        &self.speed
    }

    pub fn get_loopback(&self) -> (r: &Loopback)
        ensures
            *r == self@.loopback,
    {
        &self.loopback
    }

    pub fn get_enabled(self) -> (r: bool)
        ensures
            r == self@.enable,
    {
        self.enable
    }

    /// Whether the switch reported the port as up.
    pub fn get_status(&self) -> (r: bool)
        ensures
            r == self@.status,
    {
        self.status
    }

    pub fn get_auto_negotiation(&self) -> (r: &AutoNegotiation)
        ensures
            *r == self@.auto_neg,
    {
        &self.auto_neg
    }

    pub fn get_fec(&self) -> (r: &FEC)
        ensures
            *r == self@.fec,
    {
        &self.fec
    }

    pub fn get_dev_port(&self) -> (r: Option<u32>)
        ensures
            r == self@.dev_port,
    {
        self.dev_port
    }

    /// Number and channel of the port on the front panel.
    pub fn get_frontpanel_port(&self) -> (r: (u32, u8))
        ensures
            r == (self@.port, self@.channel),
    {
        (self.port, self.channel)
    }
}

/// The name of a port on the front panel: number, slash, channel.
pub open spec fn port_name(port: u32, channel: u8) -> Seq<char> {
    decimal(port as nat) + seq!['/'] + decimal(channel as nat)
}

pub fn port_name_string(port: u32, channel: u8) -> (r: String)
    ensures
        r@ == port_name(port, channel),
{
    proof {
        reveal_strlit("/");
    }
    let mut s = decimal_string(port as u128);
    s.append("/");
    s.append(decimal_string(channel as u128).as_str());
    assert(s@ =~= port_name(port, channel));
    s
}

/// Whether a byte is a visible ASCII character.
pub open spec fn is_graphic(b: u8) -> bool {
    0x21 <= b <= 0x7e
}

/// The visible ASCII characters among `s`, in order.
pub open spec fn graphic(s: Seq<u8>) -> Seq<u8>
    decreases s.len(),
{
    if s.len() == 0 {
        Seq::<u8>::empty()
    } else if is_graphic(s.last()) {
        graphic(s.drop_last()).push(s.last())
    } else {
        graphic(s.drop_last())
    }
}

pub fn graphic_bytes(bytes: &Vec<u8>) -> (r: Vec<u8>)
    ensures
        r@ == graphic(bytes@),
{
    let n = bytes.len();
    let mut out: Vec<u8> = Vec::new();
    let mut i: usize = 0;
    assert(bytes@.take(0) =~= Seq::<u8>::empty());
    while i < n
        invariant
            n == bytes.len(),
            i <= n,
            out@ == graphic(bytes@.take(i as int)),
        decreases n - i,
    {
        assert(bytes@.take(i as int + 1).drop_last() =~= bytes@.take(i as int));
        let b = bytes[i];
        if 0x21 <= b && b <= 0x7e {
            out.push(b);
        }
        i += 1;
    }
    assert(bytes@.take(n as int) =~= bytes@);
    out
}

/// The two parts of `s` around its slash, if it has exactly one.
pub open spec fn split_slash(s: Seq<u8>) -> Option<(Seq<u8>, Seq<u8>)> {
    match first_index(s, |b: u8| b == 47) {
        None => None,
        Some(i) => if first_index(s.skip(i + 1), |b: u8| b == 47) is None {
            Some((s.take(i), s.skip(i + 1)))
        } else {
            None
        },
    }
}

/// Position of the first slash in `bytes[from..]`.
fn find_slash(bytes: &Vec<u8>, from: usize) -> (r: Option<usize>)
    requires
        from <= bytes.len(),
    ensures
        match r {
            Some(i) => from <= i < bytes.len() && first_index(bytes@.skip(from as int), |b: u8| b == 47) == Some(
                i - from,
            ),
            None => first_index(bytes@.skip(from as int), |b: u8| b == 47) is None,
        },
{
    let ghost s = bytes@.skip(from as int);
    let ghost p = |b: u8| b == 47;
    let n = bytes.len();
    let mut i = from;
    while i < n
        invariant
            n == bytes.len(),
            from <= i <= n,
            s == bytes@.skip(from as int),
            p == |b: u8| b == 47,
            forall|j: int| 0 <= j < i - from ==> !p(#[trigger] s[j]),
        decreases n - i,
    {
        if bytes[i] == 47 {
            proof {
                assert(s[i - from] == bytes@[i as int]);
                lemma_first_index_some(s, p, i - from);
            }
            return Some(i);
        }
        assert(s[i - from] == bytes@[i as int]);
        i += 1;
    }
    proof {
        lemma_first_index_none(s, p);
    }
    None
}

/// A port as the table of port names reports it.
pub struct PortRecord {
    pub name: Seq<char>,
    pub dev_port: u32,
    pub port: u32,
    pub channel: u8,
}

pub open spec fn dev_port_name() -> Seq<char> {
    "$DEV_PORT"@
}

pub open spec fn port_name_key() -> Seq<char> {
    "$PORT_NAME"@
}

pub open spec fn short_dev_port_text() -> Seq<char> {
    "could not convert slice to array"@
}

pub open spec fn wrong_port_key_text() -> Seq<char> {
    "Wrong match value type for port."@
}

pub open spec fn bad_port_name_text() -> Seq<char> {
    "Port name is not of the form port/channel."@
}

/// What an entry of the table of port names says: the port's name, its id
/// on the device and its place on the front panel. A name without exactly
/// one slash is passed over.
pub open spec fn port_record(e: TableEntryView) -> Result<Option<PortRecord>, ErrorSpec> {
    match e.action_data_index(dev_port_name()) {
        None => Err(ErrorSpec::UnknownActionName { name: dev_port_name() }),
        Some(i) => {
            let data = e.action_data[i].data;
            if data.len() < 4 {
                Err(ErrorSpec::ByteConversionError { target: "u32"@, orig_e: short_dev_port_text() })
            } else if !e.match_keys.contains_key(port_name_key()) {
                Err(ErrorSpec::UnknownKeyName { name: port_name_key(), table_name: e.table_name })
            } else {
                match e.match_keys[port_name_key()] {
                    MatchSpec::Exact { bytes } => if !valid_utf8(bytes) {
                        Err(
                            ErrorSpec::ByteConversionError {
                                target: "String"@,
                                orig_e: crate::bfrt::table_object::utf8_error_text(),
                            },
                        )
                    } else {
                        match split_slash(bytes) {
                            None => Ok(None),
                            Some(parts) => match (
                                parse_decimal(parts.0, 0xffff_ffff),
                                parse_decimal(parts.1, 0xff),
                            ) {
                                (Some(port), Some(channel)) => Ok(
                                    Some(
                                        PortRecord {
                                            name: decode_utf8(bytes),
                                            dev_port: be_value(data.take(4)) as u32,
                                            port: port as u32,
                                            channel: channel as u8,
                                        },
                                    ),
                                ),
                                _ => Err(ErrorSpec::GenericError { message: bad_port_name_text() }),
                            },
                        }
                    },
                    _ => Err(ErrorSpec::GenericError { message: wrong_port_key_text() }),
                }
            }
        },
    }
}

/// Reads one entry of the table of port names.
pub fn parse_port_record(entry: &TableEntry) -> (r: Result<Option<(String, u32, u32, u8)>, RBFRTError>)
    ensures
        match r {
            Ok(Some(rec)) => port_record(entry@) == Ok::<Option<PortRecord>, ErrorSpec>(
                Some(PortRecord { name: rec.0@, dev_port: rec.1, port: rec.2, channel: rec.3 }),
            ),
            Ok(None) => port_record(entry@) == Ok::<Option<PortRecord>, ErrorSpec>(None),
            Err(e) => port_record(entry@) == Err::<Option<PortRecord>, ErrorSpec>(e@),
        },
{
    let e = entry.get_action_data("$DEV_PORT")?;
    let data = e.get_data();
    if data.len() < 4 {
        return Err(
            RBFRTError::ByteConversionError {
                target: "u32".to_owned(),
                orig_e: "could not convert slice to array".to_owned(),
            },
        );
    }
    let mut word: Vec<u8> = Vec::new();
    word.push(data[0]);
    word.push(data[1]);
    word.push(data[2]);
    word.push(data[3]);
    proof {
        assert(word@ =~= data@.take(4));
        lemma_be_value_bound(word@);
        lemma_pow256_values();
    }
    let port_number = be_decode(&word) as u32;
    let key = entry.get_key("$PORT_NAME")?;
    let bytes = match key {
        MatchValue::ExactValue { bytes } => bytes,
        _ => {
            return Err(RBFRTError::GenericError { message: "Wrong match value type for port.".to_owned() });
        },
    };
    let name = match to_text(bytes) {
        Some(s) => s,
        None => {
            return Err(
                RBFRTError::ByteConversionError {
                    target: "String".to_owned(),
                    orig_e: "invalid utf-8 sequence".to_owned(),
                },
            );
        },
    };
    let slash = match find_slash(bytes, 0) {
        Some(i) => i,
        None => {
            assert(bytes@.skip(0) =~= bytes@);
            return Ok(None);
        },
    };
    assert(bytes@.skip(0) =~= bytes@);
    if find_slash(bytes, slash + 1).is_some() {
        return Ok(None);
    }
    proof {
        assert(bytes@.subrange(0, slash as int) =~= bytes@.take(slash as int));
        assert(bytes@.subrange(slash as int + 1, bytes@.len() as int) =~= bytes@.skip(slash as int + 1));
    }
    let front = parse_number(bytes, 0, slash, 0xffff_ffff);
    let channel = parse_number(bytes, slash + 1, bytes.len(), 0xff);
    match (front, channel) {
        (Some(p), Some(c)) => Ok(Some((name, port_number, p as u32, c as u8))),
        _ => Err(RBFRTError::GenericError { message: "Port name is not of the form port/channel.".to_owned() }),
    }
}

/// Knows the ports of a switch by their names on the front panel and by
/// their ids on the device.
#[derive(Debug)]
pub struct PortManager {
    mapping_name_to_dev: StrMap<u32>,
    mapping_dev_to_name: HashMap<u32, (u32, u8)>,
}

pub struct PortMapView {
    pub by_name: Map<Seq<char>, u32>,
    pub by_dev: Map<u32, (u32, u8)>,
}

impl View for PortManager {
    type V = PortMapView;

    closed spec fn view(&self) -> PortMapView {
        PortMapView { by_name: self.mapping_name_to_dev@, by_dev: self.mapping_dev_to_name@ }
    }
}

impl PortMapView {
    /// The maps with one more port.
    pub open spec fn with(self, rec: PortRecord) -> PortMapView {
        PortMapView {
            by_name: self.by_name.insert(rec.name, rec.dev_port),
            by_dev: self.by_dev.insert(rec.dev_port, (rec.port, rec.channel)),
        }
    }

    /// The maps with the ports that the first `entries` report, or the
    /// first failure among them.
    pub open spec fn with_entries(self, entries: Seq<TableEntryView>) -> Result<PortMapView, ErrorSpec>
        decreases entries.len(),
    {
        if entries.len() == 0 {
            Ok(self)
        } else {
            match self.with_entries(entries.drop_last()) {
                Err(e) => Err(e),
                Ok(m) => match port_record(entries.last()) {
                    Err(e) => Err(e),
                    Ok(None) => Ok(m),
                    Ok(Some(rec)) => Ok(m.with(rec)),
                },
            }
        }
    }

    /// The id on the device of the port at a place on the front panel.
    pub open spec fn dev_port(self, port: u32, channel: u8) -> Result<u32, ErrorSpec> {
        if self.by_name.contains_key(port_name(port, channel)) {
            Ok(self.by_name[port_name(port, channel)])
        } else {
            Err(ErrorSpec::PortNotFound { name: port_name(port, channel) })
        }
    }

    /// The place on the front panel of the port with an id on the device.
    pub open spec fn frontpanel_port(self, dev_port: u32) -> Result<(u32, u8), ErrorSpec> {
        if self.by_dev.contains_key(dev_port) {
            Ok(self.by_dev[dev_port])
        } else {
            Err(ErrorSpec::PortNotFound { name: decimal(dev_port as nat) })
        }
    }
}

pub open spec fn empty_port_map() -> PortMapView {
    PortMapView { by_name: Map::empty(), by_dev: Map::empty() }
}

proof fn lemma_with_entries_prefix_err(m: PortMapView, entries: Seq<TableEntryView>, k: int)
    requires
        0 <= k <= entries.len(),
        m.with_entries(entries.take(k)) is Err,
    ensures
        m.with_entries(entries) == m.with_entries(entries.take(k)),
    decreases entries.len() - k,
{
    if k < entries.len() {
        assert(entries.take(k + 1).drop_last() =~= entries.take(k));
        lemma_with_entries_prefix_err(m, entries, k + 1);
    } else {
        assert(entries.take(k) =~= entries);
    }
}

/// The request on the port table that selects the port with the given id.
pub open spec fn port_request_view(dev_port: u32, data: Seq<NamedBytes>) -> RequestView {
    RequestView {
        table_name: "$PORT"@,
        keys: seq![
            NamedMatch { name: dev_port_name(), value: MatchSpec::Exact { bytes: be_bytes(dev_port as nat, 4) } },
        ],
        action: None,
        action_data: data,
        action_data_repeated: Seq::empty(),
        request_type: RequestType::Read,
        operation: TableOperation::NoOperation,
        is_default_entry: false,
        pipe: None,
    }
}

/// The settings of a port as the action data of a request.
pub open spec fn port_settings(p: PortView) -> Seq<NamedBytes> {
    seq![
        NamedBytes { key: "$SPEED"@, data: encode_utf8(p.speed.spec_name()) },
        NamedBytes { key: "$FEC"@, data: encode_utf8(p.fec.spec_name()) },
        NamedBytes { key: "$PORT_ENABLE"@, data: if p.enable { seq![1u8] } else { seq![0u8] } },
        NamedBytes { key: "$AUTO_NEGOTIATION"@, data: encode_utf8(p.auto_neg.spec_name()) },
        NamedBytes { key: "$LOOPBACK_MODE"@, data: encode_utf8(p.loopback.spec_name()) },
    ]
}

/// The switch of a port as the action data of a request.
pub open spec fn port_switch(on: bool) -> Seq<NamedBytes> {
    seq![NamedBytes { key: "$PORT_ENABLE"@, data: if on { seq![1u8] } else { seq![0u8] } }]
}

/// The request on the port table for the port with the given id, without data.
fn port_key_request(dev_port: u32) -> (r: Request)
    ensures
        r@ == port_request_view(dev_port, Seq::empty()),
{
    proof {
        lemma_put_first_key(dev_port_name(), MatchSpec::Exact { bytes: be_bytes(dev_port as nat, 4) });
    }
    Request::new("$PORT").match_key("$DEV_PORT", MatchValue::exact(dev_port))
}

impl PortManager {
    /// A manager that knows no port.
    pub fn empty() -> (r: PortManager)
        ensures
            r@ == empty_port_map(),
    {
        PortManager { mapping_name_to_dev: StrMap::new(), mapping_dev_to_name: HashMap::new() }
    }

    /// A manager that knows the ports which the entries of the table of
    /// port names report.
    pub fn from_entries(entries: &Vec<TableEntry>) -> (r: Result<PortManager, RBFRTError>)
        ensures
            result_view(r) == empty_port_map().with_entries(entries@.map_values(|e: TableEntry| e@)),
    {
        let ghost all = entries@.map_values(|e: TableEntry| e@);
        let ghost start = empty_port_map();
        let mut names: StrMap<u32> = StrMap::new();
        let mut devs: HashMap<u32, (u32, u8)> = HashMap::new();
        let n = entries.len();
        let mut i: usize = 0;
        assert(all.take(0) =~= Seq::<TableEntryView>::empty());
        while i < n
            invariant
                n == entries.len(),
                i <= n,
                all == entries@.map_values(|e: TableEntry| e@),
                start == empty_port_map(),
                start.with_entries(all.take(i as int)) == Ok::<PortMapView, ErrorSpec>(
                    PortMapView { by_name: names@, by_dev: devs@ },
                ),
            decreases n - i,
        {
            proof {
                assert(all.take(i as int + 1).drop_last() =~= all.take(i as int));
                assert(all[i as int] == entries@[i as int]@);
            }
            match parse_port_record(&entries[i]) {
                Ok(Some(rec)) => {
                    names = names.insert(rec.0, rec.1);
                    devs.insert(rec.1, (rec.2, rec.3));
                },
                Ok(None) => {},
                Err(e) => {
                    proof {
                        lemma_with_entries_prefix_err(start, all, i as int + 1);
                    }
                    return Err(e);
                },
            }
            i += 1;
        }
        assert(all.take(n as int) =~= all);
        Ok(PortManager { mapping_name_to_dev: names, mapping_dev_to_name: devs })
    }

    /// The id on the device of the port at `port` and `channel` of the front panel.
    pub fn dev_port(&self, port: u32, channel: u8) -> (r: Result<u32, RBFRTError>)
        ensures
            result_view(r) == self@.dev_port(port, channel),
    {
        let name = port_name_string(port, channel);
        match self.mapping_name_to_dev.get(name.as_str()) {
            Some(d) => Ok(*d),
            None => Err(RBFRTError::PortNotFound { name }),
        }
    }

    /// The place on the front panel of the port with the id `dev_port`.
    pub fn frontpanel_port(&self, dev_port: u32) -> (r: Result<(u32, u8), RBFRTError>)
        ensures
            result_view(r) == self@.frontpanel_port(dev_port),
    {
        match self.mapping_dev_to_name.get(&dev_port) {
            Some(p) => Ok(*p),
            None => Err(RBFRTError::PortNotFound { name: decimal_string(dev_port as u128) }),
        }
    }

    /// The request that configures `port` with its settings.
    pub fn add_port_request(&self, port: &Port) -> (r: Result<Request, RBFRTError>)
        ensures
            match r {
                Ok(req) => self@.dev_port(port@.port, port@.channel) matches Ok(d) && req@ == port_request_view(
                    d,
                    port_settings(port@),
                ),
                Err(e) => self@.dev_port(port@.port, port@.channel) == Err::<u32, ErrorSpec>(e@),
            },
    {
        let dev_port = self.dev_port(port.port, port.channel)?;
        let req = port_key_request(dev_port).action_data("$SPEED", port.speed.name()).action_data(
            "$FEC",
            port.fec.name(),
        ).action_data("$PORT_ENABLE", port.enable).action_data(
            "$AUTO_NEGOTIATION",
            port.auto_neg.name(),
        ).action_data("$LOOPBACK_MODE", port.loopback.name());
        assert(req@.action_data =~= port_settings(port@));
        Ok(req)
    }

    /// The request that selects `port`: to delete it, or to read it.
    pub fn port_request(&self, port: &Port) -> (r: Result<Request, RBFRTError>)
        ensures
            match r {
                Ok(req) => self@.dev_port(port@.port, port@.channel) matches Ok(d) && req@ == port_request_view(
                    d,
                    Seq::empty(),
                ),
                Err(e) => self@.dev_port(port@.port, port@.channel) == Err::<u32, ErrorSpec>(e@),
            },
    {
        let dev_port = self.dev_port(port.port, port.channel)?;
        Ok(port_key_request(dev_port))
    }

    /// The request that switches `port` on or off.
    pub fn switch_port_request(&self, port: &Port, on: bool) -> (r: Result<Request, RBFRTError>)
        ensures
            match r {
                Ok(req) => self@.dev_port(port@.port, port@.channel) matches Ok(d) && req@ == port_request_view(
                    d,
                    port_switch(on),
                ),
                Err(e) => self@.dev_port(port@.port, port@.channel) == Err::<u32, ErrorSpec>(e@),
            },
    {
        let dev_port = self.dev_port(port.port, port.channel)?;
        let req = port_key_request(dev_port).action_data("$PORT_ENABLE", on);
        assert(req@.action_data =~= port_switch(on));
        Ok(req)
    }
}

pub open spec fn unknown_setting_text() -> Seq<char> {
    "Unknown port setting."@
}

pub open spec fn wrong_dev_port_key_text() -> Seq<char> {
    "Wrong match value for port table."@
}

/// The text of a setting of a port: the visible ASCII characters of what
/// the switch reported under `name`, which has to be UTF-8.
pub open spec fn text_setting(e: TableEntryView, name: Seq<char>) -> Result<Seq<u8>, ErrorSpec> {
    match e.action_data_index(name) {
        None => Err(ErrorSpec::UnknownActionName { name }),
        Some(i) => if valid_utf8(e.action_data[i].data) {
            Ok(graphic(e.action_data[i].data))
        } else {
            Err(
                ErrorSpec::ByteConversionError {
                    target: "String"@,
                    orig_e: crate::bfrt::table_object::utf8_error_text(),
                },
            )
        },
    }
}

/// A flag of a port: whether any byte is set of what the switch reported
/// under `name`.
pub open spec fn flag_setting(e: TableEntryView, name: Seq<char>) -> Result<bool, ErrorSpec> {
    match e.action_data_index(name) {
        None => Err(ErrorSpec::UnknownActionName { name }),
        Some(i) => Ok(any_set(e.action_data[i].data)),
    }
}

/// The characters that ASCII bytes spell.
pub open spec fn ascii_text(bytes: Seq<u8>) -> Option<Seq<char>> {
    if valid_utf8(bytes) {
        Some(decode_utf8(bytes))
    } else {
        None
    }
}

/// The id on the device that an entry of the port table carries as its key.
pub open spec fn entry_dev_port(e: TableEntryView) -> Result<u32, ErrorSpec> {
    if !e.match_keys.contains_key(dev_port_name()) {
        Err(ErrorSpec::UnknownKeyName { name: dev_port_name(), table_name: e.table_name })
    } else {
        match e.match_keys[dev_port_name()] {
            MatchSpec::Exact { bytes } => match canon_result(bytes, "to_u32 call"@, 32) {
                Err(err) => Err(err),
                Ok(_) => Ok(be_value(bytes) as u32),
            },
            _ => Err(ErrorSpec::GenericError { message: wrong_dev_port_key_text() }),
        }
    }
}

/// The settings of a port as read from the switch, all of them found and by
/// their names known.
pub struct PortSettings {
    pub speed: Speed,
    pub auto_neg: AutoNegotiation,
    pub fec: FEC,
    pub enable: bool,
    pub status: bool,
    pub loopback: Loopback,
}

/// The settings that an entry of the port table reports. The fields are
/// read in the order speed, auto negotiation, error correction, enabled,
/// up, loopback; the first one that is missing or no text is the error.
/// A text that names no setting is an error of its own.
pub open spec fn entry_settings(e: TableEntryView) -> Result<PortSettings, ErrorSpec> {
    match text_setting(e, "$SPEED"@) {
        Err(err) => Err(err),
        Ok(speed) => match text_setting(e, "$AUTO_NEGOTIATION"@) {
            Err(err) => Err(err),
            Ok(auto_neg) => match text_setting(e, "$FEC"@) {
                Err(err) => Err(err),
                Ok(fec) => match flag_setting(e, "$PORT_ENABLE"@) {
                    Err(err) => Err(err),
                    Ok(enable) => match flag_setting(e, "$PORT_UP"@) {
                        Err(err) => Err(err),
                        Ok(status) => match text_setting(e, "$LOOPBACK_MODE"@) {
                            Err(err) => Err(err),
                            Ok(loopback) => match (
                                ascii_text(speed),
                                ascii_text(auto_neg),
                                ascii_text(fec),
                                ascii_text(loopback),
                            ) {
                                (Some(s), Some(a), Some(f), Some(l)) => match (
                                    Speed::named(s),
                                    AutoNegotiation::named(a),
                                    FEC::named(f),
                                    Loopback::named(l),
                                ) {
                                    (Some(speed), Some(auto_neg), Some(fec), Some(loopback)) => Ok(
                                        PortSettings { speed, auto_neg, fec, enable, status, loopback },
                                    ),
                                    _ => Err(ErrorSpec::GenericError { message: unknown_setting_text() }),
                                },
                                _ => Err(ErrorSpec::GenericError { message: unknown_setting_text() }),
                            },
                        },
                    },
                },
            },
        },
    }
}

impl PortMapView {
    /// The port that an entry of the port table stands for.
    pub open spec fn port_of(self, e: TableEntryView) -> Result<PortView, ErrorSpec> {
        match entry_dev_port(e) {
            Err(err) => Err(err),
            Ok(dev_port) => match self.frontpanel_port(dev_port) {
                Err(err) => Err(err),
                Ok(front) => match entry_settings(e) {
                    Err(err) => Err(err),
                    Ok(s) => Ok(
                        PortView {
                            port: front.0,
                            channel: front.1,
                            dev_port: Some(dev_port),
                            speed: s.speed,
                            auto_neg: s.auto_neg,
                            fec: s.fec,
                            loopback: s.loopback,
                            enable: s.enable,
                            status: s.status,
                        },
                    ),
                },
            },
        }
    }

    pub open spec fn port_reader(self) -> spec_fn(TableEntryView) -> Result<PortView, ErrorSpec> {
        |e: TableEntryView| self.port_of(e)
    }
}

/// Reads the text of the setting `name` of an entry of the port table.
pub fn read_text_setting(entry: &TableEntry, name: &str) -> (r: Result<Vec<u8>, RBFRTError>)
    ensures
        result_view(r) == text_setting(entry@, name@),
{
    let data = entry.get_action_data(name)?.get_data();
    match to_text(data) {
        Some(_) => Ok(graphic_bytes(data)),
        None => Err(
            RBFRTError::ByteConversionError {
                target: "String".to_owned(),
                orig_e: "invalid utf-8 sequence".to_owned(),
            },
        ),
    }
}

/// Reads the flag `name` of an entry of the port table.
pub fn read_flag_setting(entry: &TableEntry, name: &str) -> (r: Result<bool, RBFRTError>)
    ensures
        match r {
            Ok(b) => flag_setting(entry@, name@) == Ok::<bool, ErrorSpec>(b),
            Err(e) => flag_setting(entry@, name@) == Err::<bool, ErrorSpec>(e@),
        },
{
    Ok(to_bool(entry.get_action_data(name)?.get_data()))
}

/// Reads the settings of an entry of the port table.
pub fn read_settings(entry: &TableEntry) -> (r: Result<(Speed, AutoNegotiation, FEC, bool, bool, Loopback), RBFRTError>)
    ensures
        match r {
            Ok(s) => entry_settings(entry@) == Ok::<PortSettings, ErrorSpec>(
                PortSettings { speed: s.0, auto_neg: s.1, fec: s.2, enable: s.3, status: s.4, loopback: s.5 },
            ),
            Err(e) => entry_settings(entry@) == Err::<PortSettings, ErrorSpec>(e@),
        },
{
    let speed = read_text_setting(entry, "$SPEED")?;
    let auto_neg = read_text_setting(entry, "$AUTO_NEGOTIATION")?;
    let fec = read_text_setting(entry, "$FEC")?;
    let enable = read_flag_setting(entry, "$PORT_ENABLE")?;
    let status = read_flag_setting(entry, "$PORT_UP")?;
    let loopback = read_text_setting(entry, "$LOOPBACK_MODE")?;
    match (to_text(&speed), to_text(&auto_neg), to_text(&fec), to_text(&loopback)) {
        (Some(s), Some(a), Some(f), Some(l)) => {
            match (
                Speed::from_name(s.as_str()),
                AutoNegotiation::from_name(a.as_str()),
                FEC::from_name(f.as_str()),
                Loopback::from_name(l.as_str()),
            ) {
                (Some(speed), Some(auto_neg), Some(fec), Some(loopback)) => Ok(
                    (speed, auto_neg, fec, enable, status, loopback),
                ),
                _ => Err(RBFRTError::GenericError { message: "Unknown port setting.".to_owned() }),
            }
        },
        _ => Err(RBFRTError::GenericError { message: "Unknown port setting.".to_owned() }),
    }
}

/// Reads the id on the device from the key of an entry of the port table.
pub fn read_dev_port(entry: &TableEntry) -> (r: Result<u32, RBFRTError>)
    ensures
        match r {
            Ok(d) => entry_dev_port(entry@) == Ok::<u32, ErrorSpec>(d),
            Err(e) => entry_dev_port(entry@) == Err::<u32, ErrorSpec>(e@),
        },
{
    let key = entry.get_key("$DEV_PORT")?;
    match key {
        MatchValue::ExactValue { bytes } => {
            let word = canonicalize(copy_bytes(bytes), "to_u32 call", 32)?;
            proof {
                lemma_be_value_canonical(bytes@, 32);
                lemma_be_value_bound(word@);
                lemma_pow256_values();
            }
            Ok(be_decode(&word) as u32)
        },
        _ => Err(RBFRTError::GenericError { message: "Wrong match value for port table.".to_owned() }),
    }
}

impl PortManager {
    /// The port that an entry of the port table stands for.
    pub fn parse_port(&self, entry: &TableEntry) -> (r: Result<Port, RBFRTError>)
        ensures
            result_view(r) == self@.port_of(entry@),
    {
        let dev_port = read_dev_port(entry)?;
        let front = self.frontpanel_port(dev_port)?;
        let s = read_settings(entry)?;
        Ok(
            Port {
                port: front.0,
                channel: front.1,
                dev_port: Some(dev_port),
                speed: s.0,
                auto_neg: s.1,
                fec: s.2,
                loopback: s.5,
                enable: s.3,
                status: s.4,
            },
        )
    }

    /// The ports that the entries of the port table stand for, in order.
    pub fn parse_ports(&self, entries: &Vec<TableEntry>) -> (r: Result<Vec<Port>, RBFRTError>)
        ensures
            match r {
                Ok(ports) => crate::seq_ext::try_map(
                    entries@.map_values(|e: TableEntry| e@),
                    self@.port_reader(),
                ) == Ok::<Seq<PortView>, ErrorSpec>(ports@.map_values(|p: Port| p@)),
                Err(e) => crate::seq_ext::try_map(entries@.map_values(|e: TableEntry| e@), self@.port_reader())
                    == Err::<Seq<PortView>, ErrorSpec>(e@),
            },
    {
        let ghost all = entries@.map_values(|e: TableEntry| e@);
        let ghost f = self@.port_reader();
        let mut port_list: Vec<Port> = Vec::new();
        let n = entries.len();
        let mut i: usize = 0;
        proof {
            assert(all.take(0) =~= Seq::<TableEntryView>::empty());
            assert(port_list@.map_values(|p: Port| p@) =~= Seq::<PortView>::empty());
        }
        while i < n
            invariant
                n == entries.len(),
                i <= n,
                all == entries@.map_values(|e: TableEntry| e@),
                f == self@.port_reader(),
                crate::seq_ext::try_map(all.take(i as int), f) == Ok::<Seq<PortView>, ErrorSpec>(
                    port_list@.map_values(|p: Port| p@),
                ),
            decreases n - i,
        {
            proof {
                crate::seq_ext::lemma_try_map_step(all, f, i as int);
                assert(all[i as int] == entries@[i as int]@);
                assert(f(all[i as int]) == self@.port_of(all[i as int]));
            }
            let p = match self.parse_port(&entries[i]) {
                Ok(p) => p,
                Err(e) => {
                    proof {
                        crate::seq_ext::lemma_try_map_prefix_err(all, f, i as int + 1);
                    }
                    return Err(e);
                },
            };
            let ghost before = port_list@;
            port_list.push(p);
            assert(port_list@.map_values(|p: Port| p@) =~= before.map_values(|p: Port| p@).push(p@));
            i += 1;
        }
        assert(all.take(n as int) =~= all);
        Ok(port_list)
    }
}

} // verus!
