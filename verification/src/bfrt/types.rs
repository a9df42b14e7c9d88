use vstd::prelude::*;
use crate::codec::UNCONSTRAINED_WIDTH;
use crate::error::RBFRTError;
use crate::text::str_eq;

verus! {

/// How a table key is matched.
#[derive(Debug, Clone, Copy, PartialEq, Eq, Structural)]
pub enum TableMatchTypes {
    LPM,
    Exact,
    Range,
    Ternary,
}

/// The closed set of field types a schema may declare.
#[derive(Debug, Clone, Copy, PartialEq, Eq, Structural)]
pub enum FieldKind {
    Uint8,
    Uint16,
    Uint32,
    Uint64,
    Bytes,
    Bool,
    Text,
}

/// Type of a key, an action parameter or a singleton. A `Bytes` field always
/// carries its declared width.
#[derive(Debug, Clone, Copy)]
pub struct BFRTFieldType {
    kind: FieldKind,
    width: Option<u32>,
}

/// The type name a schema uses for `kind`.
pub open spec fn kind_name(kind: FieldKind) -> Seq<char> {
    match kind {
        FieldKind::Uint8 => "uint8"@,
        FieldKind::Uint16 => "uint16"@,
        FieldKind::Uint32 => "uint32"@,
        FieldKind::Uint64 => "uint64"@,
        FieldKind::Bytes => "bytes"@,
        FieldKind::Bool => "bool"@,
        FieldKind::Text => "string"@,
    }
}

/// The kind that a schema's type name stands for.
pub open spec fn kind_named(name: Seq<char>) -> Option<FieldKind> {
    if name == "uint64"@ {
        Some(FieldKind::Uint64)
    } else if name == "uint32"@ {
        Some(FieldKind::Uint32)
    } else if name == "uint16"@ {
        Some(FieldKind::Uint16)
    } else if name == "uint8"@ {
        Some(FieldKind::Uint8)
    } else if name == "bytes"@ {
        Some(FieldKind::Bytes)
    } else if name == "bool"@ {
        Some(FieldKind::Bool)
    } else if name == "string"@ {
        Some(FieldKind::Text)
    } else {
        None
    }
}

/// Bit width of a field of `kind` whose schema declares `width`.
pub open spec fn width_of(kind: FieldKind, width: Option<u32>) -> u32 {
    match kind {
        FieldKind::Uint64 => 64,
        FieldKind::Uint32 => 32,
        FieldKind::Uint16 => 16,
        FieldKind::Uint8 => 8,
        FieldKind::Bytes => width.unwrap(),
        FieldKind::Bool => 1,
        FieldKind::Text => UNCONSTRAINED_WIDTH,
    }
}

impl BFRTFieldType {
    #[verifier::type_invariant]
    spec fn inv(self) -> bool {
        self.kind is Bytes ==> self.width is Some
    }

    pub closed spec fn kind(&self) -> FieldKind {
        self.kind
    }

    pub closed spec fn declared_width(&self) -> Option<u32> {
        self.width
    }

    /// Bit width of the field, a function of its kind alone but for `Bytes`.
    pub open spec fn spec_width(&self) -> u32 {
        width_of(self.kind(), self.declared_width())
    }

    /// A field type of `kind` with the declared `width`; `None` for a
    /// `Bytes` field that declares no width.
    pub fn new(kind: FieldKind, width: Option<u32>) -> (r: Option<BFRTFieldType>)
        ensures
            r is Some <==> (kind is Bytes ==> width is Some),
            r matches Some(t) ==> t.kind() == kind && t.declared_width() == width,
    {
        match (kind, width) {
            (FieldKind::Bytes, None) => None,
            _ => Some(BFRTFieldType { kind, width }),
        }
    }

    /// Resolves a schema's type name. Names outside the closed set, and
    /// `bytes` without a width, are refused here rather than at encoding.
    pub fn from_name(name: &str, width: Option<u32>) -> (r: Result<BFRTFieldType, RBFRTError>)
        ensures
            match r {
                Ok(t) => kind_named(name@) == Some(t.kind()) && kind_name(t.kind()) == name@
                    && t.declared_width() == width && (t.kind() is Bytes ==> width is Some),
                Err(e) => (e matches RBFRTError::UnsupportedType { name: n } && n@ == name@) && (kind_named(
                    name@,
                ) is None || (kind_named(name@) == Some(FieldKind::Bytes) && width is None)),
            },
    {
        let kind = if str_eq(name, "uint64") {
            FieldKind::Uint64
        } else if str_eq(name, "uint32") {
            FieldKind::Uint32
        } else if str_eq(name, "uint16") {
            FieldKind::Uint16
        } else if str_eq(name, "uint8") {
            FieldKind::Uint8
        } else if str_eq(name, "bytes") {
            FieldKind::Bytes
        } else if str_eq(name, "bool") {
            FieldKind::Bool
        } else if str_eq(name, "string") {
            FieldKind::Text
        } else {
            return Err(RBFRTError::UnsupportedType { name: name.to_owned() });
        };
        match BFRTFieldType::new(kind, width) {
            Some(t) => Ok(t),
            None => Err(RBFRTError::UnsupportedType { name: name.to_owned() }),
        }
    }

    pub fn get_kind(&self) -> (k: FieldKind)
        ensures
            k == self.kind(),
    {
        self.kind
    }

    /// Bit width of the field; the unconstrained width for a text.
    pub fn get_width(&self) -> (w: u32)
        ensures
            w == self.spec_width(),
    {
        proof {
            use_type_invariant(self);
        }
        match self.kind {
            FieldKind::Uint64 => 64,
            FieldKind::Uint32 => 32,
            FieldKind::Uint16 => 16,
            FieldKind::Uint8 => 8,
            FieldKind::Bytes => self.width.unwrap(),
            FieldKind::Bool => 1,
            FieldKind::Text => UNCONSTRAINED_WIDTH,
        }
    }
}

/// Kind of a table; it decides how the ids of its data fields are resolved.
#[derive(Debug, Clone, Copy, PartialEq, Eq, Structural)]
pub enum TableType {
    MatchActionDirect,
    Register,
    Meter,
    SnapshotCfg,
    SnapshotTrigger,
    SnapshotData,
    SnapshotLiveness,
    PortMetadata,
    PreMgid,
    PreNode,
    PreEcmp,
    PreLag,
    PrePrune,
    PrePort,
    PortConfigure,
    PortStat,
    PortHdlInfo,
    PktgenAppCfg,
    PktgenPktBufferCfg,
    Unknown,
}

} // verus!
