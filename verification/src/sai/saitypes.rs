//! SAI object types whose statistics the daemon names.
use vstd::prelude::*;

verus! {

/// SAI object types (`sai_object_type_t`) that carry the statistics the
/// daemon knows by name.
#[derive(Debug, Clone, Copy, PartialEq, Eq, Hash, Structural)]
pub enum SaiObjectType {
    Port,
    Queue,
    BufferPool,
    IngressPriorityGroup,
}

impl SaiObjectType {
    /// Value of this object type in `sai_object_type_t`.
    pub open spec fn spec_to_u32(self) -> u32 {
        match self {
            Self::Port => 1,
            Self::Queue => 21,
            Self::BufferPool => 24,
            Self::IngressPriorityGroup => 26,
        }
    }

    /// Object type with value `value`, among those listed.
    pub open spec fn spec_from_u32(value: u32) -> Option<Self> {
        match value {
            1u32 => Some(Self::Port),
            21u32 => Some(Self::Queue),
            24u32 => Some(Self::BufferPool),
            26u32 => Some(Self::IngressPriorityGroup),
            _ => None,
        }
    }

    /// Name of this object type in `sai_object_type_t`.
    pub open spec fn spec_c_name(self) -> Seq<char> {
        match self {
            Self::Port => "SAI_OBJECT_TYPE_PORT"@,
            Self::Queue => "SAI_OBJECT_TYPE_QUEUE"@,
            Self::BufferPool => "SAI_OBJECT_TYPE_BUFFER_POOL"@,
            Self::IngressPriorityGroup => "SAI_OBJECT_TYPE_INGRESS_PRIORITY_GROUP"@,
        }
    }

    /// Object type with value `value`, among those listed.
    pub fn from_u32(value: u32) -> (r: Option<Self>)
        ensures
            r == Self::spec_from_u32(value),
    {
        match value {
            1 => Some(Self::Port),
            21 => Some(Self::Queue),
            24 => Some(Self::BufferPool),
            26 => Some(Self::IngressPriorityGroup),
            _ => None,
        }
    }

    /// Value of this object type in `sai_object_type_t`.
    pub fn to_u32(self) -> (r: u32)
        ensures
            r == self.spec_to_u32(),
    {
        match self {
            Self::Port => 1,
            Self::Queue => 21,
            Self::BufferPool => 24,
            Self::IngressPriorityGroup => 26,
        }
    }

    /// Name of this object type in `sai_object_type_t`.
    pub fn to_c_name(self) -> (r: &'static str)
        ensures
            r@ == self.spec_c_name(),
    {
        match self {
            Self::Port => "SAI_OBJECT_TYPE_PORT",
            Self::Queue => "SAI_OBJECT_TYPE_QUEUE",
            Self::BufferPool => "SAI_OBJECT_TYPE_BUFFER_POOL",
            Self::IngressPriorityGroup => "SAI_OBJECT_TYPE_INGRESS_PRIORITY_GROUP",
        }
    }

    /// Law: converting an object type to its value and back gives it again.
    pub proof fn lemma_u32_roundtrip(t: Self)
        ensures
            Self::spec_from_u32(t.spec_to_u32()) == Some(t),
    {
    }

    /// The value `sai_object_type_t` gives the object type named `name`, for
    /// the object types the daemon reads.
    pub open spec fn spec_c_enum_value(name: Seq<char>) -> Option<u32> {
        if name == "SAI_OBJECT_TYPE_PORT"@ {
            Some(1u32)
        } else if name == "SAI_OBJECT_TYPE_QUEUE"@ {
            Some(21u32)
        } else if name == "SAI_OBJECT_TYPE_BUFFER_POOL"@ {
            Some(24u32)
        } else if name == "SAI_OBJECT_TYPE_INGRESS_PRIORITY_GROUP"@ {
            Some(26u32)
        } else {
            None
        }
    }

    /// Law: every object type has the value `sai_object_type_t` gives its
    /// name, and a value converts to the object type with that value.
    pub proof fn lemma_values_follow_c_enum(t: Self, x: u32)
        ensures
            Self::spec_c_enum_value(t.spec_c_name()) == Some(t.spec_to_u32()),
            Self::spec_from_u32(x) matches Some(w) ==> Self::spec_c_enum_value(w.spec_c_name()) == Some(x),
    {
        reveal_strlit("SAI_OBJECT_TYPE_PORT");
        reveal_strlit("SAI_OBJECT_TYPE_QUEUE");
        reveal_strlit("SAI_OBJECT_TYPE_BUFFER_POOL");
        reveal_strlit("SAI_OBJECT_TYPE_INGRESS_PRIORITY_GROUP");
        assert("SAI_OBJECT_TYPE_PORT"@.len() == 20);
        assert("SAI_OBJECT_TYPE_QUEUE"@.len() == 21);
        assert("SAI_OBJECT_TYPE_BUFFER_POOL"@.len() == 27);
        assert("SAI_OBJECT_TYPE_INGRESS_PRIORITY_GROUP"@.len() == 38);
    }
}

} // verus!
