//! Query description kinds mirrored from the engine's C enums.
//!
//! The numeric values of these kinds cross the boundary to the engine, so
//! the conversions to and from the engine's integers pin the exact values it
//! uses.  An unknown value falls back to the default kind, as the engine's
//! own readers do.

use vstd::prelude::*;

verus! {

/// Access pattern of a system to a component term.
#[derive(Debug, Copy, Clone, PartialEq, Eq, Structural)]
pub enum InOutKind {
    /// Default behavior: `InOut` for regular terms, `In` for shared terms.
    Default,
    /// The term is neither read nor written.
    InOutNone,
    /// Same as `InOutNone`, and the term does not trigger observers.
    Filter,
    /// The term is both read and written.
    InOut,
    /// The term is only read.
    In,
    /// The term is only written.
    Out,
}

impl InOutKind {
    /// Returns whether the term is only read.
    pub fn is_read_only(&self) -> (r: bool)
        ensures
            r == (*self is In),
    {
        matches!(self, Self::In)
    }

    /// The numeric value the engine uses for this kind.
    pub open spec fn as_i16_spec(self) -> i16 {
        match self {
            InOutKind::Default => 0,
            InOutKind::InOutNone => 1,
            InOutKind::Filter => 2,
            InOutKind::InOut => 3,
            InOutKind::In => 4,
            InOutKind::Out => 5,
        }
    }

    /// The kind the engine's numeric value denotes, `Default` for an
    /// unknown one.
    pub open spec fn from_i16_spec(value: i16) -> InOutKind {
        if value == 1 {
            InOutKind::InOutNone
        } else if value == 2 {
            InOutKind::Filter
        } else if value == 3 {
            InOutKind::InOut
        } else if value == 4 {
            InOutKind::In
        } else if value == 5 {
            InOutKind::Out
        } else {
            InOutKind::Default
        }
    }
}

impl From<i16> for InOutKind {
    /// Reads a kind back from the engine's numeric value.
    fn from(value: i16) -> (r: InOutKind) {
        match value {
            1i16 => InOutKind::InOutNone,
            2i16 => InOutKind::Filter,
            3i16 => InOutKind::InOut,
            4i16 => InOutKind::In,
            5i16 => InOutKind::Out,
            _ => InOutKind::Default,
        }
    }
}

impl vstd::std_specs::convert::FromSpecImpl<i16> for InOutKind {
    open spec fn obeys_from_spec() -> bool {
        true
    }

    open spec fn from_spec(v: i16) -> InOutKind {
        InOutKind::from_i16_spec(v)
    }
}

impl From<InOutKind> for i16 {
    /// The numeric value the engine uses for this kind.
    fn from(value: InOutKind) -> (r: i16) {
        match value {
            InOutKind::Default => 0,
            InOutKind::InOutNone => 1,
            InOutKind::Filter => 2,
            InOutKind::InOut => 3,
            InOutKind::In => 4,
            InOutKind::Out => 5,
        }
    }
}

impl vstd::std_specs::convert::FromSpecImpl<InOutKind> for i16 {
    open spec fn obeys_from_spec() -> bool {
        true
    }

    open spec fn from_spec(v: InOutKind) -> i16 {
        v.as_i16_spec()
    }
}

/// Logical operation applied to a term within a query.
#[derive(Debug, Copy, Clone, PartialEq, Eq, Structural)]
pub enum OperKind {
    /// The term must be present.
    And,
    /// At least one term of an `Or` chain must be present.
    Or,
    /// The term must not be present.
    Not,
    /// Presence or absence does not affect matching.
    Optional,
    /// All components identified by the term's id must be present.
    AndFrom,
    /// At least one component identified by the term's id must be present.
    OrFrom,
    /// None of the components identified by the term's id may be present.
    NotFrom,
}

impl OperKind {
    /// Returns whether the operation negates its term.
    pub fn is_negation(&self) -> (r: bool)
        ensures
            r == (*self is Not || *self is NotFrom),
    {
        matches!(self, Self::Not | Self::NotFrom)
    }

    /// The numeric value the engine uses for this kind.
    pub open spec fn as_i16_spec(self) -> i16 {
        match self {
            OperKind::And => 0,
            OperKind::Or => 1,
            OperKind::Not => 2,
            OperKind::Optional => 3,
            OperKind::AndFrom => 4,
            OperKind::OrFrom => 5,
            OperKind::NotFrom => 6,
        }
    }

    /// The kind the engine's numeric value denotes, `And` for an unknown
    /// one.
    pub open spec fn from_i16_spec(value: i16) -> OperKind {
        if value == 1 {
            OperKind::Or
        } else if value == 2 {
            OperKind::Not
        } else if value == 3 {
            OperKind::Optional
        } else if value == 4 {
            OperKind::AndFrom
        } else if value == 5 {
            OperKind::OrFrom
        } else if value == 6 {
            OperKind::NotFrom
        } else {
            OperKind::And
        }
    }
}

impl From<i16> for OperKind {
    /// Reads a kind back from the engine's numeric value.
    fn from(value: i16) -> (r: OperKind) {
        match value {
            1i16 => OperKind::Or,
            2i16 => OperKind::Not,
            3i16 => OperKind::Optional,
            4i16 => OperKind::AndFrom,
            5i16 => OperKind::OrFrom,
            6i16 => OperKind::NotFrom,
            _ => OperKind::And,
        }
    }
}

impl vstd::std_specs::convert::FromSpecImpl<i16> for OperKind {
    open spec fn obeys_from_spec() -> bool {
        true
    }

    open spec fn from_spec(v: i16) -> OperKind {
        OperKind::from_i16_spec(v)
    }
}

impl From<OperKind> for i16 {
    /// The numeric value the engine uses for this kind.
    fn from(value: OperKind) -> (r: i16) {
        match value {
            OperKind::And => 0,
            OperKind::Or => 1,
            OperKind::Not => 2,
            OperKind::Optional => 3,
            OperKind::AndFrom => 4,
            OperKind::OrFrom => 5,
            OperKind::NotFrom => 6,
        }
    }
}

impl vstd::std_specs::convert::FromSpecImpl<OperKind> for i16 {
    open spec fn obeys_from_spec() -> bool {
        true
    }

    open spec fn from_spec(v: OperKind) -> i16 {
        v.as_i16_spec()
    }
}

/// Caching policy for a query.
pub enum QueryCacheKind {
    /// Behavior determined by the query creation context.
    Default,
    /// Cache the query terms that are cacheable.
    Auto,
    /// Require that all query terms can be cached.
    All,
    /// No caching.
    CacheNone,
}

impl QueryCacheKind {
    /// Returns whether cacheable terms are cached.
    pub fn is_auto(&self) -> (r: bool)
        ensures
            r == (*self is Auto),
    {
        matches!(self, Self::Auto)
    }

    /// Returns whether caching is disabled.
    pub fn is_none(&self) -> (r: bool)
        ensures
            r == (*self is CacheNone),
    {
        matches!(self, Self::CacheNone)
    }

    /// Returns whether all terms must be cacheable.
    pub fn is_all(&self) -> (r: bool)
        ensures
            r == (*self is All),
    {
        matches!(self, Self::All)
    }

    /// Returns whether the policy is left to the creation context.
    pub fn is_default(&self) -> (r: bool)
        ensures
            r == (*self is Default),
    {
        matches!(self, Self::Default)
    }

    /// The kind the engine's numeric value denotes, `Default` for an
    /// unknown one.
    pub open spec fn from_u32_spec(value: u32) -> QueryCacheKind {
        if value == 1 {
            QueryCacheKind::Auto
        } else if value == 2 {
            QueryCacheKind::All
        } else if value == 3 {
            QueryCacheKind::CacheNone
        } else {
            QueryCacheKind::Default
        }
    }
}

impl From<u32> for QueryCacheKind {
    /// Reads a kind back from the engine's numeric value.
    fn from(value: u32) -> (r: QueryCacheKind) {
        match value {
            1u32 => QueryCacheKind::Auto,
            2u32 => QueryCacheKind::All,
            3u32 => QueryCacheKind::CacheNone,
            _ => QueryCacheKind::Default,
        }
    }
}

impl vstd::std_specs::convert::FromSpecImpl<u32> for QueryCacheKind {
    open spec fn obeys_from_spec() -> bool {
        true
    }

    open spec fn from_spec(v: u32) -> QueryCacheKind {
        QueryCacheKind::from_u32_spec(v)
    }
}

} // verus!
