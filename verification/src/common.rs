//! Shared vocabulary of the protocol: priorities, sizes, risk, assignees,
//! impact areas, checklist items and points in time.
use crate::names::{invalid_value_message, lemma_tame_name, serde_key, serde_key_of};
use crate::text::{owned, replace_char, str_eq};
use vstd::prelude::*;

verus! {

/// A point in time: whole seconds since the Unix epoch and the nanoseconds
/// past that second (at least one second's worth during a leap second).
#[derive(Clone, Copy, Debug, PartialEq, Eq, Structural)]
pub struct Timestamp {
    pub secs: i64,
    pub nanos: u32,
}

impl Timestamp {
    /// Strictly earlier, in the order of `chrono::DateTime`.
    pub open spec fn before(self, other: Timestamp) -> bool {
        self.secs < other.secs || (self.secs == other.secs && self.nanos < other.nanos)
    }

    /// Strictly earlier.
    pub fn is_before(&self, other: &Timestamp) -> (r: bool)
        ensures
            r == self.before(*other),
    {
        self.secs < other.secs || (self.secs == other.secs && self.nanos < other.nanos)
    }
}

/// Strictly earlier, where an absent time comes before every present one
/// (the order of `Option<DateTime>`).
pub open spec fn opt_before(a: Option<Timestamp>, b: Option<Timestamp>) -> bool {
    match (a, b) {
        (None, Some(_)) => true,
        (Some(x), Some(y)) => x.before(y),
        _ => false,
    }
}

/// `opt_before` in code.
pub fn opt_is_before(a: &Option<Timestamp>, b: &Option<Timestamp>) -> (r: bool)
    ensures
        r == opt_before(*a, *b),
{
    match (a, b) {
        (None, Some(_)) => true,
        (Some(x), Some(y)) => x.is_before(y),
        _ => false,
    }
}

/// How urgent a task is.
#[derive(Clone, Copy, Debug, PartialEq, Eq, Structural)]
pub enum Priority {
    Critical,
    High,
    Medium,
    Low,
}

impl Default for Priority {
    fn default() -> (r: Self)
        ensures
            r == Priority::Medium,
    {
        Priority::Medium
    }
}

impl Priority {
    /// The name that serde gives the variant.
    pub open spec fn serde_name(self) -> Seq<char> {
        match self {
            Priority::Critical => "critical"@,
            Priority::High => "high"@,
            Priority::Medium => "medium"@,
            Priority::Low => "low"@,
        }
    }

    /// The name that `to_string` writes.
    pub open spec fn display_name(self) -> Seq<char> {
        match self {
            Priority::Critical => "critical"@,
            Priority::High => "high"@,
            Priority::Medium => "medium"@,
            Priority::Low => "low"@,
        }
    }

    /// The variant whose serde name is `k`.
    pub open spec fn from_serde_name(k: Seq<char>) -> Option<Priority> {
        if k == "critical"@ {
            Some(Priority::Critical)
        } else if k == "high"@ {
            Some(Priority::High)
        } else if k == "medium"@ {
            Some(Priority::Medium)
        } else if k == "low"@ {
            Some(Priority::Low)
        } else {
            None
        }
    }

    /// What `FromStr` gives for the text `s`: the variant named by the
    /// normalised text, or the message `invalid value: '<s>' for Priority`.
    pub open spec fn parse_spec(s: Seq<char>) -> Result<Priority, Seq<char>> {
        let msg = "invalid value: '"@ + s + "' for "@ + "Priority"@;
        match serde_key(s) {
            Some(k) => match Priority::from_serde_name(k) {
                Some(v) => Ok(v),
                None => Err(msg),
            },
            None => Err(msg),
        }
    }

    /// Position of the variant in declaration order.
    pub open spec fn spec_ordinal(self) -> int {
        match self {
            Priority::Critical => 0,
            Priority::High => 1,
            Priority::Medium => 2,
            Priority::Low => 3,
        }
    }

    /// Position of the variant in declaration order.
    pub fn ordinal(&self) -> (r: usize)
        ensures
            r == self.spec_ordinal(),
    {
        match self {
            Priority::Critical => 0,
            Priority::High => 1,
            Priority::Medium => 2,
            Priority::Low => 3,
        }
    }

    /// The display name.
    pub fn to_string(&self) -> (r: String)
        ensures
            r@ == self.display_name(),
    {
        match self {
            Priority::Critical => owned("critical"),
            Priority::High => owned("high"),
            Priority::Medium => owned("medium"),
            Priority::Low => owned("low"),
        }
    }

    /// The variant whose serde name is exactly `k`.
    pub fn from_serde_str(k: &str) -> (r: Option<Priority>)
        ensures
            r == Priority::from_serde_name(k@),
    {
        if str_eq(k, "critical") {
            Some(Priority::Critical)
        } else if str_eq(k, "high") {
            Some(Priority::High)
        } else if str_eq(k, "medium") {
            Some(Priority::Medium)
        } else if str_eq(k, "low") {
            Some(Priority::Low)
        } else {
            None
        }
    }

    /// Reads a variant from text in the manner of the protocol's `FromStr`;
    /// every display name reads back as its own variant.
    #[verifier::rlimit(50)]
    pub fn parse_name(s: &str) -> (r: Result<Priority, String>)
        ensures
            r matches Ok(v) ==> Priority::parse_spec(s@) == Ok::<Priority, Seq<char>>(v),
            r matches Err(e) ==> Priority::parse_spec(s@) == Err::<Priority, Seq<char>>(e@),
            forall|v: Priority| s@ == v.display_name() ==> r == Ok::<Priority, String>(v),
    {
        let key = serde_key_of(s);
        let r = match key {
            Some(k) => match Priority::from_serde_str(k.as_str()) {
                Some(v) => Ok(v),
                None => Err(invalid_value_message(s, "Priority")),
            },
            None => Err(invalid_value_message(s, "Priority")),
        };
        proof {
            reveal_strlit("critical");
            reveal_strlit("high");
            reveal_strlit("low");
            reveal_strlit("medium");
            assert("high"@.len() != "critical"@.len());
            assert("medium"@.len() != "critical"@.len());
            assert("medium"@.len() != "high"@.len());
            assert("low"@.len() != "critical"@.len());
            assert("low"@.len() != "high"@.len());
            assert("low"@.len() != "medium"@.len());
            assert forall|v: Priority| s@ == v.display_name() implies r == Ok::<Priority, String>(v) by {
                lemma_tame_name(s@);
                assert(replace_char(s@, '-', '_') =~= v.serde_name());
            }
        }
        r
    }
}

impl std::str::FromStr for Priority {
    type Err = String;

    fn from_str(s: &str) -> (r: Result<Priority, String>)
        ensures
            r matches Ok(v) ==> Priority::parse_spec(s@) == Ok::<Priority, Seq<char>>(v),
            r matches Err(e) ==> Priority::parse_spec(s@) == Err::<Priority, Seq<char>>(e@),
            forall|v: Priority| s@ == v.display_name() ==> r == Ok::<Priority, String>(v),
    {
        Priority::parse_name(s)
    }
}
impl Priority {
    /// Sorting rank: the most urgent first.
    pub open spec fn spec_rank(self) -> u8 {
        match self {
            Priority::Critical => 0,
            Priority::High => 1,
            Priority::Medium => 2,
            Priority::Low => 3,
        }
    }

    /// Sorting rank: `Critical` 0, `High` 1, `Medium` 2, `Low` 3.
    pub fn rank(&self) -> (r: u8)
        ensures
            r == self.spec_rank(),
    {
        match self {
            Priority::Critical => 0,
            Priority::High => 1,
            Priority::Medium => 2,
            Priority::Low => 3,
        }
    }
}

/// How hard a task is.
#[derive(Clone, Copy, Debug, PartialEq, Eq, Structural)]
pub enum Complexity {
    High,
    Medium,
    Low,
}

impl Default for Complexity {
    fn default() -> (r: Self)
        ensures
            r == Complexity::Medium,
    {
        Complexity::Medium
    }
}

impl Complexity {
    /// The name that serde gives the variant.
    pub open spec fn serde_name(self) -> Seq<char> {
        match self {
            Complexity::High => "high"@,
            Complexity::Medium => "medium"@,
            Complexity::Low => "low"@,
        }
    }

    /// The name that `to_string` writes.
    pub open spec fn display_name(self) -> Seq<char> {
        match self {
            Complexity::High => "high"@,
            Complexity::Medium => "medium"@,
            Complexity::Low => "low"@,
        }
    }

    /// The variant whose serde name is `k`.
    pub open spec fn from_serde_name(k: Seq<char>) -> Option<Complexity> {
        if k == "high"@ {
            Some(Complexity::High)
        } else if k == "medium"@ {
            Some(Complexity::Medium)
        } else if k == "low"@ {
            Some(Complexity::Low)
        } else {
            None
        }
    }

    /// What `FromStr` gives for the text `s`: the variant named by the
    /// normalised text, or the message `invalid value: '<s>' for Complexity`.
    pub open spec fn parse_spec(s: Seq<char>) -> Result<Complexity, Seq<char>> {
        let msg = "invalid value: '"@ + s + "' for "@ + "Complexity"@;
        match serde_key(s) {
            Some(k) => match Complexity::from_serde_name(k) {
                Some(v) => Ok(v),
                None => Err(msg),
            },
            None => Err(msg),
        }
    }

    /// Position of the variant in declaration order.
    pub open spec fn spec_ordinal(self) -> int {
        match self {
            Complexity::High => 0,
            Complexity::Medium => 1,
            Complexity::Low => 2,
        }
    }

    /// Position of the variant in declaration order.
    pub fn ordinal(&self) -> (r: usize)
        ensures
            r == self.spec_ordinal(),
    {
        match self {
            Complexity::High => 0,
            Complexity::Medium => 1,
            Complexity::Low => 2,
        }
    }

    /// The display name.
    pub fn to_string(&self) -> (r: String)
        ensures
            r@ == self.display_name(),
    {
        match self {
            Complexity::High => owned("high"),
            Complexity::Medium => owned("medium"),
            Complexity::Low => owned("low"),
        }
    }

    /// The variant whose serde name is exactly `k`.
    pub fn from_serde_str(k: &str) -> (r: Option<Complexity>)
        ensures
            r == Complexity::from_serde_name(k@),
    {
        if str_eq(k, "high") {
            Some(Complexity::High)
        } else if str_eq(k, "medium") {
            Some(Complexity::Medium)
        } else if str_eq(k, "low") {
            Some(Complexity::Low)
        } else {
            None
        }
    }

    /// Reads a variant from text in the manner of the protocol's `FromStr`;
    /// every display name reads back as its own variant.
    #[verifier::rlimit(50)]
    pub fn parse_name(s: &str) -> (r: Result<Complexity, String>)
        ensures
            r matches Ok(v) ==> Complexity::parse_spec(s@) == Ok::<Complexity, Seq<char>>(v),
            r matches Err(e) ==> Complexity::parse_spec(s@) == Err::<Complexity, Seq<char>>(e@),
            forall|v: Complexity| s@ == v.display_name() ==> r == Ok::<Complexity, String>(v),
    {
        let key = serde_key_of(s);
        let r = match key {
            Some(k) => match Complexity::from_serde_str(k.as_str()) {
                Some(v) => Ok(v),
                None => Err(invalid_value_message(s, "Complexity")),
            },
            None => Err(invalid_value_message(s, "Complexity")),
        };
        proof {
            reveal_strlit("high");
            reveal_strlit("low");
            reveal_strlit("medium");
            assert("medium"@.len() != "high"@.len());
            assert("low"@.len() != "high"@.len());
            assert("low"@.len() != "medium"@.len());
            assert forall|v: Complexity| s@ == v.display_name() implies r == Ok::<Complexity, String>(v) by {
                lemma_tame_name(s@);
                assert(replace_char(s@, '-', '_') =~= v.serde_name());
            }
        }
        r
    }
}

impl std::str::FromStr for Complexity {
    type Err = String;

    fn from_str(s: &str) -> (r: Result<Complexity, String>)
        ensures
            r matches Ok(v) ==> Complexity::parse_spec(s@) == Ok::<Complexity, Seq<char>>(v),
            r matches Err(e) ==> Complexity::parse_spec(s@) == Err::<Complexity, Seq<char>>(e@),
            forall|v: Complexity| s@ == v.display_name() ==> r == Ok::<Complexity, String>(v),
    {
        Complexity::parse_name(s)
    }
}
/// How much a task touches.
#[derive(Clone, Copy, Debug, PartialEq, Eq, Structural)]
pub enum Scope {
    Large,
    Medium,
    Small,
}

impl Default for Scope {
    fn default() -> (r: Self)
        ensures
            r == Scope::Medium,
    {
        Scope::Medium
    }
}

impl Scope {
    /// The name that serde gives the variant.
    pub open spec fn serde_name(self) -> Seq<char> {
        match self {
            Scope::Large => "large"@,
            Scope::Medium => "medium"@,
            Scope::Small => "small"@,
        }
    }

    /// The name that `to_string` writes.
    pub open spec fn display_name(self) -> Seq<char> {
        match self {
            Scope::Large => "large"@,
            Scope::Medium => "medium"@,
            Scope::Small => "small"@,
        }
    }

    /// The variant whose serde name is `k`.
    pub open spec fn from_serde_name(k: Seq<char>) -> Option<Scope> {
        if k == "large"@ {
            Some(Scope::Large)
        } else if k == "medium"@ {
            Some(Scope::Medium)
        } else if k == "small"@ {
            Some(Scope::Small)
        } else {
            None
        }
    }

    /// What `FromStr` gives for the text `s`: the variant named by the
    /// normalised text, or the message `invalid value: '<s>' for Scope`.
    pub open spec fn parse_spec(s: Seq<char>) -> Result<Scope, Seq<char>> {
        let msg = "invalid value: '"@ + s + "' for "@ + "Scope"@;
        match serde_key(s) {
            Some(k) => match Scope::from_serde_name(k) {
                Some(v) => Ok(v),
                None => Err(msg),
            },
            None => Err(msg),
        }
    }

    /// Position of the variant in declaration order.
    pub open spec fn spec_ordinal(self) -> int {
        match self {
            Scope::Large => 0,
            Scope::Medium => 1,
            Scope::Small => 2,
        }
    }

    /// Position of the variant in declaration order.
    pub fn ordinal(&self) -> (r: usize)
        ensures
            r == self.spec_ordinal(),
    {
        match self {
            Scope::Large => 0,
            Scope::Medium => 1,
            Scope::Small => 2,
        }
    }

    /// The display name.
    pub fn to_string(&self) -> (r: String)
        ensures
            r@ == self.display_name(),
    {
        match self {
            Scope::Large => owned("large"),
            Scope::Medium => owned("medium"),
            Scope::Small => owned("small"),
        }
    }

    /// The variant whose serde name is exactly `k`.
    pub fn from_serde_str(k: &str) -> (r: Option<Scope>)
        ensures
            r == Scope::from_serde_name(k@),
    {
        if str_eq(k, "large") {
            Some(Scope::Large)
        } else if str_eq(k, "medium") {
            Some(Scope::Medium)
        } else if str_eq(k, "small") {
            Some(Scope::Small)
        } else {
            None
        }
    }

    /// Reads a variant from text in the manner of the protocol's `FromStr`;
    /// every display name reads back as its own variant.
    #[verifier::rlimit(50)]
    pub fn parse_name(s: &str) -> (r: Result<Scope, String>)
        ensures
            r matches Ok(v) ==> Scope::parse_spec(s@) == Ok::<Scope, Seq<char>>(v),
            r matches Err(e) ==> Scope::parse_spec(s@) == Err::<Scope, Seq<char>>(e@),
            forall|v: Scope| s@ == v.display_name() ==> r == Ok::<Scope, String>(v),
    {
        let key = serde_key_of(s);
        let r = match key {
            Some(k) => match Scope::from_serde_str(k.as_str()) {
                Some(v) => Ok(v),
                None => Err(invalid_value_message(s, "Scope")),
            },
            None => Err(invalid_value_message(s, "Scope")),
        };
        proof {
            reveal_strlit("large");
            reveal_strlit("medium");
            reveal_strlit("small");
            assert("medium"@.len() != "large"@.len());
            assert("small"@[0] != "large"@[0]);
            assert("small"@.len() != "medium"@.len());
            assert forall|v: Scope| s@ == v.display_name() implies r == Ok::<Scope, String>(v) by {
                lemma_tame_name(s@);
                assert(replace_char(s@, '-', '_') =~= v.serde_name());
            }
        }
        r
    }
}

impl std::str::FromStr for Scope {
    type Err = String;

    fn from_str(s: &str) -> (r: Result<Scope, String>)
        ensures
            r matches Ok(v) ==> Scope::parse_spec(s@) == Ok::<Scope, Seq<char>>(v),
            r matches Err(e) ==> Scope::parse_spec(s@) == Err::<Scope, Seq<char>>(e@),
            forall|v: Scope| s@ == v.display_name() ==> r == Ok::<Scope, String>(v),
    {
        Scope::parse_name(s)
    }
}
/// How risky a task is.
#[derive(Clone, Copy, Debug, PartialEq, Eq, Structural)]
pub enum RiskLevel {
    High,
    Medium,
    Low,
}

impl Default for RiskLevel {
    fn default() -> (r: Self)
        ensures
            r == RiskLevel::Medium,
    {
        RiskLevel::Medium
    }
}

impl RiskLevel {
    /// The name that serde gives the variant.
    pub open spec fn serde_name(self) -> Seq<char> {
        match self {
            RiskLevel::High => "high"@,
            RiskLevel::Medium => "medium"@,
            RiskLevel::Low => "low"@,
        }
    }

    /// The name that `to_string` writes.
    pub open spec fn display_name(self) -> Seq<char> {
        match self {
            RiskLevel::High => "high"@,
            RiskLevel::Medium => "medium"@,
            RiskLevel::Low => "low"@,
        }
    }

    /// The variant whose serde name is `k`.
    pub open spec fn from_serde_name(k: Seq<char>) -> Option<RiskLevel> {
        if k == "high"@ {
            Some(RiskLevel::High)
        } else if k == "medium"@ {
            Some(RiskLevel::Medium)
        } else if k == "low"@ {
            Some(RiskLevel::Low)
        } else {
            None
        }
    }

    /// What `FromStr` gives for the text `s`: the variant named by the
    /// normalised text, or the message `invalid value: '<s>' for RiskLevel`.
    pub open spec fn parse_spec(s: Seq<char>) -> Result<RiskLevel, Seq<char>> {
        let msg = "invalid value: '"@ + s + "' for "@ + "RiskLevel"@;
        match serde_key(s) {
            Some(k) => match RiskLevel::from_serde_name(k) {
                Some(v) => Ok(v),
                None => Err(msg),
            },
            None => Err(msg),
        }
    }

    /// Position of the variant in declaration order.
    pub open spec fn spec_ordinal(self) -> int {
        match self {
            RiskLevel::High => 0,
            RiskLevel::Medium => 1,
            RiskLevel::Low => 2,
        }
    }

    /// Position of the variant in declaration order.
    pub fn ordinal(&self) -> (r: usize)
        ensures
            r == self.spec_ordinal(),
    {
        match self {
            RiskLevel::High => 0,
            RiskLevel::Medium => 1,
            RiskLevel::Low => 2,
        }
    }

    /// The display name.
    pub fn to_string(&self) -> (r: String)
        ensures
            r@ == self.display_name(),
    {
        match self {
            RiskLevel::High => owned("high"),
            RiskLevel::Medium => owned("medium"),
            RiskLevel::Low => owned("low"),
        }
    }

    /// The variant whose serde name is exactly `k`.
    pub fn from_serde_str(k: &str) -> (r: Option<RiskLevel>)
        ensures
            r == RiskLevel::from_serde_name(k@),
    {
        if str_eq(k, "high") {
            Some(RiskLevel::High)
        } else if str_eq(k, "medium") {
            Some(RiskLevel::Medium)
        } else if str_eq(k, "low") {
            Some(RiskLevel::Low)
        } else {
            None
        }
    }

    /// Reads a variant from text in the manner of the protocol's `FromStr`;
    /// every display name reads back as its own variant.
    #[verifier::rlimit(50)]
    pub fn parse_name(s: &str) -> (r: Result<RiskLevel, String>)
        ensures
            r matches Ok(v) ==> RiskLevel::parse_spec(s@) == Ok::<RiskLevel, Seq<char>>(v),
            r matches Err(e) ==> RiskLevel::parse_spec(s@) == Err::<RiskLevel, Seq<char>>(e@),
            forall|v: RiskLevel| s@ == v.display_name() ==> r == Ok::<RiskLevel, String>(v),
    {
        let key = serde_key_of(s);
        let r = match key {
            Some(k) => match RiskLevel::from_serde_str(k.as_str()) {
                Some(v) => Ok(v),
                None => Err(invalid_value_message(s, "RiskLevel")),
            },
            None => Err(invalid_value_message(s, "RiskLevel")),
        };
        proof {
            reveal_strlit("high");
            reveal_strlit("low");
            reveal_strlit("medium");
            assert("medium"@.len() != "high"@.len());
            assert("low"@.len() != "high"@.len());
            assert("low"@.len() != "medium"@.len());
            assert forall|v: RiskLevel| s@ == v.display_name() implies r == Ok::<RiskLevel, String>(v) by {
                lemma_tame_name(s@);
                assert(replace_char(s@, '-', '_') =~= v.serde_name());
            }
        }
        r
    }
}

impl std::str::FromStr for RiskLevel {
    type Err = String;

    fn from_str(s: &str) -> (r: Result<RiskLevel, String>)
        ensures
            r matches Ok(v) ==> RiskLevel::parse_spec(s@) == Ok::<RiskLevel, Seq<char>>(v),
            r matches Err(e) ==> RiskLevel::parse_spec(s@) == Err::<RiskLevel, Seq<char>>(e@),
            forall|v: RiskLevel| s@ == v.display_name() ==> r == Ok::<RiskLevel, String>(v),
    {
        RiskLevel::parse_name(s)
    }
}
/// The part of a system that a task affects.
#[derive(Clone, Copy, Debug, PartialEq, Eq, Structural)]
pub enum ImpactArea {
    Frontend,
    Backend,
    Database,
    Api,
    Infrastructure,
    Docs,
    Tests,
    CiCd,
}

impl ImpactArea {
    /// The name that serde gives the variant.
    pub open spec fn serde_name(self) -> Seq<char> {
        match self {
            ImpactArea::Frontend => "frontend"@,
            ImpactArea::Backend => "backend"@,
            ImpactArea::Database => "database"@,
            ImpactArea::Api => "api"@,
            ImpactArea::Infrastructure => "infrastructure"@,
            ImpactArea::Docs => "docs"@,
            ImpactArea::Tests => "tests"@,
            ImpactArea::CiCd => "ci_cd"@,
        }
    }

    /// The name that `to_string` writes.
    pub open spec fn display_name(self) -> Seq<char> {
        match self {
            ImpactArea::Frontend => "frontend"@,
            ImpactArea::Backend => "backend"@,
            ImpactArea::Database => "database"@,
            ImpactArea::Api => "api"@,
            ImpactArea::Infrastructure => "infrastructure"@,
            ImpactArea::Docs => "docs"@,
            ImpactArea::Tests => "tests"@,
            ImpactArea::CiCd => "ci_cd"@,
        }
    }

    /// The variant whose serde name is `k`.
    pub open spec fn from_serde_name(k: Seq<char>) -> Option<ImpactArea> {
        if k == "frontend"@ {
            Some(ImpactArea::Frontend)
        } else if k == "backend"@ {
            Some(ImpactArea::Backend)
        } else if k == "database"@ {
            Some(ImpactArea::Database)
        } else if k == "api"@ {
            Some(ImpactArea::Api)
        } else if k == "infrastructure"@ {
            Some(ImpactArea::Infrastructure)
        } else if k == "docs"@ {
            Some(ImpactArea::Docs)
        } else if k == "tests"@ {
            Some(ImpactArea::Tests)
        } else if k == "ci_cd"@ {
            Some(ImpactArea::CiCd)
        } else {
            None
        }
    }

    /// What `FromStr` gives for the text `s`: the variant named by the
    /// normalised text, or the message `invalid value: '<s>' for ImpactArea`.
    pub open spec fn parse_spec(s: Seq<char>) -> Result<ImpactArea, Seq<char>> {
        let msg = "invalid value: '"@ + s + "' for "@ + "ImpactArea"@;
        match serde_key(s) {
            Some(k) => match ImpactArea::from_serde_name(k) {
                Some(v) => Ok(v),
                None => Err(msg),
            },
            None => Err(msg),
        }
    }

    /// Position of the variant in declaration order.
    pub open spec fn spec_ordinal(self) -> int {
        match self {
            ImpactArea::Frontend => 0,
            ImpactArea::Backend => 1,
            ImpactArea::Database => 2,
            ImpactArea::Api => 3,
            ImpactArea::Infrastructure => 4,
            ImpactArea::Docs => 5,
            ImpactArea::Tests => 6,
            ImpactArea::CiCd => 7,
        }
    }

    /// Position of the variant in declaration order.
    pub fn ordinal(&self) -> (r: usize)
        ensures
            r == self.spec_ordinal(),
    {
        match self {
            ImpactArea::Frontend => 0,
            ImpactArea::Backend => 1,
            ImpactArea::Database => 2,
            ImpactArea::Api => 3,
            ImpactArea::Infrastructure => 4,
            ImpactArea::Docs => 5,
            ImpactArea::Tests => 6,
            ImpactArea::CiCd => 7,
        }
    }

    /// The display name.
    pub fn to_string(&self) -> (r: String)
        ensures
            r@ == self.display_name(),
    {
        match self {
            ImpactArea::Frontend => owned("frontend"),
            ImpactArea::Backend => owned("backend"),
            ImpactArea::Database => owned("database"),
            ImpactArea::Api => owned("api"),
            ImpactArea::Infrastructure => owned("infrastructure"),
            ImpactArea::Docs => owned("docs"),
            ImpactArea::Tests => owned("tests"),
            ImpactArea::CiCd => owned("ci_cd"),
        }
    }

    /// The variant whose serde name is exactly `k`.
    pub fn from_serde_str(k: &str) -> (r: Option<ImpactArea>)
        ensures
            r == ImpactArea::from_serde_name(k@),
    {
        if str_eq(k, "frontend") {
            Some(ImpactArea::Frontend)
        } else if str_eq(k, "backend") {
            Some(ImpactArea::Backend)
        } else if str_eq(k, "database") {
            Some(ImpactArea::Database)
        } else if str_eq(k, "api") {
            Some(ImpactArea::Api)
        } else if str_eq(k, "infrastructure") {
            Some(ImpactArea::Infrastructure)
        } else if str_eq(k, "docs") {
            Some(ImpactArea::Docs)
        } else if str_eq(k, "tests") {
            Some(ImpactArea::Tests)
        } else if str_eq(k, "ci_cd") {
            Some(ImpactArea::CiCd)
        } else {
            None
        }
    }

    /// Reads a variant from text in the manner of the protocol's `FromStr`;
    /// every display name reads back as its own variant.
    #[verifier::rlimit(50)]
    pub fn parse_name(s: &str) -> (r: Result<ImpactArea, String>)
        ensures
            r matches Ok(v) ==> ImpactArea::parse_spec(s@) == Ok::<ImpactArea, Seq<char>>(v),
            r matches Err(e) ==> ImpactArea::parse_spec(s@) == Err::<ImpactArea, Seq<char>>(e@),
            forall|v: ImpactArea| s@ == v.display_name() ==> r == Ok::<ImpactArea, String>(v),
    {
        let key = serde_key_of(s);
        let r = match key {
            Some(k) => match ImpactArea::from_serde_str(k.as_str()) {
                Some(v) => Ok(v),
                None => Err(invalid_value_message(s, "ImpactArea")),
            },
            None => Err(invalid_value_message(s, "ImpactArea")),
        };
        proof {
            reveal_strlit("api");
            reveal_strlit("backend");
            reveal_strlit("ci_cd");
            reveal_strlit("database");
            reveal_strlit("docs");
            reveal_strlit("frontend");
            reveal_strlit("infrastructure");
            reveal_strlit("tests");
            assert("backend"@.len() != "frontend"@.len());
            assert("database"@[0] != "frontend"@[0]);
            assert("database"@.len() != "backend"@.len());
            assert("api"@.len() != "frontend"@.len());
            assert("api"@.len() != "backend"@.len());
            assert("api"@.len() != "database"@.len());
            assert("infrastructure"@.len() != "frontend"@.len());
            assert("infrastructure"@.len() != "backend"@.len());
            assert("infrastructure"@.len() != "database"@.len());
            assert("infrastructure"@.len() != "api"@.len());
            assert("docs"@.len() != "frontend"@.len());
            assert("docs"@.len() != "backend"@.len());
            assert("docs"@.len() != "database"@.len());
            assert("docs"@.len() != "api"@.len());
            assert("docs"@.len() != "infrastructure"@.len());
            assert("tests"@.len() != "frontend"@.len());
            assert("tests"@.len() != "backend"@.len());
            assert("tests"@.len() != "database"@.len());
            assert("tests"@.len() != "api"@.len());
            assert("tests"@.len() != "infrastructure"@.len());
            assert("tests"@.len() != "docs"@.len());
            assert("ci_cd"@.len() != "frontend"@.len());
            assert("ci_cd"@.len() != "backend"@.len());
            assert("ci_cd"@.len() != "database"@.len());
            assert("ci_cd"@.len() != "api"@.len());
            assert("ci_cd"@.len() != "infrastructure"@.len());
            assert("ci_cd"@.len() != "docs"@.len());
            assert("ci_cd"@[0] != "tests"@[0]);
            assert forall|v: ImpactArea| s@ == v.display_name() implies r == Ok::<ImpactArea, String>(v) by {
                lemma_tame_name(s@);
                assert(replace_char(s@, '-', '_') =~= v.serde_name());
            }
        }
        r
    }
}

impl std::str::FromStr for ImpactArea {
    type Err = String;

    fn from_str(s: &str) -> (r: Result<ImpactArea, String>)
        ensures
            r matches Ok(v) ==> ImpactArea::parse_spec(s@) == Ok::<ImpactArea, Seq<char>>(v),
            r matches Err(e) ==> ImpactArea::parse_spec(s@) == Err::<ImpactArea, Seq<char>>(e@),
            forall|v: ImpactArea| s@ == v.display_name() ==> r == Ok::<ImpactArea, String>(v),
    {
        ImpactArea::parse_name(s)
    }
}
/// MoSCoW priority of a requirement.
#[derive(Clone, Copy, Debug, PartialEq, Eq, Structural)]
pub enum RequirementPriority {
    Must,
    Should,
    Could,
    Wont,
}

impl Default for RequirementPriority {
    fn default() -> (r: Self)
        ensures
            r == RequirementPriority::Should,
    {
        RequirementPriority::Should
    }
}

impl RequirementPriority {
    /// The name that serde gives the variant.
    pub open spec fn serde_name(self) -> Seq<char> {
        match self {
            RequirementPriority::Must => "must"@,
            RequirementPriority::Should => "should"@,
            RequirementPriority::Could => "could"@,
            RequirementPriority::Wont => "wont"@,
        }
    }

    /// The name that `to_string` writes.
    pub open spec fn display_name(self) -> Seq<char> {
        match self {
            RequirementPriority::Must => "must"@,
            RequirementPriority::Should => "should"@,
            RequirementPriority::Could => "could"@,
            RequirementPriority::Wont => "wont"@,
        }
    }

    /// The variant whose serde name is `k`.
    pub open spec fn from_serde_name(k: Seq<char>) -> Option<RequirementPriority> {
        if k == "must"@ {
            Some(RequirementPriority::Must)
        } else if k == "should"@ {
            Some(RequirementPriority::Should)
        } else if k == "could"@ {
            Some(RequirementPriority::Could)
        } else if k == "wont"@ {
            Some(RequirementPriority::Wont)
        } else {
            None
        }
    }

    /// What `FromStr` gives for the text `s`: the variant named by the
    /// normalised text, or the message `invalid value: '<s>' for RequirementPriority`.
    pub open spec fn parse_spec(s: Seq<char>) -> Result<RequirementPriority, Seq<char>> {
        let msg = "invalid value: '"@ + s + "' for "@ + "RequirementPriority"@;
        match serde_key(s) {
            Some(k) => match RequirementPriority::from_serde_name(k) {
                Some(v) => Ok(v),
                None => Err(msg),
            },
            None => Err(msg),
        }
    }

    /// Position of the variant in declaration order.
    pub open spec fn spec_ordinal(self) -> int {
        match self {
            RequirementPriority::Must => 0,
            RequirementPriority::Should => 1,
            RequirementPriority::Could => 2,
            RequirementPriority::Wont => 3,
        }
    }

    /// Position of the variant in declaration order.
    pub fn ordinal(&self) -> (r: usize)
        ensures
            r == self.spec_ordinal(),
    {
        match self {
            RequirementPriority::Must => 0,
            RequirementPriority::Should => 1,
            RequirementPriority::Could => 2,
            RequirementPriority::Wont => 3,
        }
    }

    /// The display name.
    pub fn to_string(&self) -> (r: String)
        ensures
            r@ == self.display_name(),
    {
        match self {
            RequirementPriority::Must => owned("must"),
            RequirementPriority::Should => owned("should"),
            RequirementPriority::Could => owned("could"),
            RequirementPriority::Wont => owned("wont"),
        }
    }

    /// The variant whose serde name is exactly `k`.
    pub fn from_serde_str(k: &str) -> (r: Option<RequirementPriority>)
        ensures
            r == RequirementPriority::from_serde_name(k@),
    {
        if str_eq(k, "must") {
            Some(RequirementPriority::Must)
        } else if str_eq(k, "should") {
            Some(RequirementPriority::Should)
        } else if str_eq(k, "could") {
            Some(RequirementPriority::Could)
        } else if str_eq(k, "wont") {
            Some(RequirementPriority::Wont)
        } else {
            None
        }
    }

    /// Reads a variant from text in the manner of the protocol's `FromStr`;
    /// every display name reads back as its own variant.
    #[verifier::rlimit(50)]
    pub fn parse_name(s: &str) -> (r: Result<RequirementPriority, String>)
        ensures
            r matches Ok(v) ==> RequirementPriority::parse_spec(s@) == Ok::<RequirementPriority, Seq<char>>(v),
            r matches Err(e) ==> RequirementPriority::parse_spec(s@) == Err::<RequirementPriority, Seq<char>>(e@),
            forall|v: RequirementPriority| s@ == v.display_name() ==> r == Ok::<RequirementPriority, String>(v),
    {
        let key = serde_key_of(s);
        let r = match key {
            Some(k) => match RequirementPriority::from_serde_str(k.as_str()) {
                Some(v) => Ok(v),
                None => Err(invalid_value_message(s, "RequirementPriority")),
            },
            None => Err(invalid_value_message(s, "RequirementPriority")),
        };
        proof {
            reveal_strlit("could");
            reveal_strlit("must");
            reveal_strlit("should");
            reveal_strlit("wont");
            assert("should"@.len() != "must"@.len());
            assert("could"@.len() != "must"@.len());
            assert("could"@.len() != "should"@.len());
            assert("wont"@[0] != "must"@[0]);
            assert("wont"@.len() != "should"@.len());
            assert("wont"@.len() != "could"@.len());
            assert forall|v: RequirementPriority| s@ == v.display_name() implies r == Ok::<RequirementPriority, String>(v) by {
                lemma_tame_name(s@);
                assert(replace_char(s@, '-', '_') =~= v.serde_name());
            }
        }
        r
    }
}

impl std::str::FromStr for RequirementPriority {
    type Err = String;

    fn from_str(s: &str) -> (r: Result<RequirementPriority, String>)
        ensures
            r matches Ok(v) ==> RequirementPriority::parse_spec(s@) == Ok::<RequirementPriority, Seq<char>>(v),
            r matches Err(e) ==> RequirementPriority::parse_spec(s@) == Err::<RequirementPriority, Seq<char>>(e@),
            forall|v: RequirementPriority| s@ == v.display_name() ==> r == Ok::<RequirementPriority, String>(v),
    {
        RequirementPriority::parse_name(s)
    }
}
impl RequirementPriority {
    /// The task priority that a requirement's priority maps to.
    pub open spec fn spec_task_priority(self) -> Priority {
        match self {
            RequirementPriority::Must => Priority::High,
            RequirementPriority::Should => Priority::Medium,
            RequirementPriority::Could => Priority::Low,
            RequirementPriority::Wont => Priority::Low,
        }
    }

    /// `Must` is `High`, `Should` is `Medium`, `Could` and `Wont` are `Low`.
    pub fn to_task_priority(&self) -> (r: Priority)
        ensures
            r == self.spec_task_priority(),
    {
        match self {
            RequirementPriority::Must => Priority::High,
            RequirementPriority::Should => Priority::Medium,
            RequirementPriority::Could => Priority::Low,
            RequirementPriority::Wont => Priority::Low,
        }
    }
}

/// Who works on a task.
#[derive(Debug)]
pub enum Assignee {
    Agent { role: String, model: Option<String> },
    Human { user_id: String },
    Unassigned,
}

impl Default for Assignee {
    fn default() -> (r: Self)
        ensures
            r == Assignee::Unassigned,
    {
        Assignee::Unassigned
    }
}

impl Clone for Assignee {
    fn clone(&self) -> (r: Self)
        ensures
            r == *self,
    {
        match self {
            Assignee::Agent { role, model } => Assignee::Agent {
                role: role.clone(),
                model: clone_opt_string(model),
            },
            Assignee::Human { user_id } => Assignee::Human { user_id: user_id.clone() },
            Assignee::Unassigned => Assignee::Unassigned,
        }
    }
}

/// A copy of an optional string.
pub fn clone_opt_string(o: &Option<String>) -> (r: Option<String>)
    ensures
        r == *o,
{
    match o {
        Some(s) => Some(s.clone()),
        None => None,
    }
}

/// A copy of a list of strings.
pub fn clone_strings(v: &Vec<String>) -> (r: Vec<String>)
    ensures
        r@ == v@,
{
    let mut r: Vec<String> = Vec::new();
    let mut i: usize = 0;
    while i < v.len()
        invariant
            i <= v.len(),
            r@ == v@.take(i as int),
        decreases v.len() - i,
    {
        r.push(v[i].clone());
        assert(r@ =~= v@.take(i + 1));
        i = i + 1;
    }
    assert(v@.take(v.len() as int) =~= v@);
    r
}

/// One step of a task's checklist.
#[derive(Debug)]
pub struct ChecklistItem {
    pub id: String,
    pub description: String,
    pub completed: bool,
    pub created_at: Option<Timestamp>,
    pub completed_at: Option<Timestamp>,
}

impl Clone for ChecklistItem {
    fn clone(&self) -> (r: Self)
        ensures
            r == *self,
    {
        ChecklistItem {
            id: self.id.clone(),
            description: self.description.clone(),
            completed: self.completed,
            created_at: self.created_at,
            completed_at: self.completed_at,
        }
    }
}

} // verus!
