//! Domain enumerations shared by the whole library, with the lower-case
//! names under which the attendance store keeps them.

use vstd::prelude::*;
use crate::text::same_text;

verus! {

/// Lifecycle flag of a principal. Only an active principal may log in.
#[derive(Debug, Clone, Copy, PartialEq, Eq, Structural)]
pub enum UserStatus {
    Active,
    Inactive,
    Suspended,
}

impl UserStatus {
    /// The name under which the store keeps the value.
    pub open spec fn name(self) -> Seq<char> {
        match self {
            UserStatus::Active => "active"@,
            UserStatus::Inactive => "inactive"@,
            UserStatus::Suspended => "suspended"@,
        }
    }

    /// The value that a stored name stands for, if any.
    pub open spec fn named(text: Seq<char>) -> Option<Self> {
        if text == "active"@ {
            Some(UserStatus::Active)
        } else if text == "inactive"@ {
            Some(UserStatus::Inactive)
        } else if text == "suspended"@ {
            Some(UserStatus::Suspended)
        } else {
            None
        }
    }

    /// The stored name of the value.
    pub fn as_str(&self) -> (r: &'static str)
        ensures
            r@ == self.name(),
    {
        match self {
            UserStatus::Active => "active",
            UserStatus::Inactive => "inactive",
            UserStatus::Suspended => "suspended",
        }
    }

    /// Reads a stored name.
    pub fn from_text(text: &str) -> (r: Option<Self>)
        ensures
            r == Self::named(text@),
    {
        if same_text(text, "active") {
            Some(UserStatus::Active)
        } else if same_text(text, "inactive") {
            Some(UserStatus::Inactive)
        } else if same_text(text, "suspended") {
            Some(UserStatus::Suspended)
        } else {
            None
        }
    }

    /// Reading the stored name of a value gives the value back.
    pub proof fn lemma_name_reads_back(self)
        ensures
            Self::named(self.name()) == Some(self),
    {
        reveal_strlit("active");
        reveal_strlit("inactive");
        reveal_strlit("suspended");
        assert("active"@.len() == 6);
        assert("inactive"@.len() == 8);
        assert("suspended"@.len() == 9);
    }
}

/// Capability level that an admin role grants.
#[derive(Debug, Clone, Copy, PartialEq, Eq, Structural)]
pub enum AdminLevel {
    SuperAdmin,
    OrganizationAdmin,
    RegularAdmin,
}

impl AdminLevel {
    /// The name under which the store keeps the value.
    pub open spec fn name(self) -> Seq<char> {
        match self {
            AdminLevel::SuperAdmin => "super_admin"@,
            AdminLevel::OrganizationAdmin => "organization_admin"@,
            AdminLevel::RegularAdmin => "regular_admin"@,
        }
    }

    /// The value that a stored name stands for, if any.
    pub open spec fn named(text: Seq<char>) -> Option<Self> {
        if text == "super_admin"@ {
            Some(AdminLevel::SuperAdmin)
        } else if text == "organization_admin"@ {
            Some(AdminLevel::OrganizationAdmin)
        } else if text == "regular_admin"@ {
            Some(AdminLevel::RegularAdmin)
        } else {
            None
        }
    }

    /// The stored name of the value.
    pub fn as_str(&self) -> (r: &'static str)
        ensures
            r@ == self.name(),
    {
        match self {
            AdminLevel::SuperAdmin => "super_admin",
            AdminLevel::OrganizationAdmin => "organization_admin",
            AdminLevel::RegularAdmin => "regular_admin",
        }
    }

    /// Reads a stored name.
    pub fn from_text(text: &str) -> (r: Option<Self>)
        ensures
            r == Self::named(text@),
    {
        if same_text(text, "super_admin") {
            Some(AdminLevel::SuperAdmin)
        } else if same_text(text, "organization_admin") {
            Some(AdminLevel::OrganizationAdmin)
        } else if same_text(text, "regular_admin") {
            Some(AdminLevel::RegularAdmin)
        } else {
            None
        }
    }

    /// Reading the stored name of a value gives the value back.
    pub proof fn lemma_name_reads_back(self)
        ensures
            Self::named(self.name()) == Some(self),
    {
        reveal_strlit("super_admin");
        reveal_strlit("organization_admin");
        reveal_strlit("regular_admin");
        assert("super_admin"@.len() == 11);
        assert("organization_admin"@.len() == 18);
        assert("regular_admin"@.len() == 13);
    }
}

/// Kind of an activity.
#[derive(Debug, Clone, Copy, PartialEq, Eq, Structural)]
pub enum ActivityType {
    Academic,
    Sports,
    Cultural,
    Social,
    Other,
}

impl ActivityType {
    /// The name under which the store keeps the value.
    pub open spec fn name(self) -> Seq<char> {
        match self {
            ActivityType::Academic => "academic"@,
            ActivityType::Sports => "sports"@,
            ActivityType::Cultural => "cultural"@,
            ActivityType::Social => "social"@,
            ActivityType::Other => "other"@,
        }
    }

    /// The value that a stored name stands for, if any.
    pub open spec fn named(text: Seq<char>) -> Option<Self> {
        if text == "academic"@ {
            Some(ActivityType::Academic)
        } else if text == "sports"@ {
            Some(ActivityType::Sports)
        } else if text == "cultural"@ {
            Some(ActivityType::Cultural)
        } else if text == "social"@ {
            Some(ActivityType::Social)
        } else if text == "other"@ {
            Some(ActivityType::Other)
        } else {
            None
        }
    }

    /// The stored name of the value.
    pub fn as_str(&self) -> (r: &'static str)
        ensures
            r@ == self.name(),
    {
        match self {
            ActivityType::Academic => "academic",
            ActivityType::Sports => "sports",
            ActivityType::Cultural => "cultural",
            ActivityType::Social => "social",
            ActivityType::Other => "other",
        }
    }

    /// Reads a stored name.
    pub fn from_text(text: &str) -> (r: Option<Self>)
        ensures
            r == Self::named(text@),
    {
        if same_text(text, "academic") {
            Some(ActivityType::Academic)
        } else if same_text(text, "sports") {
            Some(ActivityType::Sports)
        } else if same_text(text, "cultural") {
            Some(ActivityType::Cultural)
        } else if same_text(text, "social") {
            Some(ActivityType::Social)
        } else if same_text(text, "other") {
            Some(ActivityType::Other)
        } else {
            None
        }
    }

    /// Reading the stored name of a value gives the value back.
    pub proof fn lemma_name_reads_back(self)
        ensures
            Self::named(self.name()) == Some(self),
    {
        reveal_strlit("academic");
        reveal_strlit("sports");
        reveal_strlit("cultural");
        reveal_strlit("social");
        reveal_strlit("other");
        assert("academic"@.len() == 8);
        assert("sports"@.len() == 6);
        assert("cultural"@.len() == 8);
        assert("social"@.len() == 6);
        assert("other"@.len() == 5);
        assert("academic"@[0] != "cultural"@[0]);
        assert("sports"@[1] != "social"@[1]);
    }
}

/// Lifecycle status of an activity. Only an ongoing activity permits check-in and check-out.
#[derive(Debug, Clone, Copy, PartialEq, Eq, Structural)]
pub enum ActivityStatus {
    Draft,
    Published,
    Ongoing,
    Completed,
    Cancelled,
}

impl ActivityStatus {
    /// The name under which the store keeps the value.
    pub open spec fn name(self) -> Seq<char> {
        match self {
            ActivityStatus::Draft => "draft"@,
            ActivityStatus::Published => "published"@,
            ActivityStatus::Ongoing => "ongoing"@,
            ActivityStatus::Completed => "completed"@,
            ActivityStatus::Cancelled => "cancelled"@,
        }
    }

    /// The value that a stored name stands for, if any.
    pub open spec fn named(text: Seq<char>) -> Option<Self> {
        if text == "draft"@ {
            Some(ActivityStatus::Draft)
        } else if text == "published"@ {
            Some(ActivityStatus::Published)
        } else if text == "ongoing"@ {
            Some(ActivityStatus::Ongoing)
        } else if text == "completed"@ {
            Some(ActivityStatus::Completed)
        } else if text == "cancelled"@ {
            Some(ActivityStatus::Cancelled)
        } else {
            None
        }
    }

    /// The stored name of the value.
    pub fn as_str(&self) -> (r: &'static str)
        ensures
            r@ == self.name(),
    {
        match self {
            ActivityStatus::Draft => "draft",
            ActivityStatus::Published => "published",
            ActivityStatus::Ongoing => "ongoing",
            ActivityStatus::Completed => "completed",
            ActivityStatus::Cancelled => "cancelled",
        }
    }

    /// Reads a stored name.
    pub fn from_text(text: &str) -> (r: Option<Self>)
        ensures
            r == Self::named(text@),
    {
        if same_text(text, "draft") {
            Some(ActivityStatus::Draft)
        } else if same_text(text, "published") {
            Some(ActivityStatus::Published)
        } else if same_text(text, "ongoing") {
            Some(ActivityStatus::Ongoing)
        } else if same_text(text, "completed") {
            Some(ActivityStatus::Completed)
        } else if same_text(text, "cancelled") {
            Some(ActivityStatus::Cancelled)
        } else {
            None
        }
    }

    /// Reading the stored name of a value gives the value back.
    pub proof fn lemma_name_reads_back(self)
        ensures
            Self::named(self.name()) == Some(self),
    {
        reveal_strlit("draft");
        reveal_strlit("published");
        reveal_strlit("ongoing");
        reveal_strlit("completed");
        reveal_strlit("cancelled");
        assert("draft"@.len() == 5);
        assert("published"@.len() == 9);
        assert("ongoing"@.len() == 7);
        assert("completed"@.len() == 9);
        assert("cancelled"@.len() == 9);
        assert("published"@[0] != "completed"@[0]);
        assert("published"@[0] != "cancelled"@[0]);
        assert("completed"@[1] != "cancelled"@[1]);
    }
}

/// Kind of an organization.
#[derive(Debug, Clone, Copy, PartialEq, Eq, Structural)]
pub enum OrganizationType {
    Faculty,
    Office,
}

impl OrganizationType {
    /// The name under which the store keeps the value.
    pub open spec fn name(self) -> Seq<char> {
        match self {
            OrganizationType::Faculty => "faculty"@,
            OrganizationType::Office => "office"@,
        }
    }

    /// The value that a stored name stands for, if any.
    pub open spec fn named(text: Seq<char>) -> Option<Self> {
        if text == "faculty"@ {
            Some(OrganizationType::Faculty)
        } else if text == "office"@ {
            Some(OrganizationType::Office)
        } else {
            None
        }
    }

    /// The stored name of the value.
    pub fn as_str(&self) -> (r: &'static str)
        ensures
            r@ == self.name(),
    {
        match self {
            OrganizationType::Faculty => "faculty",
            OrganizationType::Office => "office",
        }
    }

    /// Reads a stored name.
    pub fn from_text(text: &str) -> (r: Option<Self>)
        ensures
            r == Self::named(text@),
    {
        if same_text(text, "faculty") {
            Some(OrganizationType::Faculty)
        } else if same_text(text, "office") {
            Some(OrganizationType::Office)
        } else {
            None
        }
    }

    /// Reading the stored name of a value gives the value back.
    pub proof fn lemma_name_reads_back(self)
        ensures
            Self::named(self.name()) == Some(self),
    {
        reveal_strlit("faculty");
        reveal_strlit("office");
        assert("faculty"@.len() == 7);
        assert("office"@.len() == 6);
    }
}

impl UserStatus {
    /// An account can open a session exactly when it is active.
    pub open spec fn may_log_in(self) -> bool {
        self is Active
    }
}

impl ActivityStatus {
    /// Attendance is taken only while the activity is ongoing.
    pub open spec fn permits_scan(self) -> bool {
        self is Ongoing
    }
}

impl AdminLevel {
    /// The name under which a session credential carries the level.
    pub open spec fn claim_name(self) -> Seq<char> {
        match self {
            AdminLevel::SuperAdmin => "SuperAdmin"@,
            AdminLevel::OrganizationAdmin => "OrganizationAdmin"@,
            AdminLevel::RegularAdmin => "RegularAdmin"@,
        }
    }

    /// The level that a name in a session credential stands for, if any.
    pub open spec fn claim_named(text: Seq<char>) -> Option<Self> {
        if text == "SuperAdmin"@ {
            Some(AdminLevel::SuperAdmin)
        } else if text == "OrganizationAdmin"@ {
            Some(AdminLevel::OrganizationAdmin)
        } else if text == "RegularAdmin"@ {
            Some(AdminLevel::RegularAdmin)
        } else {
            None
        }
    }

    /// The name of the level in a session credential.
    pub fn claim_text(&self) -> (r: &'static str)
        ensures
            r@ == self.claim_name(),
    {
        match self {
            AdminLevel::SuperAdmin => "SuperAdmin",
            AdminLevel::OrganizationAdmin => "OrganizationAdmin",
            AdminLevel::RegularAdmin => "RegularAdmin",
        }
    }

    /// Reads the name of a level from a session credential.
    pub fn from_claim_text(text: &str) -> (r: Option<Self>)
        ensures
            r == Self::claim_named(text@),
    {
        if same_text(text, "SuperAdmin") {
            Some(AdminLevel::SuperAdmin)
        } else if same_text(text, "OrganizationAdmin") {
            Some(AdminLevel::OrganizationAdmin)
        } else if same_text(text, "RegularAdmin") {
            Some(AdminLevel::RegularAdmin)
        } else {
            None
        }
    }

    /// Reading the credential name of a level gives the level back.
    pub proof fn lemma_claim_name_reads_back(self)
        ensures
            Self::claim_named(self.claim_name()) == Some(self),
    {
        reveal_strlit("SuperAdmin");
        reveal_strlit("OrganizationAdmin");
        reveal_strlit("RegularAdmin");
        assert("SuperAdmin"@.len() == 10);
        assert("OrganizationAdmin"@.len() == 17);
        assert("RegularAdmin"@.len() == 12);
    }
}

} // verus!
