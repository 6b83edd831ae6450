//! Enumerated column values and the text each is stored as.

use vstd::prelude::*;

verus! {

/// The role of an account.
#[derive(Clone, Copy, Debug, PartialEq, Eq, Structural)]
pub enum UserRole {
    Admin,
    Normal,
    Subadmin,
}

/// The standing of a record under moderation.
#[derive(Clone, Copy, Debug, PartialEq, Eq, Structural)]
pub enum Validated {
    Blocked,
    Pass,
    Pending,
}

impl UserRole {
    /// The text a role is stored as.
    pub open spec fn spec_string_value(self) -> Seq<char> {
        match self {
            UserRole::Admin => "admin"@,
            UserRole::Normal => "normal"@,
            UserRole::Subadmin => "subadmin"@,
        }
    }

    /// The role a stored text stands for, if any.
    pub open spec fn spec_from_string_value(text: Seq<char>) -> Option<UserRole> {
        if text == "admin"@ {
            Some(UserRole::Admin)
        } else if text == "normal"@ {
            Some(UserRole::Normal)
        } else if text == "subadmin"@ {
            Some(UserRole::Subadmin)
        } else {
            None
        }
    }

    pub fn string_value(self) -> (text: &'static str)
        ensures
            text@ == self.spec_string_value(),
    {
        match self {
            UserRole::Admin => "admin",
            UserRole::Normal => "normal",
            UserRole::Subadmin => "subadmin",
        }
    }

    pub fn from_string_value(text: &String) -> (role: Option<UserRole>)
        ensures
            role == Self::spec_from_string_value(text@),
    {
        if same_text(text, "admin") {
            Some(UserRole::Admin)
        } else if same_text(text, "normal") {
            Some(UserRole::Normal)
        } else if same_text(text, "subadmin") {
            Some(UserRole::Subadmin)
        } else {
            None
        }
    }

    /// Reading back the text of a role gives the role.
    pub proof fn string_value_round_trip(self)
        ensures
            Self::spec_from_string_value(self.spec_string_value()) == Some(self),
    {
        reveal_strlit("admin");
        reveal_strlit("normal");
        reveal_strlit("subadmin");
        assert("admin"@.len() == 5);
        assert("normal"@.len() == 6);
        assert("subadmin"@.len() == 8);
    }
}

impl Validated {
    /// The text a standing is stored as.
    pub open spec fn spec_string_value(self) -> Seq<char> {
        match self {
            Validated::Blocked => "blocked"@,
            Validated::Pass => "pass"@,
            Validated::Pending => "pending"@,
        }
    }

    /// The standing a stored text stands for, if any.
    pub open spec fn spec_from_string_value(text: Seq<char>) -> Option<Validated> {
        if text == "blocked"@ {
            Some(Validated::Blocked)
        } else if text == "pass"@ {
            Some(Validated::Pass)
        } else if text == "pending"@ {
            Some(Validated::Pending)
        } else {
            None
        }
    }

    pub fn string_value(self) -> (text: &'static str)
        ensures
            text@ == self.spec_string_value(),
    {
        match self {
            Validated::Blocked => "blocked",
            Validated::Pass => "pass",
            Validated::Pending => "pending",
        }
    }

    pub fn from_string_value(text: &String) -> (standing: Option<Validated>)
        ensures
            standing == Self::spec_from_string_value(text@),
    {
        if same_text(text, "blocked") {
            Some(Validated::Blocked)
        } else if same_text(text, "pass") {
            Some(Validated::Pass)
        } else if same_text(text, "pending") {
            Some(Validated::Pending)
        } else {
            None
        }
    }

    /// Reading back the text of a standing gives the standing.
    pub proof fn string_value_round_trip(self)
        ensures
            Self::spec_from_string_value(self.spec_string_value()) == Some(self),
    {
        reveal_strlit("blocked");
        reveal_strlit("pass");
        reveal_strlit("pending");
        assert("blocked"@.len() == 7);
        assert("pass"@.len() == 4);
        assert("pending"@.len() == 7);
        assert("blocked"@[0] == 'b');
        assert("pending"@[0] == 'p');
    }
}

/// Whether `text` reads exactly as `word`.
fn same_text(text: &String, word: &str) -> (same: bool)
    ensures
        same == (text@ == word@),
{
    let other: String = word.to_owned();
    *text == other
}

} // verus!
